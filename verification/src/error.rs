use vstd::prelude::*;

verus! {

/// Why an operation on the sale was refused.
#[derive(Clone, Copy, Debug, PartialEq, Eq, Structural)]
pub enum ErrorCode {
    /// A purchase was attempted outside any active sale window.
    RoundNotActive,
    /// A pre-sale purchase was attempted by a participant who is not whitelisted.
    NotWhitelisted,
    /// One of the two asset movements of a purchase was rejected.
    TransferFailed,
    /// A rate is zero, or the discount is 100 percent or more.
    InvalidConfiguration,
    /// The round selector maps to no round phase.
    UnknownRoundCode,
}

impl ErrorCode {
    /// The text of each error's message.
    pub open spec fn message_text(self) -> Seq<char> {
        match self {
            ErrorCode::RoundNotActive => "Not Active Round"@,
            ErrorCode::NotWhitelisted => "Not WhiteListed"@,
            ErrorCode::TransferFailed => "Transfer Failed"@,
            ErrorCode::InvalidConfiguration => "Invalid Configuration"@,
            ErrorCode::UnknownRoundCode => "UnKnown Command"@,
        }
    }

    /// The human-readable message of this error.
    pub fn message(&self) -> (text: &'static str)
        ensures
            text@ == self.message_text(),
    {
        match self {
            ErrorCode::RoundNotActive => "Not Active Round",
            ErrorCode::NotWhitelisted => "Not WhiteListed",
            ErrorCode::TransferFailed => "Transfer Failed",
            ErrorCode::InvalidConfiguration => "Invalid Configuration",
            ErrorCode::UnknownRoundCode => "UnKnown Command",
        }
    }
}

} // verus!
