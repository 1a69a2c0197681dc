use vstd::prelude::*;

verus! {

/// How an operation that was not refused ended.
#[derive(Clone, Copy, Debug, PartialEq, Eq, Structural)]
pub enum Status {
    /// `initialize` returned; the global record is initialized.
    Initialized,
    /// `create_user_info` returned; the participant's record is provisioned.
    UserInfoCreated,
    /// `change_round_status` set the round.
    RoundStatusChanged,
    /// `change_round_status` did not know the selector and changed nothing.
    UnknownCommand,
    /// A purchase was settled and written to both records.
    TokenBought,
}

impl Status {
    /// The text of each status message.
    pub open spec fn message_text(self) -> Seq<char> {
        match self {
            Status::Initialized => "Initialize Success"@,
            Status::UserInfoCreated => "Create Whitelist UserInfo"@,
            Status::RoundStatusChanged => "Successfully Changed RoundStatus"@,
            Status::UnknownCommand => "UnKnown Command"@,
            Status::TokenBought => "Buy Token"@,
        }
    }

    /// The human-readable message of this status.
    pub fn message(&self) -> (text: &'static str)
        ensures
            text@ == self.message_text(),
    {
        match self {
            Status::Initialized => "Initialize Success",
            Status::UserInfoCreated => "Create Whitelist UserInfo",
            Status::RoundStatusChanged => "Successfully Changed RoundStatus",
            Status::UnknownCommand => "UnKnown Command",
            Status::TokenBought => "Buy Token",
        }
    }
}

} // verus!
