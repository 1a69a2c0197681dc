use vstd::prelude::*;
use crate::error::ErrorCode;

verus! {

/// Which of the two sales a round belongs to.
#[derive(Clone, Copy, Debug, PartialEq, Eq, Structural)]
pub enum SaleKind {
    PreSale,
    PublicSale,
}

/// What the round state machine says of one moment in time.
#[derive(Clone, Copy, Debug, PartialEq, Eq, Structural)]
pub enum RoundValidity {
    /// No sale is open at that moment.
    Inactive,
    /// The sale of the given kind is open at that moment.
    Active(SaleKind),
}

/// The phase of the sale. A sale phase carries its validity window, so an
/// inactive round has no timestamps at all. The phase changes only when the
/// admin sets it: a window that has run out leaves the phase as it is.
#[derive(Clone, Copy, Debug, PartialEq, Eq, Structural)]
pub enum AirDropRound {
    Inactive,
    PreSale { start_time: u64, end_time: u64 },
    PublicSale { start_time: u64, end_time: u64 },
}

/// Whether `now` lies strictly inside the window from `start_time` to `end_time`.
pub open spec fn within_window(start_time: u64, end_time: u64, now: u64) -> bool {
    start_time < now && now < end_time
}

impl AirDropRound {
    /// The phase that a selector and a window stand for, if the selector is known.
    pub open spec fn from_code_spec(code: u8, start_time: u64, end_time: u64) -> Option<
        AirDropRound,
    > {
        if code == 0 {
            Some(AirDropRound::Inactive)
        } else if code == 1 {
            Some(AirDropRound::PreSale { start_time, end_time })
        } else if code == 2 {
            Some(AirDropRound::PublicSale { start_time, end_time })
        } else {
            None
        }
    }

    /// The verdict of the round state machine at time `now`.
    pub open spec fn validity_spec(self, now: u64) -> RoundValidity {
        match self {
            AirDropRound::Inactive => RoundValidity::Inactive,
            AirDropRound::PreSale { start_time, end_time } => if within_window(
                start_time,
                end_time,
                now,
            ) {
                RoundValidity::Active(SaleKind::PreSale)
            } else {
                RoundValidity::Inactive
            },
            AirDropRound::PublicSale { start_time, end_time } => if within_window(
                start_time,
                end_time,
                now,
            ) {
                RoundValidity::Active(SaleKind::PublicSale)
            } else {
                RoundValidity::Inactive
            },
        }
    }

    /// Maps a selector to a phase: 0 is the inactive round, 1 the pre-sale and
    /// 2 the public sale, each sale with the given window. Any other selector
    /// is refused with `UnknownRoundCode`.
    pub fn from_code(code: u8, start_time: u64, end_time: u64) -> (phase: Result<
        AirDropRound,
        ErrorCode,
    >)
        ensures
            phase == match Self::from_code_spec(code, start_time, end_time) {
                Some(round) => Ok::<AirDropRound, ErrorCode>(round),
                None => Err::<AirDropRound, ErrorCode>(ErrorCode::UnknownRoundCode),
            },
    {
        if code == 0 {
            Ok(AirDropRound::Inactive)
        } else if code == 1 {
            Ok(AirDropRound::PreSale { start_time, end_time })
        } else if code == 2 {
            Ok(AirDropRound::PublicSale { start_time, end_time })
        } else {
            Err(ErrorCode::UnknownRoundCode)
        }
    }

    /// Whether a purchase is admissible at time `now`: the round is a sale and
    /// `now` lies strictly between its start and its end. A purchase exactly at
    /// either end of the window is not admissible.
    pub fn validity(&self, now: u64) -> (verdict: RoundValidity)
        ensures
            verdict == self.validity_spec(now),
    {
        match self {
            AirDropRound::Inactive => RoundValidity::Inactive,
            AirDropRound::PreSale { start_time, end_time } => {
                if *start_time < now && now < *end_time {
                    RoundValidity::Active(SaleKind::PreSale)
                } else {
                    RoundValidity::Inactive
                }
            },
            AirDropRound::PublicSale { start_time, end_time } => {
                if *start_time < now && now < *end_time {
                    RoundValidity::Active(SaleKind::PublicSale)
                } else {
                    RoundValidity::Inactive
                }
            },
        }
    }
}

} // verus!
