//! Bookkeeping core of a token presale: a time-gated round state machine, the
//! payment quote for a requested token amount, and the settlement of a purchase
//! against the global and the per-participant ledger records.

pub mod admin;
pub mod book;
pub mod error;
pub mod ledger;
pub mod rate;
pub mod round;
pub mod settlement;
pub mod status;

pub use admin::{change_round_status, create_user_info, initialize};
pub use error::ErrorCode;
pub use ledger::{AirDropInfos, UserInfo};
pub use round::AirDropRound;
pub use settlement::buy_token;
