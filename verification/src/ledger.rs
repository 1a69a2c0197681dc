use vstd::prelude::*;
use crate::round::AirDropRound;

verus! {

/// The pre-sale rate of the default configuration.
pub const DEFAULT_PRE_SALE_RATE: u64 = 50;

/// The public-sale rate of the default configuration.
pub const DEFAULT_PUBLIC_SALE_RATE: u64 = 25;

/// The discount, in percent, of the default configuration.
pub const DEFAULT_DISCOUNT_RATE: u64 = 25;

/// The global record of the sale: its configuration, its round and the running
/// totals over all participants.
#[derive(Clone, Copy, Debug, PartialEq, Eq, Structural)]
pub struct AirDropInfos {
    pub is_initialized: bool,
    pub is_completed: bool,
    /// The divisor of the pre-sale quote; positive in a valid configuration.
    pub pre_sale_rate: u64,
    /// The divisor of the public-sale quote; positive in a valid configuration.
    pub public_sale_rate: u64,
    /// Percentage, 0 to 99, for public-sale buyers who are not whitelisted.
    pub discount_rate: u64,
    pub round_status: AirDropRound,
    /// Payment collected from all participants.
    pub sol_amount: u64,
    /// Tokens distributed to all participants.
    pub token_amount: u64,
}

/// The record of one participant.
#[derive(Clone, Copy, Debug, PartialEq, Eq, Structural)]
pub struct UserInfo {
    pub is_whitelisted: bool,
    pub is_initialized: bool,
    /// Tokens this participant received.
    pub token_amount: u64,
    /// Payment this participant contributed.
    pub sol_amount: u64,
}

/// Whether a configuration can price a purchase: both rates are positive and
/// the discount is below 100.
pub open spec fn valid_configuration(pre_rate: u64, public_rate: u64, discount_rate: u64) -> bool {
    pre_rate > 0 && public_rate > 0 && discount_rate < 100
}

impl AirDropInfos {
    /// The record as storage creates it, before `initialize` ran.
    pub open spec fn blank() -> AirDropInfos {
        AirDropInfos {
            is_initialized: false,
            is_completed: false,
            pre_sale_rate: 0,
            public_sale_rate: 0,
            discount_rate: 0,
            round_status: AirDropRound::Inactive,
            sol_amount: 0,
            token_amount: 0,
        }
    }

    /// The default configuration: rates 50 and 25, discount 25, no round open,
    /// nothing collected and nothing distributed.
    pub open spec fn default_configuration() -> AirDropInfos {
        AirDropInfos {
            is_initialized: true,
            is_completed: false,
            pre_sale_rate: 50,
            public_sale_rate: 25,
            discount_rate: 25,
            round_status: AirDropRound::Inactive,
            sol_amount: 0,
            token_amount: 0,
        }
    }

    /// Whether this record's rates and discount can price a purchase.
    pub open spec fn has_valid_configuration(self) -> bool {
        valid_configuration(self.pre_sale_rate, self.public_sale_rate, self.discount_rate)
    }

    /// A record that no operation has touched yet.
    pub fn new() -> (record: AirDropInfos)
        ensures
            record == AirDropInfos::blank(),
    {
        AirDropInfos {
            is_initialized: false,
            is_completed: false,
            pre_sale_rate: 0,
            public_sale_rate: 0,
            discount_rate: 0,
            round_status: AirDropRound::Inactive,
            sol_amount: 0,
            token_amount: 0,
        }
    }
}

impl UserInfo {
    /// The record as storage creates it, before any operation provisioned it.
    pub open spec fn blank() -> UserInfo {
        UserInfo { is_whitelisted: false, is_initialized: false, token_amount: 0, sol_amount: 0 }
    }

    /// A freshly provisioned record with the given whitelist flag.
    pub open spec fn fresh(whitelisted: bool) -> UserInfo {
        UserInfo {
            is_whitelisted: whitelisted,
            is_initialized: true,
            token_amount: 0,
            sol_amount: 0,
        }
    }

    /// This record once provisioned: itself if it is initialized already, else
    /// a fresh record with the given whitelist flag.
    pub open spec fn provisioned(self, whitelisted: bool) -> UserInfo {
        if self.is_initialized {
            self
        } else {
            UserInfo::fresh(whitelisted)
        }
    }

    /// A record that no operation has touched yet.
    pub fn new() -> (record: UserInfo)
        ensures
            record == UserInfo::blank(),
    {
        UserInfo { is_whitelisted: false, is_initialized: false, token_amount: 0, sol_amount: 0 }
    }
}

} // verus!
