use vstd::prelude::*;
use crate::ledger::{
    AirDropInfos, UserInfo, DEFAULT_DISCOUNT_RATE, DEFAULT_PRE_SALE_RATE,
    DEFAULT_PUBLIC_SALE_RATE,
};
use crate::round::AirDropRound;
use crate::status::Status;

verus! {

/// The global record after `initialize`: the default configuration if the
/// record was not initialized, else the record as it was.
pub open spec fn initialize_spec(airdrop_info: AirDropInfos) -> AirDropInfos {
    if airdrop_info.is_initialized {
        airdrop_info
    } else {
        AirDropInfos::default_configuration()
    }
}

/// A participant's record after `create_user_info`: provisioned as
/// whitelisted if it was not initialized, else the record as it was.
pub open spec fn create_user_info_spec(user_info: UserInfo) -> UserInfo {
    user_info.provisioned(true)
}

/// The global record after `change_round_status`: the round replaced by the
/// phase that the selector stands for, whatever the round was before; for an
/// unknown selector the record as it was.
pub open spec fn change_round_status_spec(
    airdrop_info: AirDropInfos,
    status: u8,
    start_time: u64,
    end_time: u64,
) -> AirDropInfos {
    match AirDropRound::from_code_spec(status, start_time, end_time) {
        Some(round) => AirDropInfos { round_status: round, ..airdrop_info },
        None => airdrop_info,
    }
}

/// Puts the global record into its default configuration, unless it is
/// initialized already: then nothing changes. Never an error.
pub fn initialize(airdrop_info: &mut AirDropInfos) -> (status: Status)
    ensures
        *final(airdrop_info) == initialize_spec(*old(airdrop_info)),
        status == Status::Initialized,
{
    if !airdrop_info.is_initialized {
        airdrop_info.is_initialized = true;
        airdrop_info.is_completed = false;
        airdrop_info.pre_sale_rate = DEFAULT_PRE_SALE_RATE;
        airdrop_info.public_sale_rate = DEFAULT_PUBLIC_SALE_RATE;
        airdrop_info.discount_rate = DEFAULT_DISCOUNT_RATE;
        airdrop_info.round_status = AirDropRound::Inactive;
        airdrop_info.sol_amount = 0;
        airdrop_info.token_amount = 0;
    }
    Status::Initialized
}

/// Provisions a participant's record as whitelisted, unless it is initialized
/// already: then nothing changes.
pub fn create_user_info(user_info: &mut UserInfo) -> (status: Status)
    ensures
        *final(user_info) == create_user_info_spec(*old(user_info)),
        status == Status::UserInfoCreated,
{
    if !user_info.is_initialized {
        user_info.is_initialized = true;
        user_info.is_whitelisted = true;
        user_info.sol_amount = 0;
        user_info.token_amount = 0;
    }
    Status::UserInfoCreated
}

/// Sets the round to the phase that `status` selects, with the given window.
/// There is no guard on the round before: a sale that is under way is simply
/// replaced. An unknown selector changes nothing and is answered with
/// `UnknownCommand`, which is no error.
pub fn change_round_status(
    airdrop_info: &mut AirDropInfos,
    status: u8,
    start_time: u64,
    end_time: u64,
) -> (outcome: Status)
    ensures
        *final(airdrop_info) == change_round_status_spec(
            *old(airdrop_info),
            status,
            start_time,
            end_time,
        ),
        outcome == if AirDropRound::from_code_spec(status, start_time, end_time) is Some {
            Status::RoundStatusChanged
        } else {
            Status::UnknownCommand
        },
{
    match AirDropRound::from_code(status, start_time, end_time) {
        Ok(round) => {
            airdrop_info.round_status = round;
            Status::RoundStatusChanged
        },
        Err(_) => Status::UnknownCommand,
    }
}

/// `initialize` is idempotent: a second call leaves the global record as the
/// first call left it.
pub proof fn lemma_initialize_idempotent(airdrop_info: AirDropInfos)
    ensures
        initialize_spec(initialize_spec(airdrop_info)) == initialize_spec(airdrop_info),
        initialize_spec(airdrop_info).is_initialized,
{
}

/// `create_user_info` is idempotent: a second call leaves the participant's
/// record as the first call left it.
pub proof fn lemma_create_user_info_idempotent(user_info: UserInfo)
    ensures
        create_user_info_spec(create_user_info_spec(user_info)) == create_user_info_spec(
            user_info,
        ),
        create_user_info_spec(user_info).is_initialized,
{
}

} // verus!
