use airdrop_program::ledger::{AirDropInfos, UserInfo};
use airdrop_program::round::AirDropRound;
use airdrop_program::status::Status;
use airdrop_program::{change_round_status, create_user_info, initialize};

fn default_configuration() -> AirDropInfos {
    AirDropInfos {
        is_initialized: true,
        is_completed: false,
        pre_sale_rate: 50,
        public_sale_rate: 25,
        discount_rate: 25,
        round_status: AirDropRound::Inactive,
        sol_amount: 0,
        token_amount: 0,
    }
}

#[test]
fn new_records_are_blank() {
    let global = AirDropInfos::new();
    assert!(!global.is_initialized);
    assert!(!global.is_completed);
    assert_eq!(global.pre_sale_rate, 0);
    assert_eq!(global.public_sale_rate, 0);
    assert_eq!(global.discount_rate, 0);
    assert_eq!(global.round_status, AirDropRound::Inactive);
    assert_eq!(global.sol_amount, 0);
    assert_eq!(global.token_amount, 0);
    assert_eq!(
        UserInfo::new(),
        UserInfo { is_whitelisted: false, is_initialized: false, token_amount: 0, sol_amount: 0 }
    );
}

#[test]
fn initialize_sets_default_configuration() {
    let mut global = AirDropInfos::new();
    assert_eq!(initialize(&mut global), Status::Initialized);
    assert_eq!(global, default_configuration());
}

#[test]
fn initialize_overwrites_an_uninitialized_record() {
    let mut global = AirDropInfos {
        is_initialized: false,
        is_completed: true,
        pre_sale_rate: 7,
        public_sale_rate: 8,
        discount_rate: 9,
        round_status: AirDropRound::PreSale { start_time: 1, end_time: 2 },
        sol_amount: 3,
        token_amount: 4,
    };
    initialize(&mut global);
    assert_eq!(global, default_configuration());
}

#[test]
fn initialize_twice_changes_nothing_more() {
    let mut global = AirDropInfos::new();
    initialize(&mut global);
    let once = global;
    assert_eq!(initialize(&mut global), Status::Initialized);
    assert_eq!(global, once);
}

#[test]
fn initialize_keeps_an_initialized_record() {
    let mut global = AirDropInfos {
        is_initialized: true,
        is_completed: true,
        pre_sale_rate: 7,
        public_sale_rate: 8,
        discount_rate: 9,
        round_status: AirDropRound::PublicSale { start_time: 1, end_time: 2 },
        sol_amount: 3,
        token_amount: 4,
    };
    let before = global;
    initialize(&mut global);
    assert_eq!(global, before);
}

#[test]
fn create_user_info_whitelists_a_new_participant() {
    let mut user = UserInfo::new();
    assert_eq!(create_user_info(&mut user), Status::UserInfoCreated);
    assert_eq!(
        user,
        UserInfo { is_whitelisted: true, is_initialized: true, token_amount: 0, sol_amount: 0 }
    );
}

#[test]
fn create_user_info_keeps_a_provisioned_record() {
    let mut user =
        UserInfo { is_whitelisted: false, is_initialized: true, token_amount: 12, sol_amount: 3 };
    let before = user;
    create_user_info(&mut user);
    assert_eq!(user, before);
    let mut listed = UserInfo::new();
    create_user_info(&mut listed);
    let once = listed;
    create_user_info(&mut listed);
    assert_eq!(listed, once);
}

#[test]
fn change_round_status_sets_each_phase() {
    let mut global = default_configuration();
    assert_eq!(change_round_status(&mut global, 1, 10, 20), Status::RoundStatusChanged);
    assert_eq!(global.round_status, AirDropRound::PreSale { start_time: 10, end_time: 20 });
    assert_eq!(change_round_status(&mut global, 2, 30, 40), Status::RoundStatusChanged);
    assert_eq!(global.round_status, AirDropRound::PublicSale { start_time: 30, end_time: 40 });
    assert_eq!(change_round_status(&mut global, 0, 50, 60), Status::RoundStatusChanged);
    assert_eq!(global.round_status, AirDropRound::Inactive);
    let expected = default_configuration();
    assert_eq!(global, expected);
}

#[test]
fn change_round_status_touches_only_the_round() {
    let mut global = AirDropInfos {
        is_initialized: true,
        is_completed: true,
        pre_sale_rate: 7,
        public_sale_rate: 8,
        discount_rate: 9,
        round_status: AirDropRound::Inactive,
        sol_amount: 3,
        token_amount: 4,
    };
    change_round_status(&mut global, 2, 1, 2);
    assert_eq!(
        global,
        AirDropInfos {
            is_initialized: true,
            is_completed: true,
            pre_sale_rate: 7,
            public_sale_rate: 8,
            discount_rate: 9,
            round_status: AirDropRound::PublicSale { start_time: 1, end_time: 2 },
            sol_amount: 3,
            token_amount: 4,
        }
    );
}

#[test]
fn unknown_selector_changes_nothing() {
    let mut global = default_configuration();
    change_round_status(&mut global, 1, 10, 20);
    let before = global;
    assert_eq!(change_round_status(&mut global, 3, 30, 40), Status::UnknownCommand);
    assert_eq!(global, before);
    assert_eq!(change_round_status(&mut global, 255, 30, 40), Status::UnknownCommand);
    assert_eq!(global, before);
}

#[test]
fn status_messages() {
    assert_eq!(Status::Initialized.message(), "Initialize Success");
    assert_eq!(Status::UserInfoCreated.message(), "Create Whitelist UserInfo");
    assert_eq!(Status::RoundStatusChanged.message(), "Successfully Changed RoundStatus");
    assert_eq!(Status::UnknownCommand.message(), "UnKnown Command");
    assert_eq!(Status::TokenBought.message(), "Buy Token");
}
