use airdrop_program::error::ErrorCode;
use airdrop_program::round::{AirDropRound, RoundValidity, SaleKind};

#[test]
fn selector_zero_is_inactive() {
    assert_eq!(AirDropRound::from_code(0, 5, 9), Ok(AirDropRound::Inactive));
}

#[test]
fn selector_one_is_pre_sale_with_window() {
    assert_eq!(
        AirDropRound::from_code(1, 5, 9),
        Ok(AirDropRound::PreSale { start_time: 5, end_time: 9 })
    );
}

#[test]
fn selector_two_is_public_sale_with_window() {
    assert_eq!(
        AirDropRound::from_code(2, 5, 9),
        Ok(AirDropRound::PublicSale { start_time: 5, end_time: 9 })
    );
}

#[test]
fn other_selectors_are_unknown() {
    assert_eq!(AirDropRound::from_code(3, 5, 9), Err(ErrorCode::UnknownRoundCode));
    assert_eq!(AirDropRound::from_code(255, 0, 0), Err(ErrorCode::UnknownRoundCode));
}

#[test]
fn inactive_round_is_never_valid() {
    assert_eq!(AirDropRound::Inactive.validity(0), RoundValidity::Inactive);
    assert_eq!(AirDropRound::Inactive.validity(u64::MAX), RoundValidity::Inactive);
}

#[test]
fn window_is_open_strictly_inside() {
    let pre = AirDropRound::PreSale { start_time: 100, end_time: 200 };
    assert_eq!(pre.validity(99), RoundValidity::Inactive);
    assert_eq!(pre.validity(100), RoundValidity::Inactive);
    assert_eq!(pre.validity(101), RoundValidity::Active(SaleKind::PreSale));
    assert_eq!(pre.validity(199), RoundValidity::Active(SaleKind::PreSale));
    assert_eq!(pre.validity(200), RoundValidity::Inactive);
    assert_eq!(pre.validity(201), RoundValidity::Inactive);
    let public = AirDropRound::PublicSale { start_time: 100, end_time: 200 };
    assert_eq!(public.validity(100), RoundValidity::Inactive);
    assert_eq!(public.validity(150), RoundValidity::Active(SaleKind::PublicSale));
    assert_eq!(public.validity(200), RoundValidity::Inactive);
}

#[test]
fn empty_and_reversed_windows_are_never_open() {
    let touching = AirDropRound::PublicSale { start_time: 7, end_time: 8 };
    assert_eq!(touching.validity(7), RoundValidity::Inactive);
    assert_eq!(touching.validity(8), RoundValidity::Inactive);
    let reversed = AirDropRound::PreSale { start_time: 20, end_time: 10 };
    assert_eq!(reversed.validity(15), RoundValidity::Inactive);
}

#[test]
fn error_messages() {
    assert_eq!(ErrorCode::RoundNotActive.message(), "Not Active Round");
    assert_eq!(ErrorCode::NotWhitelisted.message(), "Not WhiteListed");
    assert_eq!(ErrorCode::TransferFailed.message(), "Transfer Failed");
    assert_eq!(ErrorCode::InvalidConfiguration.message(), "Invalid Configuration");
    assert_eq!(ErrorCode::UnknownRoundCode.message(), "UnKnown Command");
}
