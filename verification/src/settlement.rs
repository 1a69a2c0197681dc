use vstd::prelude::*;
use crate::error::ErrorCode;
use crate::ledger::{AirDropInfos, UserInfo};
use crate::rate::{quote_payment, quote_payment_spec};
use crate::admin::{change_round_status_spec, create_user_info_spec};
use crate::round::{within_window, AirDropRound, RoundValidity};

verus! {

/// What a purchase moves: the payment from the participant to the admin and
/// the tokens from the admin to the participant.
#[derive(Clone, Copy, Debug, PartialEq, Eq, Structural)]
pub struct Receipt {
    pub payment_amount: u64,
    pub token_amount: u64,
}

/// One asset movement that the caller has to carry out.
#[derive(Clone, Copy, Debug, PartialEq, Eq, Structural)]
pub enum Transfer {
    /// Payment asset, from the participant to the admin.
    Payment { amount: u64 },
    /// Distributed token, from the admin to the participant.
    Tokens { amount: u64 },
}

/// A purchase that was admitted and is not settled yet.
#[derive(Clone, Copy, Debug, PartialEq, Eq, Structural)]
pub enum Settlement {
    /// The payment has to move next.
    AwaitingPayment(Receipt),
    /// The payment has moved; the tokens have to move next.
    AwaitingTokens(Receipt),
}

/// Where a purchase stands after one transfer succeeded.
#[derive(Clone, Copy, Debug, PartialEq, Eq, Structural)]
pub enum Progress {
    /// Another transfer is due.
    Next(Settlement),
    /// Both transfers succeeded and both records hold the purchase.
    Settled(Receipt),
}

/// Whether a purchase is admitted at time `now`, and what it moves. The round
/// is judged first, then the whitelist, then the configuration. A participant
/// without an initialized record counts as not whitelisted.
pub open spec fn admit_spec(
    airdrop_info: AirDropInfos,
    user_info: UserInfo,
    amount: u64,
    now: u64,
) -> Result<Receipt, ErrorCode> {
    match airdrop_info.round_status.validity_spec(now) {
        RoundValidity::Inactive => Err(ErrorCode::RoundNotActive),
        RoundValidity::Active(kind) => match quote_payment_spec(
            amount,
            kind,
            user_info.provisioned(false).is_whitelisted,
            airdrop_info.pre_sale_rate,
            airdrop_info.public_sale_rate,
            airdrop_info.discount_rate,
        ) {
            Ok(payment) => Ok(Receipt { payment_amount: payment, token_amount: amount }),
            Err(error) => Err(error),
        },
    }
}

/// Whether both records can take the receipt's amounts without leaving `u64`.
pub open spec fn fits(airdrop_info: AirDropInfos, user_info: UserInfo, receipt: Receipt) -> bool {
    let user = user_info.provisioned(false);
    &&& airdrop_info.sol_amount + receipt.payment_amount <= u64::MAX
    &&& airdrop_info.token_amount + receipt.token_amount <= u64::MAX
    &&& user.sol_amount + receipt.payment_amount <= u64::MAX
    &&& user.token_amount + receipt.token_amount <= u64::MAX
}

/// The global record with the receipt's amounts added to its totals.
pub open spec fn credited_global(airdrop_info: AirDropInfos, receipt: Receipt) -> AirDropInfos {
    AirDropInfos {
        sol_amount: (airdrop_info.sol_amount + receipt.payment_amount) as u64,
        token_amount: (airdrop_info.token_amount + receipt.token_amount) as u64,
        ..airdrop_info
    }
}

/// The participant's record, provisioned as not whitelisted if it was not
/// initialized, with the receipt's amounts added to its balances.
pub open spec fn credited_user(user_info: UserInfo, receipt: Receipt) -> UserInfo {
    let user = user_info.provisioned(false);
    UserInfo {
        sol_amount: (user.sol_amount + receipt.payment_amount) as u64,
        token_amount: (user.token_amount + receipt.token_amount) as u64,
        ..user
    }
}

/// Both records and the result after one step of a settlement. A transfer that
/// failed ends the purchase with `TransferFailed`, and a payment that moved
/// only leads on to the tokens: in both cases the records stay as they were.
/// Only the success of the token transfer writes the receipt to both records.
pub open spec fn advance_spec(
    settlement: Settlement,
    airdrop_info: AirDropInfos,
    user_info: UserInfo,
    transfer_succeeded: bool,
) -> (AirDropInfos, UserInfo, Result<Progress, ErrorCode>) {
    if !transfer_succeeded {
        (airdrop_info, user_info, Err(ErrorCode::TransferFailed))
    } else {
        match settlement {
            Settlement::AwaitingPayment(receipt) => (
                airdrop_info,
                user_info,
                Ok(Progress::Next(Settlement::AwaitingTokens(receipt))),
            ),
            Settlement::AwaitingTokens(receipt) => (
                credited_global(airdrop_info, receipt),
                credited_user(user_info, receipt),
                Ok(Progress::Settled(receipt)),
            ),
        }
    }
}

/// A whole purchase, from admission to the last transfer, given how the two
/// transfers end: both records afterwards and the result. The token transfer
/// is attempted only after the payment moved.
pub open spec fn purchase_spec(
    airdrop_info: AirDropInfos,
    user_info: UserInfo,
    amount: u64,
    now: u64,
    payment_transferred: bool,
    tokens_transferred: bool,
) -> (AirDropInfos, UserInfo, Result<Receipt, ErrorCode>) {
    match admit_spec(airdrop_info, user_info, amount, now) {
        Err(error) => (airdrop_info, user_info, Err(error)),
        Ok(receipt) => if payment_transferred && tokens_transferred {
            (
                credited_global(airdrop_info, receipt),
                credited_user(user_info, receipt),
                Ok(receipt),
            )
        } else {
            (airdrop_info, user_info, Err(ErrorCode::TransferFailed))
        },
    }
}

impl Settlement {
    /// The receipt that this settlement is about.
    pub open spec fn receipt_spec(self) -> Receipt {
        match self {
            Settlement::AwaitingPayment(receipt) => receipt,
            Settlement::AwaitingTokens(receipt) => receipt,
        }
    }

    /// The transfer that is due in this state.
    pub open spec fn pending_transfer_spec(self) -> Transfer {
        match self {
            Settlement::AwaitingPayment(receipt) => Transfer::Payment {
                amount: receipt.payment_amount,
            },
            Settlement::AwaitingTokens(receipt) => Transfer::Tokens {
                amount: receipt.token_amount,
            },
        }
    }

    /// The receipt that this settlement is about.
    pub fn receipt(&self) -> (receipt: Receipt)
        ensures
            receipt == self.receipt_spec(),
    {
        match self {
            Settlement::AwaitingPayment(receipt) => *receipt,
            Settlement::AwaitingTokens(receipt) => *receipt,
        }
    }

    /// The transfer that the caller has to carry out next.
    pub fn pending_transfer(&self) -> (transfer: Transfer)
        ensures
            transfer == self.pending_transfer_spec(),
    {
        match self {
            Settlement::AwaitingPayment(receipt) => Transfer::Payment {
                amount: receipt.payment_amount,
            },
            Settlement::AwaitingTokens(receipt) => Transfer::Tokens {
                amount: receipt.token_amount,
            },
        }
    }

    /// Whether both records can take this settlement's amounts. The caller
    /// asks this before it moves anything.
    pub fn can_settle(&self, airdrop_info: &AirDropInfos, user_info: &UserInfo) -> (answer: bool)
        ensures
            answer == fits(*airdrop_info, *user_info, self.receipt_spec()),
    {
        let receipt = self.receipt();
        let user_sol: u64 = if user_info.is_initialized {
            user_info.sol_amount
        } else {
            0
        };
        let user_tokens: u64 = if user_info.is_initialized {
            user_info.token_amount
        } else {
            0
        };
        receipt.payment_amount <= u64::MAX - airdrop_info.sol_amount && receipt.token_amount
            <= u64::MAX - airdrop_info.token_amount && receipt.payment_amount <= u64::MAX
            - user_sol && receipt.token_amount <= u64::MAX - user_tokens
    }

    /// Takes the outcome of the pending transfer and moves the settlement on.
    /// The records change only when the token transfer succeeded: then the
    /// receipt's amounts are added to the participant's balances and to the
    /// global totals, and a participant without a record is provisioned as
    /// not whitelisted. In every other case both records stay as they were.
    pub fn advance(
        self,
        airdrop_info: &mut AirDropInfos,
        user_info: &mut UserInfo,
        transfer_succeeded: bool,
    ) -> (step: Result<Progress, ErrorCode>)
        requires
            self is AwaitingTokens && transfer_succeeded ==> fits(
                *old(airdrop_info),
                *old(user_info),
                self.receipt_spec(),
            ),
        ensures
            (*final(airdrop_info), *final(user_info), step) == advance_spec(
                self,
                *old(airdrop_info),
                *old(user_info),
                transfer_succeeded,
            ),
    {
        if !transfer_succeeded {
            return Err(ErrorCode::TransferFailed);
        }
        match self {
            Settlement::AwaitingPayment(receipt) => Ok(
                Progress::Next(Settlement::AwaitingTokens(receipt)),
            ),
            Settlement::AwaitingTokens(receipt) => {
                if !user_info.is_initialized {
                    user_info.is_initialized = true;
                    user_info.is_whitelisted = false;
                    user_info.sol_amount = 0;
                    user_info.token_amount = 0;
                }
                user_info.sol_amount = user_info.sol_amount + receipt.payment_amount;
                user_info.token_amount = user_info.token_amount + receipt.token_amount;
                airdrop_info.sol_amount = airdrop_info.sol_amount + receipt.payment_amount;
                airdrop_info.token_amount = airdrop_info.token_amount + receipt.token_amount;
                Ok(Progress::Settled(receipt))
            },
        }
    }
}

/// Opens a purchase of `amount` tokens at time `now`. Nothing is written: the
/// records change only when the settlement that this returns has seen both
/// transfers succeed. The purchase is refused with `RoundNotActive` unless
/// `now` lies strictly inside the window of a sale; else with `NotWhitelisted`
/// in the pre-sale for a participant who is not whitelisted; else with
/// `InvalidConfiguration` where the rates or the discount cannot price it.
/// A quote of zero is accepted.
pub fn buy_token(airdrop_info: &AirDropInfos, user_info: &UserInfo, amount: u64, now: u64) -> (opened:
    Result<Settlement, ErrorCode>)
    ensures
        opened == match admit_spec(*airdrop_info, *user_info, amount, now) {
            Ok(receipt) => Ok::<Settlement, ErrorCode>(Settlement::AwaitingPayment(receipt)),
            Err(error) => Err::<Settlement, ErrorCode>(error),
        },
        opened matches Ok(settlement) ==> settlement.receipt_spec().payment_amount <= amount,
{
    let whitelisted = user_info.is_initialized && user_info.is_whitelisted;
    match airdrop_info.round_status.validity(now) {
        RoundValidity::Inactive => Err(ErrorCode::RoundNotActive),
        RoundValidity::Active(kind) => {
            match quote_payment(
                amount,
                kind,
                whitelisted,
                airdrop_info.pre_sale_rate,
                airdrop_info.public_sale_rate,
                airdrop_info.discount_rate,
            ) {
                Ok(payment) => Ok(
                    Settlement::AwaitingPayment(
                        Receipt { payment_amount: payment, token_amount: amount },
                    ),
                ),
                Err(error) => Err(error),
            }
        },
    }
}

/// The result of a settlement that is driven to its end: the payment transfer
/// first and, only if it succeeded, the token transfer.
pub open spec fn driven_spec(
    airdrop_info: AirDropInfos,
    user_info: UserInfo,
    amount: u64,
    now: u64,
    payment_transferred: bool,
    tokens_transferred: bool,
) -> (AirDropInfos, UserInfo, Result<Receipt, ErrorCode>) {
    match admit_spec(airdrop_info, user_info, amount, now) {
        Err(error) => (airdrop_info, user_info, Err(error)),
        Ok(receipt) => {
            let first = advance_spec(
                Settlement::AwaitingPayment(receipt),
                airdrop_info,
                user_info,
                payment_transferred,
            );
            match first.2 {
                Err(error) => (first.0, first.1, Err(error)),
                Ok(Progress::Settled(settled)) => (first.0, first.1, Ok(settled)),
                Ok(Progress::Next(next)) => {
                    let second = advance_spec(next, first.0, first.1, tokens_transferred);
                    match second.2 {
                        Ok(Progress::Settled(settled)) => (second.0, second.1, Ok(settled)),
                        _ => (second.0, second.1, Err(ErrorCode::TransferFailed)),
                    }
                },
            }
        },
    }
}

/// Opening a purchase with `buy_token` and taking the settlement through its
/// two transfers is the purchase: the steps leave both records and the result
/// as `purchase_spec` says.
pub proof fn lemma_steps_make_purchase(
    airdrop_info: AirDropInfos,
    user_info: UserInfo,
    amount: u64,
    now: u64,
    payment_transferred: bool,
    tokens_transferred: bool,
)
    ensures
        driven_spec(
            airdrop_info,
            user_info,
            amount,
            now,
            payment_transferred,
            tokens_transferred,
        ) == purchase_spec(
            airdrop_info,
            user_info,
            amount,
            now,
            payment_transferred,
            tokens_transferred,
        ),
{
}

/// While the round is inactive, every purchase fails with `RoundNotActive`
/// and leaves both records as they were.
pub proof fn lemma_inactive_round_rejects(
    airdrop_info: AirDropInfos,
    user_info: UserInfo,
    amount: u64,
    now: u64,
    payment_transferred: bool,
    tokens_transferred: bool,
)
    requires
        airdrop_info.round_status == AirDropRound::Inactive,
    ensures
        purchase_spec(
            airdrop_info,
            user_info,
            amount,
            now,
            payment_transferred,
            tokens_transferred,
        ) == (airdrop_info, user_info, Err::<Receipt, ErrorCode>(ErrorCode::RoundNotActive)),
{
}

/// In an open pre-sale a participant who is not whitelisted is refused with
/// `NotWhitelisted`, and both records stay as they were.
pub proof fn lemma_pre_sale_rejects_unlisted(
    airdrop_info: AirDropInfos,
    user_info: UserInfo,
    amount: u64,
    now: u64,
    payment_transferred: bool,
    tokens_transferred: bool,
)
    requires
        airdrop_info.round_status matches AirDropRound::PreSale { start_time, end_time }
            && within_window(start_time, end_time, now),
        !(user_info.is_initialized && user_info.is_whitelisted),
    ensures
        purchase_spec(
            airdrop_info,
            user_info,
            amount,
            now,
            payment_transferred,
            tokens_transferred,
        ) == (airdrop_info, user_info, Err::<Receipt, ErrorCode>(ErrorCode::NotWhitelisted)),
{
}

/// In an open pre-sale under a valid configuration, a participant without a
/// record is admitted once `create_user_info` has whitelisted them, and pays
/// the requested tokens divided by the pre-sale rate.
pub proof fn lemma_pre_sale_admits_listed(
    airdrop_info: AirDropInfos,
    user_info: UserInfo,
    amount: u64,
    now: u64,
)
    requires
        airdrop_info.round_status matches AirDropRound::PreSale { start_time, end_time }
            && within_window(start_time, end_time, now),
        airdrop_info.has_valid_configuration(),
        !user_info.is_initialized,
    ensures
        admit_spec(airdrop_info, user_info, amount, now) == Err::<Receipt, ErrorCode>(
            ErrorCode::NotWhitelisted,
        ),
        admit_spec(airdrop_info, create_user_info_spec(user_info), amount, now) == Ok::<
            Receipt,
            ErrorCode,
        >(Receipt { payment_amount: amount / airdrop_info.pre_sale_rate, token_amount: amount }),
{
}

/// In an open public sale under a valid configuration, a whitelisted
/// participant pays the requested tokens divided by the public-sale rate.
pub proof fn lemma_public_sale_listed_quote(
    airdrop_info: AirDropInfos,
    user_info: UserInfo,
    amount: u64,
    now: u64,
)
    requires
        airdrop_info.round_status matches AirDropRound::PublicSale { start_time, end_time }
            && within_window(start_time, end_time, now),
        airdrop_info.has_valid_configuration(),
        user_info.is_initialized && user_info.is_whitelisted,
    ensures
        admit_spec(airdrop_info, user_info, amount, now) == Ok::<Receipt, ErrorCode>(
            Receipt { payment_amount: amount / airdrop_info.public_sale_rate, token_amount: amount },
        ),
{
}

/// A purchase at the very start or the very end of the window that
/// `change_round_status` has just set is refused with `RoundNotActive`, and
/// both records stay as they were.
pub proof fn lemma_window_edges_reject(
    airdrop_info: AirDropInfos,
    user_info: UserInfo,
    status: u8,
    start_time: u64,
    end_time: u64,
    amount: u64,
    now: u64,
    payment_transferred: bool,
    tokens_transferred: bool,
)
    requires
        status <= 2,
        now == start_time || now == end_time,
    ensures
        ({
            let changed = change_round_status_spec(airdrop_info, status, start_time, end_time);
            purchase_spec(
                changed,
                user_info,
                amount,
                now,
                payment_transferred,
                tokens_transferred,
            ) == (changed, user_info, Err::<Receipt, ErrorCode>(ErrorCode::RoundNotActive))
        }),
{
}

/// A purchase of which either transfer fails, the token transfer too, leaves
/// both records as they were, and it does not succeed. Every purchase that
/// fails, for whatever reason, leaves both records as they were.
pub proof fn lemma_failed_purchase_changes_nothing(
    airdrop_info: AirDropInfos,
    user_info: UserInfo,
    amount: u64,
    now: u64,
    payment_transferred: bool,
    tokens_transferred: bool,
)
    ensures
        ({
            let after = purchase_spec(
                airdrop_info,
                user_info,
                amount,
                now,
                payment_transferred,
                tokens_transferred,
            );
            &&& !(payment_transferred && tokens_transferred) ==> after.2 is Err
            &&& admit_spec(airdrop_info, user_info, amount, now) is Ok && !(payment_transferred
                && tokens_transferred) ==> after.2 == Err::<Receipt, ErrorCode>(
                ErrorCode::TransferFailed,
            )
            &&& after.2 is Err ==> after.0 == airdrop_info && after.1 == user_info
        }),
{
}

/// A purchase never lowers a balance or a total, as long as it fits into both
/// records.
pub proof fn lemma_purchase_only_adds(
    airdrop_info: AirDropInfos,
    user_info: UserInfo,
    amount: u64,
    now: u64,
    payment_transferred: bool,
    tokens_transferred: bool,
)
    requires
        admit_spec(airdrop_info, user_info, amount, now) matches Ok(receipt) ==> fits(
            airdrop_info,
            user_info,
            receipt,
        ),
        !user_info.is_initialized ==> user_info.sol_amount == 0 && user_info.token_amount == 0,
    ensures
        ({
            let after = purchase_spec(
                airdrop_info,
                user_info,
                amount,
                now,
                payment_transferred,
                tokens_transferred,
            );
            &&& after.0.sol_amount >= airdrop_info.sol_amount
            &&& after.0.token_amount >= airdrop_info.token_amount
            &&& after.1.sol_amount >= user_info.sol_amount
            &&& after.1.token_amount >= user_info.token_amount
        }),
{
}

} // verus!
