use vstd::prelude::*;
use crate::error::ErrorCode;
use crate::ledger::valid_configuration;
use crate::round::SaleKind;

verus! {

/// The payment owed for `requested_tokens` under a valid configuration, by a
/// participant who may buy in a sale of the given kind. Every division
/// truncates. In the public sale a participant who is not whitelisted has the
/// quotient by the rate divided once more, by 100 less the discount.
pub open spec fn payment_due(
    requested_tokens: u64,
    phase_kind: SaleKind,
    whitelisted: bool,
    pre_rate: u64,
    public_rate: u64,
    discount_rate: u64,
) -> int {
    match phase_kind {
        SaleKind::PreSale => requested_tokens as int / pre_rate as int,
        SaleKind::PublicSale => if whitelisted {
            requested_tokens as int / public_rate as int
        } else {
            (requested_tokens as int / public_rate as int) / (100 - discount_rate)
        },
    }
}

/// The quote for a purchase: `NotWhitelisted` in the pre-sale for a participant
/// who is not whitelisted; else `InvalidConfiguration` where a rate is zero or
/// the discount is 100 or more; else the payment due.
pub open spec fn quote_payment_spec(
    requested_tokens: u64,
    phase_kind: SaleKind,
    whitelisted: bool,
    pre_rate: u64,
    public_rate: u64,
    discount_rate: u64,
) -> Result<u64, ErrorCode> {
    if phase_kind == SaleKind::PreSale && !whitelisted {
        Err(ErrorCode::NotWhitelisted)
    } else if !valid_configuration(pre_rate, public_rate, discount_rate) {
        Err(ErrorCode::InvalidConfiguration)
    } else {
        Ok(
            payment_due(
                requested_tokens,
                phase_kind,
                whitelisted,
                pre_rate,
                public_rate,
                discount_rate,
            ) as u64,
        )
    }
}

/// The payment due never exceeds the number of tokens requested, and is never
/// negative.
pub proof fn lemma_payment_due_bounded(
    requested_tokens: u64,
    phase_kind: SaleKind,
    whitelisted: bool,
    pre_rate: u64,
    public_rate: u64,
    discount_rate: u64,
)
    requires
        valid_configuration(pre_rate, public_rate, discount_rate),
    ensures
        0 <= payment_due(
            requested_tokens,
            phase_kind,
            whitelisted,
            pre_rate,
            public_rate,
            discount_rate,
        ) <= requested_tokens,
{
    let n = requested_tokens as int;
    let a = pre_rate as int;
    let b = public_rate as int;
    let c = 100 - discount_rate;
    assert(0 <= n / a <= n) by (nonlinear_arith)
        requires
            0 <= n,
            a >= 1,
    ;
    assert(0 <= n / b <= n) by (nonlinear_arith)
        requires
            0 <= n,
            b >= 1,
    ;
    let q = n / b;
    assert(0 <= q / c <= q) by (nonlinear_arith)
        requires
            0 <= q,
            c >= 1,
    ;
}

/// Quotes the payment owed for `requested_tokens` in a sale of the given kind.
/// The pre-sale is for whitelisted participants only. A request smaller than
/// the rate is quoted at zero, which is a valid quote.
pub fn quote_payment(
    requested_tokens: u64,
    phase_kind: SaleKind,
    whitelisted: bool,
    pre_rate: u64,
    public_rate: u64,
    discount_rate: u64,
) -> (quote: Result<u64, ErrorCode>)
    ensures
        quote == quote_payment_spec(
            requested_tokens,
            phase_kind,
            whitelisted,
            pre_rate,
            public_rate,
            discount_rate,
        ),
        quote matches Ok(payment) ==> payment <= requested_tokens,
{
    match phase_kind {
        SaleKind::PreSale => {
            if !whitelisted {
                return Err(ErrorCode::NotWhitelisted);
            }
        },
        SaleKind::PublicSale => {},
    }
    if pre_rate == 0 || public_rate == 0 || discount_rate >= 100 {
        return Err(ErrorCode::InvalidConfiguration);
    }
    proof {
        lemma_payment_due_bounded(
            requested_tokens,
            phase_kind,
            whitelisted,
            pre_rate,
            public_rate,
            discount_rate,
        );
    }
    let payment: u64 = match phase_kind {
        SaleKind::PreSale => requested_tokens / pre_rate,
        SaleKind::PublicSale => {
            if whitelisted {
                requested_tokens / public_rate
            } else {
                requested_tokens / public_rate / (100 - discount_rate)
            }
        },
    };
    Ok(payment)
}

} // verus!
