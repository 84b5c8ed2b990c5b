//! Price and fee computation for a purchase.
//!
//! A stored ticket or listing price is held in a 6-decimal fixed-point unit;
//! the payment gateway wants a 2-decimal minor currency unit. The protocol
//! fee is a basis-point share of the converted price, and the settlement cost
//! (the native-asset cost of the on-ledger mint or fill transaction) is
//! converted to the currency with a cached spot price. All divisions truncate
//! toward zero on the non-negative inputs admitted here.

use vstd::prelude::*;

verus! {

/// One unit of the gateway's currency, in minor units.
pub const STRIPE_UNIT: i64 = 100;

/// One unit of the stored fixed-point price representation.
pub const USDC_UNIT: i64 = 1_000_000;

/// Scaling divisor applied when converting a native-asset amount with the
/// cached spot price.
pub const SPOT_PRICE_SCALE: i64 = 1_000;

/// Basis-point denominator for the protocol fee.
pub const FEE_BPS_DENOMINATOR: i64 = 10_000;

/// A computed price: the amount the buyer pays and the fee taken from it,
/// both in the gateway's minor currency unit.
#[derive(Clone, Copy, PartialEq, Eq, Structural, Debug)]
pub struct PriceQuote {
    pub amount: i64,
    pub fee: i64,
}

/// The stored 6-decimal price expressed in the gateway's minor unit.
pub open spec fn spec_stripe_amount(val: int) -> int {
    val * (STRIPE_UNIT as int) / (USDC_UNIT as int)
}

/// The basis-point protocol fee on an amount already in minor units.
pub open spec fn spec_protocol_fee(amount: int, fee_bps: int) -> int {
    amount * fee_bps / (FEE_BPS_DENOMINATOR as int)
}

/// A native-asset cost converted to minor units with a spot price.
pub open spec fn spec_settlement_cost(native_cost: int, spot_price: int) -> int {
    native_cost * spot_price / (SPOT_PRICE_SCALE as int)
}

/// The full quote: converted amount, and protocol fee plus settlement cost.
pub open spec fn spec_quote(
    ticket_price: int,
    protocol_fee_bps: int,
    native_cost: int,
    spot_price: int,
) -> PriceQuote {
    PriceQuote {
        amount: spec_stripe_amount(ticket_price) as i64,
        fee: (spec_protocol_fee(spec_stripe_amount(ticket_price), protocol_fee_bps)
            + spec_settlement_cost(native_cost, spot_price)) as i64,
    }
}

/// Converts a stored 6-decimal price into the gateway's minor currency unit.
/// Multiplies before dividing so that up to two decimal places survive.
pub fn from_usdc_to_stripe_unit(val: i64) -> (r: i64)
    requires
        0 <= val,
        val * STRIPE_UNIT <= i64::MAX,
    ensures
        r == spec_stripe_amount(val as int),
        0 <= r <= val,
{
    proof {
        lemma_div_shrinks(val * STRIPE_UNIT, USDC_UNIT as int, val as int);
    }
    val * STRIPE_UNIT / USDC_UNIT
}

/// For `0 <= a <= bound * d` with `d >= 1`, the quotient `a / d` stays within
/// `[0, bound]`.
proof fn lemma_div_shrinks(a: int, d: int, bound: int)
    requires
        0 <= a,
        1 <= d,
        a <= bound * d,
    ensures
        0 <= a / d <= bound,
{
    assert(0 <= a / d && a / d <= bound) by (nonlinear_arith)
        requires
            0 <= a,
            1 <= d,
            a <= bound * d,
    ;
}

/// Computes the buyer-facing amount and the total fee for a purchase from
/// the stored price, the protocol fee in basis points, the native-asset
/// settlement cost, and the cached spot price of the native asset.
///
/// The quote is a pure function of these four inputs: no other state enters
/// the computation.
pub fn calculate_price_and_fees(
    ticket_price: i64,
    protocol_fee_bps: i64,
    native_cost: i64,
    spot_price: i64,
) -> (quote: PriceQuote)
    requires
        0 <= ticket_price,
        ticket_price * STRIPE_UNIT <= i64::MAX,
        0 <= protocol_fee_bps <= FEE_BPS_DENOMINATOR,
        0 <= native_cost,
        0 <= spot_price,
        native_cost * spot_price <= i64::MAX,
    ensures
        quote == spec_quote(
            ticket_price as int,
            protocol_fee_bps as int,
            native_cost as int,
            spot_price as int,
        ),
        0 <= quote.amount,
        0 <= quote.fee,
{
    let amount = from_usdc_to_stripe_unit(ticket_price);
    proof {
        vstd::arithmetic::div_mod::lemma_div_is_ordered(
            ticket_price * STRIPE_UNIT,
            i64::MAX as int,
            USDC_UNIT as int,
        );
        assert(amount * protocol_fee_bps <= amount * FEE_BPS_DENOMINATOR
            && amount * FEE_BPS_DENOMINATOR <= i64::MAX) by (nonlinear_arith)
            requires
                0 <= amount <= (i64::MAX as int) / (USDC_UNIT as int),
                0 <= protocol_fee_bps <= FEE_BPS_DENOMINATOR,
        ;
        lemma_div_shrinks(amount * protocol_fee_bps, FEE_BPS_DENOMINATOR as int, amount as int);
    }
    let protocol_fee = (amount * protocol_fee_bps) / FEE_BPS_DENOMINATOR;
    proof {
        lemma_div_shrinks(native_cost * spot_price, SPOT_PRICE_SCALE as int, i64::MAX as int);
        vstd::arithmetic::div_mod::lemma_div_is_ordered(
            native_cost * spot_price,
            i64::MAX as int,
            SPOT_PRICE_SCALE as int,
        );
    }
    let settlement_cost = (native_cost * spot_price) / SPOT_PRICE_SCALE;
    let total_fees = protocol_fee + settlement_cost;
    PriceQuote { amount, fee: total_fees }
}

/// The quote is deterministic: two computations from equal inputs yield
/// equal results, because the result is pinned to a function of the inputs
/// alone.
pub proof fn lemma_quote_deterministic(
    ticket_price: int,
    protocol_fee_bps: int,
    native_cost: int,
    spot_price: int,
    first: PriceQuote,
    second: PriceQuote,
)
    requires
        first == spec_quote(ticket_price, protocol_fee_bps, native_cost, spot_price),
        second == spec_quote(ticket_price, protocol_fee_bps, native_cost, spot_price),
    ensures
        first == second,
{
}

} // verus!
