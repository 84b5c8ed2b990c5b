//! Pre-purchase business checks.
//!
//! Before a reservation or gateway call is made, the pipeline validates the
//! sale or listing it read from the data store and computes the quote. Only
//! fixed-price sales are supported, and a secondary purchase must name the
//! same ticket token that the listing holds on record — a defence against a
//! request smuggling in a cheaper type's token for a pricier resource.

use vstd::prelude::*;

use crate::errors::SoftError;
use crate::price::{
    calculate_price_and_fees, spec_quote, PriceQuote, FEE_BPS_DENOMINATOR, STRIPE_UNIT,
};

verus! {

/// Native-asset cost of the transaction that mints a new ticket.
pub const MINT_TICKET_COST_NATIVE: i64 = 7;

/// Native-asset cost of the transaction that fills a resale listing.
pub const FILL_LISTING_COST_NATIVE: i64 = 5;

/// The pricing model of a sale, as stored with the ticket type.
#[derive(Clone, Debug)]
pub enum SaleKind {
    /// A sale at a fixed stored price, in the 6-decimal fixed-point unit.
    FixedPrice { price: i64 },
    /// Any other pricing model; the pipeline rejects these.
    Other,
}

/// The part of a stored ticket type that the pre-checks read.
#[derive(Clone, Debug)]
pub struct TicketTypeRecord {
    pub sale_type: SaleKind,
}

/// The part of a stored resale listing that the pre-checks read.
#[derive(Clone, Debug)]
pub struct ListingRecord {
    /// The ticket token the listing sells.
    pub cnt_sui_address: String,
    /// The asking price, in the 6-decimal fixed-point unit.
    pub ask_price: i64,
}

/// The request-side parameters of a pre-purchase check.
#[derive(Clone, Debug)]
pub enum PrePurchaseChecksParams {
    Primary {
        event_id: String,
        seat_index: u32,
        ticket_type_index: u8,
    },
    Secondary {
        listing_sui_address: String,
        cnt_sui_address: String,
    },
}

/// A stored price small enough that every intermediate of the quote fits.
pub open spec fn spec_price_in_range(price: int) -> bool {
    0 <= price && price * (STRIPE_UNIT as int) <= i64::MAX as int
}

/// Validates a primary sale and quotes it: the sale must be fixed-price,
/// and the quote is the fixed price plus the protocol fee and the mint
/// cost converted at the cached spot price.
pub fn pre_primary_purchase_checks(
    ticket_type: &TicketTypeRecord,
    protocol_fee_bps: i64,
    spot_price: i64,
) -> (r: Result<PriceQuote, SoftError>)
    requires
        0 <= protocol_fee_bps <= FEE_BPS_DENOMINATOR,
        0 <= spot_price,
        MINT_TICKET_COST_NATIVE * spot_price <= i64::MAX,
    ensures
        match ticket_type.sale_type {
            SaleKind::FixedPrice { price } => {
                if spec_price_in_range(price as int) {
                    r == Result::<PriceQuote, SoftError>::Ok(spec_quote(
                        price as int,
                        protocol_fee_bps as int,
                        MINT_TICKET_COST_NATIVE as int,
                        spot_price as int,
                    ))
                } else {
                    r == Result::<PriceQuote, SoftError>::Err(SoftError::UnsupportedSaleType)
                }
            },
            SaleKind::Other => r == Result::<PriceQuote, SoftError>::Err(
                SoftError::UnsupportedSaleType,
            ),
        },
{
    match &ticket_type.sale_type {
        SaleKind::FixedPrice { price } => {
            let p = *price;
            if 0 <= p && p <= i64::MAX / STRIPE_UNIT {
                proof {
                    assert(p * (STRIPE_UNIT as int) <= i64::MAX as int) by (nonlinear_arith)
                        requires
                            0 <= p <= (i64::MAX as int) / (STRIPE_UNIT as int),
                    ;
                }
                Result::Ok(calculate_price_and_fees(
                    p,
                    protocol_fee_bps,
                    MINT_TICKET_COST_NATIVE,
                    spot_price,
                ))
            } else {
                proof {
                    if 0 <= p {
                        assert((i64::MAX as int) < p * (STRIPE_UNIT as int)) by (nonlinear_arith)
                            requires
                                (i64::MAX as int) / (STRIPE_UNIT as int) < p,
                        ;
                    }
                }
                Result::Err(SoftError::UnsupportedSaleType)
            }
        },
        SaleKind::Other => Result::Err(SoftError::UnsupportedSaleType),
    }
}

/// Validates a secondary (listing-fill) purchase and quotes it: the token
/// named by the request must equal the one the listing holds, and the quote
/// is the asking price plus the protocol fee and the fill cost converted at
/// the cached spot price.
pub fn pre_secondary_purchase_checks(
    params: &PrePurchaseChecksParams,
    listing: &ListingRecord,
    protocol_fee_bps: i64,
    spot_price: i64,
) -> (r: Result<PriceQuote, SoftError>)
    requires
        params is Secondary,
        0 <= protocol_fee_bps <= FEE_BPS_DENOMINATOR,
        0 <= spot_price,
        FILL_LISTING_COST_NATIVE * spot_price <= i64::MAX,
    ensures
        match *params {
            PrePurchaseChecksParams::Secondary { cnt_sui_address, .. } => {
                if cnt_sui_address@ != listing.cnt_sui_address@ {
                    r == Result::<PriceQuote, SoftError>::Err(SoftError::InvalidResourceToken)
                } else if spec_price_in_range(listing.ask_price as int) {
                    r == Result::<PriceQuote, SoftError>::Ok(spec_quote(
                        listing.ask_price as int,
                        protocol_fee_bps as int,
                        FILL_LISTING_COST_NATIVE as int,
                        spot_price as int,
                    ))
                } else {
                    r == Result::<PriceQuote, SoftError>::Err(SoftError::ListingUnavailable)
                }
            },
            _ => false,
        },
{
    match params {
        PrePurchaseChecksParams::Secondary { cnt_sui_address, .. } => {
            let token_matches = cnt_sui_address.eq(&listing.cnt_sui_address);
            if !token_matches {
                return Result::Err(SoftError::InvalidResourceToken);
            }
            let p = listing.ask_price;
            if 0 <= p && p <= i64::MAX / STRIPE_UNIT {
                proof {
                    assert(p * (STRIPE_UNIT as int) <= i64::MAX as int) by (nonlinear_arith)
                        requires
                            0 <= p <= (i64::MAX as int) / (STRIPE_UNIT as int),
                    ;
                }
                Result::Ok(calculate_price_and_fees(
                    p,
                    protocol_fee_bps,
                    FILL_LISTING_COST_NATIVE,
                    spot_price,
                ))
            } else {
                proof {
                    if 0 <= p {
                        assert((i64::MAX as int) < p * (STRIPE_UNIT as int)) by (nonlinear_arith)
                            requires
                                (i64::MAX as int) / (STRIPE_UNIT as int) < p,
                        ;
                    }
                }
                Result::Err(SoftError::ListingUnavailable)
            }
        },
        PrePurchaseChecksParams::Primary { .. } => {
            proof {
                assert(false);
            }
            Result::Err(SoftError::InvalidResourceToken)
        },
    }
}

} // verus!
