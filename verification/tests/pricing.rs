use fiat_checkout_manager::checks::{
    pre_primary_purchase_checks, pre_secondary_purchase_checks, ListingRecord,
    PrePurchaseChecksParams, SaleKind, TicketTypeRecord,
};
use fiat_checkout_manager::errors::SoftError;
use fiat_checkout_manager::price::{calculate_price_and_fees, from_usdc_to_stripe_unit};

#[test]
fn converts_six_decimal_price_to_minor_units() {
    assert_eq!(from_usdc_to_stripe_unit(10_000_000), 1000);
    assert_eq!(from_usdc_to_stripe_unit(1_000_000), 100);
    assert_eq!(from_usdc_to_stripe_unit(0), 0);
}

#[test]
fn conversion_truncates_toward_zero() {
    // 9999 six-decimal units are 0.9999 minor units: truncated away.
    assert_eq!(from_usdc_to_stripe_unit(9_999), 0);
    // 999_999 six-decimal units are 99.9999 minor units.
    assert_eq!(from_usdc_to_stripe_unit(999_999), 99);
    assert_eq!(from_usdc_to_stripe_unit(1_010_000), 101);
}

#[test]
fn fixed_price_sale_quote() {
    // A 10,000,000-unit (6-decimal) price converts to 1000 minor units; a
    // 250-basis-point protocol fee adds 25, and a settlement cost of 700
    // minor units (7 native units at a spot price of 100,000) completes a
    // 725 fee.
    let quote = calculate_price_and_fees(10_000_000, 250, 7, 100_000);
    assert_eq!(quote.amount, 1000);
    assert_eq!(quote.fee, 725);
}

#[test]
fn quote_is_reproducible() {
    let first = calculate_price_and_fees(123_456_789, 125, 5, 44_000);
    let second = calculate_price_and_fees(123_456_789, 125, 5, 44_000);
    assert_eq!(first, second);
}

#[test]
fn fee_components_truncate() {
    // amount = 12345 * 100 / 1_000_000 = 1; protocol fee = 1 * 9999 / 10_000 = 0;
    // settlement = 3 * 500 / 1000 = 1.
    let quote = calculate_price_and_fees(12_345, 9_999, 3, 500);
    assert_eq!(quote.amount, 1);
    assert_eq!(quote.fee, 1);
}

#[test]
fn zero_fee_and_zero_cost() {
    let quote = calculate_price_and_fees(2_000_000, 0, 0, 0);
    assert_eq!(quote.amount, 200);
    assert_eq!(quote.fee, 0);
}

#[test]
fn primary_precheck_quotes_fixed_price() {
    let ticket_type = TicketTypeRecord { sale_type: SaleKind::FixedPrice { price: 10_000_000 } };
    // Mint cost is 7 native units; at spot price 100,000 that is 700.
    let r = pre_primary_purchase_checks(&ticket_type, 250, 100_000);
    let quote = r.expect("fixed price sale must be quoted");
    assert_eq!(quote.amount, 1000);
    assert_eq!(quote.fee, 725);
}

#[test]
fn primary_precheck_rejects_other_sale_kinds() {
    let ticket_type = TicketTypeRecord { sale_type: SaleKind::Other };
    let r = pre_primary_purchase_checks(&ticket_type, 250, 100_000);
    assert_eq!(r, Err(SoftError::UnsupportedSaleType));
}

#[test]
fn primary_precheck_rejects_unquotable_price() {
    let ticket_type = TicketTypeRecord { sale_type: SaleKind::FixedPrice { price: i64::MAX } };
    let r = pre_primary_purchase_checks(&ticket_type, 250, 100_000);
    assert_eq!(r, Err(SoftError::UnsupportedSaleType));
    let negative = TicketTypeRecord { sale_type: SaleKind::FixedPrice { price: -1 } };
    let r = pre_primary_purchase_checks(&negative, 250, 100_000);
    assert_eq!(r, Err(SoftError::UnsupportedSaleType));
}

fn secondary_params(cnt: &str) -> PrePurchaseChecksParams {
    PrePurchaseChecksParams::Secondary {
        listing_sui_address: "0xlisting".to_string(),
        cnt_sui_address: cnt.to_string(),
    }
}

#[test]
fn secondary_precheck_quotes_listing() {
    let listing =
        ListingRecord { cnt_sui_address: "0xcnt".to_string(), ask_price: 30_000_000 };
    // Fill cost is 5 native units; at spot price 100,000 that is 500.
    let r = pre_secondary_purchase_checks(&secondary_params("0xcnt"), &listing, 100, 100_000);
    let quote = r.expect("open listing must be quoted");
    assert_eq!(quote.amount, 3000);
    assert_eq!(quote.fee, 530);
}

#[test]
fn secondary_precheck_rejects_mismatched_token() {
    let listing =
        ListingRecord { cnt_sui_address: "0xcnt".to_string(), ask_price: 30_000_000 };
    let r = pre_secondary_purchase_checks(&secondary_params("0xother"), &listing, 100, 100_000);
    assert_eq!(r, Err(SoftError::InvalidResourceToken));
}

#[test]
fn secondary_precheck_rejects_unquotable_ask() {
    let listing = ListingRecord { cnt_sui_address: "0xcnt".to_string(), ask_price: -5 };
    let r = pre_secondary_purchase_checks(&secondary_params("0xcnt"), &listing, 100, 100_000);
    assert_eq!(r, Err(SoftError::ListingUnavailable));
}
