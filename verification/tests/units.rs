use fiat_checkout_manager::config::Config;
use fiat_checkout_manager::decimal::u64_to_dec_string;
use fiat_checkout_manager::errors::{is_custom_error, SoftError};
use fiat_checkout_manager::gateway::{primary_payment_metadata, secondary_payment_metadata};
use fiat_checkout_manager::messages::{
    CheckoutSession, CheckoutSessionResult, CreatePayment, PaymentIntent, PaymentSecret,
};
use fiat_checkout_manager::reservation::{
    reserve_decision, ReservationRecord, ReserveDecision, RESERVATION_WINDOW_SLOTS,
};
use fiat_checkout_manager::retry::{should_retry, RetryPolicy};

#[test]
fn renders_decimals() {
    assert_eq!(u64_to_dec_string(0), "0");
    assert_eq!(u64_to_dec_string(7), "7");
    assert_eq!(u64_to_dec_string(10), "10");
    assert_eq!(u64_to_dec_string(255), "255");
    assert_eq!(u64_to_dec_string(1_000_000), "1000000");
    assert_eq!(u64_to_dec_string(u64::MAX), "18446744073709551615");
}

#[test]
fn recognizes_business_rejection_messages() {
    assert!(is_custom_error("Ticket unavailable"));
    assert!(is_custom_error("Invalid ticket_nft"));
    assert!(is_custom_error("Only fixed price ticket types are supported"));
    assert!(is_custom_error("Listing unavailable"));
    assert!(!is_custom_error("connection reset by peer"));
    assert!(!is_custom_error("Ticket unavailable "));
    assert!(!is_custom_error(""));
}

#[test]
fn soft_error_reason_codes() {
    assert_eq!(SoftError::ResourceUnavailable.reason(), "ResourceUnavailable");
    assert_eq!(SoftError::InvalidResourceToken.reason(), "InvalidResourceToken");
    assert_eq!(SoftError::UnsupportedSaleType.reason(), "UnsupportedSaleType");
    assert_eq!(SoftError::ListingUnavailable.reason(), "ListingUnavailable");
}

#[test]
fn retry_policy_bounds_attempts() {
    let policy = RetryPolicy::default_policy();
    assert_eq!(policy.max_attempts, 3);
    assert!(should_retry(&policy, 1, true));
    assert!(should_retry(&policy, 2, true));
    assert!(!should_retry(&policy, 3, true));
    // A non-transient error is never retried.
    assert!(!should_retry(&policy, 1, false));
}

#[test]
fn missing_reservation_is_written() {
    assert_eq!(reserve_decision(None, 100, "alice"), ReserveDecision::Submit);
}

#[test]
fn expired_reservation_is_refreshed() {
    let record = ReservationRecord { valid_until: 99, recipient: "bob".to_string() };
    assert_eq!(reserve_decision(Some(&record), 100, "alice"), ReserveDecision::Submit);
    let own = ReservationRecord { valid_until: 99, recipient: "alice".to_string() };
    assert_eq!(reserve_decision(Some(&own), 100, "alice"), ReserveDecision::Submit);
}

#[test]
fn unexpired_reservation_of_same_recipient_is_a_no_op() {
    let record = ReservationRecord { valid_until: 100, recipient: "alice".to_string() };
    assert_eq!(
        reserve_decision(Some(&record), 100, "alice"),
        ReserveDecision::SkipStillReserved
    );
}

#[test]
fn unexpired_reservation_of_other_recipient_is_not_overwritten() {
    let record = ReservationRecord { valid_until: 200, recipient: "bob".to_string() };
    assert_eq!(reserve_decision(Some(&record), 100, "alice"), ReserveDecision::HeldByOther);
}

#[test]
fn reservation_window_covers_the_purchase_duration() {
    // Thirty minutes of 600 ms slots.
    assert_eq!(RESERVATION_WINDOW_SLOTS, 3000);
}

#[test]
fn primary_metadata_reconstructs_the_purchase_context() {
    let m = primary_payment_metadata("buyer-9", "event-3", 2, "addr-1", 17, "17");
    let expected = [
        ("sale_type", "primary"),
        ("buyer_uid", "buyer-9"),
        ("event_id", "event-3"),
        ("ticket_type_index", "2"),
        ("recipient", "addr-1"),
        ("seat_index", "17"),
        ("seat_name", "17"),
    ];
    assert_eq!(m.len(), expected.len());
    for ((key, value), (expected_key, expected_value)) in m.iter().zip(expected.iter()) {
        assert_eq!(key, expected_key);
        assert_eq!(value, expected_value);
    }
}

#[test]
fn secondary_metadata_reconstructs_the_purchase_context() {
    let m = secondary_payment_metadata(
        "buyer-9",
        "event-3",
        17,
        "0xcnt",
        200,
        "addr-1",
        "0xlisting",
    );
    let expected = [
        ("sale_type", "secondary"),
        ("buyer_uid", "buyer-9"),
        ("event_id", "event-3"),
        ("seat_index", "17"),
        ("cnt_sui_address", "0xcnt"),
        ("ticket_type_index", "200"),
        ("recipient", "addr-1"),
        ("listing_sui_address", "0xlisting"),
    ];
    assert_eq!(m.len(), expected.len());
    for ((key, value), (expected_key, expected_value)) in m.iter().zip(expected.iter()) {
        assert_eq!(key, expected_key);
        assert_eq!(value, expected_value);
    }
}

#[test]
fn primary_accessor_returns_the_fields() {
    let msg = CreatePayment::Primary {
        ws_session_id: "ws-1".to_string(),
        buyer_uid: "buyer-9".to_string(),
        event_id: "event-3".to_string(),
        ticket_type_index: 2,
        recipient: "addr-1".to_string(),
    };
    let (ws, buyer, event, tti, recipient) = msg.primary();
    assert_eq!(ws, "ws-1");
    assert_eq!(buyer, "buyer-9");
    assert_eq!(event, "event-3");
    assert_eq!(tti, 2);
    assert_eq!(recipient, "addr-1");
    assert_eq!(msg.ws_session_id(), "ws-1");
}

#[test]
fn secondary_accessor_returns_the_fields() {
    let msg = CreatePayment::Secondary {
        ws_session_id: "ws-2".to_string(),
        buyer_uid: "buyer-8".to_string(),
        event_id: "event-5".to_string(),
        ticket_type_index: 1,
        recipient: "addr-2".to_string(),
        seat_index: 33,
        cnt_sui_address: "0xcnt".to_string(),
        listing_sui_address: "0xlisting".to_string(),
    };
    let (ws, buyer, event, tti, recipient, seat, cnt, listing) = msg.secondary();
    assert_eq!(ws, "ws-2");
    assert_eq!(buyer, "buyer-8");
    assert_eq!(event, "event-5");
    assert_eq!(tti, 1);
    assert_eq!(recipient, "addr-2");
    assert_eq!(seat, 33);
    assert_eq!(cnt, "0xcnt");
    assert_eq!(listing, "0xlisting");
    assert_eq!(msg.ws_session_id(), "ws-2");
}

#[test]
fn payment_intent_carries_session_and_secret() {
    let intent = PaymentIntent {
        ws_session_id: "ws-1".to_string(),
        payment_secret: PaymentSecret::Issued("cs_1".to_string()),
    };
    assert_eq!(intent.ws_session_id, "ws-1");
    assert!(matches!(intent.payment_secret, PaymentSecret::Issued(ref s) if s == "cs_1"));
}

#[test]
fn checkout_session_carries_session_and_result() {
    let session = CheckoutSession {
        ws_session_id: "ws-7".to_string(),
        checkout_session_id: CheckoutSessionResult::Issued("cs_live_1".to_string()),
    };
    assert_eq!(session.ws_session_id, "ws-7");
    assert!(matches!(
        session.checkout_session_id,
        CheckoutSessionResult::Issued(ref s) if s == "cs_live_1"
    ));
    let refused = CheckoutSession {
        ws_session_id: "ws-8".to_string(),
        checkout_session_id: CheckoutSessionResult::Rejected("ListingUnavailable".to_string()),
    };
    assert!(matches!(
        refused.checkout_session_id,
        CheckoutSessionResult::Rejected(ref s) if s == "ListingUnavailable"
    ));
}

#[test]
fn config_fee_range_check() {
    let mut config = Config {
        postgres_uri: String::new(),
        rabbitmq_uri: String::new(),
        retry_ttl: 0,
        redis_host: String::new(),
        redis_port: 0,
        redis_password: String::new(),
        sui_rpc: String::new(),
        ticketland_dapp: String::new(),
        stripe_key: String::new(),
        ticket_purchase_protocol_fee: 250,
        secondary_market_protocol_fee: 100,
        operator_priv_key: String::new(),
    };
    assert!(config.fees_in_range());
    config.ticket_purchase_protocol_fee = 10_001;
    assert!(!config.fees_in_range());
    config.ticket_purchase_protocol_fee = 250;
    config.secondary_market_protocol_fee = -1;
    assert!(!config.fees_in_range());
}
