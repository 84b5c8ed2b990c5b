//! Inbound commands and outbound results of the purchase pipeline.
//!
//! A `CreatePayment` command names the buyer, the sale and the resource to
//! purchase; the pipeline answers with a `PaymentIntent` carrying either the
//! gateway's client secret or a structured rejection reason. The checkout
//! variants of the same exchange use `CheckoutSession`.

use vstd::prelude::*;

verus! {

/// A purchase command. `Primary` buys a fresh seat of a fixed-price sale;
/// `Secondary` fills an existing resale listing.
#[derive(PartialEq, Debug)]
pub enum CreatePayment {
    Primary {
        ws_session_id: String,
        buyer_uid: String,
        event_id: String,
        ticket_type_index: u8,
        recipient: String,
    },
    Secondary {
        ws_session_id: String,
        buyer_uid: String,
        event_id: String,
        ticket_type_index: u8,
        recipient: String,
        seat_index: u32,
        cnt_sui_address: String,
        listing_sui_address: String,
    },
}

impl CreatePayment {
    /// The fields of a primary purchase command, in declaration order.
    pub fn primary(&self) -> (r: (&str, &str, &str, u8, &str))
        requires
            self is Primary,
        ensures
            match *self {
                CreatePayment::Primary {
                    ws_session_id,
                    buyer_uid,
                    event_id,
                    ticket_type_index,
                    recipient,
                } => {
                    &&& r.0@ == ws_session_id@
                    &&& r.1@ == buyer_uid@
                    &&& r.2@ == event_id@
                    &&& r.3 == ticket_type_index
                    &&& r.4@ == recipient@
                },
                _ => false,
            },
    {
        match self {
            CreatePayment::Primary {
                ws_session_id,
                buyer_uid,
                event_id,
                ticket_type_index,
                recipient,
            } => (
                ws_session_id.as_str(),
                buyer_uid.as_str(),
                event_id.as_str(),
                *ticket_type_index,
                recipient.as_str(),
            ),
            CreatePayment::Secondary { .. } => {
                proof {
                    assert(false);
                }
                ("", "", "", 0, "")
            },
        }
    }

    /// The fields of a secondary (listing-fill) purchase command, in
    /// declaration order.
    pub fn secondary(&self) -> (r: (&str, &str, &str, u8, &str, u32, &str, &str))
        requires
            self is Secondary,
        ensures
            match *self {
                CreatePayment::Secondary {
                    ws_session_id,
                    buyer_uid,
                    event_id,
                    ticket_type_index,
                    recipient,
                    seat_index,
                    cnt_sui_address,
                    listing_sui_address,
                } => {
                    &&& r.0@ == ws_session_id@
                    &&& r.1@ == buyer_uid@
                    &&& r.2@ == event_id@
                    &&& r.3 == ticket_type_index
                    &&& r.4@ == recipient@
                    &&& r.5 == seat_index
                    &&& r.6@ == cnt_sui_address@
                    &&& r.7@ == listing_sui_address@
                },
                _ => false,
            },
    {
        match self {
            CreatePayment::Secondary {
                ws_session_id,
                buyer_uid,
                event_id,
                ticket_type_index,
                recipient,
                seat_index,
                cnt_sui_address,
                listing_sui_address,
            } => (
                ws_session_id.as_str(),
                buyer_uid.as_str(),
                event_id.as_str(),
                *ticket_type_index,
                recipient.as_str(),
                *seat_index,
                cnt_sui_address.as_str(),
                listing_sui_address.as_str(),
            ),
            CreatePayment::Primary { .. } => {
                proof {
                    assert(false);
                }
                ("", "", "", 0, "", 0, "", "")
            },
        }
    }

    /// The websocket session that the answer must be keyed by; both variants
    /// carry one.
    pub fn ws_session_id(&self) -> (r: &str)
        ensures
            r@ == self.spec_ws_session_id(),
    {
        match self {
            CreatePayment::Primary { ws_session_id, .. } => ws_session_id.as_str(),
            CreatePayment::Secondary { ws_session_id, .. } => ws_session_id.as_str(),
        }
    }

    /// The session identifier of either variant.
    pub open spec fn spec_ws_session_id(self) -> Seq<char> {
        match self {
            CreatePayment::Primary { ws_session_id, .. } => ws_session_id@,
            CreatePayment::Secondary { ws_session_id, .. } => ws_session_id@,
        }
    }

    /// The event identifier of either variant.
    pub open spec fn spec_event_id(self) -> Seq<char> {
        match self {
            CreatePayment::Primary { event_id, .. } => event_id@,
            CreatePayment::Secondary { event_id, .. } => event_id@,
        }
    }
}

/// The positive or negative payload of a payment answer: the gateway's
/// client secret on success, a reason code on a business rejection.
#[derive(Debug)]
pub enum PaymentSecret {
    Issued(String),
    Rejected(String),
}

/// The outbound answer to a `CreatePayment` command.
#[derive(Debug)]
pub struct PaymentIntent {
    pub ws_session_id: String,
    pub payment_secret: PaymentSecret,
}

/// The positive or negative payload of a checkout answer: the gateway's
/// checkout-session identifier on success, a reason code otherwise.
#[derive(Debug)]
pub enum CheckoutSessionResult {
    Issued(String),
    Rejected(String),
}

/// The outbound answer to a checkout command.
#[derive(Debug)]
pub struct CheckoutSession {
    pub ws_session_id: String,
    pub checkout_session_id: CheckoutSessionResult,
}

} // verus!
