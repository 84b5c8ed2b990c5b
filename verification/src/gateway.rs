//! Gateway payment metadata.
//!
//! The payment intent must carry enough metadata that the asynchronous
//! confirmation webhook can reconstruct the full purchase context without
//! re-querying the originating request: the sale type, the buyer, the event
//! and resource identifiers, and the seat or listing identifiers. These
//! builders pin down exactly which keys are attached and what each value
//! holds; numeric fields are rendered in decimal.

use vstd::prelude::*;

use crate::decimal::{spec_dec_rep, u64_to_dec_string};

verus! {

/// The metadata attached to a primary-sale payment intent: seven pairs
/// naming the sale type, buyer, event, ticket type, recipient and seat.
pub fn primary_payment_metadata(
    buyer_uid: &str,
    event_id: &str,
    ticket_type_index: u8,
    recipient: &str,
    seat_index: u32,
    seat_name: &str,
) -> (m: Vec<(String, String)>)
    ensures
        m@.len() == 7,
        m@[0].0@ == "sale_type"@ && m@[0].1@ == "primary"@,
        m@[1].0@ == "buyer_uid"@ && m@[1].1@ == buyer_uid@,
        m@[2].0@ == "event_id"@ && m@[2].1@ == event_id@,
        m@[3].0@ == "ticket_type_index"@ && m@[3].1@ == spec_dec_rep(ticket_type_index as nat),
        m@[4].0@ == "recipient"@ && m@[4].1@ == recipient@,
        m@[5].0@ == "seat_index"@ && m@[5].1@ == spec_dec_rep(seat_index as nat),
        m@[6].0@ == "seat_name"@ && m@[6].1@ == seat_name@,
{
    let mut m: Vec<(String, String)> = Vec::new();
    m.push(("sale_type".to_owned(), "primary".to_owned()));
    m.push(("buyer_uid".to_owned(), buyer_uid.to_owned()));
    m.push(("event_id".to_owned(), event_id.to_owned()));
    m.push(("ticket_type_index".to_owned(), u64_to_dec_string(ticket_type_index as u64)));
    m.push(("recipient".to_owned(), recipient.to_owned()));
    m.push(("seat_index".to_owned(), u64_to_dec_string(seat_index as u64)));
    m.push(("seat_name".to_owned(), seat_name.to_owned()));
    m
}

/// The metadata attached to a secondary-sale payment intent: eight pairs
/// naming the sale type, buyer, event, seat, ticket token, ticket type,
/// recipient and listing.
pub fn secondary_payment_metadata(
    buyer_uid: &str,
    event_id: &str,
    seat_index: u32,
    cnt_sui_address: &str,
    ticket_type_index: u8,
    recipient: &str,
    listing_sui_address: &str,
) -> (m: Vec<(String, String)>)
    ensures
        m@.len() == 8,
        m@[0].0@ == "sale_type"@ && m@[0].1@ == "secondary"@,
        m@[1].0@ == "buyer_uid"@ && m@[1].1@ == buyer_uid@,
        m@[2].0@ == "event_id"@ && m@[2].1@ == event_id@,
        m@[3].0@ == "seat_index"@ && m@[3].1@ == spec_dec_rep(seat_index as nat),
        m@[4].0@ == "cnt_sui_address"@ && m@[4].1@ == cnt_sui_address@,
        m@[5].0@ == "ticket_type_index"@ && m@[5].1@ == spec_dec_rep(ticket_type_index as nat),
        m@[6].0@ == "recipient"@ && m@[6].1@ == recipient@,
        m@[7].0@ == "listing_sui_address"@ && m@[7].1@ == listing_sui_address@,
{
    let mut m: Vec<(String, String)> = Vec::new();
    m.push(("sale_type".to_owned(), "secondary".to_owned()));
    m.push(("buyer_uid".to_owned(), buyer_uid.to_owned()));
    m.push(("event_id".to_owned(), event_id.to_owned()));
    m.push(("seat_index".to_owned(), u64_to_dec_string(seat_index as u64)));
    m.push(("cnt_sui_address".to_owned(), cnt_sui_address.to_owned()));
    m.push(("ticket_type_index".to_owned(), u64_to_dec_string(ticket_type_index as u64)));
    m.push(("recipient".to_owned(), recipient.to_owned()));
    m.push(("listing_sui_address".to_owned(), listing_sui_address.to_owned()));
    m
}

} // verus!
