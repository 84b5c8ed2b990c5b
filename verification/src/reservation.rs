//! The ledger reservation policy.
//!
//! A reservation record on the ledger holds a resource for one recipient
//! until a slot deadline. Before submitting a reservation-writing
//! transaction the client reads the current record and decides: an absent or
//! expired record is safe to write over; an unexpired record held by the
//! same recipient is refreshed-by-no-op (the request is a legitimate retry
//! of the same purchase, success is returned without a new transaction); an
//! unexpired record held by a different recipient must not be silently
//! overwritten.

use vstd::prelude::*;

verus! {

/// Assumed slot time of the ledger, in milliseconds, with margin over the
/// ideal value.
pub const SLOT_TIME_MS: u64 = 600;

/// The purchase window a reservation must cover, in milliseconds.
pub const RESERVATION_WINDOW_MS: u64 = 1_800_000;

/// The purchase window expressed in ledger slots.
pub const RESERVATION_WINDOW_SLOTS: u64 = RESERVATION_WINDOW_MS / SLOT_TIME_MS;

/// A reservation record as read from the ledger.
#[derive(Clone, Debug)]
pub struct ReservationRecord {
    /// The last slot at which the reservation still holds.
    pub valid_until: u64,
    /// The recipient the resource is held for.
    pub recipient: String,
}

/// What to do about a reservation read.
#[derive(Clone, Copy, PartialEq, Eq, Structural, Debug)]
pub enum ReserveDecision {
    /// Submit a reservation-writing transaction with a fresh window.
    Submit,
    /// The resource is already reserved for this recipient and the window
    /// still runs: succeed without a new transaction.
    SkipStillReserved,
    /// The resource is reserved for someone else and the window still runs:
    /// do not overwrite.
    HeldByOther,
}

/// A record is expired once the ledger's current slot has passed its
/// deadline.
pub open spec fn spec_reservation_expired(record: ReservationRecord, latest_slot: u64) -> bool {
    latest_slot > record.valid_until
}

/// The reservation policy: write over absent or expired records, treat an
/// unexpired record of the same recipient as an idempotent success, and
/// never overwrite an unexpired record of a different recipient.
pub open spec fn spec_reserve_decision(
    existing: Option<ReservationRecord>,
    latest_slot: u64,
    recipient: Seq<char>,
) -> ReserveDecision {
    match existing {
        Option::None => ReserveDecision::Submit,
        Option::Some(record) => {
            if spec_reservation_expired(record, latest_slot) {
                ReserveDecision::Submit
            } else if record.recipient@ == recipient {
                ReserveDecision::SkipStillReserved
            } else {
                ReserveDecision::HeldByOther
            }
        },
    }
}

/// Decides whether the read reservation record lets this purchase write a
/// fresh reservation for `recipient`, given the ledger's current slot.
pub fn reserve_decision(
    existing: Option<&ReservationRecord>,
    latest_slot: u64,
    recipient: &str,
) -> (d: ReserveDecision)
    ensures
        d == spec_reserve_decision(
            match existing {
                Option::None => Option::None,
                Option::Some(record) => Option::Some(*record),
            },
            latest_slot,
            recipient@,
        ),
{
    match existing {
        Option::None => ReserveDecision::Submit,
        Option::Some(record) => {
            if latest_slot > record.valid_until {
                ReserveDecision::Submit
            } else {
                let same = record.recipient.eq(&recipient.to_owned());
                if same {
                    ReserveDecision::SkipStillReserved
                } else {
                    ReserveDecision::HeldByOther
                }
            }
        },
    }
}

} // verus!
