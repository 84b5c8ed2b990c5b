//! The pipeline's error taxonomy.
//!
//! A *soft* error is a business rejection: the inbound command is
//! acknowledged and the buyer receives a structured negative answer. A
//! *transient* failure is surfaced to the broker for redelivery, and a
//! *fatal* failure is surfaced for alerting; neither reaches the buyer as a
//! result payload.

use vstd::prelude::*;

verus! {

/// A business rejection, answered to the buyer instead of being retried.
#[derive(Clone, Copy, PartialEq, Eq, Structural, Debug)]
pub enum SoftError {
    /// The resource already carries an unexpired purchase-in-progress marker.
    ResourceUnavailable,
    /// The supplied resource token does not match the one on record.
    InvalidResourceToken,
    /// The sale is not a fixed-price sale.
    UnsupportedSaleType,
    /// The resale listing is no longer open.
    ListingUnavailable,
}

impl SoftError {
    /// The reason code published with a negative result.
    pub open spec fn spec_reason(self) -> Seq<char> {
        match self {
            SoftError::ResourceUnavailable => "ResourceUnavailable"@,
            SoftError::InvalidResourceToken => "InvalidResourceToken"@,
            SoftError::UnsupportedSaleType => "UnsupportedSaleType"@,
            SoftError::ListingUnavailable => "ListingUnavailable"@,
        }
    }

    /// The reason code as a value to publish.
    pub fn reason(&self) -> (s: String)
        ensures
            s@ == self.spec_reason(),
    {
        match self {
            SoftError::ResourceUnavailable => "ResourceUnavailable".to_owned(),
            SoftError::InvalidResourceToken => "InvalidResourceToken".to_owned(),
            SoftError::UnsupportedSaleType => "UnsupportedSaleType".to_owned(),
            SoftError::ListingUnavailable => "ListingUnavailable".to_owned(),
        }
    }
}

/// An infrastructure failure that redelivery may cure.
#[derive(Clone, Copy, PartialEq, Eq, Structural, Debug)]
pub enum TransientKind {
    /// The distributed lock on the resource could not be acquired.
    LockUnavailable,
    /// A store, cache or ledger connection failed.
    ConnectionFailed,
    /// A non-final pipeline step exceeded its timeout.
    StepTimedOut,
    /// The result could not be handed to the outbound channel.
    PublishFailed,
}

/// A failure that redelivery will not cure; it should raise an alert.
#[derive(Clone, Copy, PartialEq, Eq, Structural, Debug)]
pub enum FatalKind {
    /// The gateway step exceeded its timeout; partial gateway state may leak.
    GatewayTimedOut,
    /// The bounded reservation retry was exhausted.
    RetryExhausted,
    /// The ledger rejected the reservation outright.
    ReservationRejected,
}

/// A pipeline failure that never reaches the buyer as a result payload.
#[derive(Clone, Copy, PartialEq, Eq, Structural, Debug)]
pub enum PipelineFailure {
    Transient(TransientKind),
    Fatal(FatalKind),
}

/// Recognizes the error messages that stand for a business rejection rather
/// than an infrastructure fault: a message equal to one of these four is
/// acknowledged and answered, any other message is redelivered.
pub fn is_custom_error(error: &str) -> (r: bool)
    ensures
        r == (error@ == "Ticket unavailable"@ || error@ == "Invalid ticket_nft"@
            || error@ == "Only fixed price ticket types are supported"@
            || error@ == "Listing unavailable"@),
{
    let e = error.to_owned();
    e == "Ticket unavailable".to_owned() || e == "Invalid ticket_nft".to_owned()
        || e == "Only fixed price ticket types are supported".to_owned()
        || e == "Listing unavailable".to_owned()
}

} // verus!
