//! The reservation-locked purchase pipeline, as an explicit state machine.
//!
//! One `Coordinator` value handles one inbound purchase command. The machine
//! asks its driver to perform one external effect at a time — acquire the
//! per-resource lock, check the idempotency marker, run the pre-purchase
//! checks, reserve the resource on the ledger, create the gateway intent,
//! write the marker, release the lock, publish the result — and the driver
//! answers with the step's outcome as an [`Event`]. Every decision of the
//! pipeline is taken here, over plain values; the driver performs I/O and
//! nothing else.
//!
//! The well-formedness invariant [`Coordinator::wf`] carries the pipeline's
//! safety properties: external writes happen only while the lock is held,
//! an idempotency hit short-circuits before any ledger or gateway call, the
//! lock is released exactly once on every path that acquired it, and a fatal
//! failure never leaves a purchase-in-progress marker behind.

use vstd::prelude::*;

use crate::errors::{FatalKind, PipelineFailure, SoftError, TransientKind};
use crate::messages::{PaymentIntent, PaymentSecret};
use crate::retry::{spec_retry_allowed, should_retry, RetryPolicy};

verus! {

/// Lock TTL: the full pipeline timeout budget, with margin.
pub const LOCK_TTL_MS: u64 = 15_000;

/// Timeout of the pre-check step (store reads and price computation).
pub const PRECHECK_TIMEOUT_MS: u64 = 5_000;

/// Timeout of each gateway sub-call.
pub const GATEWAY_TIMEOUT_MS: u64 = 2_000;

/// Idempotency-marker TTL: the purchase window plus a one-minute margin, so
/// an abandoned purchase frees the resource while an in-flight one stays
/// protected.
pub const MARKER_TTL_SECS: u64 = 360;

/// Where the pipeline stands: which external effect it is waiting on.
#[derive(Clone, Copy, PartialEq, Eq, Structural, Debug)]
pub enum Step {
    Start,
    AwaitLock,
    AwaitMarkerCheck,
    AwaitPrecheck,
    AwaitReservation,
    AwaitGateway,
    AwaitMarkerWrite,
    AwaitRelease,
    AwaitPublish,
    Done,
}

/// What the driver reports back after performing the requested effect.
#[derive(Debug)]
pub enum Event {
    /// The distributed lock on the resource key was acquired.
    LockAcquired,
    /// The lock is held elsewhere or the lock service failed.
    LockUnavailable,
    /// An unexpired purchase-in-progress marker exists for the resource.
    MarkerPresent,
    /// No unexpired marker exists.
    MarkerAbsent,
    /// Pre-checks passed and produced the quote, in minor currency units.
    PrecheckPassed { amount: i64, fee: i64 },
    /// Pre-checks rejected the purchase for a business reason.
    PrecheckRejected { reason: SoftError },
    /// The pre-check step exceeded its timeout.
    PrecheckTimedOut,
    /// The store or price cache could not be reached.
    PrecheckInfraFailed,
    /// The ledger accepted the reservation (or it was a valid no-op).
    ReservationAccepted,
    /// The reservation attempt failed; `transient` tells whether another
    /// attempt could succeed.
    ReservationFailed { transient: bool },
    /// The gateway created the intent and returned its client secret.
    GatewayCreated { secret: String },
    /// A gateway sub-call exceeded its timeout.
    GatewayTimedOut,
    /// The gateway could not be reached or rejected the call.
    GatewayFailed,
    /// The idempotency marker was written with its TTL.
    MarkerStored,
    /// The marker write failed; no marker exists.
    MarkerStoreFailed,
    /// The lock was released.
    LockReleased,
    /// The result was handed to the outbound channel.
    ResultPublished,
    /// The outbound channel refused the result.
    PublishFailed,
}

/// The next external effect the driver must perform.
#[derive(Debug)]
pub enum Action {
    /// Acquire the distributed lock on the resource key with this TTL.
    AcquireLock { event_id: String, seat_index: u32, ttl_ms: u64 },
    /// Test the idempotency marker for the resource key.
    CheckMarker { event_id: String, seat_index: u32 },
    /// Run the pre-purchase checks and price computation under this timeout.
    RunPrechecks { timeout_ms: u64 },
    /// Submit (or refresh) the ledger reservation; `attempt` counts from 1.
    SubmitReservation { attempt: u32 },
    /// Create the gateway payment intent for this amount and fee.
    CreateIntent { amount: i64, fee: i64, timeout_ms: u64 },
    /// Write the purchase-in-progress marker with this TTL.
    StoreMarker { event_id: String, seat_index: u32, ttl_secs: u64 },
    /// Release the distributed lock.
    ReleaseLock,
    /// Emit the result on the outbound channel.
    Publish { result: PaymentIntent },
    /// The pipeline is finished; read the outcome.
    Complete,
}

/// How the pipeline ended.
#[derive(Debug)]
pub enum PipelineOutcome {
    /// The gateway intent exists and the marker is written; the buyer
    /// receives the client secret.
    Success { secret: String },
    /// A business rejection; the buyer receives the reason code.
    Rejected { reason: SoftError },
    /// An infrastructure or fatal failure; nothing reaches the buyer, the
    /// broker redelivers or alerts.
    Abort { failure: PipelineFailure },
}

/// The pipeline state machine for one purchase command.
#[derive(Debug)]
pub struct Coordinator {
    /// Session the eventual result is keyed by.
    pub session_id: String,
    /// Event part of the resource key.
    pub event_id: String,
    /// Seat part of the resource key.
    pub seat_index: u32,
    /// Retry policy of the reservation step.
    pub policy: RetryPolicy,
    /// Current position in the pipeline.
    pub step: Step,
    /// Whether the lock was ever acquired.
    pub lock_acquired: bool,
    /// How many times a release was requested.
    pub releases: u32,
    /// How many reservation submissions were requested.
    pub reserve_attempts: u32,
    /// How many gateway intent creations were requested.
    pub gateway_calls: u32,
    /// Whether the idempotency marker was written.
    pub marker_written: bool,
    /// The quoted amount, once the pre-checks passed.
    pub quote_amount: i64,
    /// The quoted fee, once the pre-checks passed.
    pub quote_fee: i64,
    /// The gateway's client secret, once the intent exists.
    pub gateway_secret: Option<String>,
    /// The final outcome, once decided.
    pub outcome: Option<PipelineOutcome>,
}

impl Coordinator {
    /// The resource key this pipeline instance locks and reserves.
    pub open spec fn spec_resource_key(self) -> (Seq<char>, u32) {
        (self.event_id@, self.seat_index)
    }

    /// The steps in which the pipeline may still ask for a ledger write or
    /// a gateway call: its critical section with respect to the resource.
    pub open spec fn in_critical_section(self) -> bool {
        ||| self.step is AwaitMarkerCheck
        ||| self.step is AwaitPrecheck
        ||| self.step is AwaitReservation
        ||| self.step is AwaitGateway
        ||| self.step is AwaitMarkerWrite
    }

    /// An outcome that is answered to the buyer (success or a business
    /// rejection), as opposed to one surfaced to the broker.
    pub open spec fn outcome_publishable(self) -> bool {
        ||| self.outcome matches Some(PipelineOutcome::Success { .. })
        ||| self.outcome matches Some(PipelineOutcome::Rejected { .. })
    }

    /// Well-formedness: every state the machine can reach satisfies this.
    pub open spec fn wf(self) -> bool {
        &&& self.policy.wf()
        &&& self.releases <= 1
        &&& self.gateway_calls <= 1
        &&& self.reserve_attempts <= self.policy.max_attempts
        &&& (!self.lock_acquired ==> self.releases == 0)
        &&& ((self.step is Start || self.step is AwaitLock) ==> (!self.lock_acquired
            && self.reserve_attempts == 0 && self.gateway_calls == 0 && !self.marker_written
            && self.outcome is None))
        &&& (self.in_critical_section() ==> (self.lock_acquired && self.releases == 0
            && self.outcome is None))
        &&& ((self.step is AwaitMarkerCheck || self.step is AwaitPrecheck) ==> (
            self.reserve_attempts == 0 && self.gateway_calls == 0 && !self.marker_written))
        &&& (self.step is AwaitReservation ==> (1 <= self.reserve_attempts
            && self.gateway_calls == 0 && !self.marker_written))
        &&& (self.step is AwaitGateway ==> (self.gateway_calls == 1 && !self.marker_written))
        &&& (self.step is AwaitMarkerWrite ==> (self.gateway_calls == 1 && !self.marker_written
            && self.gateway_secret is Some))
        &&& (self.step is AwaitRelease ==> (self.lock_acquired && self.releases == 0
            && self.outcome is Some))
        &&& (self.step is AwaitPublish ==> (self.lock_acquired && self.releases == 1
            && self.outcome_publishable()))
        &&& (self.step is Done ==> (self.outcome is Some
            && (self.lock_acquired ==> self.releases == 1)
            && (!self.lock_acquired ==> self.releases == 0)))
        &&& (self.outcome matches Some(PipelineOutcome::Rejected {
            reason: SoftError::ResourceUnavailable }) ==> (self.reserve_attempts == 0
            && self.gateway_calls == 0 && !self.marker_written))
        &&& (self.outcome matches Some(PipelineOutcome::Success { .. }) ==> (
            self.marker_written && self.gateway_calls == 1))
        &&& (self.outcome matches Some(PipelineOutcome::Abort {
            failure: PipelineFailure::Fatal(_) }) ==> !self.marker_written)
    }

    /// Which events are meaningful in the current step: the driver may hand
    /// the machine exactly the outcome of the effect it asked for.
    pub open spec fn spec_expects(self, ev: Event) -> bool {
        match (self.step, ev) {
            (Step::AwaitLock, Event::LockAcquired) => true,
            (Step::AwaitLock, Event::LockUnavailable) => true,
            (Step::AwaitMarkerCheck, Event::MarkerPresent) => true,
            (Step::AwaitMarkerCheck, Event::MarkerAbsent) => true,
            (Step::AwaitPrecheck, Event::PrecheckPassed { .. }) => true,
            (Step::AwaitPrecheck, Event::PrecheckRejected { .. }) => true,
            (Step::AwaitPrecheck, Event::PrecheckTimedOut) => true,
            (Step::AwaitPrecheck, Event::PrecheckInfraFailed) => true,
            (Step::AwaitReservation, Event::ReservationAccepted) => true,
            (Step::AwaitReservation, Event::ReservationFailed { .. }) => true,
            (Step::AwaitGateway, Event::GatewayCreated { .. }) => true,
            (Step::AwaitGateway, Event::GatewayTimedOut) => true,
            (Step::AwaitGateway, Event::GatewayFailed) => true,
            (Step::AwaitMarkerWrite, Event::MarkerStored) => true,
            (Step::AwaitMarkerWrite, Event::MarkerStoreFailed) => true,
            (Step::AwaitRelease, Event::LockReleased) => true,
            (Step::AwaitPublish, Event::ResultPublished) => true,
            (Step::AwaitPublish, Event::PublishFailed) => true,
            _ => false,
        }
    }

    /// The state after handling `ev`, for an expected event.
    pub open spec fn spec_next_state(self, ev: Event) -> Coordinator {
        match (self.step, ev) {
            (Step::AwaitLock, Event::LockAcquired) => Coordinator {
                step: Step::AwaitMarkerCheck,
                lock_acquired: true,
                ..self
            },
            (Step::AwaitLock, Event::LockUnavailable) => Coordinator {
                step: Step::Done,
                outcome: Some(PipelineOutcome::Abort {
                    failure: PipelineFailure::Transient(TransientKind::LockUnavailable),
                }),
                ..self
            },
            (Step::AwaitMarkerCheck, Event::MarkerPresent) => Coordinator {
                step: Step::AwaitRelease,
                outcome: Some(PipelineOutcome::Rejected {
                    reason: SoftError::ResourceUnavailable,
                }),
                ..self
            },
            (Step::AwaitMarkerCheck, Event::MarkerAbsent) => Coordinator {
                step: Step::AwaitPrecheck,
                ..self
            },
            (Step::AwaitPrecheck, Event::PrecheckPassed { amount, fee }) => Coordinator {
                step: Step::AwaitReservation,
                reserve_attempts: 1u32,
                quote_amount: amount,
                quote_fee: fee,
                ..self
            },
            (Step::AwaitPrecheck, Event::PrecheckRejected { reason }) => Coordinator {
                step: Step::AwaitRelease,
                outcome: Some(PipelineOutcome::Rejected { reason }),
                ..self
            },
            (Step::AwaitPrecheck, Event::PrecheckTimedOut) => Coordinator {
                step: Step::AwaitRelease,
                outcome: Some(PipelineOutcome::Abort {
                    failure: PipelineFailure::Transient(TransientKind::StepTimedOut),
                }),
                ..self
            },
            (Step::AwaitPrecheck, Event::PrecheckInfraFailed) => Coordinator {
                step: Step::AwaitRelease,
                outcome: Some(PipelineOutcome::Abort {
                    failure: PipelineFailure::Transient(TransientKind::ConnectionFailed),
                }),
                ..self
            },
            (Step::AwaitReservation, Event::ReservationAccepted) => Coordinator {
                step: Step::AwaitGateway,
                gateway_calls: 1u32,
                ..self
            },
            (Step::AwaitReservation, Event::ReservationFailed { transient }) => {
                if spec_retry_allowed(self.policy, self.reserve_attempts, transient) {
                    Coordinator { reserve_attempts: (self.reserve_attempts + 1) as u32, ..self }
                } else {
                    Coordinator {
                        step: Step::AwaitRelease,
                        outcome: Some(PipelineOutcome::Abort {
                            failure: PipelineFailure::Fatal(
                                if transient {
                                    FatalKind::RetryExhausted
                                } else {
                                    FatalKind::ReservationRejected
                                },
                            ),
                        }),
                        ..self
                    }
                }
            },
            (Step::AwaitGateway, Event::GatewayCreated { secret }) => Coordinator {
                step: Step::AwaitMarkerWrite,
                gateway_secret: Some(secret),
                ..self
            },
            (Step::AwaitGateway, Event::GatewayTimedOut) => Coordinator {
                step: Step::AwaitRelease,
                outcome: Some(PipelineOutcome::Abort {
                    failure: PipelineFailure::Fatal(FatalKind::GatewayTimedOut),
                }),
                ..self
            },
            (Step::AwaitGateway, Event::GatewayFailed) => Coordinator {
                step: Step::AwaitRelease,
                outcome: Some(PipelineOutcome::Abort {
                    failure: PipelineFailure::Transient(TransientKind::ConnectionFailed),
                }),
                ..self
            },
            (Step::AwaitMarkerWrite, Event::MarkerStored) => match self.gateway_secret {
                Some(secret) => Coordinator {
                    step: Step::AwaitRelease,
                    marker_written: true,
                    outcome: Some(PipelineOutcome::Success { secret }),
                    ..self
                },
                None => self,
            },
            (Step::AwaitMarkerWrite, Event::MarkerStoreFailed) => Coordinator {
                step: Step::AwaitRelease,
                outcome: Some(PipelineOutcome::Abort {
                    failure: PipelineFailure::Transient(TransientKind::ConnectionFailed),
                }),
                ..self
            },
            (Step::AwaitRelease, Event::LockReleased) => {
                if self.outcome_publishable() {
                    Coordinator { step: Step::AwaitPublish, releases: 1u32, ..self }
                } else {
                    Coordinator { step: Step::Done, releases: 1u32, ..self }
                }
            },
            (Step::AwaitPublish, Event::ResultPublished) => Coordinator {
                step: Step::Done,
                ..self
            },
            (Step::AwaitPublish, Event::PublishFailed) => Coordinator {
                step: Step::Done,
                outcome: Some(PipelineOutcome::Abort {
                    failure: PipelineFailure::Transient(TransientKind::PublishFailed),
                }),
                ..self
            },
            _ => self,
        }
    }

    /// The effect requested in answer to `ev`, for an expected event. The
    /// only freedom left to the implementation is the representation of the
    /// published rejection reason, which is pinned by its character view.
    pub open spec fn spec_action(self, ev: Event, action: Action) -> bool {
        match (self.step, ev) {
            (Step::AwaitLock, Event::LockAcquired) => action == (Action::CheckMarker {
                event_id: self.event_id,
                seat_index: self.seat_index,
            }),
            (Step::AwaitLock, Event::LockUnavailable) => action is Complete,
            (Step::AwaitMarkerCheck, Event::MarkerPresent) => action is ReleaseLock,
            (Step::AwaitMarkerCheck, Event::MarkerAbsent) => action == (Action::RunPrechecks {
                timeout_ms: PRECHECK_TIMEOUT_MS,
            }),
            (Step::AwaitPrecheck, Event::PrecheckPassed { .. }) => action
                == (Action::SubmitReservation { attempt: 1u32 }),
            (Step::AwaitPrecheck, Event::PrecheckRejected { .. }) => action is ReleaseLock,
            (Step::AwaitPrecheck, Event::PrecheckTimedOut) => action is ReleaseLock,
            (Step::AwaitPrecheck, Event::PrecheckInfraFailed) => action is ReleaseLock,
            (Step::AwaitReservation, Event::ReservationAccepted) => action
                == (Action::CreateIntent {
                amount: self.quote_amount,
                fee: self.quote_fee,
                timeout_ms: GATEWAY_TIMEOUT_MS,
            }),
            (Step::AwaitReservation, Event::ReservationFailed { transient }) => {
                if spec_retry_allowed(self.policy, self.reserve_attempts, transient) {
                    action == (Action::SubmitReservation {
                        attempt: (self.reserve_attempts + 1) as u32,
                    })
                } else {
                    action is ReleaseLock
                }
            },
            (Step::AwaitGateway, Event::GatewayCreated { .. }) => action == (Action::StoreMarker {
                event_id: self.event_id,
                seat_index: self.seat_index,
                ttl_secs: MARKER_TTL_SECS,
            }),
            (Step::AwaitGateway, Event::GatewayTimedOut) => action is ReleaseLock,
            (Step::AwaitGateway, Event::GatewayFailed) => action is ReleaseLock,
            (Step::AwaitMarkerWrite, Event::MarkerStored) => action is ReleaseLock,
            (Step::AwaitMarkerWrite, Event::MarkerStoreFailed) => action is ReleaseLock,
            (Step::AwaitRelease, Event::LockReleased) => match self.outcome {
                Some(PipelineOutcome::Success { secret }) => {
                    &&& action matches Action::Publish { result }
                    &&& result.ws_session_id == self.session_id
                    &&& result.payment_secret matches PaymentSecret::Issued(s)
                    &&& s == secret
                },
                Some(PipelineOutcome::Rejected { reason }) => {
                    &&& action matches Action::Publish { result }
                    &&& result.ws_session_id == self.session_id
                    &&& result.payment_secret matches PaymentSecret::Rejected(s)
                    &&& s@ == reason.spec_reason()
                },
                Some(PipelineOutcome::Abort { .. }) => action is Complete,
                None => true,
            },
            (Step::AwaitPublish, Event::ResultPublished) => action is Complete,
            (Step::AwaitPublish, Event::PublishFailed) => action is Complete,
            _ => true,
        }
    }

    /// A fresh pipeline for one command, keyed by the session that must
    /// receive the answer and by the resource key to lock.
    pub fn new(session_id: String, event_id: String, seat_index: u32, policy: RetryPolicy) -> (c:
        Coordinator)
        requires
            policy.wf(),
        ensures
            c.wf(),
            c.step is Start,
            c.session_id == session_id,
            c.event_id == event_id,
            c.seat_index == seat_index,
            c.policy == policy,
            !c.lock_acquired,
            c.releases == 0,
            c.reserve_attempts == 0,
            c.gateway_calls == 0,
            !c.marker_written,
            c.outcome is None,
    {
        Coordinator {
            session_id,
            event_id,
            seat_index,
            policy,
            step: Step::Start,
            lock_acquired: false,
            releases: 0,
            reserve_attempts: 0,
            gateway_calls: 0,
            marker_written: false,
            quote_amount: 0,
            quote_fee: 0,
            gateway_secret: None,
            outcome: None,
        }
    }

    /// Kick off the pipeline: the first effect is acquiring the lock on the
    /// resource key with the full pipeline budget as TTL.
    pub fn start(&mut self) -> (action: Action)
        requires
            old(self).wf(),
            old(self).step is Start,
        ensures
            *final(self) == (Coordinator { step: Step::AwaitLock, ..*old(self) }),
            final(self).wf(),
            action == (Action::AcquireLock {
                event_id: old(self).event_id,
                seat_index: old(self).seat_index,
                ttl_ms: LOCK_TTL_MS,
            }),
    {
        self.step = Step::AwaitLock;
        Action::AcquireLock {
            event_id: self.event_id.clone(),
            seat_index: self.seat_index,
            ttl_ms: LOCK_TTL_MS,
        }
    }

    /// Whether `ev` is the outcome of the effect the machine last asked for.
    /// The driver must test this before calling [`Coordinator::next`].
    pub fn event_expected(&self, ev: &Event) -> (b: bool)
        ensures
            b == self.spec_expects(*ev),
    {
        match (self.step, ev) {
            (Step::AwaitLock, Event::LockAcquired) => true,
            (Step::AwaitLock, Event::LockUnavailable) => true,
            (Step::AwaitMarkerCheck, Event::MarkerPresent) => true,
            (Step::AwaitMarkerCheck, Event::MarkerAbsent) => true,
            (Step::AwaitPrecheck, Event::PrecheckPassed { .. }) => true,
            (Step::AwaitPrecheck, Event::PrecheckRejected { .. }) => true,
            (Step::AwaitPrecheck, Event::PrecheckTimedOut) => true,
            (Step::AwaitPrecheck, Event::PrecheckInfraFailed) => true,
            (Step::AwaitReservation, Event::ReservationAccepted) => true,
            (Step::AwaitReservation, Event::ReservationFailed { .. }) => true,
            (Step::AwaitGateway, Event::GatewayCreated { .. }) => true,
            (Step::AwaitGateway, Event::GatewayTimedOut) => true,
            (Step::AwaitGateway, Event::GatewayFailed) => true,
            (Step::AwaitMarkerWrite, Event::MarkerStored) => true,
            (Step::AwaitMarkerWrite, Event::MarkerStoreFailed) => true,
            (Step::AwaitRelease, Event::LockReleased) => true,
            (Step::AwaitPublish, Event::ResultPublished) => true,
            (Step::AwaitPublish, Event::PublishFailed) => true,
            _ => false,
        }
    }

    /// Whether the pipeline has finished and `outcome` is decided.
    pub fn is_done(&self) -> (b: bool)
        ensures
            b == (self.step is Done),
    {
        match self.step {
            Step::Done => true,
            _ => false,
        }
    }

    /// Handle the outcome of the last effect and return the next one.
    ///
    /// The new state is exactly [`Coordinator::spec_next_state`] and the
    /// returned action satisfies [`Coordinator::spec_action`]; the machine
    /// stays well-formed.
    pub fn next(&mut self, ev: Event) -> (action: Action)
        requires
            old(self).wf(),
            old(self).spec_expects(ev),
        ensures
            *final(self) == old(self).spec_next_state(ev),
            old(self).spec_action(ev, action),
            final(self).wf(),
    {
        let step = self.step;
        match (step, ev) {
            (Step::AwaitLock, Event::LockAcquired) => {
                self.lock_acquired = true;
                self.step = Step::AwaitMarkerCheck;
                Action::CheckMarker {
                    event_id: self.event_id.clone(),
                    seat_index: self.seat_index,
                }
            },
            (Step::AwaitLock, Event::LockUnavailable) => {
                self.outcome = Some(PipelineOutcome::Abort {
                    failure: PipelineFailure::Transient(TransientKind::LockUnavailable),
                });
                self.step = Step::Done;
                Action::Complete
            },
            (Step::AwaitMarkerCheck, Event::MarkerPresent) => {
                self.outcome = Some(PipelineOutcome::Rejected {
                    reason: SoftError::ResourceUnavailable,
                });
                self.step = Step::AwaitRelease;
                Action::ReleaseLock
            },
            (Step::AwaitMarkerCheck, Event::MarkerAbsent) => {
                self.step = Step::AwaitPrecheck;
                Action::RunPrechecks { timeout_ms: PRECHECK_TIMEOUT_MS }
            },
            (Step::AwaitPrecheck, Event::PrecheckPassed { amount, fee }) => {
                self.quote_amount = amount;
                self.quote_fee = fee;
                self.reserve_attempts = 1;
                self.step = Step::AwaitReservation;
                Action::SubmitReservation { attempt: 1 }
            },
            (Step::AwaitPrecheck, Event::PrecheckRejected { reason }) => {
                self.outcome = Some(PipelineOutcome::Rejected { reason });
                self.step = Step::AwaitRelease;
                Action::ReleaseLock
            },
            (Step::AwaitPrecheck, Event::PrecheckTimedOut) => {
                self.outcome = Some(PipelineOutcome::Abort {
                    failure: PipelineFailure::Transient(TransientKind::StepTimedOut),
                });
                self.step = Step::AwaitRelease;
                Action::ReleaseLock
            },
            (Step::AwaitPrecheck, Event::PrecheckInfraFailed) => {
                self.outcome = Some(PipelineOutcome::Abort {
                    failure: PipelineFailure::Transient(TransientKind::ConnectionFailed),
                });
                self.step = Step::AwaitRelease;
                Action::ReleaseLock
            },
            (Step::AwaitReservation, Event::ReservationAccepted) => {
                self.gateway_calls = 1;
                self.step = Step::AwaitGateway;
                Action::CreateIntent {
                    amount: self.quote_amount,
                    fee: self.quote_fee,
                    timeout_ms: GATEWAY_TIMEOUT_MS,
                }
            },
            (Step::AwaitReservation, Event::ReservationFailed { transient }) => {
                if should_retry(&self.policy, self.reserve_attempts, transient) {
                    self.reserve_attempts = self.reserve_attempts + 1;
                    Action::SubmitReservation { attempt: self.reserve_attempts }
                } else {
                    self.outcome = Some(PipelineOutcome::Abort {
                        failure: PipelineFailure::Fatal(
                            if transient {
                                FatalKind::RetryExhausted
                            } else {
                                FatalKind::ReservationRejected
                            },
                        ),
                    });
                    self.step = Step::AwaitRelease;
                    Action::ReleaseLock
                }
            },
            (Step::AwaitGateway, Event::GatewayCreated { secret }) => {
                self.gateway_secret = Some(secret);
                self.step = Step::AwaitMarkerWrite;
                Action::StoreMarker {
                    event_id: self.event_id.clone(),
                    seat_index: self.seat_index,
                    ttl_secs: MARKER_TTL_SECS,
                }
            },
            (Step::AwaitGateway, Event::GatewayTimedOut) => {
                self.outcome = Some(PipelineOutcome::Abort {
                    failure: PipelineFailure::Fatal(FatalKind::GatewayTimedOut),
                });
                self.step = Step::AwaitRelease;
                Action::ReleaseLock
            },
            (Step::AwaitGateway, Event::GatewayFailed) => {
                self.outcome = Some(PipelineOutcome::Abort {
                    failure: PipelineFailure::Transient(TransientKind::ConnectionFailed),
                });
                self.step = Step::AwaitRelease;
                Action::ReleaseLock
            },
            (Step::AwaitMarkerWrite, Event::MarkerStored) => {
                match &self.gateway_secret {
                    Some(secret) => {
                        let s = secret.clone();
                        self.marker_written = true;
                        self.outcome = Some(PipelineOutcome::Success { secret: s });
                        self.step = Step::AwaitRelease;
                        Action::ReleaseLock
                    },
                    None => {
                        proof {
                            assert(false);
                        }
                        Action::ReleaseLock
                    },
                }
            },
            (Step::AwaitMarkerWrite, Event::MarkerStoreFailed) => {
                self.outcome = Some(PipelineOutcome::Abort {
                    failure: PipelineFailure::Transient(TransientKind::ConnectionFailed),
                });
                self.step = Step::AwaitRelease;
                Action::ReleaseLock
            },
            (Step::AwaitRelease, Event::LockReleased) => {
                self.releases = 1;
                match &self.outcome {
                    Some(PipelineOutcome::Success { secret }) => {
                        self.step = Step::AwaitPublish;
                        Action::Publish {
                            result: PaymentIntent {
                                ws_session_id: self.session_id.clone(),
                                payment_secret: PaymentSecret::Issued(secret.clone()),
                            },
                        }
                    },
                    Some(PipelineOutcome::Rejected { reason }) => {
                        self.step = Step::AwaitPublish;
                        Action::Publish {
                            result: PaymentIntent {
                                ws_session_id: self.session_id.clone(),
                                payment_secret: PaymentSecret::Rejected(reason.reason()),
                            },
                        }
                    },
                    Some(PipelineOutcome::Abort { .. }) => {
                        self.step = Step::Done;
                        Action::Complete
                    },
                    None => {
                        proof {
                            assert(false);
                        }
                        Action::Complete
                    },
                }
            },
            (Step::AwaitPublish, Event::ResultPublished) => {
                self.step = Step::Done;
                Action::Complete
            },
            (Step::AwaitPublish, Event::PublishFailed) => {
                self.outcome = Some(PipelineOutcome::Abort {
                    failure: PipelineFailure::Transient(TransientKind::PublishFailed),
                });
                self.step = Step::Done;
                Action::Complete
            },
            _ => {
                proof {
                    assert(false);
                }
                Action::Complete
            },
        }
    }
}

/// Mutual exclusion: two well-formed pipeline instances on the same resource
/// key, of which at most one holds the distributed lock, are never both in
/// their critical section — at most one of them can be performing a ledger
/// reservation or a gateway call for that resource.
pub proof fn lemma_mutual_exclusion(a: Coordinator, b: Coordinator)
    requires
        a.wf(),
        b.wf(),
        a.spec_resource_key() == b.spec_resource_key(),
        !(a.lock_acquired && b.lock_acquired),
    ensures
        !(a.in_critical_section() && b.in_critical_section()),
{
}

/// Idempotency window: a pipeline that finds an unexpired marker answers
/// the buyer with the resource-unavailable rejection, asks only for the
/// lock release, and has contacted neither the ledger nor the gateway.
pub proof fn lemma_marker_hit_short_circuits(c: Coordinator, action: Action)
    requires
        c.wf(),
        c.step is AwaitMarkerCheck,
        c.spec_action(Event::MarkerPresent, action),
    ensures
        c.spec_next_state(Event::MarkerPresent).outcome == Some(PipelineOutcome::Rejected {
            reason: SoftError::ResourceUnavailable,
        }),
        action is ReleaseLock,
        c.spec_next_state(Event::MarkerPresent).reserve_attempts == 0,
        c.spec_next_state(Event::MarkerPresent).gateway_calls == 0,
        !c.spec_next_state(Event::MarkerPresent).marker_written,
{
}

/// Idempotency window: a pipeline whose outcome is the marker-hit rejection
/// never asked for a ledger reservation, a gateway call, or a marker write.
pub proof fn lemma_idempotency_window(c: Coordinator)
    requires
        c.wf(),
        c.outcome == Some(PipelineOutcome::Rejected { reason: SoftError::ResourceUnavailable }),
    ensures
        c.reserve_attempts == 0,
        c.gateway_calls == 0,
        !c.marker_written,
{
}

/// Lock release on all paths: a finished pipeline released the lock exactly
/// once if it ever acquired it, and never released a lock it did not hold.
pub proof fn lemma_lock_release_on_all_paths(c: Coordinator)
    requires
        c.wf(),
        c.step is Done,
    ensures
        c.lock_acquired ==> c.releases == 1,
        !c.lock_acquired ==> c.releases == 0,
{
}

/// A fatal failure — a gateway timeout, an exhausted reservation retry, a
/// ledger rejection — never leaves a purchase-in-progress marker behind.
pub proof fn lemma_fatal_abort_writes_no_marker(c: Coordinator)
    requires
        c.wf(),
        c.outcome matches Some(PipelineOutcome::Abort { failure: PipelineFailure::Fatal(_) }),
    ensures
        !c.marker_written,
{
}

} // verus!
