//! The admit path: readiness check, validation, event construction, and
//! non-blocking enqueue, in that order. Every outcome is one of a small closed
//! set; a caller never sees a raw internal error.

use vstd::prelude::*;

use crate::config::{AckMode, GatewayGfg};
use crate::event::{Event, IngestBody};
use crate::metrics::AppMetrics;
use crate::queue::IngressQueue;
use crate::readiness::Readiness;

verus! {

/// Policy bound on the cardinality of the `metrics` mapping; excess is a
/// validation failure, not a truncation.
pub const MAX_METRICS: usize = 32;

/// Malformed or over-limit input; the caller must not retry it unmodified.
#[derive(Clone, Copy, PartialEq, Eq, Structural, Debug)]
pub enum ValidationError {
    TooManyMetrics,
}

impl ValidationError {
    /// The label rejection counters record for this failure.
    pub fn reason_label(&self) -> (s: &'static str)
        ensures
            s@ == "too_many_metrics"@,
    {
        match self {
            ValidationError::TooManyMetrics => "too_many_metrics",
        }
    }
}

/// The closed set of caller-visible admission outcomes. `Admitted` carries the
/// configured acknowledgement mode: both modes share the same non-blocking
/// enqueue and differ only in the status signalled back to the caller.
#[derive(Clone, Copy, PartialEq, Eq, Structural, Debug)]
pub enum AdmitOutcome {
    Admitted(AckMode),
    NotReady,
    ValidationFailed(ValidationError),
    QueueFull,
}

/// Accepts the body exactly when the metric mapping is within the policy
/// bound.
pub fn validate_maps(body: &IngestBody) -> (r: Result<(), ValidationError>)
    ensures
        r is Ok <==> body.metrics@.len() <= MAX_METRICS,
        r is Err ==> r->Err_0 == ValidationError::TooManyMetrics,
{
    if body.metrics.len() > MAX_METRICS {
        return Err(ValidationError::TooManyMetrics);
    }
    Ok(())
}

/// The record an admitted request turns into: a client timestamp is kept and a
/// missing one is assigned at receipt; `received_at` is set exactly once, at
/// admission, from the gateway clock; the mappings and the payload pass
/// through unmodified.
pub open spec fn spec_admitted_event(
    device_id: String,
    body: IngestBody,
    now: i64,
    body_bytes: usize,
) -> Event {
    Event {
        device_id,
        ts: if body.ts is Some {
            body.ts->0
        } else {
            now
        },
        seq: body.seq,
        metrics: body.metrics,
        tags: body.tags,
        payload: body.payload,
        received_at: now,
        bytes: body_bytes,
    }
}

/// Admits one inbound write. In order: a failed readiness check rejects with
/// `NotReady`; an over-limit metric mapping rejects with `ValidationFailed`
/// and counts the rejection under its reason; a full queue rejects with
/// `QueueFull`; otherwise the event is appended to the queue and acknowledged
/// in the configured mode. `now` is the gateway clock at receipt and
/// `body_bytes` the wire size of the request body.
pub fn ingest(
    cfg: &GatewayGfg,
    ready: &Readiness,
    queue: &mut IngressQueue,
    metrics: &mut AppMetrics,
    device_id: String,
    body: IngestBody,
    now: i64,
    body_bytes: usize,
) -> (outcome: AdmitOutcome)
    requires
        old(queue).wf(),
        old(metrics).wf(),
    ensures
        final(queue).spec_capacity() == old(queue).spec_capacity(),
        final(queue).wf(),
        final(metrics).wf(),
        !ready.spec_ready(&cfg.health) ==> outcome == AdmitOutcome::NotReady && final(queue)@
            == old(queue)@ && *final(metrics) == *old(metrics),
        ready.spec_ready(&cfg.health) && body.metrics@.len() > MAX_METRICS ==> {
            &&& outcome == AdmitOutcome::ValidationFailed(ValidationError::TooManyMetrics)
            &&& final(queue)@ == old(queue)@
            &&& final(metrics).spec_events_received() == old(metrics).spec_events_received()
            &&& final(metrics).spec_rejected("too_many_metrics"@) == if old(metrics).spec_rejected(
                "too_many_metrics"@,
            ) == u64::MAX {
                u64::MAX as int
            } else {
                old(metrics).spec_rejected("too_many_metrics"@) + 1
            }
            &&& forall|other: Seq<char>|
                other != "too_many_metrics"@ ==> final(metrics).spec_rejected(other) == old(
                    metrics,
                ).spec_rejected(other)
        },
        ready.spec_ready(&cfg.health) && body.metrics@.len() <= MAX_METRICS && old(queue)@.len()
            >= old(queue).spec_capacity() ==> outcome == AdmitOutcome::QueueFull && final(queue)@
            == old(queue)@ && *final(metrics) == *old(metrics),
        ready.spec_ready(&cfg.health) && body.metrics@.len() <= MAX_METRICS && old(queue)@.len()
            < old(queue).spec_capacity() ==> {
            &&& outcome == AdmitOutcome::Admitted(cfg.ingest.ack_mode)
            &&& final(queue)@ == old(queue)@.push(
                spec_admitted_event(device_id, body, now, body_bytes),
            )
            &&& *final(metrics) == *old(metrics)
        },
{
    if !ready.is_ready(&cfg.health) {
        return AdmitOutcome::NotReady;
    }
    match validate_maps(&body) {
        Err(e) => {
            metrics.ingest_rejected_total(e.reason_label());
            return AdmitOutcome::ValidationFailed(e);
        },
        Ok(_) => {},
    }
    let ts: i64 = match body.ts {
        Some(t) => t,
        None => now,
    };
    let event = Event {
        device_id,
        ts,
        seq: body.seq,
        metrics: body.metrics,
        tags: body.tags,
        payload: body.payload,
        received_at: now,
        bytes: body_bytes,
    };
    if queue.try_enqueue(event) {
        AdmitOutcome::Admitted(cfg.ingest.ack_mode)
    } else {
        AdmitOutcome::QueueFull
    }
}

} // verus!
