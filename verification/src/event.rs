//! The canonical ingested record and the wire-facing body it is built from.
//! An event is immutable once constructed; fanout duplicates it per sink, so
//! cloning must provably preserve the whole record.
//!
//! A metric value arrives as a 64-bit IEEE double; the core never interprets
//! it, so it is carried as its bit pattern. Timestamps are carried as
//! nanoseconds since the Unix epoch. The payload is an arbitrary structured
//! JSON value, opaque to the core and passed through unmodified.

use vstd::prelude::*;

verus! {

/// serde_json's JSON tree, declared so that it can be carried through the
/// pipeline. The core never looks inside a payload.
#[verifier::external_type_specification]
#[verifier::external_body]
pub struct ExValue(serde_json::Value);

/// Relies on serde_json::Value's derived Clone: a deep copy of a pure data
/// enum, structurally equal to the original JSON value.
pub assume_specification[ <serde_json::Value as Clone>::clone ](
    v: &serde_json::Value,
) -> (r: serde_json::Value)
    ensures
        r == *v,
;

/// One named metric reading: the key of the `metrics` mapping together with
/// the bit pattern of its 64-bit floating-point value.
#[derive(Debug, PartialEq, Eq)]
pub struct MetricSample {
    pub name: String,
    pub value_bits: u64,
}

impl Clone for MetricSample {
    fn clone(&self) -> (r: Self)
        ensures
            r == *self,
    {
        MetricSample { name: self.name.clone(), value_bits: self.value_bits }
    }
}

/// One entry of the `tags` mapping.
#[derive(Debug, PartialEq, Eq)]
pub struct TagEntry {
    pub key: String,
    pub value: String,
}

impl Clone for TagEntry {
    fn clone(&self) -> (r: Self)
        ensures
            r == *self,
    {
        TagEntry { key: self.key.clone(), value: self.value.clone() }
    }
}

/// The structured body accepted at the ingest boundary, already unmarshalled
/// into plain values. Every field is optional on the wire; absent mappings
/// arrive empty and an absent timestamp is assigned at admission.
pub struct IngestBody {
    pub ts: Option<i64>,
    pub seq: Option<u64>,
    pub metrics: Vec<MetricSample>,
    pub tags: Vec<TagEntry>,
    pub payload: serde_json::Value,
}

/// The canonical ingested record, constructed once per accepted request and
/// never mutated afterwards.
pub struct Event {
    pub device_id: String,
    pub ts: i64,
    pub seq: Option<u64>,
    pub metrics: Vec<MetricSample>,
    pub tags: Vec<TagEntry>,
    pub payload: serde_json::Value,
    pub received_at: i64,
    pub bytes: usize,
}

/// The mathematical content of an event: what contracts and delivery logs
/// speak of. Two events with equal views carry the same record.
#[verifier::ext_equal]
pub struct EventView {
    pub device_id: Seq<char>,
    pub ts: i64,
    pub seq: Option<u64>,
    pub metrics: Seq<MetricSample>,
    pub tags: Seq<TagEntry>,
    pub payload: serde_json::Value,
    pub received_at: i64,
    pub bytes: usize,
}

impl View for Event {
    type V = EventView;

    open spec fn view(&self) -> EventView {
        EventView {
            device_id: self.device_id@,
            ts: self.ts,
            seq: self.seq,
            metrics: self.metrics@,
            tags: self.tags@,
            payload: self.payload,
            received_at: self.received_at,
            bytes: self.bytes,
        }
    }
}

impl Clone for Event {
    /// Fanout requires an independent copy per sink; the copy carries the same
    /// record as the original.
    fn clone(&self) -> (r: Self)
        ensures
            r@ == self@,
    {
        let r = Event {
            device_id: self.device_id.clone(),
            ts: self.ts,
            seq: self.seq,
            metrics: clone_metrics(&self.metrics),
            tags: clone_tags(&self.tags),
            payload: self.payload.clone(),
            received_at: self.received_at,
            bytes: self.bytes,
        };
        assert(r@ =~= self@);
        r
    }
}

fn clone_metrics(metrics: &Vec<MetricSample>) -> (r: Vec<MetricSample>)
    ensures
        r@ =~= metrics@,
{
    let mut r: Vec<MetricSample> = Vec::new();
    let mut i: usize = 0;
    while i < metrics.len()
        invariant
            i <= metrics@.len(),
            r@ =~= metrics@.subrange(0, i as int),
        decreases metrics@.len() - i,
    {
        r.push(metrics[i].clone());
        i = i + 1;
        assert(r@ =~= metrics@.subrange(0, i as int));
    }
    assert(metrics@.subrange(0, metrics@.len() as int) =~= metrics@);
    r
}

fn clone_tags(tags: &Vec<TagEntry>) -> (r: Vec<TagEntry>)
    ensures
        r@ =~= tags@,
{
    let mut r: Vec<TagEntry> = Vec::new();
    let mut i: usize = 0;
    while i < tags.len()
        invariant
            i <= tags@.len(),
            r@ =~= tags@.subrange(0, i as int),
        decreases tags@.len() - i,
    {
        r.push(tags[i].clone());
        i = i + 1;
        assert(r@ =~= tags@.subrange(0, i as int));
    }
    assert(tags@.subrange(0, tags@.len() as int) =~= tags@);
    r
}

} // verus!
