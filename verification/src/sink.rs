//! The capability contract each delivery backend satisfies, and an in-memory
//! bounded buffer that satisfies it. A sink's admission call must never block:
//! an implementation that cannot guarantee that must fail fast with
//! `Transient`.

use vstd::prelude::*;

use crate::event::{Event, EventView};

verus! {

/// Why a sink refused an event. `Transient` invites a later retry (for
/// example, a local buffer was full); `Fatal` does not (for example, a
/// permanent misconfiguration). The dispatcher treats both as not-accepted;
/// the distinction exists for diagnostics.
pub enum SinkError {
    Transient(String),
    Fatal(String),
}

impl SinkError {
    pub fn is_transient(&self) -> (b: bool)
        ensures
            b == (self is Transient),
    {
        match self {
            SinkError::Transient(_) => true,
            SinkError::Fatal(_) => false,
        }
    }
}

/// Non-blocking admission contract for a delivery backend. Every offer is
/// recorded, accepted or not, so fanout can account for exactly one invocation
/// per sink; whether an offer is accepted is the sink's own decision, a
/// function of its state before the call.
pub trait EnqueueSink: Sized {
    /// Every record handed to this sink so far, in order, accepted or not.
    spec fn offered(&self) -> Seq<EventView>;

    /// Whether the sink takes the next offered record in its current state.
    spec fn will_accept(&self, ev: EventView) -> bool;

    /// Offers one record; returns `Ok` exactly when the sink accepts it, and
    /// must not block either way.
    fn try_enqueue(&mut self, ev: Event) -> (r: Result<(), SinkError>)
        ensures
            final(self).offered() == old(self).offered().push(ev@),
            r is Ok <==> old(self).will_accept(ev@),
    ;
}

/// An in-memory delivery target with a bounded buffer: it accepts while a
/// slot is free and reports `Transient` when full. With a bound of zero it
/// rejects everything, which models a permanently refusing backend.
pub struct BufferSink {
    buffer: Vec<Event>,
    capacity: usize,
    log: Ghost<Seq<EventView>>,
}

impl BufferSink {
    pub fn new(capacity: usize) -> (s: Self)
        ensures
            s.offered() == Seq::<EventView>::empty(),
            s.accepted() == Seq::<EventView>::empty(),
            s.spec_capacity() == capacity,
    {
        BufferSink { buffer: Vec::new(), capacity, log: Ghost(Seq::empty()) }
    }

    pub closed spec fn spec_capacity(&self) -> usize {
        self.capacity
    }

    /// The records this sink has accepted, in order.
    pub closed spec fn accepted(&self) -> Seq<EventView> {
        self.buffer@.map_values(|e: Event| e@)
    }

    pub fn accepted_len(&self) -> (n: usize)
        ensures
            n == self.accepted().len(),
    {
        self.buffer.len()
    }

    /// The accepted records themselves, oldest first.
    pub fn contents(&self) -> (r: &Vec<Event>)
        ensures
            r@.map_values(|e: Event| e@) == self.accepted(),
    {
        &self.buffer
    }
}

impl EnqueueSink for BufferSink {
    closed spec fn offered(&self) -> Seq<EventView> {
        self.log@
    }

    open spec fn will_accept(&self, ev: EventView) -> bool {
        self.accepted().len() < self.spec_capacity()
    }

    fn try_enqueue(&mut self, ev: Event) -> (r: Result<(), SinkError>)
        ensures
            final(self).offered() == old(self).offered().push(ev@),
            r is Ok <==> old(self).will_accept(ev@),
            r is Ok ==> final(self).accepted() == old(self).accepted().push(ev@),
            r is Err ==> final(self).accepted() == old(self).accepted() && r->Err_0 is Transient,
    {
        self.log = Ghost(self.log@.push(ev@));
        if self.buffer.len() < self.capacity {
            let ghost before = self.buffer@;
            self.buffer.push(ev);
            proof {
                assert(self.buffer@.map_values(|e: Event| e@) =~= before.map_values(
                    |e: Event| e@,
                ).push(self.buffer@.last()@));
            }
            Ok(())
        } else {
            Err(SinkError::Transient("sink buffer full".to_owned()))
        }
    }
}

} // verus!
