//! Ingress queue: the bounded buffer between the admit path and the dispatch
//! path. Admission never blocks — a full queue rejects immediately, which is
//! the backpressure that protects the single drain consumer. Draining removes
//! items in FIFO order and is the only removal path.

use std::collections::VecDeque;
use vstd::prelude::*;

use crate::event::Event;

verus! {

/// Bounded FIFO buffer of admitted events. The capacity is fixed at startup
/// from configuration and never holds fewer slots than events.
pub struct IngressQueue {
    buf: VecDeque<Event>,
    capacity: usize,
}

impl View for IngressQueue {
    type V = Seq<Event>;

    /// The queued events, oldest first.
    closed spec fn view(&self) -> Seq<Event> {
        self.buf@
    }
}

impl IngressQueue {
    /// The configured bound.
    pub closed spec fn spec_capacity(&self) -> usize {
        self.capacity
    }

    /// The queue never holds more events than its configured bound.
    pub open spec fn wf(&self) -> bool {
        self@.len() <= self.spec_capacity()
    }

    pub fn new(capacity: usize) -> (q: Self)
        ensures
            q@ == Seq::<Event>::empty(),
            q.spec_capacity() == capacity,
            q.wf(),
    {
        IngressQueue { buf: VecDeque::new(), capacity }
    }

    pub fn capacity(&self) -> (c: usize)
        ensures
            c == self.spec_capacity(),
    {
        self.capacity
    }

    pub fn len(&self) -> (n: usize)
        ensures
            n == self@.len(),
    {
        self.buf.len()
    }

    /// Non-blocking admission: the event is appended exactly when a slot is
    /// free, and a full queue rejects immediately instead of waiting.
    pub fn try_enqueue(&mut self, ev: Event) -> (admitted: bool)
        requires
            old(self).wf(),
        ensures
            final(self).spec_capacity() == old(self).spec_capacity(),
            final(self).wf(),
            admitted == (old(self)@.len() < old(self).spec_capacity()),
            admitted ==> final(self)@ == old(self)@.push(ev),
            !admitted ==> final(self)@ == old(self)@,
    {
        if self.buf.len() < self.capacity {
            self.buf.push_back(ev);
            true
        } else {
            false
        }
    }

    /// Non-blocking removal of the oldest event, for the single drain
    /// consumer.
    pub fn try_dequeue(&mut self) -> (r: Option<Event>)
        ensures
            final(self).spec_capacity() == old(self).spec_capacity(),
            old(self)@.len() == 0 ==> r is None && final(self)@ == old(self)@,
            old(self)@.len() > 0 ==> r == Some(old(self)@[0]) && final(self)@ == old(self)@.subrange(
                1,
                old(self)@.len() as int,
            ),
            old(self).wf() ==> final(self).wf(),
    {
        self.buf.pop_front()
    }
}

/// Model of a run of admission attempts against a stalled consumer: starting
/// from `len` queued events under bound `cap`, each of `attempts` tries admits
/// exactly when a slot is free, as `try_enqueue` ensures.
pub open spec fn stalled_admissions(len: nat, cap: nat, attempts: nat) -> nat
    decreases attempts,
{
    if attempts == 0 {
        0
    } else if len < cap {
        1 + stalled_admissions(len + 1, cap, (attempts - 1) as nat)
    } else {
        stalled_admissions(len, cap, (attempts - 1) as nat)
    }
}

/// Law: admission never blocks and saturates exactly at the bound. A run of
/// attempts against a stalled consumer admits one event per free slot and
/// rejects the rest; in particular, `cap + 1` attempts on an empty queue yield
/// exactly `cap` admissions.
pub proof fn lemma_backpressure_saturation(len: nat, cap: nat, attempts: nat)
    requires
        len <= cap,
    ensures
        stalled_admissions(len, cap, attempts) == if attempts <= cap - len {
            attempts
        } else {
            (cap - len) as nat
        },
    decreases attempts,
{
    if attempts > 0 {
        if len < cap {
            lemma_backpressure_saturation(len + 1, cap, (attempts - 1) as nat);
        } else {
            lemma_backpressure_saturation(len, cap, (attempts - 1) as nat);
        }
    }
}

} // verus!
