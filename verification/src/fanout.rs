//! Fanout: delivery of one event to a fixed list of sinks, wired once at
//! startup. Each sink receives an independent copy, in the configured order;
//! one sink's rejection neither prevents delivery to the others nor triggers a
//! retry here. The returned count of accepting sinks makes partial and total
//! failure observable; zero is a valid, non-fatal outcome.

use vstd::prelude::*;

use crate::event::{Event, EventView};
use crate::sink::EnqueueSink;

verus! {

/// How many of `sinks` accept `ev`, each deciding in its pre-dispatch state.
pub open spec fn accept_count<S: EnqueueSink>(sinks: Seq<S>, ev: EventView) -> nat
    decreases sinks.len(),
{
    if sinks.len() == 0 {
        0
    } else {
        accept_count(sinks.drop_last(), ev) + if sinks.last().will_accept(ev) {
            1nat
        } else {
            0nat
        }
    }
}

/// How many of `sinks` reject `ev`.
pub open spec fn reject_count<S: EnqueueSink>(sinks: Seq<S>, ev: EventView) -> nat
    decreases sinks.len(),
{
    if sinks.len() == 0 {
        0
    } else {
        reject_count(sinks.drop_last(), ev) + if sinks.last().will_accept(ev) {
            0nat
        } else {
            1nat
        }
    }
}

/// Law: partial failure accounting. Of N sinks of which M reject an event,
/// dispatch reports exactly N - M acceptances: the two counts always partition
/// the sink list.
pub proof fn lemma_dispatch_partial_failure<S: EnqueueSink>(sinks: Seq<S>, ev: EventView)
    ensures
        accept_count(sinks, ev) + reject_count(sinks, ev) == sinks.len(),
    decreases sinks.len(),
{
    if sinks.len() > 0 {
        lemma_dispatch_partial_failure(sinks.drop_last(), ev);
    }
}

proof fn lemma_accept_count_step<S: EnqueueSink>(sinks: Seq<S>, i: int, ev: EventView)
    requires
        0 <= i < sinks.len(),
    ensures
        accept_count(sinks.subrange(0, i + 1), ev) == accept_count(sinks.subrange(0, i), ev) + if
        sinks[i].will_accept(ev) {
            1nat
        } else {
            0nat
        },
{
    assert(sinks.subrange(0, i + 1).drop_last() =~= sinks.subrange(0, i));
    assert(sinks.subrange(0, i + 1).last() == sinks[i]);
}

/// The fixed set of delivery backends, in configured order.
pub struct FanoutSink<S: EnqueueSink> {
    sinks: Vec<S>,
}

impl<S: EnqueueSink> FanoutSink<S> {
    pub closed spec fn spec_sinks(&self) -> Seq<S> {
        self.sinks@
    }

    pub fn new(sinks: Vec<S>) -> (f: Self)
        ensures
            f.spec_sinks() == sinks@,
    {
        FanoutSink { sinks }
    }

    pub fn sinks(&self) -> (r: &Vec<S>)
        ensures
            r@ == self.spec_sinks(),
    {
        &self.sinks
    }

    pub fn sink_count(&self) -> (n: usize)
        ensures
            n == self.spec_sinks().len(),
    {
        self.sinks.len()
    }

    /// Broadcasts one event: every sink is offered an independent copy exactly
    /// once, in order, and the count of sinks that accepted comes back.
    pub fn try_enqueue(&mut self, ev: Event) -> (accepted: usize)
        ensures
            final(self).spec_sinks().len() == old(self).spec_sinks().len(),
            accepted == accept_count(old(self).spec_sinks(), ev@),
            accepted <= old(self).spec_sinks().len(),
            forall|i: int|
                0 <= i < old(self).spec_sinks().len() ==> (#[trigger] final(self).spec_sinks()[i]).offered()
                    == old(self).spec_sinks()[i].offered().push(ev@),
    {
        let ghost orig = self.sinks@;
        let mut accepted: usize = 0;
        let mut i: usize = 0;
        while i < self.sinks.len()
            invariant
                i <= orig.len(),
                self.sinks@.len() == orig.len(),
                accepted <= i,
                accepted == accept_count(orig.subrange(0, i as int), ev@),
                forall|j: int| i <= j < orig.len() ==> self.sinks@[j] == orig[j],
                forall|j: int|
                    0 <= j < i ==> (#[trigger] self.sinks@[j]).offered() == orig[j].offered().push(
                        ev@,
                    ),
            decreases orig.len() - i,
        {
            let copy = ev.clone();
            let s = &mut self.sinks[i];
            let r = s.try_enqueue(copy);
            proof {
                lemma_accept_count_step(orig, i as int, ev@);
            }
            if r.is_ok() {
                accepted = accepted + 1;
            }
            i = i + 1;
        }
        proof {
            assert(orig.subrange(0, orig.len() as int) =~= orig);
        }
        accepted
    }
}

} // verus!
