//! The single drain consumer: removes events from the ingress queue in FIFO
//! order and hands each to the fanout. One step dequeues at most one event;
//! the surrounding loop, which waits for work, lives outside the core.

use vstd::prelude::*;

use crate::fanout::{accept_count, FanoutSink};
use crate::queue::IngressQueue;
use crate::sink::EnqueueSink;

verus! {

/// Owns the fanout on behalf of the drain loop.
pub struct Dispatcher<S: EnqueueSink> {
    fanout: FanoutSink<S>,
}

impl<S: EnqueueSink> Dispatcher<S> {
    pub closed spec fn spec_sinks(&self) -> Seq<S> {
        self.fanout.spec_sinks()
    }

    pub fn new(fanout: FanoutSink<S>) -> (d: Self)
        ensures
            d.spec_sinks() == fanout.spec_sinks(),
    {
        Dispatcher { fanout }
    }

    pub fn sinks(&self) -> (r: &Vec<S>)
        ensures
            r@ == self.spec_sinks(),
    {
        self.fanout.sinks()
    }

    /// One drain step: if the queue holds an event, the oldest one leaves the
    /// queue, every sink is offered it exactly once, and the count of
    /// accepting sinks comes back; an empty queue changes nothing.
    pub fn drain_step(&mut self, queue: &mut IngressQueue) -> (r: Option<usize>)
        ensures
            final(queue).spec_capacity() == old(queue).spec_capacity(),
            old(queue).wf() ==> final(queue).wf(),
            final(self).spec_sinks().len() == old(self).spec_sinks().len(),
            old(queue)@.len() == 0 ==> r is None && final(queue)@ == old(queue)@ && *final(self)
                == *old(self),
            old(queue)@.len() > 0 ==> {
                &&& final(queue)@ == old(queue)@.subrange(1, old(queue)@.len() as int)
                &&& r == Some(accept_count(old(self).spec_sinks(), old(queue)@[0]@) as usize)
                &&& forall|i: int|
                    0 <= i < old(self).spec_sinks().len() ==> (#[trigger] final(self).spec_sinks()[i]).offered()
                        == old(self).spec_sinks()[i].offered().push(old(queue)@[0]@)
            },
    {
        match queue.try_dequeue() {
            Some(ev) => {
                let accepted = self.fanout.try_enqueue(ev);
                Some(accepted)
            },
            None => None,
        }
    }
}

} // verus!
