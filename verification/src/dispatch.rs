//! The bounded queue between the stream connection and the worker
//! pool. `submit` never blocks: a batch offered to a full queue is
//! dropped and counted, trading bounded redelivery (the broker resumes
//! from the last committed cursor) for connection stability. Workers
//! take batches from the front, so each batch is handed out at most
//! once and, within a partition, in arrival order.

use vstd::prelude::*;
use crate::cursor::Batch;

verus! {

/// What `submit` did with a batch.
#[derive(Clone, Copy, Debug, PartialEq, Eq, Structural)]
pub enum SubmitOutcome {
    /// The batch was queued for a worker.
    Accepted,
    /// The queue was at capacity; the batch was discarded and counted.
    Dropped,
}

/// The bounded dispatch queue, front at index 0.
pub struct Dispatcher {
    pub queue: Vec<Batch>,
    pub capacity: usize,
    pub dropped: u64,
}

impl Dispatcher {
    pub open spec fn wf(self) -> bool {
        &&& 1 <= self.capacity
        &&& self.queue@.len() <= self.capacity
    }

    /// The batches waiting for a worker, in arrival order.
    pub open spec fn pending(self) -> Seq<Batch> {
        self.queue@
    }

    pub open spec fn spec_capacity(self) -> usize {
        self.capacity
    }

    pub open spec fn spec_dropped(self) -> u64 {
        self.dropped
    }

    pub fn new(capacity: usize) -> (d: Dispatcher)
        requires
            1 <= capacity,
        ensures
            d.wf(),
            d.pending() == Seq::<Batch>::empty(),
            d.spec_capacity() == capacity,
            d.spec_dropped() == 0,
    {
        Dispatcher { queue: Vec::new(), capacity, dropped: 0 }
    }

    /// How many batches a worker could take right now.
    pub fn queued(&self) -> (n: usize)
        ensures
            n == self.pending().len(),
    {
        self.queue.len()
    }

    /// How many batches have been dropped because the queue was full.
    pub fn dropped_count(&self) -> (n: u64)
        ensures
            n == self.spec_dropped(),
    {
        self.dropped
    }

    /// Non-blocking enqueue. Below capacity the batch is appended and
    /// nothing else changes; at capacity the batch is dropped and the
    /// dropped counter increments by exactly one.
    pub fn submit(&mut self, batch: Batch) -> (outcome: SubmitOutcome)
        requires
            old(self).wf(),
            old(self).spec_dropped() < u64::MAX,
        ensures
            final(self).wf(),
            final(self).spec_capacity() == old(self).spec_capacity(),
            old(self).pending().len() < old(self).spec_capacity() ==> {
                &&& outcome == SubmitOutcome::Accepted
                &&& final(self).pending() == old(self).pending().push(batch)
                &&& final(self).spec_dropped() == old(self).spec_dropped()
            },
            old(self).pending().len() >= old(self).spec_capacity() ==> {
                &&& outcome == SubmitOutcome::Dropped
                &&& final(self).pending() == old(self).pending()
                &&& final(self).spec_dropped() == old(self).spec_dropped() + 1
            },
    {
        if self.queue.len() < self.capacity {
            self.queue.push(batch);
            SubmitOutcome::Accepted
        } else {
            self.dropped = self.dropped + 1;
            SubmitOutcome::Dropped
        }
    }

    /// Hand the oldest waiting batch to a worker, removing it from the
    /// queue; once taken, a batch can never be handed out again.
    pub fn take_next(&mut self) -> (b: Option<Batch>)
        requires
            old(self).wf(),
        ensures
            final(self).wf(),
            final(self).spec_capacity() == old(self).spec_capacity(),
            final(self).spec_dropped() == old(self).spec_dropped(),
            old(self).pending().len() == 0 ==> {
                &&& b is None
                &&& final(self).pending() == old(self).pending()
            },
            old(self).pending().len() > 0 ==> {
                &&& b == Some(old(self).pending()[0])
                &&& final(self).pending() == old(self).pending().subrange(
                    1,
                    old(self).pending().len() as int,
                )
            },
    {
        if self.queue.len() == 0 {
            None
        } else {
            let b = self.queue.remove(0);
            Some(b)
        }
    }
}

/// Each queued batch is delivered at most once: two consecutive takes
/// from a queue holding at least two batches yield the batches at two
/// distinct positions, and both are gone from the queue afterwards.
pub proof fn law_single_delivery(d0: Dispatcher, d1: Dispatcher, d2: Dispatcher, b1: Batch, b2: Batch)
    requires
        d0.wf(),
        d0.pending().len() >= 2,
        d1.pending() == d0.pending().subrange(1, d0.pending().len() as int),
        b1 == d0.pending()[0],
        d2.pending() == d1.pending().subrange(1, d1.pending().len() as int),
        b2 == d1.pending()[0],
    ensures
        b1 == d0.pending()[0],
        b2 == d0.pending()[1],
        d2.pending() == d0.pending().subrange(2, d0.pending().len() as int),
{
    let q = d0.pending();
    assert(d1.pending()[0] == q[1]);
    assert(d2.pending() =~= q.subrange(2, q.len() as int));
}

} // verus!
