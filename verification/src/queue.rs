//! Bounded relay queue: a fixed-capacity FIFO buffer between the
//! deadline-driven producer and the I/O-bound sender.
//!
//! Admission never blocks: a chunk offered to a full queue is dropped and
//! the drop is counted, so a slow consumer can never stall the pacing
//! clock.  Chunks that are admitted leave in exactly the order they
//! entered.  After `close`, admission is refused and dequeuing drains the
//! remaining chunks before signalling closure.

use vstd::prelude::*;
use vstd::math::min;
use crate::payload::Chunk;

verus! {

/// Outcome of offering a chunk to the queue.
#[derive(Clone, Copy, Debug, PartialEq, Eq, Structural)]
pub enum Admit {
    /// The chunk was appended at the tail.
    Accepted,
    /// The queue was full; the chunk was discarded and counted.
    Dropped,
    /// The queue was closed; the chunk was refused.
    Closed,
}

/// Outcome of asking the queue for the next chunk.
pub enum Dequeued {
    /// The chunk that has waited longest.
    Item(Chunk),
    /// Nothing is pending, but more may still arrive.
    Empty,
    /// Nothing is pending and the queue is closed: no more will arrive.
    Closed,
}

/// Fixed-capacity FIFO of pending chunks, with a drop-on-full admission
/// policy and an observable drop counter.
pub struct RelayQueue {
    pub items: Vec<Chunk>,
    pub capacity: usize,
    pub closed: bool,
    pub dropped: u64,
}

impl RelayQueue {
    /// Queue invariant: never more chunks than the capacity fixed at
    /// construction.
    pub open spec fn wf(self) -> bool {
        self.items@.len() <= self.capacity
    }

    /// Empty open queue with the given capacity.
    pub fn new(capacity: usize) -> (q: RelayQueue)
        requires
            capacity >= 1,
        ensures
            q.wf(),
            q.items@ == Seq::<Chunk>::empty(),
            q.capacity == capacity,
            !q.closed,
            q.dropped == 0,
    {
        RelayQueue { items: Vec::new(), capacity, closed: false, dropped: 0 }
    }

    /// Offers one chunk, never blocking: refused if the queue is closed,
    /// dropped and counted if it is full, otherwise appended at the tail.
    /// Capacity and closedness never change here.
    pub fn try_enqueue(&mut self, c: Chunk) -> (r: Admit)
        requires
            old(self).wf(),
        ensures
            final(self).wf(),
            final(self).capacity == old(self).capacity,
            final(self).closed == old(self).closed,
            old(self).closed ==> r is Closed && *final(self) == *old(self),
            !old(self).closed && old(self).items@.len() >= old(self).capacity ==> r is Dropped
                && final(self).items@ == old(self).items@
                && final(self).dropped == min(old(self).dropped + 1, u64::MAX as int),
            !old(self).closed && old(self).items@.len() < old(self).capacity ==> r is Accepted
                && final(self).items@ == old(self).items@.push(c)
                && final(self).dropped == old(self).dropped,
    {
        if self.closed {
            Admit::Closed
        } else if self.items.len() >= self.capacity {
            self.dropped = self.dropped.saturating_add(1);
            Admit::Dropped
        } else {
            self.items.push(c);
            Admit::Accepted
        }
    }

    /// Takes the chunk that has waited longest, if any.  An empty queue
    /// answers `Closed` once closed, else `Empty` (the caller may retry
    /// later).  Nothing but the pending chunks changes.
    pub fn dequeue(&mut self) -> (r: Dequeued)
        requires
            old(self).wf(),
        ensures
            final(self).wf(),
            final(self).capacity == old(self).capacity,
            final(self).closed == old(self).closed,
            final(self).dropped == old(self).dropped,
            old(self).items@.len() > 0 ==> r == Dequeued::Item(old(self).items@.first())
                && final(self).items@ == old(self).items@.drop_first(),
            old(self).items@.len() == 0 ==> *final(self) == *old(self) && r == (
            if old(self).closed {
                Dequeued::Closed
            } else {
                Dequeued::Empty
            }),
    {
        if self.items.len() > 0 {
            let c = self.items.remove(0);
            proof {
                assert(old(self).items@.remove(0) =~= old(self).items@.drop_first());
            }
            Dequeued::Item(c)
        } else if self.closed {
            Dequeued::Closed
        } else {
            Dequeued::Empty
        }
    }

    /// Closes the queue: admission is refused from now on, while pending
    /// chunks stay to be drained.
    pub fn close(&mut self)
        requires
            old(self).wf(),
        ensures
            final(self).wf(),
            final(self).items@ == old(self).items@,
            final(self).capacity == old(self).capacity,
            final(self).dropped == old(self).dropped,
            final(self).closed,
    {
        self.closed = true;
    }

    /// Takes every pending chunk at once, in FIFO order: the graceful
    /// drain of a finished cycle.  The queue is left empty; nothing else
    /// changes.
    pub fn drain(&mut self) -> (out: Vec<Chunk>)
        requires
            old(self).wf(),
        ensures
            final(self).wf(),
            out@ == old(self).items@,
            final(self).items@ == Seq::<Chunk>::empty(),
            final(self).capacity == old(self).capacity,
            final(self).closed == old(self).closed,
            final(self).dropped == old(self).dropped,
    {
        let mut out: Vec<Chunk> = Vec::new();
        while self.items.len() > 0
            invariant
                self.wf(),
                self.capacity == old(self).capacity,
                self.closed == old(self).closed,
                self.dropped == old(self).dropped,
                out@ + self.items@ == old(self).items@,
            decreases self.items@.len(),
        {
            let ghost prev_out = out@;
            let ghost prev_items = self.items@;
            let c = self.items.remove(0);
            out.push(c);
            proof {
                assert(out@ + self.items@ =~= prev_out + prev_items);
            }
        }
        proof {
            assert(out@ =~= old(self).items@);
        }
        out
    }

    /// Number of chunks pending.
    pub fn len(&self) -> (n: usize)
        ensures
            n == self.items@.len(),
    {
        self.items.len()
    }

    /// Number of chunks discarded by the drop-on-full policy so far.
    pub fn drop_count(&self) -> (n: u64)
        ensures
            n == self.dropped,
    {
        self.dropped
    }

    /// Whether the queue has been closed.
    pub fn is_closed(&self) -> (b: bool)
        ensures
            b == self.closed,
    {
        self.closed
    }
}

/// The pending chunks after offering `cs`, in order, to an open queue
/// that holds `s` and admits at most `cap`: each chunk is appended when
/// there is room and discarded otherwise, exactly as `try_enqueue` does.
pub open spec fn admit_all(s: Seq<Chunk>, cap: int, cs: Seq<Chunk>) -> Seq<Chunk>
    decreases cs.len(),
{
    if cs.len() == 0 {
        s
    } else {
        let s1 = if s.len() < cap {
            s.push(cs.first())
        } else {
            s
        };
        admit_all(s1, cap, cs.drop_first())
    }
}

/// Drop-on-full admission keeps a prefix: offering `cs` to a queue that
/// holds `s` admits exactly the first chunks of `cs` that fit, in their
/// original order, after the ones already there; the rest are dropped.
pub proof fn lemma_admission_prefix(s: Seq<Chunk>, cap: int, cs: Seq<Chunk>)
    requires
        s.len() <= cap,
    ensures
        admit_all(s, cap, cs) =~= s + cs.take(min(cap - s.len(), cs.len() as int)),
    decreases cs.len(),
{
    if cs.len() == 0 {
    } else if s.len() < cap {
        let s1 = s.push(cs.first());
        lemma_admission_prefix(s1, cap, cs.drop_first());
        assert(s1 + cs.drop_first().take(min(cap - s1.len(), cs.drop_first().len() as int)) =~= s
            + cs.take(min(cap - s.len(), cs.len() as int)));
    } else {
        lemma_admission_prefix(s, cap, cs.drop_first());
        assert(cs.take(0) =~= Seq::<Chunk>::empty());
        assert(cs.drop_first().take(0) =~= Seq::<Chunk>::empty());
        assert(s + Seq::<Chunk>::empty() =~= s);
    }
}

/// The chunks yielded by dequeuing until the queue is empty, in order:
/// each dequeue takes the front, exactly as `dequeue` ensures.
pub open spec fn drain_all(s: Seq<Chunk>) -> Seq<Chunk>
    decreases s.len(),
{
    if s.len() == 0 {
        Seq::empty()
    } else {
        seq![s.first()] + drain_all(s.drop_first())
    }
}

/// Draining yields the pending chunks unchanged and in order.
pub proof fn lemma_drain_in_order(s: Seq<Chunk>)
    ensures
        drain_all(s) =~= s,
    decreases s.len(),
{
    if s.len() > 0 {
        lemma_drain_in_order(s.drop_first());
    }
}

/// FIFO ordering: any sequence of chunks that fits the capacity is
/// admitted in full, in order, and dequeuing until empty yields exactly
/// that sequence.
pub proof fn lemma_fifo_order(cap: int, cs: Seq<Chunk>)
    requires
        cs.len() <= cap,
    ensures
        admit_all(Seq::<Chunk>::empty(), cap, cs) =~= cs,
        drain_all(admit_all(Seq::<Chunk>::empty(), cap, cs)) =~= cs,
{
    lemma_admission_prefix(Seq::<Chunk>::empty(), cap, cs);
    assert(cs.take(cs.len() as int) =~= cs);
    lemma_drain_in_order(admit_all(Seq::<Chunk>::empty(), cap, cs));
}

/// Bounded overflow: offering more chunks than the capacity to an empty
/// queue fills it with exactly the first `cap` chunks, in their original
/// order; the remainder are dropped.
pub proof fn lemma_overflow_keeps_first(cap: int, cs: Seq<Chunk>)
    requires
        0 <= cap <= cs.len(),
    ensures
        admit_all(Seq::<Chunk>::empty(), cap, cs) =~= cs.take(cap),
{
    lemma_admission_prefix(Seq::<Chunk>::empty(), cap, cs);
}

} // verus!
