//! Producer pipeline: one sequential unit of work per packet.
//!
//! For each timed packet the pipeline computes the release decision from
//! the presentation timestamp, slices the packet's muxed bytes into
//! transport chunks, and offers every chunk to the bounded relay queue in
//! order, never blocking.  The consumer side dequeues at its own pace
//! through `RelayQueue::dequeue`.

use vstd::prelude::*;
use vstd::math::min;
use crate::pace::{PaceState, Release, MAX_TIME};
use crate::payload::TimedPacket;
use crate::queue::{Admit, RelayQueue};
use crate::repack::{chunk_count, chunks_of, Repacketizer};

verus! {

/// The producer side of one cycle: pacing state, chunk numbering, and the
/// relay queue toward the transport sender.
pub struct Producer {
    pub pace: PaceState,
    pub repack: Repacketizer,
    pub queue: RelayQueue,
}

impl Producer {
    /// Producer invariant: pacing state and queue are well-formed.
    pub open spec fn wf(self) -> bool {
        self.pace.wf() && self.queue.wf()
    }

    /// Fresh producer for a new cycle: no pacing anchor yet, chunks
    /// numbered from 0, an empty open queue of the given capacity.
    pub fn new(capacity: usize) -> (p: Producer)
        requires
            capacity >= 1,
        ensures
            p.wf(),
            p.pace.last_timestamp is None,
            p.pace.last_deadline is None,
            p.repack.next_seq == 0,
            p.queue.items@ == Seq::<crate::payload::Chunk>::empty(),
            p.queue.capacity == capacity,
            !p.queue.closed,
            p.queue.dropped == 0,
    {
        Producer { pace: PaceState::new(), repack: Repacketizer::new(), queue: RelayQueue::new(capacity) }
    }

    /// Starts a new playback cycle: the pacing state is reset so the
    /// next packet anchors a fresh schedule, while chunk numbering and
    /// the queue continue as they are.
    pub fn reset_pacing(&mut self)
        requires
            old(self).wf(),
        ensures
            final(self).wf(),
            final(self).pace.last_timestamp is None,
            final(self).pace.last_deadline is None,
            final(self).repack == old(self).repack,
            final(self).queue == old(self).queue,
    {
        self.pace = PaceState::new();
    }

    /// Decides the release of the packet with timestamp `pts` at clock
    /// reading `now`, exactly as the pace schedule says.  The caller
    /// waits out an `At` deadline before writing the packet's muxed
    /// bytes.
    pub fn schedule_packet(&mut self, pts: u64, now: u64) -> (r: Release)
        requires
            old(self).wf(),
            pts <= MAX_TIME,
            now <= MAX_TIME,
        ensures
            final(self).wf(),
            (final(self).pace, r) == PaceState::step(old(self).pace, pts, now),
            final(self).repack == old(self).repack,
            final(self).queue == old(self).queue,
    {
        self.pace.schedule(pts, now)
    }

    /// The queue adapter the muxer writes through: slices one unit of
    /// muxed output into chunks numbered in production order and offers
    /// each to the queue without blocking.  Exactly the first chunks
    /// that fit are admitted, behind what the queue already holds; each
    /// dropped chunk is counted.  Returns how many were admitted.
    pub fn write_muxed(&mut self, data: &[u8]) -> (admitted: usize)
        requires
            old(self).wf(),
            !old(self).queue.closed,
            old(self).repack.next_seq + chunk_count(data@.len()) <= u64::MAX,
        ensures
            final(self).wf(),
            final(self).pace == old(self).pace,
            final(self).queue.capacity == old(self).queue.capacity,
            !final(self).queue.closed,
            ({
                let n = chunks_of(data@).len() as int;
                let prior = old(self).queue.items@.len() as int;
                let k = min(old(self).queue.capacity - prior, n);
                &&& admitted == k
                &&& final(self).repack.next_seq == old(self).repack.next_seq + n
                &&& final(self).queue.items@.len() == prior + k
                &&& (forall|i: int|
                    0 <= i < prior ==> #[trigger] final(self).queue.items@[i] == old(
                        self,
                    ).queue.items@[i])
                &&& (forall|i: int|
                    0 <= i < k ==> (#[trigger] final(self).queue.items@[prior + i]).content()
                        == chunks_of(data@)[i])
                &&& (forall|i: int|
                    0 <= i < k ==> (#[trigger] final(self).queue.items@[prior + i]).seq == old(
                        self,
                    ).repack.next_seq + i)
                &&& final(self).queue.dropped == min(
                    old(self).queue.dropped + (n - k),
                    u64::MAX as int,
                )
            }),
    {
        let mut chunks = self.repack.write(data);
        let ghost pace1 = self.pace;
        let ghost repack1 = self.repack;
        let ghost orig = chunks@;
        let ghost prior = self.queue.items@;
        let ghost dropped0 = self.queue.dropped;
        let ghost n = orig.len() as int;
        let ghost room = self.queue.capacity - prior.len();
        let mut admitted: usize = 0;
        while chunks.len() > 0
            invariant
                self.queue.wf(),
                self.pace == pace1,
                self.repack == repack1,
                n == orig.len(),
                chunks@.len() <= n,
                chunks@ == orig.skip(n - chunks@.len()),
                self.queue.capacity == old(self).queue.capacity,
                !self.queue.closed,
                prior.len() + room == self.queue.capacity,
                0 <= room,
                ({
                    let j = n - chunks@.len() as int;
                    let k = min(room, j);
                    &&& admitted == k
                    &&& self.queue.items@ == prior + orig.take(k)
                    &&& self.queue.dropped == min(dropped0 + (j - k), u64::MAX as int)
                }),
            decreases chunks.len(),
        {
            let ghost j = n - chunks@.len() as int;
            let ghost k = min(room, j);
            let c = chunks.remove(0);
            proof {
                assert(c == orig[j]);
                assert(chunks@ =~= orig.skip(n - chunks@.len()));
            }
            let outcome = self.queue.try_enqueue(c);
            match outcome {
                Admit::Accepted => {
                    admitted = admitted + 1;
                    proof {
                        assert(k == j);
                        assert(self.queue.items@ =~= prior + orig.take(j + 1));
                    }
                }
                _ => {
                    proof {
                        assert(k == room && j >= room);
                        assert(orig.take(k) =~= orig.take(min(room, j + 1)));
                    }
                }
            }
        }
        proof {
            let k = min(room, n);
            assert(self.queue.items@ == prior + orig.take(k));
            assert forall|i: int| 0 <= i < prior.len() implies #[trigger] self.queue.items@[i]
                == prior[i] by {}
            assert forall|i: int| 0 <= i < k implies self.queue.items@[prior.len() + i]
                == orig[i] by {
                assert(self.queue.items@[prior.len() + i] == orig.take(k)[i]);
            }
        }
        admitted
    }

    /// Processes one packet in a single step: decides its release per
    /// the pace schedule, then slices its muxed bytes into chunks and
    /// offers each to the queue at once.  For real-time use, call
    /// `schedule_packet`, wait out the deadline, then `write_muxed`, so
    /// the chunks reach the sender only when the packet is due.
    pub fn process_packet(&mut self, pts: u64, now: u64, data: &[u8]) -> (r: Release)
        requires
            old(self).wf(),
            pts <= MAX_TIME,
            now <= MAX_TIME,
            !old(self).queue.closed,
            old(self).repack.next_seq + chunk_count(data@.len()) <= u64::MAX,
        ensures
            final(self).wf(),
            (final(self).pace, r) == PaceState::step(old(self).pace, pts, now),
            final(self).queue.capacity == old(self).queue.capacity,
            !final(self).queue.closed,
            ({
                let n = chunks_of(data@).len() as int;
                let prior = old(self).queue.items@.len() as int;
                let k = min(old(self).queue.capacity - prior, n);
                &&& final(self).repack.next_seq == old(self).repack.next_seq + n
                &&& final(self).queue.items@.len() == prior + k
                &&& (forall|i: int|
                    0 <= i < prior ==> #[trigger] final(self).queue.items@[i] == old(
                        self,
                    ).queue.items@[i])
                &&& (forall|i: int|
                    0 <= i < k ==> (#[trigger] final(self).queue.items@[prior + i]).content()
                        == chunks_of(data@)[i])
                &&& (forall|i: int|
                    0 <= i < k ==> (#[trigger] final(self).queue.items@[prior + i]).seq == old(
                        self,
                    ).repack.next_seq + i)
                &&& final(self).queue.dropped == min(
                    old(self).queue.dropped + (n - k),
                    u64::MAX as int,
                )
            }),
    {
        let r = self.schedule_packet(pts, now);
        let _ = self.write_muxed(data);
        r
    }

    /// Processes one timed packet whose payload already carries the
    /// transport-container framing: exactly `process_packet` on the
    /// packet's timestamp and payload.
    pub fn process_timed(&mut self, pkt: &TimedPacket, now: u64) -> (r: Release)
        requires
            old(self).wf(),
            pkt.pts <= MAX_TIME,
            now <= MAX_TIME,
            !old(self).queue.closed,
            old(self).repack.next_seq + chunk_count(pkt.payload@.len()) <= u64::MAX,
        ensures
            final(self).wf(),
            (final(self).pace, r) == PaceState::step(old(self).pace, pkt.pts, now),
            final(self).queue.capacity == old(self).queue.capacity,
            !final(self).queue.closed,
            ({
                let n = chunks_of(pkt.payload@).len() as int;
                let prior = old(self).queue.items@.len() as int;
                let k = min(old(self).queue.capacity - prior, n);
                &&& final(self).repack.next_seq == old(self).repack.next_seq + n
                &&& final(self).queue.items@.len() == prior + k
                &&& (forall|i: int|
                    0 <= i < prior ==> #[trigger] final(self).queue.items@[i] == old(
                        self,
                    ).queue.items@[i])
                &&& (forall|i: int|
                    0 <= i < k ==> (#[trigger] final(self).queue.items@[prior + i]).content()
                        == chunks_of(pkt.payload@)[i])
                &&& (forall|i: int|
                    0 <= i < k ==> (#[trigger] final(self).queue.items@[prior + i]).seq == old(
                        self,
                    ).repack.next_seq + i)
                &&& final(self).queue.dropped == min(
                    old(self).queue.dropped + (n - k),
                    u64::MAX as int,
                )
            }),
    {
        self.process_packet(pkt.pts, now, pkt.payload.as_slice())
    }
}

} // verus!
