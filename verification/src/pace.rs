//! Pace scheduler: converts presentation timestamps into wall-clock
//! release deadlines.
//!
//! Times are in microseconds.  The first packet of a cycle is released at
//! once and anchors the schedule; each later packet with a strictly larger
//! timestamp is due at the previous deadline plus the timestamp delta, so
//! the original inter-packet spacing is reproduced without drift.  A packet
//! whose timestamp does not advance is released at once and leaves the
//! anchor untouched, so deadlines never move backwards.

use vstd::prelude::*;

verus! {

/// Largest admissible time value, in microseconds.  Keeping timestamps and
/// clock readings at or below this bound makes every deadline computation
/// fit in a `u64`.
pub const MAX_TIME: u64 = u64::MAX / 2;

/// What the scheduler decides for one packet: release it immediately, or
/// hold it until the given deadline (microseconds on the caller's clock).
#[derive(Clone, Copy, Debug, PartialEq, Eq, Structural)]
pub enum Release {
    Immediate,
    At(u64),
}

/// Pacing state for one playback cycle: the timestamp of the last packet
/// that advanced the schedule, and the deadline it was released at.
/// Both are `None` before the first packet of the cycle.
pub struct PaceState {
    pub last_timestamp: Option<u64>,
    pub last_deadline: Option<u64>,
}

impl PaceState {
    /// Well-formed pacing state: the two fields are set together, and the
    /// deadline exceeds the timestamp by at most `MAX_TIME` (true of every
    /// state the scheduler produces; it bounds the next deadline).
    pub open spec fn wf(self) -> bool {
        match (self.last_timestamp, self.last_deadline) {
            (Option::Some(ts), Option::Some(dl)) => ts <= MAX_TIME && dl <= MAX_TIME + ts,
            (Option::None, Option::None) => true,
            _ => false,
        }
    }

    /// One scheduling step as a mathematical function: the state after the
    /// packet and the release decision for it.
    pub open spec fn step(s: PaceState, pts: u64, now: u64) -> (PaceState, Release) {
        match (s.last_timestamp, s.last_deadline) {
            (Option::Some(ts), Option::Some(dl)) => if pts > ts {
                let d = (dl + (pts - ts)) as u64;
                (
                    PaceState { last_timestamp: Option::Some(pts), last_deadline: Option::Some(d) },
                    Release::At(d),
                )
            } else {
                (s, Release::Immediate)
            },
            _ => (
                PaceState { last_timestamp: Option::Some(pts), last_deadline: Option::Some(now) },
                Release::Immediate,
            ),
        }
    }

    /// Fresh state for the start of a playback cycle.
    pub fn new() -> (s: PaceState)
        ensures
            s.last_timestamp is None,
            s.last_deadline is None,
            s.wf(),
    {
        PaceState { last_timestamp: Option::None, last_deadline: Option::None }
    }

    /// Schedules one packet: updates the state and returns the release
    /// decision, exactly as `step` describes.  The deadline on record never
    /// decreases, and the caller is told to wait only when the timestamp
    /// strictly advanced.
    pub fn schedule(&mut self, pts: u64, now: u64) -> (r: Release)
        requires
            old(self).wf(),
            pts <= MAX_TIME,
            now <= MAX_TIME,
        ensures
            final(self).wf(),
            (*final(self), r) == PaceState::step(*old(self), pts, now),
            old(self).last_deadline is Some ==> final(self).last_deadline is Some
                && old(self).last_deadline->0 <= final(self).last_deadline->0,
            (r is At) <==> (old(self).last_timestamp is Some
                && pts > old(self).last_timestamp->0),
    {
        match (self.last_timestamp, self.last_deadline) {
            (Option::Some(ts), Option::Some(dl)) => {
                if pts > ts {
                    let delta = pts - ts;
                    let deadline = dl + delta;
                    self.last_timestamp = Option::Some(pts);
                    self.last_deadline = Option::Some(deadline);
                    Release::At(deadline)
                } else {
                    Release::Immediate
                }
            }
            _ => {
                self.last_timestamp = Option::Some(pts);
                self.last_deadline = Option::Some(now);
                Release::Immediate
            }
        }
    }
}

/// Pacing monotonicity: from a fresh state anchored at `now`, packets with
/// strictly increasing timestamps `t0 < t1 < t2` get non-decreasing
/// deadlines `d0 <= d1 <= d2`, and consecutive deadlines are spaced exactly
/// as the timestamps are: `d1 - d0 == t1 - t0` and `d2 - d1 == t2 - t1`.
pub proof fn lemma_pacing_monotonic(t0: u64, t1: u64, t2: u64, now: u64)
    requires
        t0 < t1 < t2 <= MAX_TIME,
        now <= MAX_TIME,
    ensures
        ({
            let s0 = PaceState { last_timestamp: Option::None, last_deadline: Option::None };
            let (s1, _r0) = PaceState::step(s0, t0, now);
            let (s2, _r1) = PaceState::step(s1, t1, now);
            let (s3, _r2) = PaceState::step(s2, t2, now);
            let d0 = s1.last_deadline->0;
            let d1 = s2.last_deadline->0;
            let d2 = s3.last_deadline->0;
            d0 <= d1 <= d2 && d1 - d0 == t1 - t0 && d2 - d1 == t2 - t1
        }),
{
}

/// Non-monotonic timestamp handling: a packet whose timestamp does not
/// advance past the schedule's last timestamp is released immediately and
/// changes nothing, so the next advancing packet's deadline is computed
/// from the deadline and timestamp on record before the stale packet, not
/// from the stale packet.
pub proof fn lemma_stale_timestamp_skipped(s: PaceState, t1: u64, t2: u64, now1: u64, now2: u64)
    requires
        s.wf(),
        s.last_timestamp is Some,
        t1 <= s.last_timestamp->0,
        s.last_timestamp->0 < t2 <= MAX_TIME,
    ensures
        ({
            let (s1, r1) = PaceState::step(s, t1, now1);
            let (s2, r2) = PaceState::step(s1, t2, now2);
            r1 is Immediate && s1 == s
                && r2 == Release::At(
                (s.last_deadline->0 + (t2 - s.last_timestamp->0)) as u64,
            )
        }),
{
}

} // verus!
