//! Cycle controller: the state machine that drives one playback cycle
//! and decides restarts.
//!
//! A cycle runs `Listening -> Connected -> Streaming -> Closed`, with
//! `Errored` reachable from `Connected` or `Streaming` on any fatal
//! failure.  From `Closed` or `Errored`, a looped file source restarts at
//! once with fresh pacing state; a connection-oriented source either
//! listens again or terminates, as configured.

use vstd::prelude::*;

verus! {

/// Where this cycle's packets come from: a file replayed in a loop, or a
/// live connection.
#[derive(Clone, Copy, Debug, PartialEq, Eq, Structural)]
pub enum SourceKind {
    FileLoop,
    Connection,
}

/// Restart policy for the cycle controller.
#[derive(Clone, Copy)]
pub struct CycleConfig {
    pub source: SourceKind,
    /// For a connection source: listen for the next peer after a cycle
    /// ends, instead of terminating.
    pub relisten: bool,
}

/// Connection status of the running cycle.
#[derive(Clone, Copy, Debug, PartialEq, Eq, Structural)]
pub enum Status {
    Listening,
    Connected,
    Streaming,
    Closed,
    Errored,
}

/// What happened, as reported by the transport, demuxer or sender.
#[derive(Clone, Copy, Debug, PartialEq, Eq, Structural)]
pub enum CycleEvent {
    /// The transport accept or connect succeeded.
    PeerConnected,
    /// The demuxer and pace scheduler began producing.
    StreamingStarted,
    /// The demuxer reached end-of-stream.
    EndOfStream,
    /// A fatal failure from the source, the muxer setup or the transport.
    FatalError,
    /// The drain and teardown of a finished cycle completed.
    CycleTorndown,
}

/// What the surrounding loop must do after a transition.
#[derive(Clone, Copy, Debug, PartialEq, Eq, Structural)]
pub enum CycleAction {
    /// Keep going; nothing to set up or tear down.
    Continue,
    /// Drain the relay queue gracefully, then tear the cycle down.
    DrainAndClose,
    /// Close the relay queue at once, then tear the cycle down.
    CloseNow,
    /// Start the next cycle with fresh pacing state.
    Restart,
    /// Listen for the next peer, then start the next cycle afresh.
    Relisten,
    /// Stop for good.
    Terminate,
}

/// Cycle controller state: how many cycles have run, and where the
/// current one stands.
#[derive(Clone, Copy, Debug, PartialEq, Eq, Structural)]
pub struct CycleState {
    pub cycle_index: u64,
    pub status: Status,
}

impl CycleState {
    /// One transition of the cycle state machine as a mathematical
    /// function.  An event that has no meaning in the current status
    /// changes nothing.
    pub open spec fn step(s: CycleState, ev: CycleEvent, cfg: CycleConfig) -> (
        CycleState,
        CycleAction,
    ) {
        match (s.status, ev) {
            (Status::Listening, CycleEvent::PeerConnected) => (
                CycleState { status: Status::Connected, ..s },
                CycleAction::Continue,
            ),
            (Status::Connected, CycleEvent::StreamingStarted) => (
                CycleState { status: Status::Streaming, ..s },
                CycleAction::Continue,
            ),
            (Status::Streaming, CycleEvent::EndOfStream) => (
                CycleState { status: Status::Closed, ..s },
                CycleAction::DrainAndClose,
            ),
            (Status::Connected, CycleEvent::FatalError) => (
                CycleState { status: Status::Errored, ..s },
                CycleAction::CloseNow,
            ),
            (Status::Streaming, CycleEvent::FatalError) => (
                CycleState { status: Status::Errored, ..s },
                CycleAction::CloseNow,
            ),
            (Status::Closed, CycleEvent::CycleTorndown) => Self::next_cycle(s, cfg),
            (Status::Errored, CycleEvent::CycleTorndown) => Self::next_cycle(s, cfg),
            _ => (s, CycleAction::Continue),
        }
    }

    /// Where a finished cycle goes: a looped file source reconnects and
    /// restarts at once; a connection source listens again or terminates,
    /// as configured.
    pub open spec fn next_cycle(s: CycleState, cfg: CycleConfig) -> (CycleState, CycleAction) {
        match cfg.source {
            SourceKind::FileLoop => (
                CycleState {
                    cycle_index: vstd::math::min(s.cycle_index + 1, u64::MAX as int) as u64,
                    status: Status::Connected,
                },
                CycleAction::Restart,
            ),
            SourceKind::Connection => if cfg.relisten {
                (
                    CycleState {
                        cycle_index: vstd::math::min(s.cycle_index + 1, u64::MAX as int) as u64,
                        status: Status::Listening,
                    },
                    CycleAction::Relisten,
                )
            } else {
                (s, CycleAction::Terminate)
            },
        }
    }

    /// Fresh controller, about to wait for its first peer.
    pub fn new() -> (s: CycleState)
        ensures
            s.cycle_index == 0,
            s.status is Listening,
    {
        CycleState { cycle_index: 0, status: Status::Listening }
    }

    /// Feeds one event to the controller and returns what the surrounding
    /// loop must do, exactly as `step` describes.
    pub fn advance(&mut self, ev: CycleEvent, cfg: CycleConfig) -> (a: CycleAction)
        ensures
            (*final(self), a) == CycleState::step(*old(self), ev, cfg),
    {
        match (self.status, ev) {
            (Status::Listening, CycleEvent::PeerConnected) => {
                self.status = Status::Connected;
                CycleAction::Continue
            }
            (Status::Connected, CycleEvent::StreamingStarted) => {
                self.status = Status::Streaming;
                CycleAction::Continue
            }
            (Status::Streaming, CycleEvent::EndOfStream) => {
                self.status = Status::Closed;
                CycleAction::DrainAndClose
            }
            (Status::Connected, CycleEvent::FatalError) => {
                self.status = Status::Errored;
                CycleAction::CloseNow
            }
            (Status::Streaming, CycleEvent::FatalError) => {
                self.status = Status::Errored;
                CycleAction::CloseNow
            }
            (Status::Closed, CycleEvent::CycleTorndown) => self.start_next(cfg),
            (Status::Errored, CycleEvent::CycleTorndown) => self.start_next(cfg),
            _ => CycleAction::Continue,
        }
    }

    /// Applies the restart policy after teardown, exactly as `next_cycle`
    /// describes.
    fn start_next(&mut self, cfg: CycleConfig) -> (a: CycleAction)
        ensures
            (*final(self), a) == CycleState::next_cycle(*old(self), cfg),
    {
        match cfg.source {
            SourceKind::FileLoop => {
                self.cycle_index = self.cycle_index.saturating_add(1);
                self.status = Status::Connected;
                CycleAction::Restart
            }
            SourceKind::Connection => {
                if cfg.relisten {
                    self.cycle_index = self.cycle_index.saturating_add(1);
                    self.status = Status::Listening;
                    CycleAction::Relisten
                } else {
                    CycleAction::Terminate
                }
            }
        }
    }
}

} // verus!
