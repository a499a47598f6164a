//! A timestamp-paced repacketization pipeline for live media relay.
//!
//! The library moves a timed media stream from a producer to a consumer:
//! the pace scheduler reconstructs the original inter-packet spacing from
//! presentation timestamps, the repacketizer slices the muxed byte stream
//! into fixed-size transport chunks, a bounded relay queue decouples the
//! deadline-driven producer from the I/O-bound sender with a drop-on-full
//! admission policy, and a cycle controller drives connection and restart
//! decisions.  All timing, chunking, queueing and state-machine logic is
//! verified; the transport and container libraries stay behind the
//! surrounding application.

pub mod cycle;
pub mod pace;
pub mod payload;
pub mod pipeline;
pub mod queue;
pub mod repack;
