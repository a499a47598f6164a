//! Transport chunks and their payload buffers.
//!
//! A chunk's payload is a `bytes::Bytes` buffer, the cheaply cloneable
//! byte container the transport layer consumes.  Verified code treats a
//! `Bytes` value as opaque and reasons about it through `bytes_content`,
//! the byte sequence it holds; the two trusted wrappers below tie that
//! sequence to the crate's own operations.

use vstd::prelude::*;

verus! {

/// Declares `bytes::Bytes` to the verifier as an opaque type, so that a
/// buffer can stand in fields and signatures.
#[verifier::external_type_specification]
#[verifier::external_body]
pub struct ExBytes(bytes::Bytes);

/// The byte sequence a `bytes::Bytes` buffer holds.
pub uninterp spec fn bytes_content(b: bytes::Bytes) -> Seq<u8>;

/// Relies on `bytes::Bytes::copy_from_slice`: the returned buffer holds a
/// copy of the given slice.
#[verifier::external_body]
fn bytes_copy_from_slice(data: &[u8]) -> (r: bytes::Bytes)
    ensures
        bytes_content(r) == data@,
{
    bytes::Bytes::copy_from_slice(data)
}

/// Relies on `bytes::Bytes::len`: the number of bytes the buffer holds.
#[verifier::external_body]
fn bytes_len(b: &bytes::Bytes) -> (r: usize)
    ensures
        r == bytes_content(*b).len(),
{
    b.len()
}

/// One timed packet as the demuxer hands it over: its presentation
/// timestamp in microseconds, the stream it belongs to, and its bytes in
/// transport-container framing, ready for chunking.
pub struct TimedPacket {
    pub pts: u64,
    pub stream_id: u64,
    pub payload: Vec<u8>,
}

impl TimedPacket {
    /// Builds a packet holding a copy of `payload`.
    pub fn new(pts: u64, stream_id: u64, payload: &[u8]) -> (p: TimedPacket)
        ensures
            p.pts == pts,
            p.stream_id == stream_id,
            p.payload@ == payload@,
    {
        let data = vstd::slice::slice_to_vec(payload);
        TimedPacket { pts, stream_id, payload: data }
    }
}

/// One fixed-size slice of the repacketized byte stream, ready for the
/// transport: a sequence number assigned in production order and the
/// payload bytes.
pub struct Chunk {
    pub seq: u64,
    pub data: bytes::Bytes,
}

impl Chunk {
    /// The payload as a byte sequence.
    pub open spec fn content(self) -> Seq<u8> {
        bytes_content(self.data)
    }

    /// Builds a chunk holding a copy of `data`.
    pub fn new(seq: u64, data: &[u8]) -> (c: Chunk)
        ensures
            c.seq == seq,
            c.content() == data@,
    {
        Chunk { seq, data: bytes_copy_from_slice(data) }
    }

    /// Payload length in bytes.
    pub fn len(&self) -> (n: usize)
        ensures
            n == self.content().len(),
    {
        bytes_len(&self.data)
    }
}

} // verus!
