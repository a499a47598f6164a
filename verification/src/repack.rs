//! Repacketizer: slices the muxed byte stream into fixed-size transport
//! chunks.
//!
//! Each unit of muxed output is cut into chunks of exactly
//! `MAX_CHUNK_SIZE` bytes, with one shorter final chunk when the length is
//! not a multiple.  Chunks carry consecutive sequence numbers in
//! production order, and concatenating their payloads in that order gives
//! back the input bytes exactly.

use vstd::prelude::*;
use crate::payload::Chunk;

verus! {

/// Transport chunk payload budget, in bytes: the largest payload one
/// transport message carries.
pub const MAX_CHUNK_SIZE: usize = 1316;

/// The chunking of a byte stream: successive slices of `MAX_CHUNK_SIZE`
/// bytes, the last possibly shorter.
pub open spec fn chunks_of(s: Seq<u8>) -> Seq<Seq<u8>>
    decreases s.len(),
{
    if s.len() == 0 {
        Seq::empty()
    } else if s.len() <= MAX_CHUNK_SIZE {
        seq![s]
    } else {
        seq![s.take(MAX_CHUNK_SIZE as int)] + chunks_of(s.skip(MAX_CHUNK_SIZE as int))
    }
}

/// The concatenation of a sequence of byte sequences, in order.
pub open spec fn concat_of(cs: Seq<Seq<u8>>) -> Seq<u8>
    decreases cs.len(),
{
    if cs.len() == 0 {
        Seq::<u8>::empty()
    } else {
        cs.first() + concat_of(cs.drop_first())
    }
}

/// How many chunks a stream of `len` bytes yields: `len / MAX_CHUNK_SIZE`,
/// rounded up.
pub open spec fn chunk_count(len: nat) -> int {
    (len + MAX_CHUNK_SIZE - 1) / (MAX_CHUNK_SIZE as int)
}

/// Number of chunks a stream of `len` bytes yields.
pub fn chunk_count_exec(len: usize) -> (n: u64)
    ensures
        n == chunk_count(len as nat),
{
    if len == 0 {
        0
    } else {
        (len as u64 - 1) / (MAX_CHUNK_SIZE as u64) + 1
    }
}

/// Chunking invariant: a stream of length `L` yields exactly
/// `L / MAX_CHUNK_SIZE` rounded up chunks; every chunk but the last holds
/// exactly `MAX_CHUNK_SIZE` bytes, the last is non-empty and no longer;
/// and concatenating the chunks in order reproduces the stream.
pub proof fn lemma_chunking_invariant(s: Seq<u8>)
    ensures
        chunks_of(s).len() == chunk_count(s.len()),
        forall|i: int|
            0 <= i < chunks_of(s).len() - 1 ==> (#[trigger] chunks_of(s)[i]).len()
                == MAX_CHUNK_SIZE,
        chunks_of(s).len() > 0 ==> 0 < chunks_of(s).last().len() <= MAX_CHUNK_SIZE,
        concat_of(chunks_of(s)) == s,
    decreases s.len(),
{
    if s.len() == 0 {
        assert(concat_of(chunks_of(s)) =~= s);
    } else if s.len() <= MAX_CHUNK_SIZE {
        let cs = chunks_of(s);
        assert(cs =~= seq![s]);
        assert(cs.drop_first() =~= Seq::<Seq<u8>>::empty());
        assert(concat_of(cs) == cs.first() + concat_of(cs.drop_first()));
        assert(cs.first() == s);
        assert(concat_of(cs.drop_first()) == Seq::<u8>::empty());
        assert(concat_of(cs) =~= s);
    } else {
        let head = s.take(MAX_CHUNK_SIZE as int);
        let tail = s.skip(MAX_CHUNK_SIZE as int);
        lemma_chunking_invariant(tail);
        assert(chunks_of(s).drop_first() =~= chunks_of(tail));
        assert(concat_of(chunks_of(s)) =~= head + concat_of(chunks_of(tail)));
        assert(concat_of(chunks_of(s)) =~= s);
        assert forall|i: int| 0 <= i < chunks_of(s).len() - 1 implies (#[trigger] chunks_of(
            s,
        )[i]).len() == MAX_CHUNK_SIZE by {
            if i > 0 {
                assert(chunks_of(s)[i] == chunks_of(tail)[i - 1]);
            }
        }
    }
}

/// Repacketizer state: the sequence number the next chunk will carry.
pub struct Repacketizer {
    pub next_seq: u64,
}

impl Repacketizer {
    /// Fresh repacketizer, numbering chunks from 0.
    pub fn new() -> (r: Repacketizer)
        ensures
            r.next_seq == 0,
    {
        Repacketizer { next_seq: 0 }
    }

    /// Slices one unit of muxed output into chunks, numbered consecutively
    /// from the current sequence number in production order.  The chunk
    /// payloads are exactly `chunks_of(data@)`.
    pub fn write(&mut self, data: &[u8]) -> (out: Vec<Chunk>)
        requires
            old(self).next_seq + chunk_count(data@.len()) <= u64::MAX,
        ensures
            out@.len() == chunks_of(data@).len(),
            forall|i: int|
                0 <= i < out@.len() ==> (#[trigger] out@[i]).content() == chunks_of(data@)[i],
            forall|i: int| 0 <= i < out@.len() ==> (#[trigger] out@[i]).seq
                == old(self).next_seq + i,
            final(self).next_seq == old(self).next_seq + out@.len(),
    {
        proof {
            lemma_chunking_invariant(data@);
        }
        let len = data.len();
        let mut out: Vec<Chunk> = Vec::new();
        let mut pos: usize = 0;
        while pos < len
            invariant
                len == data@.len(),
                pos <= len,
                pos == len || pos == out@.len() * MAX_CHUNK_SIZE,
                out@.len() == chunk_count(pos as nat),
                out@.len() <= chunks_of(data@).len(),
                forall|i: int|
                    0 <= i < out@.len() ==> (#[trigger] out@[i]).content() == chunks_of(data@)[i],
                forall|i: int| 0 <= i < out@.len() ==> (#[trigger] out@[i]).seq
                    == old(self).next_seq + i,
                self.next_seq == old(self).next_seq + out@.len(),
                old(self).next_seq + chunk_count(data@.len()) <= u64::MAX,
                chunks_of(data@).len() == chunk_count(data@.len()),
            decreases len - pos,
        {
            let end = if len - pos > MAX_CHUNK_SIZE {
                pos + MAX_CHUNK_SIZE
            } else {
                len
            };
            let piece = vstd::slice::slice_subrange(data, pos, end);
            proof {
                lemma_chunks_of_index(data@, out@.len() as int);
            }
            let c = Chunk::new(self.next_seq, piece);
            out.push(c);
            self.next_seq = self.next_seq + 1;
            pos = end;
        }
        out
    }
}

/// Each chunk of a stream is the corresponding fixed-size slice of it.
proof fn lemma_chunks_of_index(s: Seq<u8>, i: int)
    requires
        0 <= i < chunks_of(s).len(),
    ensures
        chunks_of(s)[i] == s.subrange(
            i * MAX_CHUNK_SIZE,
            if i * MAX_CHUNK_SIZE + MAX_CHUNK_SIZE <= s.len() {
                i * MAX_CHUNK_SIZE + MAX_CHUNK_SIZE
            } else {
                s.len() as int
            },
        ),
    decreases s.len(),
{
    lemma_chunking_invariant(s);
    if s.len() == 0 {
    } else if s.len() <= MAX_CHUNK_SIZE {
        assert(chunks_of(s)[0] =~= s.subrange(0, s.len() as int));
    } else {
        let tail = s.skip(MAX_CHUNK_SIZE as int);
        if i == 0 {
            assert(chunks_of(s)[0] =~= s.subrange(0, MAX_CHUNK_SIZE as int));
        } else {
            lemma_chunks_of_index(tail, i - 1);
            assert(chunks_of(s)[i] == chunks_of(tail)[i - 1]);
            let lo = (i - 1) * MAX_CHUNK_SIZE;
            let hi = if lo + MAX_CHUNK_SIZE <= tail.len() {
                lo + MAX_CHUNK_SIZE
            } else {
                tail.len() as int
            };
            assert(tail.subrange(lo, hi) =~= s.subrange(
                lo + MAX_CHUNK_SIZE,
                hi + MAX_CHUNK_SIZE,
            ));
            assert(i * MAX_CHUNK_SIZE == (i - 1) * MAX_CHUNK_SIZE + MAX_CHUNK_SIZE)
                by (nonlinear_arith);
            assert(i * MAX_CHUNK_SIZE == lo + MAX_CHUNK_SIZE);
        }
    }
}

} // verus!
