use paced_relay::payload::Chunk;
use paced_relay::repack::{chunk_count_exec, Repacketizer, MAX_CHUNK_SIZE};

fn pattern(len: usize) -> Vec<u8> {
    (0..len).map(|i| (i % 251) as u8).collect()
}

#[test]
fn chunk_new_copies_payload() {
    let c = Chunk::new(9, &[1, 2, 3]);
    assert_eq!(c.seq, 9);
    assert_eq!(c.len(), 3);
    assert_eq!(&c.data[..], &[1, 2, 3]);
}

#[test]
fn chunking_splits_and_reassembles() {
    // 2000 bytes: two chunks of 1316 and 684 whose concatenation is the
    // original stream.
    let data = pattern(2000);
    let mut r = Repacketizer::new();
    let chunks = r.write(&data);
    assert_eq!(chunks.len(), 2);
    assert_eq!(chunks[0].len(), MAX_CHUNK_SIZE);
    assert_eq!(chunks[1].len(), 684);
    assert_eq!(chunks[0].seq, 0);
    assert_eq!(chunks[1].seq, 1);
    let mut joined: Vec<u8> = Vec::new();
    for c in &chunks {
        joined.extend_from_slice(&c.data[..]);
    }
    assert_eq!(joined, data);
    assert_eq!(r.next_seq, 2);
}

#[test]
fn chunking_exact_multiple_has_no_remainder() {
    let data = pattern(2 * MAX_CHUNK_SIZE);
    let mut r = Repacketizer::new();
    let chunks = r.write(&data);
    assert_eq!(chunks.len(), 2);
    assert_eq!(chunks[0].len(), MAX_CHUNK_SIZE);
    assert_eq!(chunks[1].len(), MAX_CHUNK_SIZE);
}

#[test]
fn chunking_empty_stream_yields_nothing() {
    let mut r = Repacketizer::new();
    let chunks = r.write(&[]);
    assert_eq!(chunks.len(), 0);
    assert_eq!(r.next_seq, 0);
}

#[test]
fn chunking_short_stream_is_one_chunk() {
    let data = pattern(100);
    let mut r = Repacketizer::new();
    let chunks = r.write(&data);
    assert_eq!(chunks.len(), 1);
    assert_eq!(&chunks[0].data[..], &data[..]);
}

#[test]
fn chunk_count_is_length_divided_rounding_up() {
    for len in [1usize, 1315, 1316, 1317, 2632, 2633, 5000] {
        let data = pattern(len);
        let mut r = Repacketizer::new();
        let chunks = r.write(&data);
        assert_eq!(chunks.len(), len.div_ceil(MAX_CHUNK_SIZE));
        for c in &chunks[..chunks.len() - 1] {
            assert_eq!(c.len(), MAX_CHUNK_SIZE);
        }
        assert!(chunks.last().unwrap().len() <= MAX_CHUNK_SIZE);
        assert!(chunks.last().unwrap().len() > 0);
    }
}

#[test]
fn sequence_numbers_continue_across_writes() {
    let mut r = Repacketizer::new();
    let a = r.write(&pattern(2000));
    let b = r.write(&pattern(10));
    assert_eq!(a[1].seq, 1);
    assert_eq!(b[0].seq, 2);
    assert_eq!(r.next_seq, 3);
}

#[test]
fn chunk_count_exec_rounds_up() {
    assert_eq!(chunk_count_exec(0), 0);
    assert_eq!(chunk_count_exec(1), 1);
    assert_eq!(chunk_count_exec(MAX_CHUNK_SIZE), 1);
    assert_eq!(chunk_count_exec(MAX_CHUNK_SIZE + 1), 2);
    assert_eq!(chunk_count_exec(2 * MAX_CHUNK_SIZE), 2);
    assert_eq!(chunk_count_exec(2 * MAX_CHUNK_SIZE + 5), 3);
}
