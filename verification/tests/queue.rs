use paced_relay::payload::Chunk;
use paced_relay::queue::{Admit, Dequeued, RelayQueue};

#[test]
fn overflow_drops_exactly_the_excess() {
    // Capacity 4, five chunks offered with no dequeue: one Dropped, the
    // first four kept in their original order.
    let mut q = RelayQueue::new(4);
    let mut results = Vec::new();
    for i in 0..5u64 {
        let c = Chunk::new(i, &[i as u8]);
        results.push(q.try_enqueue(c));
    }
    let dropped = results.iter().filter(|r| matches!(r, Admit::Dropped)).count();
    assert_eq!(dropped, 1);
    assert_eq!(q.len(), 4);
    assert_eq!(q.drop_count(), 1);
    for i in 0..4u64 {
        match q.dequeue() {
            Dequeued::Item(c) => {
                assert_eq!(c.seq, i);
                assert_eq!(&c.data[..], &[i as u8]);
            }
            _ => panic!("queue should still hold chunk {}", i),
        }
    }
    assert!(matches!(q.dequeue(), Dequeued::Empty));
}

#[test]
fn fifo_order_is_preserved() {
    // Whatever fits comes out in exactly the order it went in.
    for n in 0..=6usize {
        let mut q = RelayQueue::new(6);
        for i in 0..n {
            let c = Chunk::new(i as u64, &[i as u8, 0xAB]);
            assert!(matches!(q.try_enqueue(c), Admit::Accepted));
        }
        for i in 0..n {
            match q.dequeue() {
                Dequeued::Item(c) => {
                    assert_eq!(c.seq, i as u64);
                    assert_eq!(&c.data[..], &[i as u8, 0xAB]);
                }
                _ => panic!("expected chunk {}", i),
            }
        }
        assert!(matches!(q.dequeue(), Dequeued::Empty));
    }
}

#[test]
fn empty_open_queue_says_empty() {
    let mut q = RelayQueue::new(2);
    assert!(matches!(q.dequeue(), Dequeued::Empty));
    assert!(!q.is_closed());
}

#[test]
fn closed_queue_refuses_admission() {
    let mut q = RelayQueue::new(2);
    assert!(matches!(q.try_enqueue(Chunk::new(0, &[1])), Admit::Accepted));
    q.close();
    assert!(q.is_closed());
    assert!(matches!(q.try_enqueue(Chunk::new(1, &[2])), Admit::Closed));
    assert_eq!(q.len(), 1);
}

#[test]
fn closed_queue_drains_then_signals_closed() {
    let mut q = RelayQueue::new(3);
    q.try_enqueue(Chunk::new(0, &[7]));
    q.try_enqueue(Chunk::new(1, &[8]));
    q.close();
    match q.dequeue() {
        Dequeued::Item(c) => assert_eq!(c.seq, 0),
        _ => panic!("first pending chunk expected"),
    }
    match q.dequeue() {
        Dequeued::Item(c) => assert_eq!(c.seq, 1),
        _ => panic!("second pending chunk expected"),
    }
    assert!(matches!(q.dequeue(), Dequeued::Closed));
    assert!(matches!(q.dequeue(), Dequeued::Closed));
}

#[test]
fn drop_counter_counts_every_drop() {
    let mut q = RelayQueue::new(1);
    q.try_enqueue(Chunk::new(0, &[0]));
    for i in 1..=3u64 {
        assert!(matches!(q.try_enqueue(Chunk::new(i, &[i as u8])), Admit::Dropped));
    }
    assert_eq!(q.drop_count(), 3);
    assert_eq!(q.len(), 1);
}

#[test]
fn drain_empties_in_order() {
    let mut q = RelayQueue::new(5);
    for i in 0..3u64 {
        q.try_enqueue(Chunk::new(i, &[i as u8]));
    }
    let out = q.drain();
    assert_eq!(out.len(), 3);
    for (i, c) in out.iter().enumerate() {
        assert_eq!(c.seq, i as u64);
        assert_eq!(&c.data[..], &[i as u8]);
    }
    assert_eq!(q.len(), 0);
    assert_eq!(q.drop_count(), 0);
    assert!(!q.is_closed());
}
