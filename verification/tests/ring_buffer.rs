//! FIFO and capacity behavior of the transfer ring buffer.

use exec_core::ring::TransferRingBuffer;
use exec_core::ring::RECORD_HEADER_BYTES;

#[test]
fn test_js() {
    // The shared-queue exercise: many records pushed, then shifted, come
    // back in push order with their ids and bytes intact.
    let mut q = TransferRingBuffer::new(4096);
    let mut sent: Vec<(i32, Vec<u8>)> = Vec::new();
    for i in 0..10i32 {
        let payload = vec![i as u8; (i as usize) + 1];
        assert!(q.push(i, &payload));
        sent.push((i, payload));
    }
    assert_eq!(q.size(), 10);
    for expected in &sent {
        let got = q.shift().unwrap();
        assert_eq!(&got, expected);
    }
    assert_eq!(q.size(), 0);
    assert!(q.shift().is_none());
}

#[test]
fn round_trip_keeps_order_and_content() {
    let mut q = TransferRingBuffer::new(1024);
    let records = vec![
        (1i32, vec![9u8, 8, 7]),
        (2i32, vec![]),
        (3i32, vec![0u8; 100]),
    ];
    for (id, payload) in &records {
        assert!(q.push(*id, payload));
    }
    for expected in &records {
        assert_eq!(&q.shift().unwrap(), expected);
    }
    assert!(q.shift().is_none());
}

#[test]
fn push_beyond_capacity_fails_and_leaves_contents() {
    let mut q = TransferRingBuffer::new(2 * RECORD_HEADER_BYTES + 6);
    assert!(q.push(1, &[1, 2, 3]));
    assert!(q.push(2, &[4, 5, 6]));
    // The buffer is exactly full; one more byte cannot fit.
    assert!(!q.push(3, &[7]));
    assert_eq!(q.size(), 2);
    assert_eq!(q.shift().unwrap(), (1, vec![1, 2, 3]));
    assert_eq!(q.shift().unwrap(), (2, vec![4, 5, 6]));
    assert!(q.shift().is_none());
}

#[test]
fn oversized_record_is_refused_outright() {
    let mut q = TransferRingBuffer::new(16);
    assert!(!q.push(1, &[0u8; 16]));
    assert_eq!(q.size(), 0);
    // A record whose payload fits the remaining budget is taken.
    assert!(q.push(1, &[0u8; 8]));
    assert_eq!(q.size(), 1);
}

#[test]
fn reset_discards_everything() {
    let mut q = TransferRingBuffer::new(256);
    assert!(q.push(1, &[1]));
    assert!(q.push(2, &[2]));
    q.reset();
    assert_eq!(q.size(), 0);
    assert!(q.shift().is_none());
    // The capacity is unchanged: the same records fit again.
    assert!(q.push(3, &[3]));
    assert_eq!(q.shift().unwrap(), (3, vec![3]));
}
