use rusty_lights::audio::RingBuffer;

#[test]
fn test_push_pop() {
    let mut buffer: RingBuffer<f32> = RingBuffer::new(8);

    assert!(buffer.push(1.0));
    assert!(buffer.push(2.0));
    assert_eq!(buffer.len(), 2);

    assert_eq!(buffer.pop(), Some(1.0));
    assert_eq!(buffer.pop(), Some(2.0));
    assert_eq!(buffer.pop(), None);
}

#[test]
fn test_capacity_rounding() {
    let buffer: RingBuffer<u8> = RingBuffer::new(10);
    assert_eq!(buffer.capacity(), 16); // Rounded to next power of 2
}

#[test]
fn test_full_buffer() {
    let mut buffer: RingBuffer<i32> = RingBuffer::new(4);

    assert!(buffer.push(1));
    assert!(buffer.push(2));
    assert!(buffer.push(3));
    assert!(buffer.push(4));
    assert!(!buffer.push(5)); // Should fail, buffer full

    assert_eq!(buffer.pop(), Some(1));
    assert!(buffer.push(5)); // Now there's space
}

#[test]
fn capacity_of_zero_and_exact_powers() {
    let b: RingBuffer<u8> = RingBuffer::new(0);
    assert_eq!(b.capacity(), 1);
    let b: RingBuffer<u8> = RingBuffer::new(1);
    assert_eq!(b.capacity(), 1);
    let b: RingBuffer<u8> = RingBuffer::new(8192);
    assert_eq!(b.capacity(), 8192);
    let b: RingBuffer<u8> = RingBuffer::new(8193);
    assert_eq!(b.capacity(), 16384);
}

#[test]
fn free_len_and_empty_track_contents() {
    let mut b: RingBuffer<u16> = RingBuffer::new(4);
    assert!(b.is_empty());
    assert_eq!(b.free(), 4);
    b.push(7);
    assert!(!b.is_empty());
    assert_eq!(b.len(), 1);
    assert_eq!(b.free(), 3);
    b.clear();
    assert!(b.is_empty());
    assert_eq!(b.free(), 4);
    assert_eq!(b.pop(), None);
}

#[test]
fn slices_wrap_around_in_fifo_order() {
    let mut b: RingBuffer<i32> = RingBuffer::new(4);
    assert_eq!(b.push_slice(&[1, 2, 3]), 3);
    let mut out = [0; 2];
    assert_eq!(b.pop_slice(&mut out), 2);
    assert_eq!(out, [1, 2]);
    // Only three slots are free: the write wraps around the end.
    assert_eq!(b.push_slice(&[4, 5, 6, 7]), 3);
    assert_eq!(b.len(), 4);
    let mut out = [0; 6];
    assert_eq!(b.pop_slice(&mut out), 4);
    assert_eq!(out, [3, 4, 5, 6, 0, 0]);
    assert!(b.is_empty());
}

#[test]
fn pop_slice_into_short_output_keeps_rest() {
    let mut b: RingBuffer<u8> = RingBuffer::new(8);
    assert_eq!(b.push_slice(&[10, 20, 30]), 3);
    let mut out = [0u8; 1];
    assert_eq!(b.pop_slice(&mut out), 1);
    assert_eq!(out, [10]);
    assert_eq!(b.pop(), Some(20));
    assert_eq!(b.pop(), Some(30));
    let mut empty: [u8; 0] = [];
    assert_eq!(b.pop_slice(&mut empty), 0);
}

#[test]
fn push_slice_matches_pushing_one_by_one() {
    let items = [1u32, 2, 3, 4, 5, 6];
    let mut bulk: RingBuffer<u32> = RingBuffer::new(4);
    let mut single: RingBuffer<u32> = RingBuffer::new(4);
    bulk.push(9);
    single.push(9);
    let n = bulk.push_slice(&items);
    let accepted: Vec<bool> = items.iter().map(|&x| single.push(x)).collect();
    assert_eq!(n, 3);
    assert_eq!(accepted, vec![true, true, true, false, false, false]);
    let mut a = [0u32; 8];
    let mut b = [0u32; 8];
    assert_eq!(bulk.pop_slice(&mut a), 4);
    assert_eq!(single.pop_slice(&mut b), 4);
    assert_eq!(a, b);
    assert_eq!(&a[..4], &[9, 1, 2, 3]);
}

#[test]
fn length_is_accepted_minus_returned() {
    let mut rb: RingBuffer<u8> = RingBuffer::new(8);
    let mut accepted = 0usize;
    let mut returned = 0usize;
    accepted += rb.push_slice(&[1, 2, 3, 4, 5]);
    returned += rb.pop().map_or(0, |_| 1);
    accepted += rb.push_slice(&[6, 7, 8, 9, 10, 11]);
    let mut out = [0u8; 3];
    returned += rb.pop_slice(&mut out);
    accepted += if rb.push(12) { 1 } else { 0 };
    assert_eq!(rb.len(), accepted - returned);
    assert!(rb.len() <= rb.capacity());
}
