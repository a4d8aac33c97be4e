use ofdm_demod::circular_bucket::CircularBucket;
use ofdm_demod::linear_bucket::LinearBucket;

#[test]
fn linear_bucket_starts_empty() {
    let b = LinearBucket::<u8>::new(4);
    assert_eq!(b.length(), 0);
    assert_eq!(b.capacity(), 4);
    assert!(!b.is_full());
    assert_eq!(b.iter(), &[] as &[u8]);
    assert_eq!(b.raw_slice().len(), 4);
}

#[test]
fn linear_bucket_consume_stops_at_capacity() {
    let mut b = LinearBucket::<u8>::new(4);
    assert_eq!(b.consume(&[1, 2, 3]), 3);
    assert_eq!(b.iter(), &[1, 2, 3]);
    assert!(!b.is_full());
    assert_eq!(b.consume(&[4, 5, 6]), 1);
    assert_eq!(b.iter(), &[1, 2, 3, 4]);
    assert!(b.is_full());
    assert_eq!(b.consume(&[7]), 0);
    assert_eq!(b.iter(), &[1, 2, 3, 4]);
    assert_eq!(*b.get(2), 3);
}

#[test]
fn linear_bucket_consume_of_nothing_changes_nothing() {
    let mut b = LinearBucket::<u8>::new(2);
    b.consume(&[9]);
    assert_eq!(b.consume(&[]), 0);
    assert_eq!(b.iter(), &[9]);
}

#[test]
fn linear_bucket_reset_keeps_capacity() {
    let mut b = LinearBucket::<u8>::new(3);
    b.consume(&[1, 2, 3]);
    b.reset();
    assert_eq!(b.length(), 0);
    assert_eq!(b.capacity(), 3);
    assert_eq!(b.raw_slice(), &[1, 2, 3]);
    assert_eq!(b.consume(&[8]), 1);
    assert_eq!(b.iter(), &[8]);
}

#[test]
fn linear_bucket_set_replaces_one_element() {
    let mut b = LinearBucket::<u8>::new(3);
    b.consume(&[1, 2]);
    b.set(1, 7);
    assert_eq!(b.iter(), &[1, 7]);
}

#[test]
fn linear_bucket_of_no_capacity_is_full() {
    let mut b = LinearBucket::<u8>::new(0);
    assert!(b.is_full());
    assert_eq!(b.consume(&[1]), 0);
}

#[test]
fn linear_bucket_takes_from_a_ring_cursor() {
    let mut ring = CircularBucket::<u8>::new(3);
    ring.consume(&[1, 2, 3, 4, 5], true);
    let mut b = LinearBucket::<u8>::new(5);
    b.consume(&[9]);
    assert_eq!(b.consume_from_iterator(ring.iter()), 3);
    assert_eq!(b.iter(), &[9, 3, 4, 5]);
    let mut small = LinearBucket::<u8>::new(2);
    assert_eq!(small.consume_from_iterator(ring.iter()), 2);
    assert_eq!(small.iter(), &[3, 4]);
}

fn ring_contents(ring: &CircularBucket<u8>) -> Vec<u8> {
    let mut out = Vec::new();
    let mut it = ring.iter();
    while let Some(x) = it.next() {
        out.push(*x);
    }
    out
}

#[test]
fn circular_bucket_starts_empty() {
    let ring = CircularBucket::<u8>::new(3);
    assert_eq!(ring.length(), 0);
    assert_eq!(ring.capacity(), 3);
    assert!(!ring.is_full());
    assert_eq!(ring_contents(&ring), Vec::<u8>::new());
}

#[test]
fn circular_bucket_yields_a_partly_filled_ring_in_order() {
    let mut ring = CircularBucket::<u8>::new(5);
    assert_eq!(ring.consume(&[1, 2, 3], true), 3);
    assert_eq!(ring.length(), 3);
    assert_eq!(ring_contents(&ring), vec![1, 2, 3]);
    assert_eq!(*ring.get(0), 1);
    assert_eq!(*ring.get(2), 3);
}

#[test]
fn circular_bucket_keeps_the_newest_when_everything_is_consumed() {
    let mut ring = CircularBucket::<u8>::new(3);
    assert_eq!(ring.consume(&[1, 2], true), 2);
    assert_eq!(ring.consume(&[3, 4, 5, 6, 7], true), 5);
    assert!(ring.is_full());
    assert_eq!(ring_contents(&ring), vec![5, 6, 7]);
    assert_eq!(*ring.get(1), 6);
    assert_eq!(ring.consume(&[8], true), 1);
    assert_eq!(ring_contents(&ring), vec![6, 7, 8]);
}

#[test]
fn circular_bucket_stops_when_full_unless_told_otherwise() {
    let mut ring = CircularBucket::<u8>::new(3);
    assert_eq!(ring.consume(&[1, 2], false), 2);
    assert_eq!(ring.consume(&[3, 4, 5], false), 1);
    assert_eq!(ring_contents(&ring), vec![1, 2, 3]);
    assert_eq!(ring.consume(&[9], false), 0);
    assert_eq!(ring_contents(&ring), vec![1, 2, 3]);
}

#[test]
fn circular_bucket_reset_empties_the_ring() {
    let mut ring = CircularBucket::<u8>::new(3);
    ring.consume(&[1, 2, 3, 4], true);
    ring.reset();
    assert_eq!(ring.length(), 0);
    assert_eq!(ring.capacity(), 3);
    assert_eq!(ring.raw_slice().len(), 3);
    ring.consume(&[7, 8], true);
    assert_eq!(ring_contents(&ring), vec![7, 8]);
}

#[test]
fn circular_bucket_set_replaces_a_retained_element() {
    let mut ring = CircularBucket::<u8>::new(3);
    ring.consume(&[1, 2, 3, 4], true);
    ring.set(0, 9);
    assert_eq!(ring_contents(&ring), vec![9, 3, 4]);
}

#[test]
fn circular_bucket_of_no_capacity_retains_nothing() {
    let mut ring = CircularBucket::<u8>::new(0);
    assert_eq!(ring.consume(&[1, 2], true), 2);
    assert_eq!(ring.consume(&[1, 2], false), 0);
    assert_eq!(ring.length(), 0);
    assert_eq!(ring_contents(&ring), Vec::<u8>::new());
}

#[test]
fn ring_cursor_ends_with_none() {
    let mut ring = CircularBucket::<u8>::new(2);
    ring.consume(&[4, 5, 6], true);
    let mut it = ring.iter();
    assert_eq!(it.next(), Some(&5));
    assert_eq!(it.next(), Some(&6));
    assert_eq!(it.next(), None);
    assert_eq!(it.next(), None);
}

#[test]
fn linear_bucket_iter_mut_covers_the_stored_elements_only() {
    let mut b = LinearBucket::<u8>::new(4);
    b.consume(&[1, 2, 3]);
    {
        let stored = b.iter_mut();
        assert_eq!(stored.len(), 3);
        stored[1] = 7;
    }
    assert_eq!(b.iter(), &[1, 7, 3]);
    assert_eq!(b.length(), 3);
    assert_eq!(b.capacity(), 4);
}

#[test]
fn linear_bucket_raw_slice_mut_covers_the_whole_storage() {
    let mut b = LinearBucket::<u8>::new(4);
    b.consume(&[1, 2]);
    {
        let raw = b.raw_slice_mut();
        assert_eq!(raw.len(), 4);
        raw[0] = 5;
        raw[3] = 9;
    }
    assert_eq!(b.iter(), &[5, 2]);
    assert_eq!(b.raw_slice()[3], 9);
    assert_eq!(b.length(), 2);
}

#[test]
fn circular_bucket_raw_slice_mut_keeps_length_and_position() {
    let mut ring = CircularBucket::<u8>::new(3);
    ring.consume(&[1, 2, 3, 4], true);
    {
        let raw = ring.raw_slice_mut();
        assert_eq!(raw.len(), 3);
        assert_eq!(raw, &[4, 2, 3]);
        raw[0] = 8;
    }
    assert_eq!(ring.length(), 3);
    let mut it = ring.iter();
    assert_eq!(it.next(), Some(&2));
    assert_eq!(it.next(), Some(&3));
    assert_eq!(it.next(), Some(&8));
    assert_eq!(it.next(), None);
}
