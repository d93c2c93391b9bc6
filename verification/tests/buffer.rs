use vm_monitor::buffer::{BoundedBatchBuffer, OVERFLOW_FACTOR};

#[test]
fn new_buffer_is_empty() {
    let buffer: BoundedBatchBuffer<u32> = BoundedBatchBuffer::new();
    assert_eq!(buffer.len(), 0);
    assert!(buffer.is_empty());
    assert!(buffer.pending().is_empty());
}

#[test]
fn push_keeps_insertion_order() {
    let mut buffer = BoundedBatchBuffer::new();
    buffer.push(3u32);
    buffer.push(1);
    buffer.push(2);
    assert_eq!(buffer.len(), 3);
    assert!(!buffer.is_empty());
    assert_eq!(buffer.pending(), &vec![3, 1, 2]);
}

#[test]
fn drain_hands_out_everything_in_order() {
    let mut buffer = BoundedBatchBuffer::new();
    buffer.push("a".to_string());
    buffer.push("b".to_string());
    let batch = buffer.drain();
    assert_eq!(batch, vec!["a".to_string(), "b".to_string()]);
    assert_eq!(buffer.len(), 0);
    assert!(buffer.drain().is_empty());
}

#[test]
fn clear_drops_everything() {
    let mut buffer = BoundedBatchBuffer::new();
    buffer.push(1u8);
    buffer.push(2);
    buffer.clear();
    assert!(buffer.is_empty());
}

#[test]
fn threshold_is_reached_at_batch_size() {
    let mut buffer = BoundedBatchBuffer::new();
    assert!(!buffer.is_at_or_above_threshold(3));
    buffer.push(0u32);
    buffer.push(1);
    assert!(!buffer.is_at_or_above_threshold(3));
    buffer.push(2);
    assert!(buffer.is_at_or_above_threshold(3));
    buffer.push(3);
    assert!(buffer.is_at_or_above_threshold(3));
}

#[test]
fn threshold_of_zero_is_always_reached() {
    let buffer: BoundedBatchBuffer<u32> = BoundedBatchBuffer::new();
    assert!(buffer.is_at_or_above_threshold(0));
}

#[test]
fn overflow_factor_is_five() {
    assert_eq!(OVERFLOW_FACTOR, 5);
}

#[test]
fn ceiling_is_five_batches() {
    let mut buffer = BoundedBatchBuffer::new();
    for i in 0..10u32 {
        buffer.push(i);
    }
    assert!(!buffer.exceeds_ceiling(2));
    buffer.push(10);
    assert!(buffer.exceeds_ceiling(2));
    assert!(!buffer.exceeds_ceiling(3));
}

#[test]
fn ceiling_beyond_any_length_is_never_exceeded() {
    let mut buffer = BoundedBatchBuffer::new();
    buffer.push(1u32);
    assert!(!buffer.exceeds_ceiling(usize::MAX));
    assert!(!buffer.exceeds_ceiling(usize::MAX / 5 + 1));
    assert_eq!(buffer.evict_after_failure(usize::MAX), 0);
    assert_eq!(buffer.len(), 1);
}

#[test]
fn failure_at_the_ceiling_keeps_the_queue() {
    let mut buffer = BoundedBatchBuffer::new();
    for i in 0..10u32 {
        buffer.push(i);
    }
    assert_eq!(buffer.evict_after_failure(2), 0);
    assert_eq!(buffer.len(), 10);
    assert_eq!(buffer.pending(), &vec![0, 1, 2, 3, 4, 5, 6, 7, 8, 9]);
}

#[test]
fn failure_above_the_ceiling_clears_the_queue() {
    let mut buffer = BoundedBatchBuffer::new();
    for i in 0..11u32 {
        buffer.push(i);
    }
    assert_eq!(buffer.evict_after_failure(2), 11);
    assert_eq!(buffer.len(), 0);
}

#[test]
fn failure_with_batch_size_zero_clears_any_queue() {
    let mut buffer = BoundedBatchBuffer::new();
    buffer.push(7u32);
    assert_eq!(buffer.evict_after_failure(0), 1);
    assert!(buffer.is_empty());
    assert_eq!(buffer.evict_after_failure(0), 0);
}

#[test]
fn length_after_eviction_never_exceeds_the_ceiling() {
    for batch_size in 0..4usize {
        for pushes in 0..30usize {
            let mut buffer = BoundedBatchBuffer::new();
            for i in 0..pushes {
                buffer.push(i);
            }
            let dropped = buffer.evict_after_failure(batch_size);
            assert!(buffer.len() <= 5 * batch_size);
            if pushes <= 5 * batch_size {
                assert_eq!(dropped, 0);
                assert_eq!(buffer.len(), pushes);
            } else {
                assert_eq!(dropped, pushes);
                assert_eq!(buffer.len(), 0);
            }
        }
    }
}
