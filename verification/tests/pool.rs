use ogurpchik::pool::{
    acquire_outcome, effective_cap, should_drop, AcquireOutcome, BufferPool, PoolStats, VecBuf,
};

#[test]
fn acquire_serves_at_least_the_effective_capacity() {
    assert_eq!(effective_cap(100, 216), 216);
    assert_eq!(effective_cap(300, 216), 300);
    assert_eq!(acquire_outcome(None, 216), AcquireOutcome::Miss);
    assert_eq!(acquire_outcome(Some(100), 216), AcquireOutcome::Realloc);
    assert_eq!(acquire_outcome(Some(216), 216), AcquireOutcome::Reuse);
}

#[test]
fn oversized_buffers_are_dropped() {
    // A 200000-byte spike against an average of 256 bytes, threshold x20.
    assert!(should_drop(200_000, 256 * 20, 131_072));
    assert!(should_drop(140_000, 1_000_000, 131_072));
    assert!(!should_drop(256, 256 * 20, 131_072));
}

#[test]
fn counters_stay_consistent() {
    let mut stats = PoolStats::new();
    stats.record_acquire(0, AcquireOutcome::Miss);
    stats.record_acquire(3, AcquireOutcome::Reuse);
    stats.record_acquire(2, AcquireOutcome::Realloc);
    stats.record_release(216, 21600, false);
    stats.record_release(200_000, 30000, true);
    assert_eq!(stats.acquire_total, 3);
    assert_eq!(stats.acquire_hits, 2);
    assert_eq!(stats.acquire_misses, 1);
    assert_eq!(stats.acquire_reallocs, 1);
    assert_eq!(stats.pool_size_snapshot, 2);
    assert_eq!(stats.release_total, 2);
    assert_eq!(stats.release_returned, 1);
    assert_eq!(stats.release_dropped, 1);
    assert_eq!(stats.last_used_bytes, 200_000);
    assert_eq!(stats.ema_snapshot_x100, 30000);
}

#[test]
fn counters_wrap_around() {
    let mut stats = PoolStats::new();
    stats.acquire_total = u64::MAX;
    stats.acquire_misses = u64::MAX;
    stats.record_acquire(0, AcquireOutcome::Miss);
    assert_eq!(stats.acquire_total, 0);
    assert_eq!(stats.acquire_misses, 0);
}

#[test]
fn vec_buf_holds_what_was_written() {
    let mut b = VecBuf::with_capacity(16);
    assert_eq!(b.len(), 0);
    assert!(b.capacity() >= 16);
    b.write_from_slice(b"hello");
    assert_eq!(b.as_slice(), b"hello");
    b.write_from_slice(b"yo");
    assert_eq!(b.as_slice(), b"yo");
    b.clear();
    assert_eq!(b.len(), 0);
}

#[test]
fn buffer_pool_reuses_the_last_returned_buffer() {
    let mut pool = BufferPool::new(256);
    assert_eq!(pool.len(), 0);
    let mut b = pool.acquire(100, 216);
    assert_eq!(b.len(), 0);
    assert!(b.capacity() >= 216);
    assert_eq!(pool.stats().acquire_misses, 1);
    b.write_from_slice(&[7u8; 200]);
    assert!(!pool.release(b, 21600, 216 * 4, 131_072));
    assert_eq!(pool.len(), 1);
    let again = pool.acquire(10, 216);
    assert_eq!(again.len(), 0);
    assert_eq!(pool.len(), 0);
    let s = pool.stats();
    assert_eq!((s.acquire_total, s.acquire_hits, s.acquire_misses), (2, 1, 1));
    assert_eq!(s.pool_size_snapshot, 1);
    assert_eq!((s.release_total, s.release_returned, s.release_dropped), (1, 1, 0));
    assert_eq!(s.last_used_bytes, 200);
}

#[test]
fn test_oversized_buffer_dropped() {
    // A 200000-byte spike against an average near 216 bytes (threshold x4).
    let mut pool = BufferPool::new(256);
    let mut spike = VecBuf::with_capacity(200_000);
    spike.write_from_slice(&vec![1u8; 200_000]);
    assert!(pool.release(spike, 21600, 216 * 4, 131_072));
    assert_eq!(pool.len(), 0);
    assert!(pool.stats().release_dropped >= 1, "spike buffer should be dropped");
}

#[test]
fn too_small_pooled_buffer_is_replaced_and_counted() {
    let mut pool = BufferPool::new(16);
    let small = VecBuf::with_capacity(16);
    let small_cap = small.capacity();
    assert!(!pool.release(small, 1600, 1_000, 131_072));
    let b = pool.acquire(small_cap + 100, 0);
    assert!(b.capacity() >= small_cap + 100);
    let s = pool.stats();
    assert_eq!((s.acquire_hits, s.acquire_reallocs), (1, 1));
}

#[test]
fn release_decides_on_capacity_not_length() {
    let mut pool = BufferPool::new(256);
    let mut roomy = VecBuf::with_capacity(200_000);
    roomy.write_from_slice(b"short");
    assert!(pool.release(roomy, 500, 1_024, 131_072));
    assert_eq!(pool.len(), 0);
}

#[test]
fn steady_sizes_are_reused_without_realloc() {
    let mut pool = BufferPool::new(432);
    for _ in 0..30 {
        let mut b = pool.acquire(432, 216);
        b.write_from_slice(&[0u8; 216]);
        pool.release(b, 21600, 216 * 4, 131_072);
    }
    let before = pool.stats();
    for _ in 0..100 {
        let mut b = pool.acquire(432, 216);
        b.write_from_slice(&[0u8; 216]);
        pool.release(b, 21600, 432 * 4, 131_072);
    }
    let after = pool.stats();
    assert_eq!(after.acquire_reallocs - before.acquire_reallocs, 0);
    assert_eq!(after.acquire_hits - before.acquire_hits, 100);
}
