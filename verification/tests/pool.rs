use batchkit::InstancePool;

#[test]
fn best_fit_picks_smallest_sufficient_buffer() {
    let mut pool = InstancePool::new();
    let first = pool.acquire(100);
    let second = pool.acquire(50);
    let third = pool.acquire(200);
    assert!(first.created && second.created && third.created);
    pool.free();

    // Free buffers of sizes {100, 50, 200}: a request for 60 is served from
    // the 100-byte buffer, the smallest sufficient one, not the 200-byte one.
    let chosen = pool.acquire(60);
    assert!(!chosen.created);
    assert_eq!(chosen.index, first.index);
    assert_eq!(chosen.handle, first.handle);
}

#[test]
fn equal_byte_size_reuses_the_same_buffer() {
    // A batch of 10,000 instance records of 96 bytes each.
    let batch_bytes: u64 = 10_000 * 96;

    let mut pool = InstancePool::new();
    let first = pool.acquire(batch_bytes);
    assert!(first.created);
    assert_eq!(pool.buffer_count(), 1);

    pool.free();

    // A second batch of equal byte size reuses the same underlying buffer:
    // the pool does not grow.
    let second = pool.acquire(batch_bytes);
    assert!(!second.created);
    assert_eq!(second.handle, first.handle);
    assert_eq!(second.index, first.index);
    assert_eq!(pool.buffer_count(), 1);
}

#[test]
fn buffers_in_use_are_not_reused() {
    let mut pool = InstancePool::new();
    let first = pool.acquire(64);
    // Not freed: an equal request must get a new buffer.
    let second = pool.acquire(64);
    assert!(second.created);
    assert_ne!(second.handle, first.handle);
    assert_eq!(pool.buffer_count(), 2);
}

#[test]
fn too_small_free_buffers_do_not_serve() {
    let mut pool = InstancePool::new();
    pool.acquire(50);
    pool.free();
    let big = pool.acquire(51);
    assert!(big.created);
    assert_eq!(pool.buffer_count(), 2);
}

#[test]
fn ties_go_to_the_earliest_buffer() {
    let mut pool = InstancePool::new();
    let a = pool.acquire(80);
    let b = pool.acquire(80);
    assert_ne!(a.handle, b.handle);
    pool.free();
    let chosen = pool.acquire(80);
    assert_eq!(chosen.handle, a.handle);
    assert_eq!(chosen.index, a.index);
}
