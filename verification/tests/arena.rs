use batchkit::GrowingBufferArena;

#[test]
fn allocation_stays_within_capacity() {
    let mut arena = GrowingBufferArena::new(256);
    let sizes: [u64; 7] = [64, 64, 64, 64, 64, 200, 256];
    for &size in sizes.iter() {
        let alloc = arena.allocate(size);
        assert!(alloc.offset + size <= 256);
    }
}

#[test]
fn allocations_pack_first_fit() {
    let mut arena = GrowingBufferArena::new(100);
    let a = arena.allocate(60);
    assert_eq!((a.index, a.offset, a.grew), (0, 0, false));

    // 60 bytes no longer fit slot 0, so the arena grows.
    let b = arena.allocate(60);
    assert_eq!((b.index, b.offset, b.grew), (1, 0, true));

    // 40 bytes still fit slot 0, before slot 1's remaining room.
    let c = arena.allocate(40);
    assert_eq!((c.index, c.offset, c.grew), (0, 60, false));

    assert_eq!(arena.slot_count(), 2);
}

#[test]
fn free_resets_every_cursor() {
    let mut arena = GrowingBufferArena::new(128);
    arena.allocate(100);
    arena.allocate(100);
    arena.allocate(100);
    assert_eq!(arena.slot_count(), 3);

    arena.free();

    // Any compliant size is placed at offset 0 of the first slot again.
    let a = arena.allocate(128);
    assert_eq!((a.index, a.offset, a.grew), (0, 0, false));
    assert_eq!(arena.slot_count(), 3);
}

#[test]
fn full_capacity_requests_get_whole_slots() {
    let mut arena = GrowingBufferArena::new(64);
    let a = arena.allocate(64);
    assert_eq!((a.index, a.offset), (0, 0));
    let b = arena.allocate(64);
    assert_eq!((b.index, b.offset, b.grew), (1, 0, true));
}

#[test]
fn zero_sized_allocations_never_grow() {
    let mut arena = GrowingBufferArena::new(32);
    arena.allocate(32);
    let a = arena.allocate(0);
    assert_eq!((a.index, a.offset, a.grew), (0, 32, false));
}
