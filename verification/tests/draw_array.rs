use batchkit::DrawArray;
use batchkit::IdSource;

// One instance record serialized for the GPU: a color vector, a source
// rectangle vector, and a 4x4 transform, 96 bytes in std430 layout.
const STRIDE: u64 = 96;

#[test]
fn update_that_fits_preserves_identity() {
    let mut ids = IdSource::new();
    let mut array = DrawArray::new(&mut ids, 100, STRIDE);
    let id = array.id();
    assert_eq!(array.capacity(), 100 * STRIDE);

    // Fewer records fit the current capacity: written in place, same identity.
    let reallocated = array.update(&mut ids, 60);
    assert!(!reallocated);
    assert_eq!(array.id(), id);
    assert_eq!(array.len(), 60);
    assert_eq!(array.capacity(), 100 * STRIDE);
}

#[test]
fn update_that_exceeds_capacity_changes_identity() {
    let mut ids = IdSource::new();
    let mut array = DrawArray::new(&mut ids, 100, STRIDE);
    let id = array.id();

    let reallocated = array.update(&mut ids, 101);
    assert!(reallocated);
    assert_ne!(array.id(), id);
    assert_eq!(array.len(), 101);
    assert_eq!(array.capacity(), 101 * STRIDE);
}

#[test]
fn set_yields_the_record_offset() {
    let mut ids = IdSource::new();
    let array = DrawArray::new(&mut ids, 10, STRIDE);
    assert_eq!(array.set(0), 0);
    assert_eq!(array.set(3), 3 * STRIDE);
    assert_eq!(array.set(9), 9 * STRIDE);
}

#[test]
fn set_out_of_range_fails_deterministically() {
    let mut ids = IdSource::new();
    let array = DrawArray::new(&mut ids, 10, STRIDE);
    assert_eq!(array.try_set(10), None);
    assert_eq!(array.try_set(usize::MAX), None);
    assert_eq!(array.try_set(9), Some(9 * STRIDE));
}

#[test]
fn arrays_get_distinct_identities() {
    let mut ids = IdSource::new();
    let first = DrawArray::new(&mut ids, 4, STRIDE);
    let second = DrawArray::new(&mut ids, 4, STRIDE);
    assert_ne!(first.id(), second.id());
}

#[test]
fn empty_array_has_no_capacity() {
    let mut ids = IdSource::new();
    let array = DrawArray::new(&mut ids, 0, STRIDE);
    assert_eq!(array.len(), 0);
    assert_eq!(array.capacity(), 0);
    assert_eq!(array.try_set(0), None);
}
