use vstd::prelude::*;

verus! {

/// True when `x` is a power of two. Uniform-buffer offset alignments reported
/// by a GPU device are powers of two.
pub open spec fn is_power_of_two(x: u64) -> bool {
    x != 0 && x & (x - 1) as u64 == 0
}

/// Rounds `size` up to the next multiple of the device's minimum
/// uniform-buffer offset alignment `align`, so that sub-allocations of
/// uniform data may be bound at their offsets. An alignment of zero leaves
/// the size unchanged; otherwise the result is the least multiple of `align`
/// that is at least `size`.
#[verifier::rlimit(100)]
pub fn pad_uniform_size(size: u64, align: u64) -> (padded: u64)
    requires
        align == 0 || is_power_of_two(align),
        align != 0 ==> size + align - 1 <= u64::MAX,
    ensures
        align == 0 ==> padded == size,
        align != 0 ==> padded % align == 0 && size <= padded && padded < size + align,
{
    if align > 0 {
        let padded = (size + (align - 1)) & !(align - 1);
        proof {
            assert(size <= padded && padded <= size + (align - 1)) by (bit_vector)
                requires
                    padded == ((size + (align - 1)) as u64) & !((align - 1) as u64),
                    align != 0,
                    align & (align - 1) as u64 == 0,
                    size <= u64::MAX - (align - 1),
            ;
            assert(padded % align == 0) by (bit_vector)
                requires
                    padded == ((size + (align - 1)) as u64) & !((align - 1) as u64),
                    align != 0,
                    align & (align - 1) as u64 == 0,
                    size <= u64::MAX - (align - 1),
            ;
        }
        padded
    } else {
        size
    }
}

} // verus!
