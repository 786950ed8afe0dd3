use crate::ids::IdSource;
use vstd::prelude::*;

verus! {

/// A persistent buffer of fixed-size instance records for batched draws.
///
/// Records survive across frames; updates are conservative: a payload that
/// fits the current capacity is written in place and the array keeps its
/// identity, while a larger payload forces a reallocation and a fresh
/// identity. The identity is the bind-cache key for the backing buffer, so
/// bumping it exactly when the buffer is replaced is what keeps cached bind
/// groups from pointing at a stale buffer. The array only keeps the books:
/// the caller creates, writes and rebinds the actual buffer as the results
/// here direct.
#[derive(Debug)]
pub struct DrawArray {
    len: usize,
    stride: u64,
    capacity: u64,
    id: u64,
}

impl DrawArray {
    /// The number of records currently stored.
    pub closed spec fn spec_len(&self) -> usize {
        self.len
    }

    /// The size in bytes of one serialized record.
    pub closed spec fn spec_stride(&self) -> u64 {
        self.stride
    }

    /// The capacity in bytes of the backing buffer.
    pub closed spec fn spec_capacity(&self) -> u64 {
        self.capacity
    }

    /// The identity of the backing buffer.
    pub closed spec fn spec_id(&self) -> u64 {
        self.id
    }

    /// The stored records always fit the backing buffer.
    pub open spec fn wf(&self) -> bool {
        self.spec_len() * self.spec_stride() <= self.spec_capacity()
    }

    /// Creates an array of `len` records of `stride` bytes each, sized
    /// exactly to its payload, under a fresh identity. The caller creates the
    /// backing buffer of `capacity()` bytes and uploads the serialized
    /// records.
    pub fn new(ids: &mut IdSource, len: usize, stride: u64) -> (array: Self)
        requires
            old(ids).next_id() < u64::MAX,
            len * stride <= u64::MAX,
        ensures
            array.wf(),
            array.spec_len() == len,
            array.spec_stride() == stride,
            array.spec_capacity() == len * stride,
            array.spec_id() == old(ids).next_id(),
            final(ids).next_id() == old(ids).next_id() + 1,
    {
        let capacity = (len as u64) * stride;
        DrawArray { len, stride, capacity, id: ids.fresh() }
    }

    /// Replaces the whole payload with `len` records. A payload that fits the
    /// current capacity is written in place and the identity is kept; a
    /// larger one reallocates the buffer to the exact new size under a fresh
    /// identity, which tells the bind cache to rebind. Returns whether the
    /// buffer was reallocated; if so, the caller creates the new buffer,
    /// and either way it uploads the serialized records at offset 0.
    pub fn update(&mut self, ids: &mut IdSource, len: usize) -> (reallocated: bool)
        requires
            old(self).wf(),
            old(ids).next_id() < u64::MAX,
            len * old(self).spec_stride() <= u64::MAX,
        ensures
            final(self).wf(),
            final(self).spec_len() == len,
            final(self).spec_stride() == old(self).spec_stride(),
            reallocated == (len * old(self).spec_stride() > old(self).spec_capacity()),
            reallocated ==> final(self).spec_capacity() == len * old(self).spec_stride()
                && final(self).spec_id() == old(ids).next_id()
                && final(ids).next_id() == old(ids).next_id() + 1,
            !reallocated ==> final(self).spec_capacity() == old(self).spec_capacity()
                && final(self).spec_id() == old(self).spec_id()
                && final(ids).next_id() == old(ids).next_id(),
    {
        let size = (len as u64) * self.stride;
        self.len = len;
        if size > self.capacity {
            self.capacity = size;
            self.id = ids.fresh();
            true
        } else {
            false
        }
    }

    /// The byte offset at which record `at` is stored: the caller writes the
    /// serialized record there. Offsets of stored records always end within
    /// the buffer's capacity.
    pub fn set(&self, at: usize) -> (offset: u64)
        requires
            self.wf(),
            at < self.spec_len(),
        ensures
            offset == at * self.spec_stride(),
            offset + self.spec_stride() <= self.spec_capacity(),
    {
        proof {
            assert((at + 1) * self.spec_stride() <= self.spec_len() * self.spec_stride())
                by (nonlinear_arith)
                requires
                    at < self.spec_len(),
            ;
            assert((at + 1) * self.spec_stride() == at * self.spec_stride() + self.spec_stride())
                by (nonlinear_arith);
        }
        (at as u64) * self.stride
    }

    /// Like [`DrawArray::set`], but an index at or past the length is
    /// reported as `None` instead of being ruled out by contract: the
    /// out-of-range write fails deterministically.
    pub fn try_set(&self, at: usize) -> (offset: Option<u64>)
        requires
            self.wf(),
        ensures
            at < self.spec_len() ==> (offset matches Some(o) && o == at * self.spec_stride()),
            at >= self.spec_len() ==> offset is None,
    {
        if at < self.len {
            Some(self.set(at))
        } else {
            None
        }
    }

    /// The number of records stored.
    pub fn len(&self) -> (len: usize)
        ensures
            len == self.spec_len(),
    {
        self.len
    }

    /// The capacity in bytes of the backing buffer: how many bytes of record
    /// data fit before an update forces a reallocation.
    pub fn capacity(&self) -> (capacity: u64)
        ensures
            capacity == self.spec_capacity(),
    {
        self.capacity
    }

    /// The identity of the backing buffer, for use as a bind-cache key. It
    /// changes exactly when the buffer is reallocated.
    pub fn id(&self) -> (id: u64)
        ensures
            id == self.spec_id(),
    {
        self.id
    }
}

} // verus!
