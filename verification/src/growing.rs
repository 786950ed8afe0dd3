use vstd::prelude::*;

verus! {

/// A pool of fixed-capacity buffers from which sub-ranges are handed out
/// front-to-back and reclaimed all at once between frames.
///
/// Each slot stands for one backing buffer of `capacity` bytes; the slot's
/// cursor is the number of bytes already handed out from it. The arena only
/// decides placement: when an allocation reports `grew`, the caller creates
/// the backing buffer for the new slot.
#[derive(Debug)]
pub struct GrowingBufferArena {
    cursors: Vec<u64>,
    capacity: u64,
}

/// Sub-buffer allocation returned from [`GrowingBufferArena::allocate`].
#[derive(Debug)]
pub struct ArenaAllocation {
    /// Byte offset of the allocation within its slot's buffer.
    pub offset: u64,
    /// Index of the slot (buffer) within the arena.
    pub index: usize,
    /// Whether the arena grew by one slot to satisfy the request. When true,
    /// the caller must create the backing buffer for slot `index`.
    pub grew: bool,
}

/// True when a request of `size` bytes fits in a slot of capacity `capacity`
/// whose cursor stands at `cursor`.
pub open spec fn slot_fits(cursor: u64, capacity: u64, size: u64) -> bool {
    cursor + size <= capacity
}

/// The slot an allocation goes to: the lowest-indexed one with enough room
/// (first-fit in creation order), or `None` when no slot has room.
pub open spec fn first_fit(cursors: Seq<u64>, capacity: u64, size: u64) -> Option<int>
    decreases cursors.len(),
{
    if cursors.len() == 0 {
        None
    } else if slot_fits(cursors[0], capacity, size) {
        Some(0int)
    } else {
        match first_fit(cursors.drop_first(), capacity, size) {
            Some(i) => Some(i + 1),
            None => None,
        }
    }
}

/// `first_fit` names the lowest fitting slot: the result fits the request and
/// every slot before it is too full; `None` means no slot fits.
pub proof fn lemma_first_fit_characterization(cursors: Seq<u64>, capacity: u64, size: u64)
    ensures
        match first_fit(cursors, capacity, size) {
            Some(i) => 0 <= i < cursors.len() && slot_fits(cursors[i], capacity, size)
                && (forall|j: int| 0 <= j < i ==> !slot_fits(cursors[j], capacity, size)),
            None => forall|j: int|
                0 <= j < cursors.len() ==> !slot_fits(cursors[j], capacity, size),
        },
    decreases cursors.len(),
{
    if cursors.len() > 0 && !slot_fits(cursors[0], capacity, size) {
        lemma_first_fit_characterization(cursors.drop_first(), capacity, size);
        assert forall|j: int| 1 <= j < cursors.len() implies cursors.drop_first()[j - 1]
            == cursors[j] by {}
    }
}

/// A fitting slot preceded only by full slots is the one `first_fit` names.
proof fn lemma_first_fit_select(cursors: Seq<u64>, capacity: u64, size: u64, i: int)
    requires
        0 <= i < cursors.len(),
        slot_fits(cursors[i], capacity, size),
        forall|j: int| 0 <= j < i ==> !slot_fits(cursors[j], capacity, size),
    ensures
        first_fit(cursors, capacity, size) == Some(i),
    decreases cursors.len(),
{
    if i > 0 {
        assert(!slot_fits(cursors[0], capacity, size));
        assert(cursors.drop_first()[i - 1] == cursors[i]);
        assert forall|j: int| 0 <= j < i - 1 implies !slot_fits(
            cursors.drop_first()[j],
            capacity,
            size,
        ) by {
            assert(cursors.drop_first()[j] == cursors[j + 1]);
        }
        lemma_first_fit_select(cursors.drop_first(), capacity, size, i - 1);
    }
}

/// When every slot is too full, `first_fit` reports that no slot fits.
proof fn lemma_first_fit_none(cursors: Seq<u64>, capacity: u64, size: u64)
    requires
        forall|j: int| 0 <= j < cursors.len() ==> !slot_fits(cursors[j], capacity, size),
    ensures
        first_fit(cursors, capacity, size) is None,
    decreases cursors.len(),
{
    if cursors.len() > 0 {
        assert forall|j: int| 0 <= j < cursors.drop_first().len() implies !slot_fits(
            cursors.drop_first()[j],
            capacity,
            size,
        ) by {
            assert(cursors.drop_first()[j] == cursors[j + 1]);
        }
        lemma_first_fit_none(cursors.drop_first(), capacity, size);
    }
}

/// After [`GrowingBufferArena::free`] every cursor is zero, so the next
/// allocation of any compliant size is placed at offset 0 of the first slot:
/// a reset truly reclaims all space.
pub proof fn lemma_allocate_after_free(cursors: Seq<u64>, capacity: u64, size: u64)
    requires
        cursors.len() >= 1,
        forall|i: int| 0 <= i < cursors.len() ==> cursors[i] == 0,
        size <= capacity,
    ensures
        first_fit(cursors, capacity, size) == Some(0int),
{
    assert(cursors[0] == 0);
}

impl GrowingBufferArena {
    /// The cursor of each slot, in creation order.
    pub closed spec fn cursors(&self) -> Seq<u64> {
        self.cursors@
    }

    /// The per-buffer capacity fixed at construction.
    pub closed spec fn capacity(&self) -> u64 {
        self.capacity
    }

    /// No cursor ever passes the per-buffer capacity.
    pub open spec fn wf(&self) -> bool {
        forall|i: int| 0 <= i < self.cursors().len() ==> self.cursors()[i] <= self.capacity()
    }

    /// Creates an arena of buffers of `capacity` bytes each, starting with
    /// one empty slot. The caller creates the backing buffer for it.
    pub fn new(capacity: u64) -> (arena: Self)
        ensures
            arena.wf(),
            arena.capacity() == capacity,
            arena.cursors() =~= seq![0u64],
    {
        GrowingBufferArena { cursors: vec![0u64], capacity }
    }

    /// The number of slots (backing buffers) currently in the arena.
    pub fn slot_count(&self) -> (n: usize)
        ensures
            n == self.cursors().len(),
    {
        self.cursors.len()
    }

    /// Allocates `size` bytes: the first slot with room takes the request at
    /// its cursor, and when none has room the arena grows by one slot which
    /// takes it at offset 0. Every allocation ends within its slot's
    /// capacity, and only the chosen slot's cursor moves.
    pub fn allocate(&mut self, size: u64) -> (alloc: ArenaAllocation)
        requires
            old(self).wf(),
            size <= old(self).capacity(),
        ensures
            final(self).wf(),
            final(self).capacity() == old(self).capacity(),
            alloc.index < final(self).cursors().len(),
            alloc.offset + size <= old(self).capacity(),
            match first_fit(old(self).cursors(), old(self).capacity(), size) {
                Some(i) => !alloc.grew && alloc.index == i && alloc.offset == old(
                    self,
                ).cursors()[i] && final(self).cursors() =~= old(self).cursors().update(
                    i,
                    (old(self).cursors()[i] + size) as u64,
                ),
                None => alloc.grew && alloc.index == old(self).cursors().len() && alloc.offset == 0
                    && final(self).cursors() =~= old(self).cursors().push(size),
            },
    {
        let capacity = self.capacity;
        let n = self.cursors.len();
        let mut i: usize = 0;
        while i < n
            invariant
                i <= n,
                n == self.cursors@.len(),
                capacity == self.capacity,
                *self == *old(self),
                self.wf(),
                size <= capacity,
                forall|j: int| 0 <= j < i ==> !slot_fits(self.cursors@[j], capacity, size),
            decreases n - i,
        {
            let cursor = self.cursors[i];
            if size <= capacity - cursor {
                proof {
                    lemma_first_fit_select(self.cursors@, capacity, size, i as int);
                }
                self.cursors.set(i, cursor + size);
                return ArenaAllocation { offset: cursor, index: i, grew: false };
            }
            i += 1;
        }
        proof {
            lemma_first_fit_none(self.cursors@, capacity, size);
        }
        self.cursors.push(size);
        ArenaAllocation { offset: 0, index: n, grew: true }
    }

    /// Resets every slot's cursor to zero, reclaiming all allocations at
    /// once. Allocations handed out before the reset are no longer valid.
    pub fn free(&mut self)
        ensures
            final(self).wf(),
            final(self).capacity() == old(self).capacity(),
            final(self).cursors().len() == old(self).cursors().len(),
            forall|i: int| 0 <= i < final(self).cursors().len() ==> final(self).cursors()[i] == 0,
    {
        let n = self.cursors.len();
        let mut i: usize = 0;
        while i < n
            invariant
                i <= n,
                n == self.cursors@.len(),
                self.capacity == old(self).capacity,
                forall|j: int| 0 <= j < i ==> self.cursors@[j] == 0,
            decreases n - i,
        {
            self.cursors.set(i, 0);
            i += 1;
        }
    }
}

} // verus!
