use vstd::prelude::*;

verus! {

/// One GPU storage buffer owned by an [`InstancePool`]: its handle, its size
/// in bytes, and whether it is currently free for reuse.
#[derive(Clone, Copy, PartialEq, Eq, Structural, Debug)]
pub struct InstanceBuffer {
    /// Identity of the backing buffer object.
    pub handle: u64,
    /// Size of the buffer in bytes.
    pub size: u64,
    /// Whether the buffer may be handed out again.
    pub free: bool,
}

/// The outcome of [`InstancePool::acquire`].
#[derive(Clone, Copy, PartialEq, Eq, Structural, Debug)]
pub struct Acquisition {
    /// Index of the chosen buffer within the pool.
    pub index: usize,
    /// Handle of the chosen buffer.
    pub handle: u64,
    /// Whether a new buffer had to be created. When true, the caller creates
    /// a backing buffer of exactly the requested size under `handle`.
    pub created: bool,
}

/// True when `buf` may serve a request of `size` bytes: it is free and large
/// enough.
pub open spec fn eligible(buf: InstanceBuffer, size: u64) -> bool {
    buf.free && buf.size >= size
}

/// The buffer a request is served from: among the free buffers large enough,
/// the one of smallest size (best-fit), and of equally small ones the first;
/// `None` when no free buffer is large enough.
pub open spec fn best_fit(bufs: Seq<InstanceBuffer>, size: u64) -> Option<int>
    decreases bufs.len(),
{
    if bufs.len() == 0 {
        None
    } else {
        let last = bufs.len() - 1;
        match best_fit(bufs.drop_last(), size) {
            Some(i) => if eligible(bufs[last], size) && bufs[last].size < bufs[i].size {
                Some(last)
            } else {
                Some(i)
            },
            None => if eligible(bufs[last], size) {
                Some(last)
            } else {
                None
            },
        }
    }
}

/// Best-fit selection picks the smallest sufficient buffer: the chosen buffer
/// is eligible, no eligible buffer is smaller, and every equally small
/// eligible buffer stands at a higher index. `None` means no buffer is
/// eligible.
pub proof fn lemma_best_fit_characterization(bufs: Seq<InstanceBuffer>, size: u64)
    ensures
        match best_fit(bufs, size) {
            Some(i) => 0 <= i < bufs.len() && eligible(bufs[i], size) && (forall|j: int|
                0 <= j < bufs.len() && eligible(bufs[j], size) ==> bufs[i].size <= bufs[j].size)
                && (forall|j: int|
                0 <= j < i && eligible(bufs[j], size) ==> bufs[i].size < bufs[j].size),
            None => forall|j: int| 0 <= j < bufs.len() ==> !eligible(bufs[j], size),
        },
    decreases bufs.len(),
{
    if bufs.len() > 0 {
        lemma_best_fit_characterization(bufs.drop_last(), size);
        assert forall|j: int| 0 <= j < bufs.len() - 1 implies bufs.drop_last()[j] == bufs[j] by {}
    }
}

/// An eligible buffer that no eligible buffer undercuts, and that every
/// equally small eligible buffer follows, is the one `best_fit` names.
proof fn lemma_best_fit_select(bufs: Seq<InstanceBuffer>, size: u64, i: int)
    requires
        0 <= i < bufs.len(),
        eligible(bufs[i], size),
        forall|j: int| 0 <= j < bufs.len() && eligible(bufs[j], size) ==> bufs[i].size
            <= bufs[j].size,
        forall|j: int| 0 <= j < i && eligible(bufs[j], size) ==> bufs[i].size < bufs[j].size,
    ensures
        best_fit(bufs, size) == Some(i),
    decreases bufs.len(),
{
    let last = bufs.len() - 1;
    lemma_best_fit_characterization(bufs.drop_last(), size);
    assert forall|j: int| 0 <= j < bufs.len() - 1 implies bufs.drop_last()[j] == bufs[j] by {}
    if i < last {
        lemma_best_fit_select(bufs.drop_last(), size, i);
    }
}

/// When no buffer is free and large enough, `best_fit` reports so.
proof fn lemma_best_fit_none(bufs: Seq<InstanceBuffer>, size: u64)
    requires
        forall|j: int| 0 <= j < bufs.len() ==> !eligible(bufs[j], size),
    ensures
        best_fit(bufs, size) is None,
{
    lemma_best_fit_characterization(bufs, size);
    if best_fit(bufs, size) is Some {
        let i = best_fit(bufs, size)->Some_0;
        assert(!eligible(bufs[i], size));
    }
}

/// A free buffer of exactly the requested size is always reused, and the
/// choice has exactly that size: a batch whose byte size matches an earlier,
/// freed batch is served from an existing buffer, never by growing the pool.
pub proof fn lemma_exact_fit_is_reused(bufs: Seq<InstanceBuffer>, size: u64)
    requires
        exists|i: int| 0 <= i < bufs.len() && bufs[i].free && bufs[i].size == size,
    ensures
        best_fit(bufs, size) is Some,
        bufs[best_fit(bufs, size)->Some_0].size == size,
{
    let w = choose|i: int| 0 <= i < bufs.len() && bufs[i].free && bufs[i].size == size;
    assert(eligible(bufs[w], size));
    lemma_best_fit_characterization(bufs, size);
    match best_fit(bufs, size) {
        Some(i) => {
            assert(bufs[i].size <= bufs[w].size);
            assert(bufs[i].size >= size);
        },
        None => {
            assert(!eligible(bufs[w], size));
        },
    }
}

/// A free-list of storage buffers of varying sizes, grown on demand and
/// recycled in bulk each frame.
///
/// Each batched draw acquires the smallest free buffer that holds its
/// instance data (best-fit, to spare over-large buffers), or appends one
/// sized exactly to the request. The pool only decides reuse: when an
/// acquisition reports `created`, the caller creates the backing buffer.
#[derive(Debug)]
pub struct InstancePool {
    buffers: Vec<InstanceBuffer>,
    next_handle: u64,
}

impl InstancePool {
    /// The buffers of the pool, in creation order.
    pub closed spec fn buffers(&self) -> Seq<InstanceBuffer> {
        self.buffers@
    }

    /// The handle the next created buffer will carry.
    pub closed spec fn next_handle(&self) -> u64 {
        self.next_handle
    }

    /// Handles grow strictly with the index and stay below the next handle to
    /// be issued, so no two buffers of the pool share a handle.
    pub open spec fn wf(&self) -> bool {
        &&& forall|i: int, j: int|
            0 <= i < j < self.buffers().len() ==> self.buffers()[i].handle
                < self.buffers()[j].handle
        &&& forall|i: int|
            0 <= i < self.buffers().len() ==> self.buffers()[i].handle < self.next_handle()
    }

    /// Creates an empty pool.
    pub fn new() -> (pool: Self)
        ensures
            pool.wf(),
            pool.buffers() =~= Seq::<InstanceBuffer>::empty(),
            pool.next_handle() == 0,
    {
        InstancePool { buffers: Vec::new(), next_handle: 0 }
    }

    /// The number of buffers the pool has created over its lifetime.
    pub fn buffer_count(&self) -> (n: usize)
        ensures
            n == self.buffers().len(),
    {
        self.buffers.len()
    }

    /// Acquires a buffer of at least `size` bytes for one batched draw: the
    /// smallest sufficient free buffer is marked in use and reused, and when
    /// none qualifies a new buffer sized exactly to the request is appended.
    pub fn acquire(&mut self, size: u64) -> (acq: Acquisition)
        requires
            old(self).wf(),
            old(self).next_handle() < u64::MAX,
        ensures
            final(self).wf(),
            match best_fit(old(self).buffers(), size) {
                Some(i) => !acq.created && acq.index == i && acq.handle == old(
                    self,
                ).buffers()[i].handle && final(self).buffers() =~= old(self).buffers().update(
                    i,
                    (InstanceBuffer { free: false, ..old(self).buffers()[i] }),
                ) && final(self).next_handle() == old(self).next_handle(),
                None => acq.created && acq.index == old(self).buffers().len() && acq.handle == old(
                    self,
                ).next_handle() && final(self).buffers() =~= old(self).buffers().push(
                    (InstanceBuffer { handle: acq.handle, size, free: false }),
                ) && final(self).next_handle() == old(self).next_handle() + 1,
            },
            acq.index < final(self).buffers().len(),
            final(self).buffers()[acq.index as int].size >= size,
            final(self).buffers()[acq.index as int].handle == acq.handle,
            !final(self).buffers()[acq.index as int].free,
    {
        let n = self.buffers.len();
        let mut best: usize = n;
        let mut i: usize = 0;
        while i < n
            invariant
                i <= n,
                n == self.buffers@.len(),
                *self == *old(self),
                size <= u64::MAX,
                best <= n,
                best == n ==> forall|j: int| 0 <= j < i ==> !eligible(self.buffers@[j], size),
                best < n ==> best < i && eligible(self.buffers@[best as int], size) && (forall|
                    j: int,
                |
                    0 <= j < i && eligible(self.buffers@[j], size) ==> self.buffers@[best as int].size
                        <= self.buffers@[j].size) && (forall|j: int|
                    0 <= j < best && eligible(self.buffers@[j], size)
                        ==> self.buffers@[best as int].size < self.buffers@[j].size),
            decreases n - i,
        {
            let candidate = self.buffers[i];
            if candidate.free && candidate.size >= size {
                if best == n || candidate.size < self.buffers[best].size {
                    best = i;
                }
            }
            i += 1;
        }
        if best < n {
            proof {
                lemma_best_fit_select(self.buffers@, size, best as int);
            }
            let chosen = self.buffers[best];
            self.buffers.set(
                best,
                InstanceBuffer { handle: chosen.handle, size: chosen.size, free: false },
            );
            Acquisition { index: best, handle: chosen.handle, created: false }
        } else {
            proof {
                lemma_best_fit_none(self.buffers@, size);
            }
            let handle = self.next_handle;
            self.next_handle = self.next_handle + 1;
            self.buffers.push(InstanceBuffer { handle, size, free: false });
            Acquisition { index: n, handle, created: true }
        }
    }

    /// Marks every buffer free again, making the whole pool available for
    /// reuse by the next frame's draws.
    pub fn free(&mut self)
        requires
            old(self).wf(),
        ensures
            final(self).wf(),
            final(self).next_handle() == old(self).next_handle(),
            final(self).buffers().len() == old(self).buffers().len(),
            forall|i: int|
                0 <= i < final(self).buffers().len() ==> final(self).buffers()[i] == (InstanceBuffer {
                    free: true,
                    ..old(self).buffers()[i]
                }),
    {
        let n = self.buffers.len();
        let mut i: usize = 0;
        while i < n
            invariant
                i <= n,
                n == self.buffers@.len(),
                self.next_handle == old(self).next_handle,
                forall|j: int|
                    0 <= j < i ==> self.buffers@[j] == (InstanceBuffer {
                        free: true,
                        ..old(self).buffers()[j]
                    }),
                forall|j: int| i <= j < n ==> self.buffers@[j] == old(self).buffers()[j],
                old(self).wf(),
            decreases n - i,
        {
            let buf = self.buffers[i];
            self.buffers.set(i, InstanceBuffer { handle: buf.handle, size: buf.size, free: true });
            i += 1;
        }
    }
}

} // verus!
