use vstd::prelude::*;

verus! {

/// Issues the identities that textures, samplers and draw arrays carry for
/// use as cache keys: a monotonically incrementing counter owned by the
/// caller's top-level context, so no two resources it tags share an identity.
#[derive(Debug)]
pub struct IdSource {
    next: u64,
}

impl IdSource {
    /// The identity the next call to [`IdSource::fresh`] will issue.
    pub closed spec fn next_id(&self) -> u64 {
        self.next
    }

    /// Creates a source whose first identity is 0.
    pub fn new() -> (ids: Self)
        ensures
            ids.next_id() == 0,
    {
        IdSource { next: 0 }
    }

    /// Issues the next identity. Identities grow by one per call, so every
    /// identity this source issues is distinct from every earlier one.
    pub fn fresh(&mut self) -> (id: u64)
        requires
            old(self).next_id() < u64::MAX,
        ensures
            id == old(self).next_id(),
            final(self).next_id() == old(self).next_id() + 1,
    {
        let id = self.next;
        self.next = self.next + 1;
        id
    }

    /// Whether another identity can still be issued; callers check this
    /// before [`IdSource::fresh`].
    pub fn has_fresh(&self) -> (ok: bool)
        ensures
            ok == (self.next_id() < u64::MAX),
    {
        self.next < u64::MAX
    }
}

} // verus!
