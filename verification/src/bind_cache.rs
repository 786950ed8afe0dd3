use std::collections::HashMap;
use vstd::prelude::*;

verus! {

broadcast use vstd::std_specs::hash::group_hash_axioms, vstd::set::axiom_set_insert_len;

/// Caches bind-group handles by a `u64` resource identity.
///
/// Each key stands for one logical resource (a texture, a sampler, a buffer
/// slot) whose bind-group layout is stable for the life of the cache, so a
/// key's bind group is created at most once and then reused. The cache only
/// decides: when a lookup reports that the handle was created, the caller
/// creates the actual bind group under that handle.
#[derive(Debug)]
pub struct BindCache {
    cache: HashMap<u64, u64>,
    next_handle: u64,
}

/// A key served by a miss sits in the cache afterwards under the handle
/// created for it, so a second lookup of the same key is a hit that returns
/// the identical handle and creates nothing: one creation per distinct key.
pub proof fn lemma_second_get_is_hit(entries: Map<u64, u64>, key: u64, handle: u64)
    requires
        !entries.contains_key(key),
    ensures
        entries.insert(key, handle).contains_key(key),
        entries.insert(key, handle)[key] == handle,
{
}

impl BindCache {
    /// The cached handle of each key.
    pub closed spec fn entries(&self) -> Map<u64, u64> {
        self.cache@
    }

    /// How many handles the cache has created: one per miss, none per hit.
    pub closed spec fn spec_creations(&self) -> u64 {
        self.next_handle
    }

    /// The creation count equals the number of distinct keys ever looked up
    /// (at most one creation per key), and every cached handle was issued by
    /// this cache's own counter.
    pub open spec fn wf(&self) -> bool {
        &&& self.entries().dom().finite()
        &&& self.entries().len() == self.spec_creations()
        &&& forall|k: u64|
            self.entries().contains_key(k) ==> self.entries()[k] < self.spec_creations()
    }

    /// Creates an empty cache.
    pub fn new() -> (cache: Self)
        ensures
            cache.wf(),
            cache.entries() =~= Map::<u64, u64>::empty(),
            cache.spec_creations() == 0,
    {
        BindCache { cache: HashMap::new(), next_handle: 0 }
    }

    /// How many handles the cache has created so far.
    pub fn creations(&self) -> (n: u64)
        ensures
            n == self.spec_creations(),
    {
        self.next_handle
    }

    /// Returns the handle cached under `key`, or creates one: a hit returns
    /// the stored handle and changes nothing; a miss stores a fresh handle
    /// under `key`, counts one creation, and reports it so the caller builds
    /// the bind group exactly once.
    pub fn get(&mut self, key: u64) -> (r: (u64, bool))
        requires
            old(self).wf(),
            old(self).spec_creations() < u64::MAX,
        ensures
            final(self).wf(),
            old(self).entries().contains_key(key) ==> !r.1 && r.0 == old(self).entries()[key]
                && final(self).entries() == old(self).entries() && final(self).spec_creations()
                == old(self).spec_creations(),
            !old(self).entries().contains_key(key) ==> r.1 && r.0 == old(self).spec_creations()
                && final(self).entries() == old(self).entries().insert(key, r.0)
                && final(self).spec_creations() == old(self).spec_creations() + 1,
            final(self).entries().contains_key(key),
            final(self).entries()[key] == r.0,
    {
        match self.cache.get(&key) {
            Some(handle) => (*handle, false),
            None => {
                let handle = self.next_handle;
                self.cache.insert(key, handle);
                self.next_handle = handle + 1;
                proof {
                    assert forall|k: u64| self.cache@.contains_key(k) implies self.cache@[k]
                        < self.next_handle by {
                        if k != key {
                            assert(old(self).entries().contains_key(k));
                        }
                    }
                }
                (handle, true)
            },
        }
    }
}

} // verus!
