//! The memoizing resource cache.
//!
//! `ResourceManager` owns a mapping from key to shared resource handle. A
//! request for a key already present returns a clone of the stored handle
//! without consulting the loader; a request for an absent key consults the
//! loader exactly once, publishes the result on success, and leaves the
//! mapping unchanged on failure (failures are never cached).

use std::rc::Rc;
use vstd::prelude::*;

use crate::keys::CacheKey;
use crate::loader::ResourceLoader;

verus! {

/// Relies on `Rc::clone`: the clone shares the original's allocation, so it
/// carries the same value; only the reference count changes.
#[verifier::external_body]
fn clone_handle<T>(rc: &Rc<T>) -> (r: Rc<T>)
    ensures
        r == *rc,
{
    Rc::clone(rc)
}

/// A generic cache over any resource kind a `ResourceLoader` can produce.
///
/// The cache borrows its loader for its whole lifetime, so the loader cannot
/// be destroyed first. Entries are created lazily on first request for a key
/// and persist until the cache itself is dropped: there is no eviction, no
/// size bound, and no caching of failures.
pub struct ResourceManager<'l, K: CacheKey, R, L: ResourceLoader<R>> {
    loader: &'l L,
    cache: Vec<(K, Rc<R>)>,
    calls: Ghost<Map<K::V, nat>>,
}

impl<'l, K: CacheKey, R, L: ResourceLoader<R>> ResourceManager<'l, K, R, L> {
    /// The mapping held by the cache, from key view to resource value.
    pub closed spec fn view(&self) -> Map<K::V, R> {
        Self::entries_map(self.cache@)
    }

    /// The loader this cache was bound to at construction.
    pub closed spec fn loader(&self) -> L {
        *self.loader
    }

    /// How many times the loader has been invoked for a given key since the
    /// cache was constructed.
    pub closed spec fn load_count(&self, k: K::V) -> nat {
        if self.calls@.contains_key(k) {
            self.calls@[k]
        } else {
            0
        }
    }

    /// Stored keys are pairwise semantically distinct, so each key view
    /// addresses exactly one entry; holds of every cache by construction.
    #[verifier::type_invariant]
    spec fn wf(&self) -> bool {
        forall|a: int, b: int|
            0 <= a < b < self.cache@.len() ==> self.cache@[a].0@ != self.cache@[b].0@
    }

    spec fn entries_map(s: Seq<(K, Rc<R>)>) -> Map<K::V, R>
        decreases s.len(),
    {
        if s.len() == 0 {
            Map::empty()
        } else {
            Self::entries_map(s.drop_last()).insert(s.last().0@, *s.last().1)
        }
    }

    proof fn lemma_entry_present(s: Seq<(K, Rc<R>)>, i: int)
        requires
            0 <= i < s.len(),
            forall|a: int, b: int| 0 <= a < b < s.len() ==> s[a].0@ != s[b].0@,
        ensures
            Self::entries_map(s).contains_key(s[i].0@),
            Self::entries_map(s)[s[i].0@] == *s[i].1,
        decreases s.len(),
    {
        if i < s.len() - 1 {
            Self::lemma_entry_present(s.drop_last(), i);
        }
    }

    proof fn lemma_key_absent(s: Seq<(K, Rc<R>)>, k: K::V)
        requires
            forall|j: int| 0 <= j < s.len() ==> s[j].0@ != k,
        ensures
            !Self::entries_map(s).contains_key(k),
        decreases s.len(),
    {
        if s.len() > 0 {
            Self::lemma_key_absent(s.drop_last(), k);
        }
    }

    /// Key equivalence: two descriptors with equal semantic content (equal
    /// views), however they are represented, address the same cache entry —
    /// both are present or both are absent, and when present they name the
    /// same resource, so the second never triggers a duplicate load.
    pub proof fn lemma_key_equivalence(&self, d1: &K, d2: &K)
        requires
            d1@ == d2@,
        ensures
            self@.contains_key(d1@) == self@.contains_key(d2@),
            self@.contains_key(d1@) ==> self@[d1@] == self@[d2@],
            self.load_count(d1@) == self.load_count(d2@),
    {
    }

    /// Creates an empty cache bound to the given loader. No I/O occurs, no
    /// entry exists, and no load has happened yet.
    pub fn new(loader: &'l L) -> (r: Self)
        ensures
            r@ == Map::<K::V, R>::empty(),
            r.loader() == *loader,
            forall|k: K::V| r.load_count(k) == 0,
    {
        ResourceManager { cache: Vec::new(), loader, calls: Ghost(Map::empty()) }
    }
}

impl<'l, K: CacheKey, R, L: ResourceLoader<R, Args = K>> ResourceManager<'l, K, R, L> {
    /// Memoized access to the loader's results.
    ///
    /// A key already present is served from the mapping without invoking the
    /// loader, and every caller for that key shares the resource the first
    /// successful load produced. A key not present invokes the loader once:
    /// on success the entry is published, on failure the error is propagated
    /// verbatim and nothing is cached, so a later request retries the load.
    pub fn load(&mut self, details: &K) -> (r: Result<Rc<R>, String>)
        ensures
            final(self).loader() == old(self).loader(),
            // a key already present never invokes the loader: every
            // invocation count is left unchanged
            old(self)@.contains_key(details@) ==> forall|k: K::V|
                final(self).load_count(k) == old(self).load_count(k),
            // distinct keys are independent: a request for this key touches
            // no other key's entry and no other key's invocation count
            forall|k: K::V|
                k != details@ ==> final(self).load_count(k) == old(self).load_count(k),
            forall|k: K::V|
                k != details@ ==> final(self)@.contains_key(k) == old(self)@.contains_key(k),
            // entries persist: a published entry is never evicted or replaced
            forall|k: K::V|
                old(self)@.contains_key(k) ==> final(self)@.contains_key(k) && final(self)@[k]
                    == old(self)@[k],
            match r {
                Ok(h) => {
                    &&& final(self)@.contains_key(details@)
                    &&& final(self)@[details@] == *h
                    &&& if old(self)@.contains_key(details@) {
                        // cache hit: the handle wraps the stored resource
                        // and the cache is untouched
                        &&& *h == old(self)@[details@]
                        &&& *final(self) == *old(self)
                    } else {
                        // cache miss: the loader was consulted once, and the
                        // resource it produced was published under this key
                        &&& old(self).loader().load_post(*details, Ok(*h))
                        &&& final(self)@ == old(self)@.insert(details@, *h)
                        &&& final(self).load_count(details@) == old(self).load_count(details@) + 1
                    }
                },
                Err(e) => {
                    // a failed load is not cached: the mapping is unchanged
                    // and the loader's error is propagated verbatim
                    &&& !old(self)@.contains_key(details@)
                    &&& old(self).loader().load_post(*details, Err(e))
                    &&& final(self)@ == old(self)@
                    &&& final(self).load_count(details@) == old(self).load_count(details@) + 1
                },
            },
    {
        proof {
            use_type_invariant(&*self);
        }
        let n = self.cache.len();
        let mut i: usize = 0;
        while i < n
            invariant
                *self == *old(self),
                old(self).wf(),
                n == self.cache@.len(),
                i <= n,
                forall|j: int| 0 <= j < i ==> self.cache@[j].0@ != details@,
            decreases n - i,
        {
            if self.cache[i].0.key_eq(details) {
                proof {
                    Self::lemma_entry_present(self.cache@, i as int);
                }
                return Ok(clone_handle(&self.cache[i].1));
            }
            i += 1;
        }
        proof {
            Self::lemma_key_absent(self.cache@, details@);
        }
        self.calls = Ghost(self.calls@.insert(details@, self.load_count(details@) + 1));
        match self.loader.load(details) {
            Ok(resource) => {
                let handle = Rc::new(resource);
                let entry = clone_handle(&handle);
                let ghost before = self.cache@;
                let mut entries: Vec<(K, Rc<R>)> = Vec::new();
                std::mem::swap(&mut entries, &mut self.cache);
                entries.push((details.key_clone(), entry));
                proof {
                    assert(entries@.drop_last() =~= before);
                }
                self.cache = entries;
                Ok(handle)
            },
            Err(e) => Err(e),
        }
    }
}

} // verus!
