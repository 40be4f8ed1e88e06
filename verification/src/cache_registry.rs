//! Shared in-process caches, keyed by name: every request for the same
//! logical cache is answered with the cache built for it the first time,
//! so that the parts of an application that name one cache share it.

use crate::text::same_text;
use vstd::prelude::*;

verus! {

/// The largest number of entries that one cache built by the factory holds.
pub const CACHE_MAX_ENTRIES: u64 = 1000;

/// Caches registered under names, at most one per name.
pub struct CacheRegistry<H> {
    entries: Vec<(String, H)>,
}

/// How a request for a named cache is answered.
pub enum CachePlan<C> {
    /// Hand back the cache registered under the name.
    Share(C),
    /// The name is taken by a cache of other key and value types: build a
    /// cache of its own for the caller and leave the registry as it is.
    BuildUnshared,
    /// Build a cache, register it under the name and hand it back.
    BuildAndRegister,
}

/// The answer to a request for a named cache. `found` is what the registry
/// holds under the name: `None` when nothing, `Some(None)` when a cache of
/// other key and value types, `Some(Some(c))` when the cache `c`.
pub open spec fn cache_plan_spec<C>(found: Option<Option<C>>) -> CachePlan<C> {
    match found {
        None => CachePlan::BuildAndRegister,
        Some(None) => CachePlan::BuildUnshared,
        Some(Some(c)) => CachePlan::Share(c),
    }
}

/// The answer to a request for a named cache, given what the registry holds
/// under the name (see [`cache_plan_spec`]).
pub fn plan_cache<C>(found: Option<Option<C>>) -> (r: CachePlan<C>)
    ensures
        r == cache_plan_spec(found),
{
    match found {
        None => CachePlan::BuildAndRegister,
        Some(None) => CachePlan::BuildUnshared,
        Some(Some(c)) => CachePlan::Share(c),
    }
}

impl<H> CacheRegistry<H> {
    /// No two entries share a name.
    #[verifier::type_invariant]
    spec fn names_distinct(&self) -> bool {
        forall|i: int, j: int|
            0 <= i < self.entries@.len() && 0 <= j < self.entries@.len() && i != j
                ==> #[trigger] self.entries@[i].0@ != #[trigger] self.entries@[j].0@
    }

    /// Whether some cache is registered under `name`.
    pub closed spec fn holds(&self, name: Seq<char>) -> bool {
        exists|i: int| 0 <= i < self.entries@.len() && #[trigger] self.entries@[i].0@ == name
    }

    /// The cache registered under `name`, if any.
    pub closed spec fn lookup(&self, name: Seq<char>) -> Option<H> {
        if self.holds(name) {
            let i = choose|i: int| 0 <= i < self.entries@.len() && #[trigger] self.entries@[i].0@ == name;
            Some(self.entries@[i].1)
        } else {
            None
        }
    }

    /// Where `name` is registered.
    fn position(&self, name: &str) -> (r: Option<usize>)
        ensures
            match r {
                Some(i) => i < self.entries@.len() && self.entries@[i as int].0@ == name@,
                None => !self.holds(name@),
            },
    {
        let mut i: usize = 0;
        while i < self.entries.len()
            invariant
                i <= self.entries@.len(),
                forall|k: int| 0 <= k < i ==> #[trigger] self.entries@[k].0@ != name@,
            decreases self.entries@.len() - i,
        {
            if same_text(self.entries[i].0.as_str(), name) {
                return Some(i);
            }
            i += 1;
        }
        None
    }

    /// An empty registry.
    pub fn new() -> (r: Self)
        ensures
            forall|name: Seq<char>| #[trigger] r.lookup(name) == None::<H>,
    {
        CacheRegistry { entries: Vec::new() }
    }

    /// The cache registered under `name`, if any.
    pub fn get(&self, name: &str) -> (r: Option<&H>)
        ensures
            match r {
                Some(h) => self.lookup(name@) == Some(*h),
                None => self.lookup(name@) == None::<H>,
            },
    {
        proof {
            use_type_invariant(self);
        }
        match self.position(name) {
            Some(i) => {
                proof {
                    let j = choose|j: int| 0 <= j < self.entries@.len() && #[trigger] self.entries@[j].0@ == name@;
                    assert(self.entries@[j].0@ == self.entries@[i as int].0@);
                }
                Some(&self.entries[i].1)
            },
            None => None,
        }
    }

    /// Registers `handle` under `name`, in place of what was registered
    /// under it; every other name keeps its cache.
    pub fn insert(&mut self, name: String, handle: H)
        ensures
            final(self).lookup(name@) == Some(handle),
            forall|other: Seq<char>|
                other != name@ ==> #[trigger] final(self).lookup(other) == old(self).lookup(other),
    {
        proof {
            use_type_invariant(&*self);
        }
        let ghost before = self.entries@;
        let ghost key = name@;
        let ghost old_reg = *self;
        let found = self.position(name.as_str());
        let mut entries: Vec<(String, H)> = Vec::new();
        std::mem::swap(&mut entries, &mut self.entries);
        let ghost at: int;
        match found {
            Some(i) => {
                entries.set(i, (name, handle));
                proof {
                    at = i as int;
                }
            },
            None => {
                entries.push((name, handle));
                proof {
                    at = before.len() as int;
                }
            },
        }
        proof {
            assert(entries@[at].0@ == key && entries@[at].1 == handle);
            assert(forall|k: int|
                0 <= k < entries@.len() && k != at ==> #[trigger] entries@[k] == before[k]);
        }
        self.entries = entries;
        proof {
            use_type_invariant(&*self);
            let n = self.entries@.len();
            assert(self.entries@[at].0@ == key);
            let j = choose|j: int| 0 <= j < n && #[trigger] self.entries@[j].0@ == key;
            assert(j == at);
            assert forall|other: Seq<char>| other != key implies #[trigger] self.lookup(other)
                == old_reg.lookup(other) by {
                if self.holds(other) {
                    let a = choose|a: int| 0 <= a < n && #[trigger] self.entries@[a].0@ == other;
                    assert(a != at);
                    assert(before[a].0@ == other);
                    assert(old_reg.entries@[a].0@ == other);
                    assert(old_reg.holds(other));
                    let b = choose|b: int|
                        0 <= b < old_reg.entries@.len() && #[trigger] old_reg.entries@[b].0@ == other;
                    assert(old_reg.entries@[b].0@ == old_reg.entries@[a].0@);
                    assert(a == b);
                } else if old_reg.holds(other) {
                    let b = choose|b: int|
                        0 <= b < old_reg.entries@.len() && #[trigger] old_reg.entries@[b].0@ == other;
                    assert(b != at);
                    assert(self.entries@[b].0@ == other);
                }
            }
        }
    }
}

} // verus!
