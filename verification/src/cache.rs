//! The runtime-acquisition cache: a store of runtime distributions on
//! the build machine, keyed by requested version and target platform.
//!
//! A key is either absent or populated — the population step that the
//! caller performs on a miss (materialize into a private temporary
//! location, then promote atomically) guarantees there is no observable
//! half-populated state, so this model needs no third state.  The
//! caller asks with `lookup`, fetches only on a miss, and records the
//! populated entry with `commit`.

use vstd::prelude::*;

use crate::config::Target;

verus! {

/// A cache key: requested runtime version and target platform.
#[derive(Clone, Copy, Debug, PartialEq, Eq, Structural)]
pub struct CacheKey {
    pub version: u32,
    pub target: Target,
}

/// One populated entry: its key and the directory it was promoted to.
#[derive(Debug)]
pub struct CacheEntry {
    pub key: CacheKey,
    pub path: String,
}

/// The path recorded for `k`, if `k` is populated.
pub open spec fn find_entry(s: Seq<CacheEntry>, k: CacheKey) -> Option<Seq<char>>
    decreases s.len(),
{
    if s.len() == 0 {
        None
    } else if s[0].key == k {
        Some(s[0].path@)
    } else {
        find_entry(s.drop_first(), k)
    }
}

proof fn lemma_find_push(s: Seq<CacheEntry>, e: CacheEntry, k: CacheKey)
    ensures
        find_entry(s.push(e), k) == (match find_entry(s, k) {
            Some(p) => Some(p),
            None => if e.key == k {
                Some(e.path@)
            } else {
                None
            },
        }),
    decreases s.len(),
{
    if s.len() == 0 {
        assert(s.push(e).len() == 1);
        assert(s.push(e)[0] == e);
        assert(s.push(e).drop_first() =~= Seq::<CacheEntry>::empty());
        assert(find_entry(s.push(e).drop_first(), k) is None);
        if e.key == k {
            assert(find_entry(s.push(e), k) == Some(e.path@));
        } else {
            assert(find_entry(s.push(e), k) is None);
        }
    } else {
        lemma_find_push(s.drop_first(), e, k);
        assert(s.push(e)[0] == s[0]);
        assert(s.push(e).drop_first() =~= s.drop_first().push(e));
        if s[0].key == k {
            assert(find_entry(s.push(e), k) == Some(s[0].path@));
            assert(find_entry(s, k) == Some(s[0].path@));
        } else {
            assert(find_entry(s.push(e), k) == find_entry(s.drop_first().push(e), k));
            assert(find_entry(s, k) == find_entry(s.drop_first(), k));
        }
    }
}

proof fn lemma_find_none_absent(s: Seq<CacheEntry>, k: CacheKey)
    ensures
        find_entry(s, k) is None <==> (forall|i: int| 0 <= i < s.len() ==> (#[trigger] s[i]).key != k),
    decreases s.len(),
{
    if s.len() > 0 {
        lemma_find_none_absent(s.drop_first(), k);
        assert(forall|i: int|
            1 <= i < s.len() ==> (#[trigger] s[i]) == s.drop_first()[i - 1]);
    }
}

/// The build machine's runtime cache.  Each key is populated at most
/// once; a populated key never changes its path.
pub struct RuntimeCache {
    entries: Vec<CacheEntry>,
}

impl RuntimeCache {
    /// The populated entries, in population order.
    pub closed spec fn entries_view(self) -> Seq<CacheEntry> {
        self.entries@
    }

    /// The path recorded for a key, if that key is populated.
    pub open spec fn lookup_spec(self, k: CacheKey) -> Option<Seq<char>> {
        find_entry(self.entries_view(), k)
    }

    /// Every key is populated at most once.
    pub closed spec fn wf(self) -> bool {
        forall|i: int, j: int|
            0 <= i < j < self.entries@.len() ==> (#[trigger] self.entries@[i]).key != (
            #[trigger] self.entries@[j]).key
    }

    /// An empty cache: no key is populated.
    pub fn new() -> (c: Self)
        ensures
            c.wf(),
            forall|k: CacheKey| c.lookup_spec(k) is None,
    {
        let c = RuntimeCache { entries: Vec::new() };
        proof {
            assert(c.entries@ =~= Seq::<CacheEntry>::empty());
        }
        c
    }

    /// Returns the populated path for (version, target), or `None` when
    /// the entry is absent and the caller must fetch and `commit`.
    pub fn lookup(&self, version: u32, target: Target) -> (r: Option<String>)
        ensures
            match r {
                Some(p) => self.lookup_spec(CacheKey { version, target }) == Some(p@),
                None => self.lookup_spec(CacheKey { version, target }) is None,
            },
    {
        let key = CacheKey { version, target };
        let ghost all = self.entries@;
        proof {
            assert(all.skip(0) =~= all);
        }
        let mut i: usize = 0;
        while i < self.entries.len()
            invariant
                i <= self.entries@.len(),
                all == self.entries@,
                key == (CacheKey { version, target }),
                find_entry(all, key) == find_entry(all.skip(i as int), key),
            decreases self.entries@.len() - i,
        {
            proof {
                assert(all.skip(i as int)[0] == all[i as int]);
                assert(all.skip(i as int).drop_first() =~= all.skip(i as int + 1));
            }
            if self.entries[i].key == key {
                let p = self.entries[i].path.clone();
                proof {
                    assert(all.skip(i as int).len() > 0);
                    assert(find_entry(all.skip(i as int), key) == Some(all[i as int].path@));
                    assert(p == all[i as int].path);
                    assert(p@ == all[i as int].path@);
                }
                return Some(p);
            }
            i = i + 1;
        }
        proof {
            assert(all.skip(all.len() as int) =~= Seq::<CacheEntry>::empty());
        }
        None
    }

    /// Records that the entry for (version, target) was fetched,
    /// materialized in a private temporary location, and atomically
    /// promoted to `path`.
    pub fn commit(&mut self, version: u32, target: Target, path: String)
        requires
            old(self).wf(),
            old(self).lookup_spec(CacheKey { version, target }) is None,
        ensures
            final(self).wf(),
            final(self).lookup_spec(CacheKey { version, target }) == Some(path@),
            forall|k: CacheKey|
                k != (CacheKey { version, target }) ==> final(self).lookup_spec(k) == old(
                    self,
                ).lookup_spec(k),
    {
        let key = CacheKey { version, target };
        let ghost before = self.entries@;
        let entry = CacheEntry { key, path };
        self.entries.push(entry);
        proof {
            lemma_find_none_absent(before, key);
            assert forall|k: CacheKey| #![auto] true implies find_entry(before.push(entry), k)
                == (match find_entry(before, k) {
                Some(p) => Some(p),
                None => if entry.key == k {
                    Some(entry.path@)
                } else {
                    None
                },
            }) by {
                lemma_find_push(before, entry, k);
            }
            assert forall|i: int, j: int|
                0 <= i < j < self.entries@.len() implies (#[trigger] self.entries@[i]).key != (
            #[trigger] self.entries@[j]).key by {
                if j < before.len() {
                } else {
                    assert(self.entries@[j] == entry);
                    assert(self.entries@[i] == before[i]);
                }
            }
        }
    }
}

/// Cache idempotence: when an acquisition finds its key absent and
/// commits the fetched entry, any later acquisition of the same key
/// finds it populated with that very path — so the fetch and the
/// population happen only once — and no other key is disturbed.
pub proof fn lemma_acquisition_idempotent(s: Seq<CacheEntry>, e: CacheEntry)
    requires
        find_entry(s, e.key) is None,
    ensures
        find_entry(s.push(e), e.key) == Some(e.path@),
        forall|k: CacheKey| k != e.key ==> find_entry(s.push(e), k) == find_entry(s, k),
{
    lemma_find_push(s, e, e.key);
    assert forall|k: CacheKey| k != e.key implies find_entry(s.push(e), k) == find_entry(s, k) by {
        lemma_find_push(s, e, k);
    }
}

} // verus!
