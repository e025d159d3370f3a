//! A TTL key-value store, lazily evicting on read.
//!
//! The engine keeps its session token here so that it survives process
//! restarts within its validity window. Persistence itself is the
//! embedder's concern: it reads [`SimpleCache::entries`] to save and
//! rebuilds with [`SimpleCache::with_entries`] on startup. Time enters
//! as an explicit epoch-seconds argument.

use vstd::prelude::*;

verus! {

/// One entry: a key, its value, and an optional expiry epoch.
#[derive(Clone, Debug)]
pub struct CacheEntry {
    pub key: String,
    pub value: String,
    pub expires: Option<i64>,
}

/// The value and expiry a list of entries gives `key`; the last entry
/// with that key wins, as in the flat mapping it mirrors.
pub open spec fn entries_get(s: Seq<CacheEntry>, key: Seq<char>) -> Option<
    (Seq<char>, Option<i64>),
>
    decreases s.len(),
{
    if s.len() == 0 {
        None
    } else if s.last().key@ == key {
        Some((s.last().value@, s.last().expires))
    } else {
        entries_get(s.drop_last(), key)
    }
}

/// A key absent from every entry is absent from the whole list.
proof fn lemma_entries_get_absent(s: Seq<CacheEntry>, key: Seq<char>)
    requires
        forall|i: int| 0 <= i < s.len() ==> (#[trigger] s[i]).key@ != key,
    ensures
        entries_get(s, key) is None,
    decreases s.len(),
{
    if s.len() > 0 {
        lemma_entries_get_absent(s.drop_last(), key);
    }
}

/// A key the list resolves to nothing stands in no entry.
proof fn lemma_entries_get_none_pointwise(s: Seq<CacheEntry>, key: Seq<char>)
    requires
        entries_get(s, key) is None,
    ensures
        forall|i: int| 0 <= i < s.len() ==> (#[trigger] s[i]).key@ != key,
    decreases s.len(),
{
    if s.len() > 0 {
        lemma_entries_get_none_pointwise(s.drop_last(), key);
        assert forall|i: int| 0 <= i < s.len() implies (#[trigger] s[i]).key@ != key by {
            if i < s.len() - 1 {
                assert(s.drop_last()[i] == s[i]);
            }
        }
    }
}

/// Appending an entry settles its own key and leaves the others.
proof fn lemma_entries_get_push(s: Seq<CacheEntry>, e: CacheEntry, key: Seq<char>)
    ensures
        entries_get(s.push(e), key) == if e.key@ == key {
            Some((e.value@, e.expires))
        } else {
            entries_get(s, key)
        },
{
    assert(s.push(e).last() == e);
    assert(s.push(e).drop_last() =~= s);
}

/// With pairwise-distinct keys, the entry under `j` is what the list
/// gives its key.
proof fn lemma_entries_get_at(s: Seq<CacheEntry>, j: int)
    requires
        0 <= j < s.len(),
        forall|a: int, b: int|
            0 <= a < b < s.len() ==> (#[trigger] s[a]).key@ != (#[trigger] s[b]).key@,
    ensures
        entries_get(s, s[j].key@) == Some((s[j].value@, s[j].expires)),
    decreases s.len(),
{
    if j < s.len() - 1 {
        assert(s.last().key@ != s[j].key@);
        let t = s.drop_last();
        assert(forall|a: int, b: int|
            0 <= a < b < t.len() ==> (#[trigger] t[a]).key@ != (#[trigger] t[b]).key@);
        lemma_entries_get_at(t, j);
    }
}

/// Replacing the entry under `j` by one with the same key settles that
/// key and leaves the others.
proof fn lemma_entries_get_update(s: Seq<CacheEntry>, j: int, e: CacheEntry)
    requires
        0 <= j < s.len(),
        s[j].key@ == e.key@,
        forall|a: int, b: int|
            0 <= a < b < s.len() ==> (#[trigger] s[a]).key@ != (#[trigger] s[b]).key@,
    ensures
        entries_get(s.update(j, e), e.key@) == Some((e.value@, e.expires)),
        forall|k: Seq<char>| k != e.key@ ==> #[trigger] entries_get(s.update(j, e), k)
            == entries_get(s, k),
    decreases s.len(),
{
    let t = s.update(j, e);
    if j == s.len() - 1 {
        assert(t.last() == e);
        assert(t.drop_last() =~= s.drop_last());
        assert(s.last().key@ == e.key@);
        assert forall|k: Seq<char>| k != e.key@ implies #[trigger] entries_get(t, k)
            == entries_get(s, k) by {
            assert(entries_get(t, k) == entries_get(t.drop_last(), k));
            assert(entries_get(s, k) == entries_get(s.drop_last(), k));
        }
    } else {
        assert(t.last() == s.last());
        assert(t.drop_last() =~= s.drop_last().update(j, e));
        let u = s.drop_last();
        assert(forall|a: int, b: int|
            0 <= a < b < u.len() ==> (#[trigger] u[a]).key@ != (#[trigger] u[b]).key@);
        assert(u[j] == s[j]);
        lemma_entries_get_update(u, j, e);
        assert(s.last().key@ != e.key@);
        assert(entries_get(t, e.key@) == entries_get(u.update(j, e), e.key@));
        assert forall|k: Seq<char>| k != e.key@ implies #[trigger] entries_get(t, k)
            == entries_get(s, k) by {
            if t.last().key@ != k {
                assert(entries_get(t, k) == entries_get(u.update(j, e), k));
                assert(entries_get(s, k) == entries_get(u, k));
            }
        }
    }
}

/// Removing the one entry under `key` clears that key and leaves the
/// others, when keys are pairwise distinct.
proof fn lemma_entries_get_remove(s: Seq<CacheEntry>, j: int, key: Seq<char>)
    requires
        0 <= j < s.len(),
        s[j].key@ == key,
        forall|a: int, b: int|
            0 <= a < b < s.len() ==> (#[trigger] s[a]).key@ != (#[trigger] s[b]).key@,
    ensures
        entries_get(s.remove(j), key) is None,
        forall|k: Seq<char>| k != key ==> #[trigger] entries_get(s.remove(j), k) == entries_get(
            s,
            k,
        ),
    decreases s.len(),
{
    s.remove_ensures(j);
    let t = s.remove(j);
    if j == s.len() - 1 {
        assert(t =~= s.drop_last());
        assert forall|i: int| 0 <= i < t.len() implies (#[trigger] t[i]).key@ != key by {
            assert(t[i] == s[i]);
        }
        lemma_entries_get_absent(t, key);
        assert forall|k: Seq<char>| k != key implies #[trigger] entries_get(t, k) == entries_get(
            s,
            k,
        ) by {
            assert(entries_get(s, k) == entries_get(s.drop_last(), k));
        }
    } else {
        assert(t.last() == s.last());
        assert(t.drop_last() =~= s.drop_last().remove(j));
        let u = s.drop_last();
        assert(forall|a: int, b: int|
            0 <= a < b < u.len() ==> (#[trigger] u[a]).key@ != (#[trigger] u[b]).key@);
        assert(u[j] == s[j]);
        lemma_entries_get_remove(u, j, key);
        assert(s.last().key@ != key);
        assert(entries_get(t, key) == entries_get(u.remove(j), key));
        assert forall|k: Seq<char>| k != key implies #[trigger] entries_get(t, k) == entries_get(
            s,
            k,
        ) by {
            if t.last().key@ != k {
                assert(entries_get(t, k) == entries_get(u.remove(j), k));
                assert(entries_get(s, k) == entries_get(u, k));
            }
        }
    }
}

/// The TTL store: a flat mapping of string keys to a value plus an
/// optional expiry epoch, with pairwise-distinct keys.
pub struct SimpleCache {
    entries: Vec<CacheEntry>,
}

impl SimpleCache {
    /// Keys are pairwise distinct.
    pub closed spec fn wf(&self) -> bool {
        forall|a: int, b: int|
            0 <= a < b < self.entries@.len() ==> (#[trigger] self.entries@[a]).key@
                != (#[trigger] self.entries@[b]).key@
    }

    /// What the cache holds under `key`: the value and its expiry.
    pub closed spec fn spec_get(&self, key: Seq<char>) -> Option<(Seq<char>, Option<i64>)> {
        entries_get(self.entries@, key)
    }

    /// An empty cache.
    pub fn new() -> (r: SimpleCache)
        ensures
            r.wf(),
            forall|k: Seq<char>| #[trigger] r.spec_get(k) is None,
    {
        let r = SimpleCache { entries: Vec::new() };
        proof {
            assert forall|k: Seq<char>| #[trigger] r.spec_get(k) is None by {
                lemma_entries_get_absent(r.entries@, k);
            }
        }
        r
    }

    /// A cache holding what `list` holds, later entries winning.
    pub fn with_entries(list: &Vec<CacheEntry>) -> (r: SimpleCache)
        ensures
            r.wf(),
            forall|k: Seq<char>| #[trigger] r.spec_get(k) == entries_get(list@, k),
    {
        let mut r = SimpleCache::new();
        let mut i: usize = 0;
        proof {
            assert forall|k: Seq<char>| #[trigger] r.spec_get(k) == entries_get(
                list@.take(0),
                k,
            ) by {
                assert(list@.take(0) =~= Seq::<CacheEntry>::empty());
            }
        }
        while i < list.len()
            invariant
                0 <= i <= list@.len(),
                r.wf(),
                forall|k: Seq<char>| #[trigger] r.spec_get(k) == entries_get(
                    list@.take(i as int),
                    k,
                ),
            decreases list@.len() - i,
        {
            let e = &list[i];
            r.set(e.key.as_str(), e.value.as_str(), e.expires);
            proof {
                assert forall|k: Seq<char>| #[trigger] r.spec_get(k) == entries_get(
                    list@.take(i + 1),
                    k,
                ) by {
                    assert(list@.take(i + 1) =~= list@.take(i as int).push(list@[i as int]));
                    lemma_entries_get_push(list@.take(i as int), list@[i as int], k);
                }
            }
            i += 1;
        }
        proof {
            assert(list@.take(list@.len() as int) =~= list@);
        }
        r
    }

    /// The entries, for the embedder to persist.
    pub fn entries(&self) -> (r: &Vec<CacheEntry>)
        ensures
            forall|k: Seq<char>| #[trigger] entries_get(r@, k) == self.spec_get(k),
    {
        &self.entries
    }

    /// The index of the entry under `key`, if any.
    fn find_index(&self, key: &String) -> (r: Option<usize>)
        requires
            self.wf(),
        ensures
            match r {
                Some(j) => j < self.entries@.len() && self.entries@[j as int].key@ == key@
                    && self.spec_get(key@) == Some(
                    (self.entries@[j as int].value@, self.entries@[j as int].expires),
                ),
                None => self.spec_get(key@) is None,
            },
    {
        let mut j: usize = 0;
        while j < self.entries.len()
            invariant
                0 <= j <= self.entries@.len(),
                self.wf(),
                forall|i: int| 0 <= i < j ==> (#[trigger] self.entries@[i]).key@ != key@,
            decreases self.entries@.len() - j,
        {
            if self.entries[j].key.eq(key) {
                proof {
                    lemma_entries_get_at(self.entries@, j as int);
                }
                return Some(j);
            }
            j += 1;
        }
        proof {
            lemma_entries_get_absent(self.entries@, key@);
        }
        None
    }

    /// Store `value` under `key`, to live until `expires` (or forever).
    pub fn set(&mut self, key: &str, value: &str, expires: Option<i64>)
        requires
            old(self).wf(),
        ensures
            final(self).wf(),
            final(self).spec_get(key@) == Some((value@, expires)),
            forall|k: Seq<char>| k != key@ ==> #[trigger] final(self).spec_get(k) == old(
                self,
            ).spec_get(k),
    {
        let key_string = key.to_owned();
        let entry = CacheEntry { key: key_string, value: value.to_owned(), expires };
        let ghost ge = entry;
        let ghost s0 = self.entries@;
        let found = self.find_index(&entry.key);
        match found {
            Some(j) => {
                proof {
                    lemma_entries_get_update(s0, j as int, ge);
                    assert forall|a: int, b: int|
                        0 <= a < b < s0.update(j as int, ge).len() implies (#[trigger] s0.update(
                        j as int,
                        ge,
                    )[a]).key@ != (#[trigger] s0.update(j as int, ge)[b]).key@ by {
                        assert(s0.update(j as int, ge)[a].key@ == s0[a].key@);
                        assert(s0.update(j as int, ge)[b].key@ == s0[b].key@);
                    }
                }
                let slot = vstd::std_specs::vec::vec_index_mut(&mut self.entries, j);
                *slot = entry;
            },
            None => {
                proof {
                    lemma_entries_get_none_pointwise(s0, key@);
                }
                self.entries.push(entry);
                proof {
                    assert(self.entries@ == s0.push(ge));
                    lemma_entries_get_push(s0, ge, key@);
                    assert forall|k: Seq<char>| k != key@ implies #[trigger] entries_get(
                        self.entries@,
                        k,
                    ) == entries_get(s0, k) by {
                        lemma_entries_get_push(s0, ge, k);
                    }
                    assert forall|a: int, b: int|
                        0 <= a < b < self.entries@.len() implies (#[trigger] self.entries@[a]).key@
                        != (#[trigger] self.entries@[b]).key@ by {
                        if b < s0.len() {
                        } else {
                            assert(self.entries@[b] == ge);
                            assert(self.entries@[a] == s0[a]);
                        }
                    }
                }
            },
        }
    }

    /// The live value under `key` at time `now`. An entry past its
    /// expiry is evicted and not returned.
    pub fn get(&mut self, key: &str, now: i64) -> (r: Option<String>)
        requires
            old(self).wf(),
        ensures
            final(self).wf(),
            match old(self).spec_get(key@) {
                None => r is None && *final(self) == *old(self),
                Some(p) => {
                    if p.1 is Some && p.1.unwrap() <= now {
                        &&& r is None
                        &&& final(self).spec_get(key@) is None
                        &&& forall|k: Seq<char>| k != key@ ==> #[trigger] final(self).spec_get(k)
                            == old(self).spec_get(k)
                    } else {
                        r is Some && r.unwrap()@ == p.0 && *final(self) == *old(self)
                    }
                },
            },
    {
        let key_string = key.to_owned();
        let ghost s0 = self.entries@;
        match self.find_index(&key_string) {
            None => None,
            Some(j) => {
                let expired: bool = match &self.entries[j].expires {
                    Some(e) => *e <= now,
                    None => false,
                };
                if expired {
                    proof {
                        lemma_entries_get_remove(s0, j as int, key@);
                        s0.remove_ensures(j as int);
                        assert forall|a: int, b: int|
                            0 <= a < b < s0.remove(j as int).len() implies (#[trigger] s0.remove(
                            j as int,
                        )[a]).key@ != (#[trigger] s0.remove(j as int)[b]).key@ by {
                            if a < j {
                                assert(s0.remove(j as int)[a] == s0[a]);
                            } else {
                                assert(s0.remove(j as int)[a] == s0[a + 1]);
                            }
                            if b < j {
                                assert(s0.remove(j as int)[b] == s0[b]);
                            } else {
                                assert(s0.remove(j as int)[b] == s0[b + 1]);
                            }
                        }
                    }
                    self.entries.remove(j);
                    None
                } else {
                    Some(self.entries[j].value.clone())
                }
            },
        }
    }
}

impl Default for SimpleCache {
    /// An empty cache.
    fn default() -> (r: SimpleCache)
        ensures
            r.wf(),
            forall|k: Seq<char>| #[trigger] r.spec_get(k) is None,
    {
        SimpleCache::new()
    }
}

} // verus!
