//! TTL-expiring store for normalised site-icon bytes, keyed by icon identity.
//!
//! The store models the on-disk icon cache: each entry carries the encoded
//! image bytes and its creation time in seconds.  An entry older than
//! [`CACHE_TTL_SECS`] is treated as absent and purged on the next lookup.
//! The surrounding I/O layer loads entries from disk into this store and
//! writes mutations back.

use vstd::prelude::*;

verus! {

/// Number of seconds before a cache entry expires: one week.
pub const CACHE_TTL_SECS: u64 = 604800;

/// A single cached icon: the cache key (an icon identity), the encoded image
/// bytes, and the creation time in seconds.
#[derive(Debug, Clone)]
pub struct CacheEntry {
    /// Cache key: the identity of the website URL.
    pub key: String,
    /// Encoded (PNG) image bytes.
    pub bytes: Vec<u8>,
    /// Creation time, in seconds since an arbitrary epoch.
    pub created: u64,
}

/// Whether an entry created at `created` counts as expired at time `now`.
///
/// A creation time in the future fails open: the entry is treated as not
/// expired rather than failing the lookup.
pub open spec fn spec_expired(created: u64, now: u64) -> bool {
    created <= now && now - created >= CACHE_TTL_SECS
}

/// Disk-backed, TTL-expiring store for decoded icon bytes keyed by website
/// URL identity.
pub struct SiteIconCache {
    entries: Vec<CacheEntry>,
}

impl SiteIconCache {
    /// Well-formedness: cache keys are unique.
    pub closed spec fn wf(self) -> bool {
        forall|i: int, j: int|
            0 <= i < j < self.entries@.len() ==> self.entries@[i].key@ != self.entries@[j].key@
    }

    /// Whether the cache holds an entry under the given key.
    pub closed spec fn contains_key(self, k: Seq<char>) -> bool {
        exists|i: int| 0 <= i < self.entries@.len() && self.entries@[i].key@ == k
    }

    /// The entry under the given key (meaningful only when present).
    pub closed spec fn entry_at(self, k: Seq<char>) -> CacheEntry {
        self.entries@[choose|i: int| 0 <= i < self.entries@.len() && self.entries@[i].key@ == k]
    }

    /// The bytes stored under the given key.
    pub open spec fn entry_bytes(self, k: Seq<char>) -> Seq<u8> {
        self.entry_at(k).bytes@
    }

    /// The creation time of the entry under the given key.
    pub open spec fn entry_created(self, k: Seq<char>) -> u64 {
        self.entry_at(k).created
    }

    /// Creates an empty cache.
    pub fn new() -> (c: SiteIconCache)
        ensures
            c.wf(),
            forall|k: Seq<char>| !c.contains_key(k),
    {
        SiteIconCache { entries: Vec::new() }
    }

    /// Returns the index of the entry with the given key, if any.
    fn find(&self, key: &String) -> (r: Option<usize>)
        requires
            self.wf(),
        ensures
            r matches Some(i) ==> i < self.entries@.len() && self.entries@[i as int].key@ == key@,
            r is None ==> !self.contains_key(key@),
            r is Some <==> self.contains_key(key@),
    {
        let n = self.entries.len();
        for i in 0..n
            invariant
                n == self.entries@.len(),
                forall|j: int| 0 <= j < i ==> self.entries@[j].key@ != key@,
        {
            if self.entries[i].key == *key {
                return Some(i);
            }
        }
        None
    }

    /// Stores `bytes` under `key` with creation time `now`, replacing any
    /// previous entry under that key.  Entries under other keys are kept
    /// unchanged.
    pub fn insert(&mut self, key: &String, bytes: Vec<u8>, now: u64)
        requires
            old(self).wf(),
        ensures
            final(self).wf(),
            final(self).contains_key(key@),
            final(self).entry_bytes(key@) == bytes@,
            final(self).entry_created(key@) == now,
            forall|k: Seq<char>|
                k != key@ ==> #[trigger] final(self).contains_key(k) == old(self).contains_key(k),
            forall|k: Seq<char>|
                k != key@ && old(self).contains_key(k) ==> #[trigger] final(self).entry_at(k)
                    == old(self).entry_at(k),
    {
        let entry = CacheEntry { key: key.clone(), bytes, created: now };
        assert(entry.key@ == key@);
        let found = self.find(key);
        match found {
            Some(i) => {
                self.entries.set(i, entry);
                proof {
                    assert(forall|j: int|
                        0 <= j < self.entries@.len() ==> #[trigger] self.entries@[j].key@ == old(
                            self,
                        ).entries@[j].key@);
                    assert(self.wf());
                    lemma_unique_key_entry(self.entries@, key@, i as int);
                    assert forall|k: Seq<char>|
                        k != key@ implies #[trigger] self.contains_key(k) == old(
                        self,
                    ).contains_key(k) by {
                        lemma_other_keys_unchanged(old(self).entries@, self.entries@, i as int, k);
                    }
                    assert forall|k: Seq<char>|
                        k != key@ && old(self).contains_key(k) implies #[trigger] self.entry_at(k)
                        == old(self).entry_at(k) by {
                        lemma_other_keys_unchanged(old(self).entries@, self.entries@, i as int, k);
                    }
                }
            },
            None => {
                self.entries.push(entry);
                proof {
                    let n = old(self).entries@.len() as int;
                    assert(forall|j: int|
                        0 <= j < n ==> #[trigger] self.entries@[j] == old(self).entries@[j]);
                    assert(forall|j: int| 0 <= j < n ==> old(self).entries@[j].key@ != key@);
                    assert(self.entries@[n].key@ == key@);
                    assert(self.wf());
                    lemma_unique_key_entry(self.entries@, key@, n);
                    assert forall|k: Seq<char>|
                        k != key@ implies #[trigger] self.contains_key(k) == old(
                        self,
                    ).contains_key(k) by {
                        lemma_other_keys_unchanged(old(self).entries@, self.entries@, n, k);
                    }
                    assert forall|k: Seq<char>|
                        k != key@ && old(self).contains_key(k) implies #[trigger] self.entry_at(k)
                        == old(self).entry_at(k) by {
                        lemma_other_keys_unchanged(old(self).entries@, self.entries@, n, k);
                    }
                }
            },
        }
    }

    /// Looks up the entry under `key` at time `now`.
    ///
    /// A present, unexpired entry is returned unchanged and the cache is not
    /// modified.  A present but expired entry is removed and the lookup
    /// reports a miss.  An absent key reports a miss and leaves the cache
    /// unchanged.
    pub fn lookup(&mut self, key: &String, now: u64) -> (r: Option<Vec<u8>>)
        requires
            old(self).wf(),
        ensures
            final(self).wf(),
            old(self).contains_key(key@) && !spec_expired(old(self).entry_created(key@), now)
                ==> (r matches Some(b) && b@ == old(self).entry_bytes(key@) && *final(self) == *old(
                self,
            )),
            old(self).contains_key(key@) && spec_expired(old(self).entry_created(key@), now) ==> (
            r is None && !final(self).contains_key(key@)),
            !old(self).contains_key(key@) ==> r is None && *final(self) == *old(self),
            forall|k: Seq<char>|
                k != key@ ==> #[trigger] final(self).contains_key(k) == old(self).contains_key(k),
            forall|k: Seq<char>|
                k != key@ && old(self).contains_key(k) ==> #[trigger] final(self).entry_at(k)
                    == old(self).entry_at(k),
    {
        let found = self.find(key);
        match found {
            None => None,
            Some(i) => {
                proof {
                    lemma_unique_key_entry(self.entries@, key@, i as int);
                }
                let created = self.entries[i].created;
                let is_expired = created <= now && now - created >= CACHE_TTL_SECS;
                if is_expired {
                    self.entries.remove(i);
                    proof {
                        assert forall|k: Seq<char>|
                            k != key@ implies #[trigger] self.contains_key(k) == old(
                            self,
                        ).contains_key(k) by {
                            lemma_other_keys_removed(old(self).entries@, self.entries@, i as int, k);
                        }
                        assert forall|k: Seq<char>|
                            k != key@ && old(self).contains_key(k) implies #[trigger] self.entry_at(
                            k,
                        ) == old(self).entry_at(k) by {
                            lemma_other_keys_removed(old(self).entries@, self.entries@, i as int, k);
                        }
                        assert(!self.contains_key(key@)) by {
                            assert forall|j: int|
                                0 <= j < self.entries@.len() implies self.entries@[j].key@
                                != key@ by {
                                if j < i {
                                    assert(self.entries@[j] == old(self).entries@[j]);
                                } else {
                                    assert(self.entries@[j] == old(self).entries@[j + 1]);
                                }
                            }
                        }
                    }
                    None
                } else {
                    Some(self.entries[i].bytes.clone())
                }
            },
        }
    }
}

/// With unique keys, the entry chosen for key `k` is the one at the matching
/// index.
proof fn lemma_unique_key_entry(entries: Seq<CacheEntry>, k: Seq<char>, i: int)
    requires
        0 <= i < entries.len(),
        entries[i].key@ == k,
        forall|p: int, q: int| 0 <= p < q < entries.len() ==> entries[p].key@ != entries[q].key@,
    ensures
        entries[choose|j: int| 0 <= j < entries.len() && entries[j].key@ == k] == entries[i],
{
    let j = choose|j: int| 0 <= j < entries.len() && entries[j].key@ == k;
    assert(0 <= j < entries.len() && entries[j].key@ == k);
    if j != i {
        if j < i {
            assert(entries[j].key@ != entries[i].key@);
        } else {
            assert(entries[i].key@ != entries[j].key@);
        }
    }
}

/// Replacing the entry at index `i` leaves every other key's entry unchanged.
proof fn lemma_other_keys_unchanged(
    before: Seq<CacheEntry>,
    after: Seq<CacheEntry>,
    i: int,
    k: Seq<char>,
)
    requires
        0 <= i < after.len(),
        i <= before.len(),
        k != after[i].key@,
        i < before.len() ==> k != before[i].key@ && after.len() == before.len(),
        i == before.len() ==> after.len() == before.len() + 1,
        forall|j: int| 0 <= j < before.len() && j != i ==> after[j] == before[j],
        forall|p: int, q: int| 0 <= p < q < before.len() ==> before[p].key@ != before[q].key@,
        forall|p: int, q: int| 0 <= p < q < after.len() ==> after[p].key@ != after[q].key@,
    ensures
        (exists|j: int| 0 <= j < after.len() && after[j].key@ == k) == (exists|j: int|
            0 <= j < before.len() && before[j].key@ == k),
        (exists|j: int| 0 <= j < before.len() && before[j].key@ == k) ==> after[choose|j: int|
            0 <= j < after.len() && after[j].key@ == k] == before[choose|j: int|
            0 <= j < before.len() && before[j].key@ == k],
{
    if exists|j: int| 0 <= j < before.len() && before[j].key@ == k {
        let j = choose|j: int| 0 <= j < before.len() && before[j].key@ == k;
        assert(j != i);
        assert(after[j] == before[j]);
        lemma_unique_key_entry(after, k, j);
        lemma_unique_key_entry(before, k, j);
    }
    if exists|j: int| 0 <= j < after.len() && after[j].key@ == k {
        let j = choose|j: int| 0 <= j < after.len() && after[j].key@ == k;
        assert(j != i);
        assert(j < before.len());
        assert(before[j].key@ == k);
    }
}

/// Removing the entry at index `i` leaves every other key's entry unchanged.
proof fn lemma_other_keys_removed(
    before: Seq<CacheEntry>,
    after: Seq<CacheEntry>,
    i: int,
    k: Seq<char>,
)
    requires
        0 <= i < before.len(),
        k != before[i].key@,
        after =~= before.remove(i),
        forall|p: int, q: int| 0 <= p < q < before.len() ==> before[p].key@ != before[q].key@,
    ensures
        (exists|j: int| 0 <= j < after.len() && after[j].key@ == k) == (exists|j: int|
            0 <= j < before.len() && before[j].key@ == k),
        (exists|j: int| 0 <= j < before.len() && before[j].key@ == k) ==> after[choose|j: int|
            0 <= j < after.len() && after[j].key@ == k] == before[choose|j: int|
            0 <= j < before.len() && before[j].key@ == k],
{
    assert(forall|p: int, q: int| 0 <= p < q < after.len() ==> after[p].key@ != after[q].key@) by {
        assert forall|p: int, q: int| 0 <= p < q < after.len() implies after[p].key@
            != after[q].key@ by {
            let p0 = if p < i { p } else { p + 1 };
            let q0 = if q < i { q } else { q + 1 };
            assert(after[p] == before[p0]);
            assert(after[q] == before[q0]);
        }
    }
    if exists|j: int| 0 <= j < before.len() && before[j].key@ == k {
        let j = choose|j: int| 0 <= j < before.len() && before[j].key@ == k;
        assert(j != i);
        let j2 = if j < i { j } else { j - 1 };
        assert(after[j2] == before[j]);
        lemma_unique_key_entry(after, k, j2);
        lemma_unique_key_entry(before, k, j);
    }
    if exists|j: int| 0 <= j < after.len() && after[j].key@ == k {
        let j = choose|j: int| 0 <= j < after.len() && after[j].key@ == k;
        let j0 = if j < i { j } else { j + 1 };
        assert(before[j0].key@ == k);
    }
}

/// A cache entry written at time `t` is fresh for every lookup strictly
/// before `t + CACHE_TTL_SECS` and expired for every lookup at or after it.
pub proof fn lemma_cache_ttl(created: u64, now: u64)
    ensures
        now < created + CACHE_TTL_SECS ==> !spec_expired(created, now),
        created <= now && now >= created + CACHE_TTL_SECS ==> spec_expired(created, now),
{
}

} // verus!
