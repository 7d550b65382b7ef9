//! The metadata cache: a TTL cache of expensive introspection results,
//! keyed by backend instance and model.
//!
//! Time is handed in by the caller as milliseconds on a monotonic clock,
//! so hits and misses are functions of plain values: an entry answers a
//! `get` only while `now` is strictly before its absolute expiry.

use vstd::prelude::*;

use crate::json::{JVal, Json, jval_of};
use crate::strutil::str_eq;

verus! {

broadcast use {vstd::std_specs::vec::group_vec_axioms, vstd::seq::group_seq_axioms};

/// One cache entry: key, value, absolute expiry.
pub struct CacheEntry {
    pub instance: String,
    pub model: String,
    pub value: Json,
    pub expires_at: u64,
}

pub open spec fn entry_key(e: CacheEntry) -> (Seq<char>, Seq<char>) {
    (e.instance@, e.model@)
}

/// First entry with the given key.
pub open spec fn cache_lookup(es: Seq<CacheEntry>, key: (Seq<char>, Seq<char>)) -> Option<
    CacheEntry,
>
    decreases es.len(),
{
    if es.len() == 0 {
        None
    } else if entry_key(es[0]) == key {
        Some(es[0])
    } else {
        cache_lookup(es.drop_first(), key)
    }
}

/// The entries that survive a sweep at `now`.
pub open spec fn swept(es: Seq<CacheEntry>, now: u64) -> Seq<CacheEntry>
    decreases es,
{
    if es.len() == 0 {
        Seq::empty()
    } else {
        let p = swept(es.drop_last(), now);
        if now < es.last().expires_at {
            p.push(es.last())
        } else {
            p
        }
    }
}

/// The TTL cache of model metadata. The caller serialises access.
pub struct MetadataCache {
    entries: Vec<CacheEntry>,
}

pub open spec fn keys_unique(es: Seq<CacheEntry>) -> bool {
    forall|i: int, j: int|
        0 <= i < j < es.len() ==> entry_key(#[trigger] es[i]) != entry_key(#[trigger] es[j])
}

proof fn lemma_cache_lookup_skip(es: Seq<CacheEntry>, key: (Seq<char>, Seq<char>), i: int)
    requires
        0 <= i <= es.len(),
        forall|j: int| 0 <= j < i ==> entry_key(#[trigger] es[j]) != key,
    ensures
        cache_lookup(es, key) == cache_lookup(es.skip(i), key),
    decreases i,
{
    if i > 0 {
        lemma_cache_lookup_skip(es.drop_first(), key, i - 1);
        assert(es.drop_first().skip(i - 1) =~= es.skip(i));
    } else {
        assert(es.skip(0) =~= es);
    }
}

impl MetadataCache {
    pub closed spec fn view_entries(self) -> Seq<CacheEntry> {
        self.entries@
    }

    pub open spec fn wf(self) -> bool {
        keys_unique(self.view_entries())
    }

    /// An empty cache.
    pub fn new() -> (r: MetadataCache)
        ensures
            r.wf(),
            r.view_entries().len() == 0,
    {
        MetadataCache { entries: Vec::new() }
    }

    fn find_index(&self, instance: &str, model: &str) -> (r: Option<usize>)
        ensures
            match r {
                Some(i) => i < self.view_entries().len() && entry_key(self.view_entries()[i as int])
                    == (instance@, model@) && cache_lookup(self.view_entries(), (instance@, model@))
                    == Some(self.view_entries()[i as int]),
                None => cache_lookup(self.view_entries(), (instance@, model@)) is None,
            },
    {
        let n = self.entries.len();
        let mut i: usize = 0;
        while i < n
            invariant
                i <= n,
                n == self.entries@.len(),
                self.entries@ == self.view_entries(),
                forall|j: int|
                    0 <= j < i ==> entry_key(#[trigger] self.entries@[j]) != (instance@, model@),
            decreases n - i,
        {
            if str_eq(self.entries[i].instance.as_str(), instance) && str_eq(
                self.entries[i].model.as_str(),
                model,
            ) {
                proof {
                    lemma_cache_lookup_skip(self.entries@, (instance@, model@), i as int);
                    assert(self.entries@.skip(i as int)[0] == self.entries@[i as int]);
                }
                return Some(i);
            }
            i += 1;
        }
        proof {
            lemma_cache_lookup_skip(self.entries@, (instance@, model@), n as int);
            assert(self.entries@.skip(n as int) =~= Seq::<CacheEntry>::empty());
        }
        None
    }

    /// A cache hit: the key is present and `now` is before its expiry.
    pub fn get(&self, instance: &str, model: &str, now_ms: u64) -> (r: Option<Json>)
        ensures
            match r {
                Some(v) => cache_lookup(self.view_entries(), (instance@, model@)) matches Some(e)
                    && now_ms < e.expires_at && v@ == jval_of(e.value),
                None => match cache_lookup(self.view_entries(), (instance@, model@)) {
                    Some(e) => now_ms >= e.expires_at,
                    None => true,
                },
            },
    {
        match self.find_index(instance, model) {
            Some(i) => {
                if now_ms < self.entries[i].expires_at {
                    Some(self.entries[i].value.clone())
                } else {
                    None
                }
            },
            None => None,
        }
    }

    /// Stores a value with an absolute expiry of `now_ms + ttl_ms`,
    /// saturating; an entry already under the key is overwritten
    /// unconditionally.
    pub fn insert(&mut self, instance: &str, model: &str, value: Json, now_ms: u64, ttl_ms: u64)
        requires
            old(self).wf(),
        ensures
            final(self).wf(),
            cache_lookup(final(self).view_entries(), (instance@, model@)) matches Some(e)
                && jval_of(e.value) == jval_of(value) && e.expires_at == if now_ms + ttl_ms
                > u64::MAX {
                u64::MAX as int
            } else {
                now_ms + ttl_ms
            },
            forall|k: (Seq<char>, Seq<char>)|
                k != (instance@, model@) ==> #[trigger] cache_lookup(
                    final(self).view_entries(),
                    k,
                ) == cache_lookup(old(self).view_entries(), k),
    {
        let expires_at: u64 = if ttl_ms > u64::MAX - now_ms {
            u64::MAX
        } else {
            now_ms + ttl_ms
        };
        let entry = CacheEntry {
            instance: instance.to_owned(),
            model: model.to_owned(),
            value,
            expires_at,
        };
        match self.find_index(instance, model) {
            Some(i) => {
                let ghost prev = self.entries@;
                self.entries.set(i, entry);
                proof {
                    assert forall|a: int, b: int|
                        0 <= a < b < self.entries@.len() implies entry_key(
                        #[trigger] self.entries@[a],
                    ) != entry_key(#[trigger] self.entries@[b]) by {
                        assert(entry_key(prev[a]) != entry_key(prev[b]));
                        if a == i as int {
                            assert(entry_key(self.entries@[a]) == entry_key(prev[a]));
                        }
                        if b == i as int {
                            assert(entry_key(self.entries@[b]) == entry_key(prev[b]));
                        }
                    }
                    lemma_lookup_set(prev, self.entries@, i as int, (instance@, model@));
                }
            },
            None => {
                let ghost prev = self.entries@;
                self.entries.push(entry);
                proof {
                    lemma_lookup_push(prev, self.entries@, (instance@, model@));
                }
            },
        }
    }

    /// Drops every entry whose expiry is not after `now`.
    pub fn clear_expired(&mut self, now_ms: u64)
        requires
            old(self).wf(),
        ensures
            final(self).wf(),
            final(self).view_entries() == swept(old(self).view_entries(), now_ms),
    {
        let ghost orig = self.entries@;
        let mut i: usize = 0;
        let ghost mut k: int = 0;
        proof {
            assert(self.entries@ =~= swept(orig.take(0), now_ms) + orig.skip(0));
        }
        while i < self.entries.len()
            invariant
                0 <= k <= orig.len(),
                i == swept(orig.take(k), now_ms).len(),
                self.entries@ =~= swept(orig.take(k), now_ms) + orig.skip(k),
                i <= self.entries@.len(),
                orig == old(self).view_entries(),
            decreases orig.len() - k,
        {
            proof {
                assert(self.entries@.len() == i + orig.skip(k).len());
                assert(orig.skip(k).len() > 0);
                assert(self.entries@[i as int] == orig.skip(k)[0]);
                assert(orig.skip(k)[0] == orig[k]);
                assert(orig.take(k + 1).drop_last() =~= orig.take(k));
                assert(orig.take(k + 1).last() == orig[k]);
            }
            if now_ms < self.entries[i].expires_at {
                proof {
                    assert(swept(orig.take(k + 1), now_ms) == swept(orig.take(k), now_ms).push(
                        orig[k],
                    ));
                    assert(swept(orig.take(k), now_ms).push(orig[k]) + orig.skip(k + 1)
                        =~= swept(orig.take(k), now_ms) + orig.skip(k));
                }
                i += 1;
            } else {
                self.entries.remove(i);
                proof {
                    assert(swept(orig.take(k + 1), now_ms) == swept(orig.take(k), now_ms));
                    assert(self.entries@ =~= swept(orig.take(k), now_ms) + orig.skip(k + 1));
                }
            }
            proof {
                k = k + 1;
            }
        }
        proof {
            assert(self.entries@.len() == i + orig.skip(k).len());
            assert(orig.skip(k).len() == 0);
            assert(k == orig.len());
            assert(orig.take(k) =~= orig);
            assert(self.entries@ =~= swept(orig, now_ms));
            lemma_swept_unique(orig, now_ms);
        }
    }

    /// Drops everything.
    pub fn clear_all(&mut self)
        ensures
            final(self).wf(),
            final(self).view_entries().len() == 0,
    {
        self.entries = Vec::new();
    }

    /// How many entries are held, expired ones included.
    pub fn len(&self) -> (r: usize)
        ensures
            r == self.view_entries().len(),
    {
        self.entries.len()
    }

    pub fn is_empty(&self) -> (r: bool)
        ensures
            r == (self.view_entries().len() == 0),
    {
        self.entries.len() == 0
    }
}

proof fn lemma_lookup_set(
    prev: Seq<CacheEntry>,
    cur: Seq<CacheEntry>,
    i: int,
    key: (Seq<char>, Seq<char>),
)
    requires
        0 <= i < prev.len(),
        cur == prev.update(i, cur[i]),
        entry_key(prev[i]) == key,
        entry_key(cur[i]) == key,
        keys_unique(prev),
    ensures
        cache_lookup(cur, key) == Some(cur[i]),
        forall|k: (Seq<char>, Seq<char>)|
            k != key ==> #[trigger] cache_lookup(cur, k) == cache_lookup(prev, k),
    decreases prev.len(),
{
    if i == 0 {
        assert forall|k: (Seq<char>, Seq<char>)| k != key implies #[trigger] cache_lookup(cur, k)
            == cache_lookup(prev, k) by {
            assert(cur.drop_first() =~= prev.drop_first());
        }
    } else {
        assert(entry_key(cur[0]) == entry_key(prev[0]));
        assert(entry_key(prev[0]) != key);
        assert(cur.drop_first() =~= prev.drop_first().update(i - 1, cur[i]));
        assert(keys_unique(prev.drop_first())) by {
            assert forall|a: int, b: int|
                0 <= a < b < prev.drop_first().len() implies entry_key(
                #[trigger] prev.drop_first()[a],
            ) != entry_key(#[trigger] prev.drop_first()[b]) by {
                assert(prev.drop_first()[a] == prev[a + 1]);
                assert(prev.drop_first()[b] == prev[b + 1]);
            }
        }
        assert(cur.drop_first()[i - 1] == cur[i]);
        assert(prev.drop_first()[i - 1] == prev[i]);
        lemma_lookup_set(prev.drop_first(), cur.drop_first(), i - 1, key);
        assert(cache_lookup(cur, key) == cache_lookup(cur.drop_first(), key));
        assert forall|k: (Seq<char>, Seq<char>)| k != key implies #[trigger] cache_lookup(cur, k)
            == cache_lookup(prev, k) by {
            if entry_key(cur[0]) != k {
                assert(cache_lookup(cur, k) == cache_lookup(cur.drop_first(), k));
                assert(cache_lookup(prev, k) == cache_lookup(prev.drop_first(), k));
            }
        }
    }
}

proof fn lemma_lookup_push(prev: Seq<CacheEntry>, cur: Seq<CacheEntry>, key: (Seq<char>, Seq<char>))
    requires
        cur == prev.push(cur.last()),
        cur.len() == prev.len() + 1,
        entry_key(cur.last()) == key,
        cache_lookup(prev, key) is None,
        keys_unique(prev),
    ensures
        keys_unique(cur),
        cache_lookup(cur, key) == Some(cur.last()),
        forall|k: (Seq<char>, Seq<char>)|
            k != key ==> #[trigger] cache_lookup(cur, k) == cache_lookup(prev, k),
    decreases prev.len(),
{
    lemma_lookup_none_means_no_key(prev, key);
    assert(keys_unique(cur)) by {
        assert forall|a: int, b: int|
            0 <= a < b < cur.len() implies entry_key(#[trigger] cur[a]) != entry_key(
            #[trigger] cur[b],
        ) by {
            if b == cur.len() - 1 {
                assert(cur[a] == prev[a]);
                assert(entry_key(prev[a]) != key);
            } else {
                assert(cur[a] == prev[a]);
                assert(cur[b] == prev[b]);
            }
        }
    }
    if prev.len() == 0 {
        assert forall|k: (Seq<char>, Seq<char>)| k != key implies #[trigger] cache_lookup(cur, k)
            == cache_lookup(prev, k) by {
            assert(cur.drop_first() =~= Seq::<CacheEntry>::empty());
            assert(cache_lookup(cur, k) == cache_lookup(cur.drop_first(), k));
        }
    } else {
        assert(cur[0] == prev[0]);
        assert(entry_key(prev[0]) != key);
        assert(cur.drop_first() =~= prev.drop_first().push(cur.last()));
        assert(keys_unique(prev.drop_first())) by {
            assert forall|a: int, b: int|
                0 <= a < b < prev.drop_first().len() implies entry_key(
                #[trigger] prev.drop_first()[a],
            ) != entry_key(#[trigger] prev.drop_first()[b]) by {
                assert(prev.drop_first()[a] == prev[a + 1]);
                assert(prev.drop_first()[b] == prev[b + 1]);
            }
        }
        lemma_lookup_push(prev.drop_first(), cur.drop_first(), key);
        assert forall|k: (Seq<char>, Seq<char>)| k != key implies #[trigger] cache_lookup(cur, k)
            == cache_lookup(prev, k) by {
            if entry_key(cur[0]) != k {
                assert(cache_lookup(cur, k) == cache_lookup(cur.drop_first(), k));
                assert(cache_lookup(prev, k) == cache_lookup(prev.drop_first(), k));
            }
        }
    }
}

proof fn lemma_lookup_none_means_no_key(es: Seq<CacheEntry>, key: (Seq<char>, Seq<char>))
    requires
        cache_lookup(es, key) is None,
    ensures
        forall|j: int| 0 <= j < es.len() ==> entry_key(#[trigger] es[j]) != key,
    decreases es.len(),
{
    if es.len() > 0 {
        lemma_lookup_none_means_no_key(es.drop_first(), key);
        assert forall|j: int| 0 <= j < es.len() implies entry_key(#[trigger] es[j]) != key by {
            if j > 0 {
                assert(es.drop_first()[j - 1] == es[j]);
            }
        }
    }
}

proof fn lemma_swept_unique(es: Seq<CacheEntry>, now: u64)
    requires
        keys_unique(es),
    ensures
        keys_unique(swept(es, now)),
    decreases es.len(),
{
    if es.len() > 0 {
        assert(keys_unique(es.drop_last())) by {
            assert forall|a: int, b: int|
                0 <= a < b < es.drop_last().len() implies entry_key(#[trigger] es.drop_last()[a])
                != entry_key(#[trigger] es.drop_last()[b]) by {
                assert(es.drop_last()[a] == es[a]);
                assert(es.drop_last()[b] == es[b]);
            }
        }
        lemma_swept_unique(es.drop_last(), now);
        if now < es.last().expires_at {
            lemma_swept_member(es.drop_last(), now);
            assert forall|a: int, b: int|
                0 <= a < b < swept(es, now).len() implies entry_key(#[trigger] swept(es, now)[a])
                != entry_key(#[trigger] swept(es, now)[b]) by {
                let p = swept(es.drop_last(), now);
                if b == swept(es, now).len() - 1 {
                    assert(swept(es, now)[a] == p[a]);
                    let w = choose|w: int|
                        0 <= w < es.drop_last().len() && p[a] == es.drop_last()[w];
                    assert(es[w] == es.drop_last()[w]);
                    assert(entry_key(es[w]) != entry_key(es[es.len() - 1]));
                } else {
                    assert(swept(es, now)[a] == p[a]);
                    assert(swept(es, now)[b] == p[b]);
                }
            }
        }
    }
}

proof fn lemma_swept_member(es: Seq<CacheEntry>, now: u64)
    ensures
        forall|a: int|
            0 <= a < swept(es, now).len() ==> exists|w: int|
                0 <= w < es.len() && #[trigger] swept(es, now)[a] == es[w],
    decreases es.len(),
{
    if es.len() > 0 {
        lemma_swept_member(es.drop_last(), now);
        assert forall|a: int| 0 <= a < swept(es, now).len() implies exists|w: int|
            0 <= w < es.len() && #[trigger] swept(es, now)[a] == es[w] by {
            let p = swept(es.drop_last(), now);
            if now < es.last().expires_at && a == swept(es, now).len() - 1 {
                assert(swept(es, now)[a] == es[es.len() - 1]);
            } else {
                assert(swept(es, now)[a] == p[a]);
                let w = choose|w: int| 0 <= w < es.drop_last().len() && p[a] == es.drop_last()[w];
                assert(es.drop_last()[w] == es[w]);
            }
        }
    }
}

} // verus!
