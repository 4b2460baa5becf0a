//! The response cache: working-language answers keyed by the working-language
//! query, each with an expiry time; a later write to a key replaces the earlier.
use vstd::prelude::*;
use crate::text::str_eq;

verus! {

/// How long a cached answer stays valid, in seconds.
pub const CACHE_TTL_SECS: u64 = 3600;

/// One cached answer.
pub struct CacheEntry {
    pub key: String,
    pub value: String,
    pub expires_at: u64,
}

/// The answers of `es` by key, with their expiry times; a later entry for a key
/// stands over an earlier one.
pub open spec fn entries_map(es: Seq<CacheEntry>) -> Map<Seq<char>, (Seq<char>, u64)>
    decreases es.len(),
{
    if es.len() == 0 {
        Map::empty()
    } else {
        entries_map(es.drop_last()).insert(
            es.last().key@,
            (es.last().value@, es.last().expires_at),
        )
    }
}

/// No two entries share a key.
pub open spec fn keys_unique(es: Seq<CacheEntry>) -> bool {
    forall|i: int, j: int|
        0 <= i < j < es.len() ==> #[trigger] es[i].key@ != #[trigger] es[j].key@
}

/// The time at which an answer written at `now` expires.
pub open spec fn expiry(now: u64) -> u64 {
    if now > u64::MAX - CACHE_TTL_SECS {
        u64::MAX
    } else {
        (now + CACHE_TTL_SECS) as u64
    }
}

/// What a lookup of `key` at time `now` returns from the cache contents `m`.
pub open spec fn cached_at(m: Map<Seq<char>, (Seq<char>, u64)>, key: Seq<char>, now: u64) -> Option<
    Seq<char>,
> {
    if m.contains_key(key) && now < m[key].1 {
        Some(m[key].0)
    } else {
        None
    }
}

proof fn lemma_entries_map_index(es: Seq<CacheEntry>, i: int)
    requires
        keys_unique(es),
        0 <= i < es.len(),
    ensures
        entries_map(es).contains_key(es[i].key@),
        entries_map(es)[es[i].key@] == (es[i].value@, es[i].expires_at),
    decreases es.len(),
{
    if i < es.len() - 1 {
        let d = es.drop_last();
        assert(keys_unique(d)) by {
            assert forall|a: int, b: int| 0 <= a < b < d.len() implies #[trigger] d[a].key@
                != #[trigger] d[b].key@ by {
                assert(d[a] == es[a] && d[b] == es[b]);
            }
        }
        assert(d[i] == es[i]);
        lemma_entries_map_index(d, i);
        assert(es[i].key@ != es[es.len() - 1].key@);
    }
}

proof fn lemma_entries_map_absent(es: Seq<CacheEntry>, k: Seq<char>)
    requires
        forall|i: int| 0 <= i < es.len() ==> (#[trigger] es[i]).key@ != k,
    ensures
        !entries_map(es).contains_key(k),
    decreases es.len(),
{
    if es.len() > 0 {
        let d = es.drop_last();
        assert forall|i: int| 0 <= i < d.len() implies (#[trigger] d[i]).key@ != k by {
            assert(d[i] == es[i]);
        }
        lemma_entries_map_absent(d, k);
        assert(es.last() == es[es.len() - 1]);
    }
}

proof fn lemma_entries_map_update(es: Seq<CacheEntry>, i: int, e: CacheEntry)
    requires
        keys_unique(es),
        0 <= i < es.len(),
        e.key@ == es[i].key@,
    ensures
        entries_map(es.update(i, e)) == entries_map(es).insert(e.key@, (e.value@, e.expires_at)),
    decreases es.len(),
{
    let u = es.update(i, e);
    if i == es.len() - 1 {
        assert(u.drop_last() =~= es.drop_last());
        if es.len() > 1 {
            let d = es.drop_last();
            assert(entries_map(es) == entries_map(d).insert(es.last().key@, (es.last().value@, es.last().expires_at)));
        }
        assert(entries_map(u) =~= entries_map(es).insert(e.key@, (e.value@, e.expires_at)));
    } else {
        let d = es.drop_last();
        assert(keys_unique(d)) by {
            assert forall|a: int, b: int| 0 <= a < b < d.len() implies #[trigger] d[a].key@
                != #[trigger] d[b].key@ by {
                assert(d[a] == es[a] && d[b] == es[b]);
            }
        }
        assert(u.drop_last() =~= d.update(i, e));
        assert(d[i] == es[i]);
        lemma_entries_map_update(d, i, e);
        assert(u.last() == es.last());
        assert(es[i].key@ != es[es.len() - 1].key@);
        assert(entries_map(u) =~= entries_map(es).insert(e.key@, (e.value@, e.expires_at)));
    }
}

proof fn lemma_unique_drop_last(es: Seq<CacheEntry>)
    requires
        keys_unique(es),
        es.len() > 0,
    ensures
        keys_unique(es.drop_last()),
        forall|i: int| 0 <= i < es.len() - 1 ==> (#[trigger] es.drop_last()[i]).key@ != es.last().key@,
{
    let d = es.drop_last();
    assert forall|a: int, b: int| 0 <= a < b < d.len() implies #[trigger] d[a].key@
        != #[trigger] d[b].key@ by {
        assert(d[a] == es[a] && d[b] == es[b]);
    }
    assert forall|i: int| 0 <= i < es.len() - 1 implies (#[trigger] es.drop_last()[i]).key@
        != es.last().key@ by {
        assert(es.drop_last()[i] == es[i]);
    }
}

proof fn lemma_entries_map_len(es: Seq<CacheEntry>)
    requires
        keys_unique(es),
    ensures
        entries_map(es).dom().finite(),
        entries_map(es).dom().len() == es.len(),
    decreases es.len(),
{
    if es.len() > 0 {
        let d = es.drop_last();
        lemma_unique_drop_last(es);
        lemma_entries_map_len(d);
        lemma_entries_map_absent(d, es.last().key@);
        assert(entries_map(es).dom() =~= entries_map(d).dom().insert(es.last().key@));
    }
}

proof fn lemma_entries_map_has_index(es: Seq<CacheEntry>, k: Seq<char>) -> (j: int)
    requires
        entries_map(es).contains_key(k),
    ensures
        0 <= j < es.len(),
        es[j].key@ == k,
{
    if forall|i: int| 0 <= i < es.len() ==> (#[trigger] es[i]).key@ != k {
        lemma_entries_map_absent(es, k);
    }
    choose|i: int| 0 <= i < es.len() && (#[trigger] es[i]).key@ == k
}

/// `e` is a live entry of `es` at or after position `lo`.
pub open spec fn live_entry_from(e: CacheEntry, es: Seq<CacheEntry>, lo: int, now: u64) -> bool {
    exists|j: int| lo <= j < es.len() && e == #[trigger] es[j] && now < es[j].expires_at
}

/// `e` is an entry of `ks`.
pub open spec fn held(ks: Seq<CacheEntry>, e: CacheEntry) -> bool {
    exists|a: int| 0 <= a < ks.len() && #[trigger] ks[a] == e
}

proof fn lemma_kept_live(es: Seq<CacheEntry>, ks: Seq<CacheEntry>, now: u64)
    requires
        keys_unique(es),
        keys_unique(ks),
        forall|a: int| 0 <= a < ks.len() ==> live_entry_from(#[trigger] ks[a], es, 0, now),
        forall|j: int| 0 <= j < es.len() && now < es[j].expires_at ==> held(ks, #[trigger] es[j]),
    ensures
        forall|k: Seq<char>|
            #[trigger] entries_map(ks).contains_key(k) == (entries_map(es).contains_key(k) && now
                < entries_map(es)[k].1),
        forall|k: Seq<char>|
            #[trigger] entries_map(ks).contains_key(k) ==> entries_map(ks)[k] == entries_map(es)[k],
{
    assert forall|k: Seq<char>| #[trigger] entries_map(ks).contains_key(k) == (entries_map(
        es,
    ).contains_key(k) && now < entries_map(es)[k].1) by {
        if entries_map(ks).contains_key(k) {
            let a = lemma_entries_map_has_index(ks, k);
            assert(live_entry_from(ks[a], es, 0, now));
            let j = choose|j: int| 0 <= j < es.len() && ks[a] == #[trigger] es[j] && now < es[j].expires_at;
            lemma_entries_map_index(es, j);
        }
        if entries_map(es).contains_key(k) && now < entries_map(es)[k].1 {
            let j = lemma_entries_map_has_index(es, k);
            lemma_entries_map_index(es, j);
            assert(held(ks, es[j]));
            let a = choose|a: int| 0 <= a < ks.len() && #[trigger] ks[a] == es[j];
            lemma_entries_map_index(ks, a);
        }
    }
    assert forall|k: Seq<char>| #[trigger] entries_map(ks).contains_key(k) implies entries_map(
        ks,
    )[k] == entries_map(es)[k] by {
        let a = lemma_entries_map_has_index(ks, k);
        lemma_entries_map_index(ks, a);
        assert(live_entry_from(ks[a], es, 0, now));
        let j = choose|j: int| 0 <= j < es.len() && ks[a] == #[trigger] es[j] && now < es[j].expires_at;
        lemma_entries_map_index(es, j);
    }
}

/// The cache of working-language answers.
pub struct ResponseCache {
    entries: Vec<CacheEntry>,
}

impl View for ResponseCache {
    type V = Map<Seq<char>, (Seq<char>, u64)>;

    closed spec fn view(&self) -> Map<Seq<char>, (Seq<char>, u64)> {
        entries_map(self.entries@)
    }
}

impl ResponseCache {
    /// Every key is held once.
    pub closed spec fn wf(&self) -> bool {
        keys_unique(self.entries@)
    }

    /// An empty cache.
    pub fn new() -> (r: Self)
        ensures
            r.wf(),
            r@ == Map::<Seq<char>, (Seq<char>, u64)>::empty(),
    {
        ResponseCache { entries: Vec::new() }
    }

    fn position(&self, key: &str) -> (r: Option<usize>)
        requires
            self.wf(),
        ensures
            match r {
                Some(i) => i < self.entries@.len() && self.entries@[i as int].key@ == key@,
                None => forall|i: int|
                    0 <= i < self.entries@.len() ==> (#[trigger] self.entries@[i]).key@ != key@,
            },
    {
        let mut i: usize = 0;
        while i < self.entries.len()
            invariant
                i <= self.entries@.len(),
                forall|j: int| 0 <= j < i ==> (#[trigger] self.entries@[j]).key@ != key@,
            decreases self.entries@.len() - i,
        {
            if str_eq(self.entries[i].key.as_str(), key) {
                return Some(i);
            }
            i += 1;
        }
        None
    }

    /// The answer cached for `key` that has not expired at time `now`.
    pub fn get(&self, key: &str, now: u64) -> (r: Option<String>)
        requires
            self.wf(),
        ensures
            match r {
                Some(v) => cached_at(self@, key@, now) == Some(v@),
                None => cached_at(self@, key@, now) is None,
            },
    {
        match self.position(key) {
            Some(i) => {
                proof {
                    lemma_entries_map_index(self.entries@, i as int);
                }
                if now < self.entries[i].expires_at {
                    Some(self.entries[i].value.clone())
                } else {
                    None
                }
            },
            None => {
                proof {
                    lemma_entries_map_absent(self.entries@, key@);
                }
                None
            },
        }
    }

    /// Caches `value` for `key` at time `now`, for the cache's time to live.
    pub fn put(&mut self, key: &str, value: &str, now: u64)
        requires
            old(self).wf(),
        ensures
            final(self).wf(),
            final(self)@ == old(self)@.insert(key@, (value@, expiry(now))),
    {
        let expires_at: u64 = if now > u64::MAX - CACHE_TTL_SECS {
            u64::MAX
        } else {
            now + CACHE_TTL_SECS
        };
        let e = CacheEntry { key: key.to_string(), value: value.to_string(), expires_at };
        match self.position(key) {
            Some(i) => {
                proof {
                    lemma_entries_map_update(self.entries@, i as int, e);
                }
                self.entries.set(i, e);
                assert(keys_unique(self.entries@)) by {
                    assert forall|a: int, b: int|
                        0 <= a < b < self.entries@.len() implies #[trigger] self.entries@[a].key@
                        != #[trigger] self.entries@[b].key@ by {
                        assert(old(self).entries@[a].key@ == self.entries@[a].key@);
                        assert(old(self).entries@[b].key@ == self.entries@[b].key@);
                    }
                }
            },
            None => {
                let ghost before = self.entries@;
                self.entries.push(e);
                assert(self.entries@.drop_last() =~= before);
                assert(keys_unique(self.entries@)) by {
                    assert forall|a: int, b: int|
                        0 <= a < b < self.entries@.len() implies #[trigger] self.entries@[a].key@
                        != #[trigger] self.entries@[b].key@ by {
                        if b == self.entries@.len() - 1 {
                            assert(before[a] == self.entries@[a]);
                        } else {
                            assert(before[a] == self.entries@[a] && before[b] == self.entries@[b]);
                        }
                    }
                }
            },
        }
    }
}

impl ResponseCache {
    /// Removes every answer that has expired at time `now`, keeps the others as
    /// they are, and returns how many were removed.
    pub fn cleanup_expired(&mut self, now: u64) -> (r: usize)
        requires
            old(self).wf(),
        ensures
            final(self).wf(),
            forall|k: Seq<char>|
                #[trigger] final(self)@.contains_key(k) == (old(self)@.contains_key(k) && now
                    < old(self)@[k].1),
            forall|k: Seq<char>|
                #[trigger] final(self)@.contains_key(k) ==> final(self)@[k] == old(self)@[k],
            old(self)@.dom().finite(),
            final(self)@.dom().finite(),
            r == old(self)@.dom().len() - final(self)@.dom().len(),
    {
        let ghost es = self.entries@;
        let n = self.entries.len();
        let mut kept: Vec<CacheEntry> = Vec::new();
        let mut removed: usize = 0;
        while self.entries.len() > 0
            invariant
                n == es.len(),
                keys_unique(es),
                self.entries@.len() <= n,
                self.entries@ == es.subrange(0, self.entries@.len() as int),
                keys_unique(kept@),
                forall|a: int|
                    0 <= a < kept@.len() ==> live_entry_from(
                        #[trigger] kept@[a],
                        es,
                        self.entries@.len() as int,
                        now,
                    ),
                forall|j: int|
                    self.entries@.len() <= j < n && now < es[j].expires_at ==> held(
                        kept@,
                        #[trigger] es[j],
                    ),
                removed + kept@.len() == n - self.entries@.len(),
            decreases self.entries@.len(),
        {
            let ghost m = self.entries@.len() as int;
            let ghost before = kept@;
            let e = self.entries.pop().unwrap();
            assert(e == es[m - 1]);
            assert(self.entries@ =~= es.subrange(0, m - 1));
            if now < e.expires_at {
                kept.push(e);
                assert(keys_unique(kept@)) by {
                    assert forall|a: int, b: int| 0 <= a < b < kept@.len() implies #[trigger] kept@[a].key@
                        != #[trigger] kept@[b].key@ by {
                        assert(kept@[a] == before[a]);
                        if b == kept@.len() - 1 {
                            assert(live_entry_from(before[a], es, m, now));
                            let j = choose|j: int|
                                m <= j < n && before[a] == #[trigger] es[j] && now < es[j].expires_at;
                            assert(es[j].key@ != es[m - 1].key@);
                        } else {
                            assert(kept@[b] == before[b]);
                        }
                    }
                }
                assert(held(kept@, es[m - 1])) by {
                    assert(kept@[kept@.len() - 1] == es[m - 1]);
                }
            } else {
                removed = removed + 1;
            }
            assert forall|a: int| 0 <= a < kept@.len() implies live_entry_from(
                #[trigger] kept@[a],
                es,
                m - 1,
                now,
            ) by {
                if a < before.len() {
                    assert(kept@[a] == before[a]);
                    assert(live_entry_from(before[a], es, m, now));
                    let j = choose|j: int|
                        m <= j < n && before[a] == #[trigger] es[j] && now < es[j].expires_at;
                    assert(m - 1 <= j);
                } else {
                    assert(kept@[a] == es[m - 1]);
                }
            }
            assert forall|j: int| m - 1 <= j < n && now < es[j].expires_at implies held(
                kept@,
                #[trigger] es[j],
            ) by {
                if j >= m {
                    assert(held(before, es[j]));
                    let a = choose|a: int| 0 <= a < before.len() && #[trigger] before[a] == es[j];
                    assert(kept@[a] == before[a]);
                }
            }
        }
        self.entries = kept;
        proof {
            lemma_entries_map_len(es);
            lemma_entries_map_len(self.entries@);
            lemma_kept_live(es, self.entries@, now);
        }
        removed
    }
}

/// A cached answer is found again, unchanged, until it expires: after `put` of
/// `value` under `key` at time `now`, a lookup of `key` at any time `t` from
/// `now` until the expiry returns `value`, whatever the cache held before.
pub proof fn lemma_cache_round_trip(
    m: Map<Seq<char>, (Seq<char>, u64)>,
    key: Seq<char>,
    value: Seq<char>,
    now: u64,
    t: u64,
)
    requires
        now <= t < expiry(now),
    ensures
        cached_at(m.insert(key, (value, expiry(now))), key, t) == Some(value),
{
}

} // verus!
