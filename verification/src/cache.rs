//! The cache of audits, one entry per session, each with its own lifetime.
//!
//! An entry is stale once its lifetime has passed since it was stored. A
//! stale entry counts as absent: a lookup removes it and finds nothing.

use vstd::prelude::*;
use dashmap::DashMap;
use crate::clock;
use crate::clock::elapsed_between;
use crate::clock::Clock;
use crate::session::SessionKey;
use crate::types::audit_view;
use crate::types::AuditView;
use crate::types::DegreeAudit;

verus! {

/// Lifetime of an entry where none is given: five minutes.
pub const DEFAULT_TTL: u128 = 300_000_000_000;

/// An audit in the cache.
pub struct CachedAudit {
    result: DegreeAudit,
    cached_at: u128,
    ttl: u128,
}

/// A cache entry as a value.
pub struct EntryView {
    /// The audit.
    pub result: AuditView,
    /// When it was stored.
    pub cached_at: nat,
    /// For how long it is good.
    pub ttl: nat,
}

impl EntryView {
    /// The entry is still good at `now`: less than its lifetime has passed
    /// since it was stored.
    pub open spec fn live_at(self, now: nat) -> bool {
        elapsed_between(self.cached_at, now) < self.ttl
    }
}

impl View for CachedAudit {
    type V = EntryView;

    closed spec fn view(&self) -> EntryView {
        EntryView {
            result: self.result@,
            cached_at: self.cached_at as nat,
            ttl: self.ttl as nat,
        }
    }
}

impl CachedAudit {
    /// Whether the entry is still good at `now`.
    pub fn is_live_at(&self, now: u128) -> (r: bool)
        ensures
            r == self@.live_at(now as nat),
    {
        clock::elapsed(self.cached_at, now) < self.ttl
    }

    /// A copy with the same contents.
    pub fn duplicate(&self) -> (r: CachedAudit)
        ensures
            r@ == self@,
    {
        CachedAudit { result: self.result.duplicate(), cached_at: self.cached_at, ttl: self.ttl }
    }
}

/// The entries of a cache, by key text.
pub type Entries = Map<Seq<char>, EntryView>;

/// No entries.
pub open spec fn no_entries() -> Entries {
    Map::empty()
}

/// The key is present with an entry that is still good at `now`.
pub open spec fn is_fresh(entries: Entries, key: Seq<char>, now: nat) -> bool {
    entries.dom().contains(key) && entries[key].live_at(now)
}

/// The key is present with an entry that is stale at `now`.
pub open spec fn is_stale(entries: Entries, key: Seq<char>, now: nat) -> bool {
    entries.dom().contains(key) && !entries[key].live_at(now)
}

/// What a lookup of `key` at `now` finds.
pub open spec fn found(entries: Entries, key: Seq<char>, now: nat) -> Option<AuditView> {
    if is_fresh(entries, key, now) {
        Some(entries[key].result)
    } else {
        None
    }
}

/// The entries after a lookup of `key` at `now`: a stale entry is gone.
pub open spec fn after_lookup(entries: Entries, key: Seq<char>, now: nat) -> Entries {
    if is_stale(entries, key, now) {
        entries.remove(key)
    } else {
        entries
    }
}

/// The entries with `audit` stored under `key` at `now`, good for `ttl`.
pub open spec fn stored(
    entries: Entries,
    key: Seq<char>,
    audit: AuditView,
    ttl: nat,
    now: nat,
) -> Entries {
    entries.insert(key, EntryView { result: audit, cached_at: now, ttl })
}

/// The keys whose entries are stale at `now`.
pub open spec fn stale_keys(entries: Entries, now: nat) -> Set<Seq<char>> {
    entries.dom().filter(|key: Seq<char>| is_stale(entries, key, now))
}

/// The keys whose entries are still good at `now`.
pub open spec fn fresh_keys(entries: Entries, now: nat) -> Set<Seq<char>> {
    entries.dom().filter(|key: Seq<char>| is_fresh(entries, key, now))
}

/// The entries that are still good at `now`.
pub open spec fn fresh_part(entries: Entries, now: nat) -> Entries {
    entries.restrict(fresh_keys(entries, now))
}

/// What a `DashMap` of cache entries holds.
pub uninterp spec fn cache_entries(m: DashMap<String, CachedAudit>) -> Entries;

/// What one item of a listing says of the entries: the key is present and
/// the two times are those of its entry.
pub open spec fn stamp_matches(stamp: (String, u128, u128), entries: Entries) -> bool {
    &&& entries.dom().contains(stamp.0@)
    &&& entries[stamp.0@].cached_at == stamp.1
    &&& entries[stamp.0@].ttl == stamp.2
}

/// The key texts of a listing.
pub open spec fn stamp_keys(stamps: Seq<(String, u128, u128)>) -> Seq<Seq<char>> {
    stamps.map_values(|stamp: (String, u128, u128)| stamp.0@)
}

/// A listing names every entry once, each with its two times.
pub open spec fn lists_entries(stamps: Seq<(String, u128, u128)>, entries: Entries) -> bool {
    &&& forall|i: int| 0 <= i < stamps.len() ==> stamp_matches(#[trigger] stamps[i], entries)
    &&& stamp_keys(stamps).no_duplicates()
    &&& stamp_keys(stamps).to_set() == entries.dom()
}

/// The concurrent map of the dashmap crate. What a map holds is known by
/// name only.
#[verifier::external_type_specification]
#[verifier::external_body]
#[verifier::reject_recursive_types(K)]
#[verifier::reject_recursive_types(V)]
#[verifier::reject_recursive_types(S)]
pub struct ExDashMap<K, V, S>(DashMap<K, V, S>);

/// Calls `DashMap::new`: a map that holds nothing.
#[verifier::external_body]
fn entries_new() -> (m: DashMap<String, CachedAudit>)
    ensures
        cache_entries(m) == no_entries(),
{
    DashMap::new()
}

/// Calls `DashMap::insert`: the entry stands under the key afterwards, in
/// place of what stood there; the other keys keep their entries.
#[verifier::external_body]
fn entries_insert(m: &mut DashMap<String, CachedAudit>, key: String, entry: CachedAudit)
    ensures
        cache_entries(*final(m)) == cache_entries(*old(m)).insert(key@, entry@),
    no_unwind
{
    m.insert(key, entry);
}

/// Calls `DashMap::get` and copies the entry found: the entry under the key,
/// if the key is present.
#[verifier::external_body]
fn entries_get(m: &DashMap<String, CachedAudit>, key: &str) -> (r: Option<CachedAudit>)
    ensures
        r is Some <==> cache_entries(*m).dom().contains(key@),
        r matches Some(entry) ==> entry@ == cache_entries(*m)[key@],
{
    m.get(key).map(|entry| entry.duplicate())
}

/// Calls `DashMap::remove`: the key is absent afterwards; the other keys
/// keep their entries.
#[verifier::external_body]
fn entries_remove(m: &mut DashMap<String, CachedAudit>, key: &str)
    ensures
        cache_entries(*final(m)) == cache_entries(*old(m)).remove(key@),
    no_unwind
{
    m.remove(key);
}

/// Calls `DashMap::clear`: the map holds nothing afterwards.
#[verifier::external_body]
fn entries_clear(m: &mut DashMap<String, CachedAudit>)
    ensures
        cache_entries(*final(m)) == no_entries(),
    no_unwind
{
    m.clear();
}

/// Calls `DashMap::len`: the number of entries.
#[verifier::external_body]
fn entries_len(m: &DashMap<String, CachedAudit>) -> (n: usize)
    ensures
        n == cache_entries(*m).dom().len(),
{
    m.len()
}

/// Calls `DashMap::retain` with the test for a good entry: the entries that
/// are still good at `now` stay, the others are dropped.
#[verifier::external_body]
fn entries_retain_fresh(m: &mut DashMap<String, CachedAudit>, now: u128)
    ensures
        cache_entries(*final(m)) == fresh_part(cache_entries(*old(m)), now as nat),
    no_unwind
{
    m.retain(|_, entry| entry.is_live_at(now));
}

/// Walks the map with `DashMap::iter` and lists each key with the two times
/// of its entry. Every entry is listed once; the order is not fixed.
#[verifier::external_body]
fn entries_stamps(m: &DashMap<String, CachedAudit>) -> (stamps: Vec<(String, u128, u128)>)
    ensures
        lists_entries(stamps@, cache_entries(*m)),
{
    m.iter().map(|entry| (entry.key().clone(), entry.cached_at, entry.ttl)).collect()
}

/// Counts of a cache at one moment.
#[derive(Debug, Clone, Copy, PartialEq, Eq, Structural)]
pub struct CacheStats {
    /// Entries held, stale ones included.
    pub total_entries: usize,
    /// Entries that are stale.
    pub expired_entries: usize,
    /// Entries that are still good.
    pub active_entries: usize,
}

/// The state of a cache.
pub struct CacheState {
    /// The entries.
    pub entries: Entries,
    /// The lifetime of entries stored without one.
    pub default_ttl: nat,
}

/// Cache of audits by session.
pub struct AuditCache {
    entries: DashMap<String, CachedAudit>,
    default_ttl: u128,
    clock: Clock,
}

impl View for AuditCache {
    type V = CacheState;

    closed spec fn view(&self) -> CacheState {
        CacheState { entries: cache_entries(self.entries), default_ttl: self.default_ttl as nat }
    }
}

/// The stale keys among the first keys of a listing, counted.
pub open spec fn stale_count(keys: Seq<Seq<char>>, entries: Entries, now: nat) -> nat
    decreases keys.len(),
{
    if keys.len() == 0 {
        0
    } else {
        stale_count(keys.drop_last(), entries, now) + if is_stale(entries, keys.last(), now) {
            1nat
        } else {
            0nat
        }
    }
}

/// Counting the stale keys of a listing without repetitions gives the size
/// of the set of stale keys among those listed.
proof fn stale_count_is_set_size(keys: Seq<Seq<char>>, entries: Entries, now: nat)
    requires
        keys.no_duplicates(),
    ensures
        keys.to_set().finite(),
        stale_count(keys, entries, now) == keys.to_set().filter(
            |key: Seq<char>| is_stale(entries, key, now),
        ).len(),
        stale_count(keys, entries, now) <= keys.len(),
    decreases keys.len(),
{
    let stale = |key: Seq<char>| is_stale(entries, key, now);
    vstd::seq_lib::seq_to_set_is_finite(keys);
    if keys.len() == 0 {
        assert(keys.to_set().filter(stale) =~= Set::<Seq<char>>::empty());
    } else {
        let init = keys.drop_last();
        let last = keys.last();
        stale_count_is_set_size(init, entries, now);
        assert(keys.to_set() =~= init.to_set().insert(last)) by {
            assert forall|k: Seq<char>| keys.to_set().contains(k) implies init.to_set().insert(
                last,
            ).contains(k) by {
                let i = choose|i: int| 0 <= i < keys.len() && keys[i] == k;
                if i < keys.len() - 1 {
                    assert(init[i] == k);
                }
            }
            assert forall|k: Seq<char>| init.to_set().insert(last).contains(
                k,
            ) implies keys.to_set().contains(k) by {
                if k == last {
                    assert(keys[keys.len() - 1] == k);
                } else {
                    let i = choose|i: int| 0 <= i < init.len() && init[i] == k;
                    assert(keys[i] == k);
                }
            }
        }
        assert(!init.to_set().contains(last)) by {
            if init.to_set().contains(last) {
                let i = choose|i: int| 0 <= i < init.len() && init[i] == last;
                assert(keys[i] == keys[keys.len() - 1]);
            }
        }
        init.to_set().lemma_len_filter(stale);
        if stale(last) {
            assert(keys.to_set().filter(stale) =~= init.to_set().filter(stale).insert(last));
        } else {
            assert(keys.to_set().filter(stale) =~= init.to_set().filter(stale));
        }
    }
}

impl AuditCache {
    /// A cache holds finitely many entries.
    #[verifier::type_invariant]
    spec fn holds_finitely_many(self) -> bool {
        cache_entries(self.entries).dom().finite()
    }

    /// An empty cache whose entries are good for `default_ttl` nanoseconds
    /// where they are stored without a lifetime of their own.
    pub fn new(default_ttl: u128) -> (cache: AuditCache)
        ensures
            cache@.entries == no_entries(),
            cache@.default_ttl == default_ttl,
    {
        AuditCache { entries: entries_new(), default_ttl, clock: Clock::start() }
    }

    /// An empty cache whose entries are good for five minutes.
    pub fn with_default_ttl() -> (cache: AuditCache)
        ensures
            cache@.entries == no_entries(),
            cache@.default_ttl == DEFAULT_TTL,
    {
        AuditCache::new(DEFAULT_TTL)
    }

    /// Looks `key` up at `now`. An entry that is still good is returned and
    /// stays; a stale one is removed and nothing is returned.
    pub fn get_at(&mut self, key: &SessionKey, now: u128) -> (r: Option<DegreeAudit>)
        ensures
            audit_view(r) == found(old(self)@.entries, key@, now as nat),
            final(self)@.entries == after_lookup(old(self)@.entries, key@, now as nat),
            final(self)@.default_ttl == old(self)@.default_ttl,
    {
        proof {
            use_type_invariant(&*self);
        }
        match entries_get(&self.entries, key.as_str()) {
            Some(entry) => {
                if entry.is_live_at(now) {
                    Some(entry.result)
                } else {
                    entries_remove(&mut self.entries, key.as_str());
                    None
                }
            },
            None => None,
        }
    }

    /// Looks `key` up now. The outcome is the one that `get_at` gives for
    /// some reading of the clock.
    pub fn get(&mut self, key: &SessionKey) -> (r: Option<DegreeAudit>)
        ensures
            exists|now: nat|
                audit_view(r) == found(old(self)@.entries, key@, now) && final(self)@.entries
                    == #[trigger] after_lookup(old(self)@.entries, key@, now),
            final(self)@.default_ttl == old(self)@.default_ttl,
    {
        let now = self.clock.now();
        self.get_at(key, now)
    }

    /// Stores `result` under `key` at `now`, good for `ttl`, in place of
    /// whatever stood there.
    pub fn insert_with_ttl_at(&mut self, key: SessionKey, result: DegreeAudit, ttl: u128, now: u128)
        ensures
            final(self)@.entries == stored(
                old(self)@.entries,
                key@,
                result@,
                ttl as nat,
                now as nat,
            ),
            final(self)@.default_ttl == old(self)@.default_ttl,
    {
        proof {
            use_type_invariant(&*self);
        }
        let entry = CachedAudit { result, cached_at: now, ttl };
        entries_insert(&mut self.entries, key.into_text(), entry);
    }

    /// Stores `result` under `key` now, good for `ttl`.
    pub fn insert_with_ttl(&mut self, key: SessionKey, result: DegreeAudit, ttl: u128)
        ensures
            exists|now: nat|
                final(self)@.entries == #[trigger] stored(
                    old(self)@.entries,
                    key@,
                    result@,
                    ttl as nat,
                    now,
                ),
            final(self)@.default_ttl == old(self)@.default_ttl,
    {
        let now = self.clock.now();
        self.insert_with_ttl_at(key, result, ttl, now);
    }

    /// Stores `result` under `key` at `now`, good for the default lifetime.
    pub fn insert_at(&mut self, key: SessionKey, result: DegreeAudit, now: u128)
        ensures
            final(self)@.entries == stored(
                old(self)@.entries,
                key@,
                result@,
                old(self)@.default_ttl,
                now as nat,
            ),
            final(self)@.default_ttl == old(self)@.default_ttl,
    {
        let ttl = self.default_ttl;
        self.insert_with_ttl_at(key, result, ttl, now);
    }

    /// Stores `result` under `key` now, good for the default lifetime.
    pub fn insert(&mut self, key: SessionKey, result: DegreeAudit)
        ensures
            exists|now: nat|
                final(self)@.entries == #[trigger] stored(
                    old(self)@.entries,
                    key@,
                    result@,
                    old(self)@.default_ttl,
                    now,
                ),
            final(self)@.default_ttl == old(self)@.default_ttl,
    {
        let ttl = self.default_ttl;
        self.insert_with_ttl(key, result, ttl);
    }

    /// Removes the entry of `key`, if there is one.
    pub fn invalidate(&mut self, key: &SessionKey)
        ensures
            final(self)@.entries == old(self)@.entries.remove(key@),
            final(self)@.default_ttl == old(self)@.default_ttl,
    {
        proof {
            use_type_invariant(&*self);
        }
        entries_remove(&mut self.entries, key.as_str());
    }

    /// Removes every entry.
    pub fn clear(&mut self)
        ensures
            final(self)@.entries == no_entries(),
            final(self)@.default_ttl == old(self)@.default_ttl,
    {
        entries_clear(&mut self.entries);
    }

    /// The number of entries held, stale ones included.
    pub fn len(&self) -> (n: usize)
        ensures
            self@.entries.dom().finite(),
            n == self@.entries.dom().len(),
    {
        proof {
            use_type_invariant(self);
        }
        entries_len(&self.entries)
    }

    /// Whether the cache holds no entry at all.
    pub fn is_empty(&self) -> (r: bool)
        ensures
            r == (self@.entries == no_entries()),
    {
        let n = entries_len(&self.entries);
        proof {
            use_type_invariant(self);
            if n == 0 {
                assert(self@.entries.dom() =~= Set::<Seq<char>>::empty());
                assert(self@.entries =~= no_entries());
            }
        }
        n == 0
    }

    /// Removes the entries that are stale at `now`; those that are still
    /// good stay as they are.
    pub fn cleanup_expired_at(&mut self, now: u128)
        ensures
            final(self)@.entries == fresh_part(old(self)@.entries, now as nat),
            final(self)@.default_ttl == old(self)@.default_ttl,
    {
        proof {
            use_type_invariant(&*self);
            let entries = cache_entries(self.entries);
            entries.dom().lemma_len_filter(|key: Seq<char>| is_fresh(entries, key, now as nat));
            assert(fresh_part(entries, now as nat).dom() =~= fresh_keys(entries, now as nat));
        }
        entries_retain_fresh(&mut self.entries, now);
    }

    /// Removes the entries that are stale now.
    pub fn cleanup_expired(&mut self)
        ensures
            exists|now: nat|
                final(self)@.entries == #[trigger] fresh_part(old(self)@.entries, now),
            final(self)@.default_ttl == old(self)@.default_ttl,
    {
        let now = self.clock.now();
        self.cleanup_expired_at(now);
    }

    /// Counts the entries at `now`: all of them, the stale ones, and the
    /// good ones.
    pub fn stats_at(&self, now: u128) -> (stats: CacheStats)
        ensures
            self@.entries.dom().finite(),
            stats.total_entries == self@.entries.dom().len(),
            stats.expired_entries == stale_keys(self@.entries, now as nat).len(),
            stats.active_entries == fresh_keys(self@.entries, now as nat).len(),
            stats.total_entries == stats.expired_entries + stats.active_entries,
    {
        proof {
            use_type_invariant(self);
        }
        let stamps = entries_stamps(&self.entries);
        let ghost entries = self@.entries;
        let ghost keys = stamp_keys(stamps@);
        let mut expired: usize = 0;
        let mut i: usize = 0;
        while i < stamps.len()
            invariant
                i <= stamps.len(),
                entries == self@.entries,
                keys == stamp_keys(stamps@),
                lists_entries(stamps@, entries),
                expired == stale_count(keys.take(i as int), entries, now as nat),
                expired <= i,
            decreases stamps.len() - i,
        {
            let live = clock::elapsed(stamps[i].1, now) < stamps[i].2;
            proof {
                assert(stamp_matches(stamps@[i as int], entries));
                assert(keys.take(i + 1).drop_last() =~= keys.take(i as int));
                assert(keys.take(i + 1).last() == stamps@[i as int].0@);
            }
            if !live {
                expired += 1;
            }
            i += 1;
        }
        proof {
            assert(keys.take(i as int) =~= keys);
            stale_count_is_set_size(keys, entries, now as nat);
            keys.unique_seq_to_set();
            let stale = |key: Seq<char>| is_stale(entries, key, now as nat);
            let fresh = |key: Seq<char>| is_fresh(entries, key, now as nat);
            let dom = entries.dom();
            dom.lemma_len_filter(stale);
            dom.lemma_len_filter(fresh);
            assert(dom.filter(stale).disjoint(dom.filter(fresh)));
            assert(dom.filter(stale) + dom.filter(fresh) =~= dom);
            vstd::set_lib::lemma_set_disjoint_lens(dom.filter(stale), dom.filter(fresh));
        }
        CacheStats {
            total_entries: stamps.len(),
            expired_entries: expired,
            active_entries: stamps.len() - expired,
        }
    }

    /// Counts the entries now.
    pub fn stats(&self) -> (stats: CacheStats)
        ensures
            self@.entries.dom().finite(),
            stats.total_entries == self@.entries.dom().len(),
            stats.total_entries == stats.expired_entries + stats.active_entries,
            exists|now: nat|
                stats.expired_entries == (#[trigger] stale_keys(self@.entries, now)).len()
                    && stats.active_entries == fresh_keys(self@.entries, now).len(),
    {
        let now = self.clock.now();
        self.stats_at(now)
    }
}

/// An entry is found as long as it is good, and looking it up leaves the
/// cache as it is: before its lifetime has passed since it was stored, a
/// lookup returns the audit that was stored.
pub proof fn fresh_entry_is_found(entries: Entries, key: Seq<char>, now: nat)
    requires
        entries.dom().contains(key),
        elapsed_between(entries[key].cached_at, now) < entries[key].ttl,
    ensures
        found(entries, key, now) == Some(entries[key].result),
        after_lookup(entries, key, now) == entries,
{
}

/// A stale entry counts as absent and is evicted by the lookup that meets
/// it: once its lifetime has passed since it was stored, a lookup returns
/// nothing, the key is gone afterwards, the cache holds one entry less, and
/// every other key keeps its entry.
pub proof fn stale_entry_is_evicted(entries: Entries, key: Seq<char>, now: nat)
    requires
        entries.dom().finite(),
        entries.dom().contains(key),
        elapsed_between(entries[key].cached_at, now) >= entries[key].ttl,
    ensures
        found(entries, key, now) is None,
        !after_lookup(entries, key, now).dom().contains(key),
        after_lookup(entries, key, now).dom().len() + 1 == entries.dom().len(),
        forall|other: Seq<char>|
            other != key && entries.dom().contains(other) ==> after_lookup(
                entries,
                key,
                now,
            ).dom().contains(other) && #[trigger] after_lookup(entries, key, now)[other]
                == entries[other],
{
}

/// An audit that was stored at `at` with lifetime `ttl` is returned by every
/// lookup before `ttl` has passed and by none from then on, whatever the
/// cache held before.
pub proof fn stored_entry_lives_for_ttl(
    entries: Entries,
    key: Seq<char>,
    audit: AuditView,
    ttl: nat,
    at: nat,
    now: nat,
)
    ensures
        elapsed_between(at, now) < ttl ==> found(stored(entries, key, audit, ttl, at), key, now)
            == Some(audit),
        elapsed_between(at, now) >= ttl ==> found(stored(entries, key, audit, ttl, at), key, now)
            is None,
{
}

/// A lookup of a key that is absent finds nothing and changes nothing.
pub proof fn absent_key_is_not_found(entries: Entries, key: Seq<char>, now: nat)
    requires
        !entries.dom().contains(key),
    ensures
        found(entries, key, now) is None,
        after_lookup(entries, key, now) == entries,
{
}

/// Cleaning up is not needed for correct answers: every lookup finds after
/// a cleanup what it would have found before it, and the cleaned cache
/// holds no stale entry.
pub proof fn cleanup_keeps_answers(entries: Entries, key: Seq<char>, now: nat)
    ensures
        found(fresh_part(entries, now), key, now) == found(entries, key, now),
        !is_stale(fresh_part(entries, now), key, now),
{
}

/// Storing under one key does not disturb another.
pub proof fn keys_are_independent(
    entries: Entries,
    key: Seq<char>,
    other: Seq<char>,
    audit: AuditView,
    ttl: nat,
    at: nat,
    now: nat,
)
    requires
        key != other,
    ensures
        found(stored(entries, key, audit, ttl, at), other, now) == found(entries, other, now),
        found(entries.remove(key), other, now) == found(entries, other, now),
{
}

impl Default for AuditCache {
    fn default() -> (cache: AuditCache)
        ensures
            cache@.entries == no_entries(),
            cache@.default_ttl == DEFAULT_TTL,
    {
        AuditCache::with_default_ttl()
    }
}

} // verus!
