//! What all requests share: the cache, the circuit breaker and the table of
//! session locks, with the bookkeeping around one request.
//!
//! A request is received, runs the protocol under the lock of its session,
//! and is completed. It is answered from the cache where that is possible;
//! where it is not, it is refused while the breaker is open. After the lock
//! is taken the cache is asked once more, so that a request that waited for another request of
//! its session finds that request's result. Completion stores a result and
//! tells the breaker how the request went.

use vstd::prelude::*;
use vstd::string::StringSliceAdditionalSpecFns;
use dashmap::DashMap;
use std::sync::Arc;
use tokio::sync::Mutex;
use crate::breaker::BreakerState;
use crate::breaker::CircuitBreaker;
use crate::cache;
use crate::cache::AuditCache;
use crate::cache::CacheStats;
use crate::cache::CacheState;
use crate::error::DegreeAuditError;
use crate::session::fingerprint;
use crate::session::SessionKey;
use crate::types::audit_view;
use crate::types::AuditView;
use crate::types::DegreeAudit;

verus! {

/// The asynchronous mutex of tokio, carried through as it is.
#[verifier::external_type_specification]
#[verifier::external_body]
#[verifier::reject_recursive_types(T)]
pub struct ExTokioMutex<T: ?Sized>(Mutex<T>);

/// The lock of one session.
pub type SessionLock = Arc<Mutex<()>>;

/// The locks that a table holds, by key text.
pub uninterp spec fn held_locks(m: DashMap<String, SessionLock>) -> Map<Seq<char>, SessionLock>;

/// Calls `DashMap::new`: a table that holds nothing.
#[verifier::external_body]
fn locks_new() -> (m: DashMap<String, SessionLock>)
    ensures
        held_locks(m).dom() == Set::<Seq<char>>::empty(),
{
    DashMap::new()
}

/// Calls `DashMap::get` and takes a handle on the lock found: the lock held
/// under the key, if the key is present.
#[verifier::external_body]
fn locks_get(m: &DashMap<String, SessionLock>, key: &str) -> (r: Option<SessionLock>)
    ensures
        r is Some <==> held_locks(*m).dom().contains(key@),
        r matches Some(lock) ==> lock == held_locks(*m)[key@],
{
    m.get(key).map(|lock| lock.value().clone())
}

/// Calls `DashMap::insert`: the lock given stands under the key afterwards;
/// the other keys keep their locks.
#[verifier::external_body]
fn locks_insert(m: &mut DashMap<String, SessionLock>, key: String, lock: SessionLock)
    ensures
        held_locks(*final(m)) == held_locks(*old(m)).insert(key@, lock),
{
    m.insert(key, lock);
}

/// Calls `Mutex::new` of tokio: a lock that nobody holds, behind a shared
/// handle.
#[verifier::external_body]
fn new_lock() -> SessionLock {
    Arc::new(Mutex::new(()))
}

/// What all requests share, as a value.
pub struct SharedView {
    /// The cache.
    pub cache: CacheState,
    /// The circuit breaker.
    pub breaker: BreakerState,
    /// The session locks, by key text.
    pub locks: Map<Seq<char>, SessionLock>,
}

/// What the entrance says of a request.
#[derive(Debug, PartialEq, Eq)]
pub enum Entrance {
    /// The breaker is open: the request fails with this error.
    Rejected(DegreeAuditError),
    /// The cache holds a good audit for the session.
    Cached(DegreeAudit),
    /// The protocol has to be run.
    Proceed,
}

/// An entrance as a value.
pub enum EntranceView {
    Rejected,
    Cached(AuditView),
    Proceed,
}

/// The entrance is the one that the value describes.
pub open spec fn entrance_is(entrance: Entrance, view: EntranceView) -> bool {
    match view {
        EntranceView::Rejected => entrance matches Entrance::Rejected(e) && e
            is CircuitBreakerOpen,
        EntranceView::Cached(audit) => entrance matches Entrance::Cached(a) && a@ == audit,
        EntranceView::Proceed => entrance is Proceed,
    }
}

/// How a request ended, as far as the bookkeeping cares: with an audit, or
/// with a failure that may be transient or not.
pub enum Ending {
    Delivered(AuditView),
    Transient,
    Final,
}

/// The ending of a request with the given result.
pub open spec fn ending_of(result: Result<DegreeAudit, DegreeAuditError>) -> Ending {
    match result {
        Ok(audit) => Ending::Delivered(audit@),
        Err(e) => if e.retryable() {
            Ending::Transient
        } else {
            Ending::Final
        },
    }
}

impl SharedView {
    /// The state with another cache.
    pub open spec fn with_entries(self, entries: cache::Entries) -> SharedView {
        SharedView { cache: CacheState { entries, ..self.cache }, ..self }
    }

    /// What the cache answers a request with, asked at `now` unless the
    /// request forces a refresh.
    pub open spec fn cache_answer(self, key: Seq<char>, force_refresh: bool, now: nat) -> Option<
        AuditView,
    > {
        if force_refresh {
            None
        } else {
            cache::found(self.cache.entries, key, now)
        }
    }

    /// The state after the cache was asked at `now`, unless the request
    /// forces a refresh.
    pub open spec fn cache_asked(self, key: Seq<char>, force_refresh: bool, now: nat) -> SharedView {
        if force_refresh {
            self
        } else {
            self.with_entries(cache::after_lookup(self.cache.entries, key, now))
        }
    }

    /// What the entrance says of a request for `key`, the cache being asked
    /// at `cache_now` and the breaker at `breaker_now`. The cache is asked
    /// first: what it holds is owed to the caller whatever the state of the
    /// portal. The breaker decides only where the cache has no answer.
    pub open spec fn entrance(
        self,
        key: Seq<char>,
        force_refresh: bool,
        breaker_now: nat,
        cache_now: nat,
    ) -> EntranceView {
        match self.cache_answer(key, force_refresh, cache_now) {
            Some(audit) => EntranceView::Cached(audit),
            None => if self.breaker.open_at(breaker_now) {
                EntranceView::Rejected
            } else {
                EntranceView::Proceed
            },
        }
    }

    /// The state after a request was received: the cache was asked, and the
    /// breaker too where the cache had no answer.
    pub open spec fn entered(
        self,
        key: Seq<char>,
        force_refresh: bool,
        breaker_now: nat,
        cache_now: nat,
    ) -> SharedView {
        let asked = self.cache_asked(key, force_refresh, cache_now);
        if self.cache_answer(key, force_refresh, cache_now) is Some {
            asked
        } else {
            SharedView { breaker: self.breaker.asked_at(breaker_now), ..asked }
        }
    }

    /// The state after a request for `key` ended. An audit is stored and
    /// counts as a success with the breaker; a failure that may be transient
    /// counts as a failure; any other failure changes nothing.
    pub open spec fn completed(
        self,
        key: Seq<char>,
        ending: Ending,
        breaker_now: nat,
        cache_now: nat,
    ) -> SharedView {
        match ending {
            Ending::Delivered(audit) => SharedView {
                breaker: self.breaker.after_success(),
                ..self.with_entries(
                    cache::stored(
                        self.cache.entries,
                        key,
                        audit,
                        self.cache.default_ttl,
                        cache_now,
                    ),
                )
            },
            Ending::Transient => SharedView {
                breaker: self.breaker.after_failure(breaker_now),
                ..self
            },
            Ending::Final => self,
        }
    }
}

/// The state that all requests share.
pub struct AuditCacheState {
    /// The cache of audits.
    pub cache: AuditCache,
    /// The breaker in front of the portal.
    pub circuit_breaker: CircuitBreaker,
    session_locks: DashMap<String, SessionLock>,
}

impl View for AuditCacheState {
    type V = SharedView;

    closed spec fn view(&self) -> SharedView {
        SharedView {
            cache: self.cache@,
            breaker: self.circuit_breaker@,
            locks: held_locks(self.session_locks),
        }
    }
}

impl AuditCacheState {
    /// An empty cache with the default lifetime, a closed breaker with the
    /// default settings, and no locks.
    pub fn new() -> (state: AuditCacheState)
        ensures
            state@.cache.entries == cache::no_entries(),
            state@.cache.default_ttl == cache::DEFAULT_TTL,
            state@.breaker == BreakerState::fresh(
                crate::breaker::DEFAULT_THRESHOLD as nat,
                crate::breaker::DEFAULT_RECOVERY as nat,
            ),
            state@.locks.dom() == Set::<Seq<char>>::empty(),
    {
        AuditCacheState {
            cache: AuditCache::with_default_ttl(),
            circuit_breaker: CircuitBreaker::with_defaults(),
            session_locks: locks_new(),
        }
    }

    /// As `new`, with entries good for `ttl` nanoseconds.
    pub fn with_ttl(ttl: u128) -> (state: AuditCacheState)
        ensures
            state@.cache.entries == cache::no_entries(),
            state@.cache.default_ttl == ttl,
            state@.breaker == BreakerState::fresh(
                crate::breaker::DEFAULT_THRESHOLD as nat,
                crate::breaker::DEFAULT_RECOVERY as nat,
            ),
            state@.locks.dom() == Set::<Seq<char>>::empty(),
    {
        AuditCacheState {
            cache: AuditCache::new(ttl),
            circuit_breaker: CircuitBreaker::with_defaults(),
            session_locks: locks_new(),
        }
    }

    /// The lock of the session: the one that the table holds for it. It is
    /// made when the session is first seen and is the same ever after. The
    /// locks of all other sessions stay as they are, and none is dropped.
    pub fn get_session_lock(&mut self, key: &SessionKey) -> (lock: SessionLock)
        ensures
            lock == final(self)@.locks[key@],
            final(self)@.locks.dom() == old(self)@.locks.dom().insert(key@),
            old(self)@.locks.dom().contains(key@) ==> final(self)@.locks == old(self)@.locks,
            forall|other: Seq<char>|
                old(self)@.locks.dom().contains(other) ==> #[trigger] final(self)@.locks[other]
                    == old(self)@.locks[other],
            final(self)@.cache == old(self)@.cache,
            final(self)@.breaker == old(self)@.breaker,
    {
        match locks_get(&self.session_locks, key.as_str()) {
            Some(lock) => {
                assert(self@.locks.dom() =~= old(self)@.locks.dom().insert(key@));
                lock
            },
            None => {
                let lock = new_lock();
                locks_insert(&mut self.session_locks, key.as_str().to_string(), Arc::clone(&lock));
                lock
            },
        }
    }

    /// Receives a request at `now`. The cache answers it where it holds a
    /// good audit and no refresh is forced. Otherwise the request is
    /// rejected while the breaker is open, and else the protocol has to be
    /// run.
    pub fn enter_at(&mut self, key: &SessionKey, force_refresh: bool, now: u128) -> (r: Entrance)
        ensures
            entrance_is(r, old(self)@.entrance(key@, force_refresh, now as nat, now as nat)),
            final(self)@ == old(self)@.entered(key@, force_refresh, now as nat, now as nat),
    {
        match self.recheck_at(key, force_refresh, now) {
            Some(audit) => Entrance::Cached(audit),
            None => {
                if self.circuit_breaker.is_open_at(now) {
                    Entrance::Rejected(DegreeAuditError::CircuitBreakerOpen)
                } else {
                    Entrance::Proceed
                }
            },
        }
    }

    /// Receives a request now: as `enter_at`, with the cache and the breaker
    /// each reading its clock.
    pub fn enter(&mut self, key: &SessionKey, force_refresh: bool) -> (r: Entrance)
        ensures
            exists|breaker_now: nat, cache_now: nat|
                entrance_is(
                    r,
                    #[trigger] old(self)@.entrance(key@, force_refresh, breaker_now, cache_now),
                ) && final(self)@ == old(self)@.entered(
                    key@,
                    force_refresh,
                    breaker_now,
                    cache_now,
                ),
    {
        let ghost before = self@;
        let found = self.recheck(key, force_refresh);
        let ghost asked = self@;
        let ghost c = choose|c: nat|
            audit_view(found) == #[trigger] before.cache_answer(key@, force_refresh, c) && asked
                == before.cache_asked(key@, force_refresh, c);
        match found {
            Some(audit) => {
                proof {
                    assert(self@ == before.entered(key@, force_refresh, 0, c));
                    assert(before.entrance(key@, force_refresh, 0, c) == EntranceView::Cached(
                        audit@,
                    ));
                }
                Entrance::Cached(audit)
            },
            None => {
                let open = self.circuit_breaker.is_open();
                proof {
                    let b = choose|b: nat|
                        open == asked.breaker.open_at(b) && self@.breaker
                            == #[trigger] asked.breaker.asked_at(b);
                    assert(self@ == before.entered(key@, force_refresh, b, c));
                    assert(before.entrance(key@, force_refresh, b, c) == if open {
                        EntranceView::Rejected
                    } else {
                        EntranceView::Proceed
                    });
                }
                if open {
                    Entrance::Rejected(DegreeAuditError::CircuitBreakerOpen)
                } else {
                    Entrance::Proceed
                }
            },
        }
    }

    /// Asks the cache once more at `now`, after the lock of the session was
    /// taken: a request of the same session that ran meanwhile may have
    /// stored its result. Nothing is looked up where a refresh is forced.
    pub fn recheck_at(&mut self, key: &SessionKey, force_refresh: bool, now: u128) -> (r: Option<
        DegreeAudit,
    >)
        ensures
            audit_view(r) == old(self)@.cache_answer(key@, force_refresh, now as nat),
            final(self)@ == old(self)@.cache_asked(key@, force_refresh, now as nat),
    {
        if force_refresh {
            None
        } else {
            self.cache.get_at(key, now)
        }
    }

    /// Asks the cache once more now.
    pub fn recheck(&mut self, key: &SessionKey, force_refresh: bool) -> (r: Option<DegreeAudit>)
        ensures
            exists|now: nat|
                audit_view(r) == #[trigger] old(self)@.cache_answer(key@, force_refresh, now)
                    && final(self)@ == old(self)@.cache_asked(key@, force_refresh, now),
    {
        if force_refresh {
            assert(audit_view(None::<DegreeAudit>) == self@.cache_answer(key@, force_refresh, 0));
            None
        } else {
            let ghost before = self@;
            let r = self.cache.get(key);
            proof {
                let now = choose|now: nat|
                    audit_view(r) == cache::found(before.cache.entries, key@, now)
                        && self@.cache.entries == #[trigger] cache::after_lookup(
                        before.cache.entries,
                        key@,
                        now,
                    );
                assert(audit_view(r) == before.cache_answer(key@, force_refresh, now));
                assert(self@ == before.cache_asked(key@, force_refresh, now));
            }
            r
        }
    }

    /// Notes at `now` how a request for `key` ended. An audit is stored
    /// under the key and counts as a success. A failure counts against the
    /// breaker only where it may be transient: a page that does not parse or
    /// a job that failed says nothing about the portal's health.
    pub fn complete_at(
        &mut self,
        key: SessionKey,
        result: &Result<DegreeAudit, DegreeAuditError>,
        now: u128,
    )
        ensures
            final(self)@ == old(self)@.completed(key@, ending_of(*result), now as nat, now as nat),
    {
        match result {
            Ok(audit) => {
                self.circuit_breaker.record_success();
                self.cache.insert_at(key, audit.duplicate(), now);
            },
            Err(e) => {
                if e.is_retryable() {
                    self.circuit_breaker.record_failure_at(now);
                }
            },
        }
    }

    /// Drops the cached audit of the session that the credential belongs
    /// to, if there is one.
    pub fn invalidate_cache(&mut self, cookies: &str)
        ensures
            final(self)@ == old(self)@.with_entries(
                old(self)@.cache.entries.remove(fingerprint(cookies.spec_bytes())),
            ),
    {
        let key = SessionKey::from_cookie(cookies);
        self.cache.invalidate(&key);
    }

    /// Counts the entries of the cache at `now`.
    pub fn cache_stats_at(&self, now: u128) -> (stats: CacheStats)
        ensures
            self@.cache.entries.dom().finite(),
            stats.total_entries == self@.cache.entries.dom().len(),
            stats.expired_entries == cache::stale_keys(self@.cache.entries, now as nat).len(),
            stats.active_entries == cache::fresh_keys(self@.cache.entries, now as nat).len(),
            stats.total_entries == stats.expired_entries + stats.active_entries,
    {
        self.cache.stats_at(now)
    }

    /// Counts the entries of the cache now: the counts are those that
    /// `cache_stats_at` gives for some reading of the clock.
    pub fn cache_stats(&self) -> (stats: CacheStats)
        ensures
            self@.cache.entries.dom().finite(),
            stats.total_entries == self@.cache.entries.dom().len(),
            stats.total_entries == stats.expired_entries + stats.active_entries,
            exists|now: nat|
                stats.expired_entries == (#[trigger] cache::stale_keys(
                    self@.cache.entries,
                    now,
                )).len() && stats.active_entries == cache::fresh_keys(
                    self@.cache.entries,
                    now,
                ).len(),
    {
        self.cache.stats()
    }

    /// Notes now how a request for `key` ended: as `complete_at`, with the
    /// breaker and the cache each reading its clock.
    pub fn complete(&mut self, key: SessionKey, result: &Result<DegreeAudit, DegreeAuditError>)
        ensures
            exists|breaker_now: nat, cache_now: nat|
                final(self)@ == #[trigger] old(self)@.completed(
                    key@,
                    ending_of(*result),
                    breaker_now,
                    cache_now,
                ),
    {
        let ghost before = self@;
        match result {
            Ok(audit) => {
                self.circuit_breaker.record_success();
                let ghost mid = self@;
                self.cache.insert(key, audit.duplicate());
                proof {
                    let c = choose|c: nat|
                        self@.cache.entries == #[trigger] cache::stored(
                            mid.cache.entries,
                            key@,
                            audit@,
                            mid.cache.default_ttl,
                            c,
                        );
                    assert(self@ == before.completed(key@, ending_of(*result), 0, c));
                }
            },
            Err(e) => {
                if e.is_retryable() {
                    self.circuit_breaker.record_failure();
                    proof {
                        let b = choose|b: nat|
                            self@.breaker == #[trigger] before.breaker.after_failure(b);
                        assert(self@ == before.completed(key@, ending_of(*result), b, 0));
                    }
                } else {
                    assert(self@ == before.completed(key@, ending_of(*result), 0, 0));
                }
            },
        }
    }
}

/// The state after the cache was asked for `key` at each of the given
/// times in turn, by requests that force no refresh.
pub open spec fn asked_in_turn(state: SharedView, key: Seq<char>, times: Seq<nat>) -> SharedView
    decreases times.len(),
{
    if times.len() == 0 {
        state
    } else {
        asked_in_turn(state, key, times.drop_last()).cache_asked(key, false, times.last())
    }
}

/// The result of one request serves the requests that follow it: once a
/// request has delivered an audit, every request for the same session that
/// is received before the lifetime of the entry has passed gets that audit
/// from the cache, at the entrance and after taking the lock alike, and the
/// protocol is not run again. This holds whatever the breaker says, for a
/// request that does not force a refresh.
pub proof fn delivered_audit_is_reused(
    state: SharedView,
    key: Seq<char>,
    audit: AuditView,
    at: nat,
    breaker_now: nat,
    cache_now: nat,
)
    requires
        crate::clock::elapsed_between(at, cache_now) < state.cache.default_ttl,
    ensures
        state.completed(key, Ending::Delivered(audit), at, at).entrance(
            key,
            false,
            breaker_now,
            cache_now,
        ) == EntranceView::Cached(audit),
        state.completed(key, Ending::Delivered(audit), at, at).cache_answer(
            key,
            false,
            cache_now,
        ) == Some(audit),
        state.completed(key, Ending::Delivered(audit), at, at).cache_asked(key, false, cache_now)
            == state.completed(key, Ending::Delivered(audit), at, at),
{
}

/// One delivery serves any number of requests: however many requests of the
/// session ask the cache after an audit was delivered, each within the
/// lifetime of the entry, every one of them gets that same audit, and the
/// state stays as the delivery left it.
pub proof fn delivered_audit_serves_all(
    state: SharedView,
    key: Seq<char>,
    audit: AuditView,
    at: nat,
    times: Seq<nat>,
)
    requires
        forall|i: int|
            0 <= i < times.len() ==> crate::clock::elapsed_between(at, #[trigger] times[i])
                < state.cache.default_ttl,
    ensures
        asked_in_turn(state.completed(key, Ending::Delivered(audit), at, at), key, times)
            == state.completed(key, Ending::Delivered(audit), at, at),
        forall|i: int|
            0 <= i < times.len() ==> asked_in_turn(
                state.completed(key, Ending::Delivered(audit), at, at),
                key,
                times.take(i),
            ).cache_answer(key, false, #[trigger] times[i]) == Some(audit),
    decreases times.len(),
{
    let delivered = state.completed(key, Ending::Delivered(audit), at, at);
    if times.len() > 0 {
        delivered_audit_serves_all(state, key, audit, at, times.drop_last());
        delivered_audit_is_reused(state, key, audit, at, 0, times.last());
        assert forall|i: int| 0 <= i < times.len() implies asked_in_turn(
            delivered,
            key,
            times.take(i),
        ).cache_answer(key, false, #[trigger] times[i]) == Some(audit) by {
            delivered_audit_serves_all(state, key, audit, at, times.take(i));
            delivered_audit_is_reused(state, key, audit, at, 0, times[i]);
        }
    }
}

/// A forced refresh is never answered from the cache, and it leaves the
/// cache as it is.
pub proof fn forced_refresh_passes_cache(state: SharedView, key: Seq<char>, now: nat)
    ensures
        state.cache_answer(key, true, now) is None,
        state.cache_asked(key, true, now) == state,
        !(state.entrance(key, true, now, now) is Cached),
{
}

/// A good entry is served though the breaker is open: what the cache holds
/// needs no request to the portal.
pub proof fn cache_answers_before_breaker(
    state: SharedView,
    key: Seq<char>,
    breaker_now: nat,
    cache_now: nat,
)
    requires
        cache::is_fresh(state.cache.entries, key, cache_now),
    ensures
        state.entrance(key, false, breaker_now, cache_now) == EntranceView::Cached(
            state.cache.entries[key].result,
        ),
        state.entered(key, false, breaker_now, cache_now) == state,
{
}

/// While the breaker is open every request that the cache cannot answer is
/// rejected, and the breaker stays as it is.
pub proof fn open_breaker_rejects(
    state: SharedView,
    key: Seq<char>,
    force_refresh: bool,
    breaker_now: nat,
    cache_now: nat,
)
    requires
        state.breaker.open_at(breaker_now),
        state.cache_answer(key, force_refresh, cache_now) is None,
    ensures
        state.entrance(key, force_refresh, breaker_now, cache_now) == EntranceView::Rejected,
        state.entered(key, force_refresh, breaker_now, cache_now) == state.cache_asked(
            key,
            force_refresh,
            cache_now,
        ),
{
}

/// Only failures that may be transient count against the breaker: any other
/// failure leaves the whole state as it is, a transient one raises the count
/// and leaves the cache alone, and no failure ever stores anything.
pub proof fn only_transient_failures_count(state: SharedView, key: Seq<char>, now: nat)
    ensures
        state.completed(key, Ending::Final, now, now) == state,
        state.completed(key, Ending::Transient, now, now).cache == state.cache,
        state.completed(key, Ending::Transient, now, now).breaker == state.breaker.after_failure(
            now,
        ),
{
}

/// The ending of a request follows the classification of its error.
pub proof fn ending_follows_error(e: DegreeAuditError)
    ensures
        ending_of(Err(e)) is Transient <==> e is Network || e is PollTimeout || e
            is UnexpectedResponse,
        !(ending_of(Err(e)) is Delivered),
{
}

impl Default for AuditCacheState {
    fn default() -> (state: AuditCacheState)
        ensures
            state@.cache.entries == cache::no_entries(),
            state@.cache.default_ttl == cache::DEFAULT_TTL,
            state@.breaker == BreakerState::fresh(
                crate::breaker::DEFAULT_THRESHOLD as nat,
                crate::breaker::DEFAULT_RECOVERY as nat,
            ),
            state@.locks.dom() == Set::<Seq<char>>::empty(),
    {
        AuditCacheState::new()
    }
}

} // verus!
