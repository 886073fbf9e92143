//! A circuit breaker that shields a failing upstream.
//!
//! The breaker counts failures. Once the count reaches the threshold it is
//! open and requests are to be refused, until the recovery time has passed
//! since the last failure; asking then closes it again.

use vstd::prelude::*;
use crate::clock;
use crate::clock::elapsed_between;
use crate::clock::Clock;

verus! {

/// Failures after which the breaker opens, by default.
pub const DEFAULT_THRESHOLD: u32 = 5;

/// Time after the last failure after which the breaker closes again, by
/// default: thirty seconds.
pub const DEFAULT_RECOVERY: u128 = 30_000_000_000;

/// The state of a breaker.
pub struct BreakerState {
    /// Failures counted since the count was last cleared.
    pub failures: nat,
    /// When the last failure was recorded.
    pub last_failure: Option<nat>,
    /// Failures at which the breaker opens.
    pub threshold: nat,
    /// Time after the last failure for which an open breaker stays open.
    pub recovery: nat,
}

impl BreakerState {
    /// A breaker that has seen no failure.
    pub open spec fn fresh(threshold: nat, recovery: nat) -> BreakerState {
        BreakerState { failures: 0, last_failure: None, threshold, recovery }
    }

    /// More than the recovery time has passed since the last failure.
    pub open spec fn recovered_at(self, now: nat) -> bool {
        self.last_failure matches Some(at) && elapsed_between(at, now) > self.recovery
    }

    /// The breaker refuses requests at `now`: the count has reached the
    /// threshold and the recovery time has not passed.
    pub open spec fn open_at(self, now: nat) -> bool {
        self.failures >= self.threshold && !self.recovered_at(now)
    }

    /// The state with count and time of last failure cleared.
    pub open spec fn cleared(self) -> BreakerState {
        BreakerState { failures: 0, last_failure: None, ..self }
    }

    /// The state after the breaker was asked at `now`: where the count had
    /// reached the threshold and the recovery time has passed, it is cleared.
    pub open spec fn asked_at(self, now: nat) -> BreakerState {
        if self.failures >= self.threshold && self.recovered_at(now) {
            self.cleared()
        } else {
            self
        }
    }

    /// The state after a success: the count is cleared, the time of the last
    /// failure stays.
    pub open spec fn after_success(self) -> BreakerState {
        BreakerState { failures: 0, ..self }
    }

    /// The state after a failure at `now`: the count goes up by one, up to
    /// the largest count that is held, and `now` is noted.
    pub open spec fn after_failure(self, now: nat) -> BreakerState {
        BreakerState {
            failures: if self.failures < u32::MAX {
                self.failures + 1
            } else {
                self.failures
            },
            last_failure: Some(now),
            ..self
        }
    }

    /// The state after failures in a row at the given times, one after
    /// another.
    pub open spec fn after_failures(self, times: Seq<nat>) -> BreakerState
        decreases times.len(),
    {
        if times.len() == 0 {
            self
        } else {
            self.after_failures(times.drop_last()).after_failure(times.last())
        }
    }
}

/// Failure-counting gate in front of the upstream.
pub struct CircuitBreaker {
    failure_count: u32,
    last_failure: Option<u128>,
    threshold: u32,
    recovery_time: u128,
    clock: Clock,
}

impl View for CircuitBreaker {
    type V = BreakerState;

    closed spec fn view(&self) -> BreakerState {
        BreakerState {
            failures: self.failure_count as nat,
            last_failure: match self.last_failure {
                Some(at) => Some(at as nat),
                None => None,
            },
            threshold: self.threshold as nat,
            recovery: self.recovery_time as nat,
        }
    }
}

impl CircuitBreaker {
    /// A closed breaker that opens at `threshold` failures and closes again
    /// once more than `recovery_time` nanoseconds have passed since the last
    /// failure.
    pub fn new(threshold: u32, recovery_time: u128) -> (breaker: CircuitBreaker)
        ensures
            breaker@ == BreakerState::fresh(threshold as nat, recovery_time as nat),
    {
        CircuitBreaker {
            failure_count: 0,
            last_failure: None,
            threshold,
            recovery_time,
            clock: Clock::start(),
        }
    }

    /// A closed breaker with the default settings: five failures, thirty
    /// seconds.
    pub fn with_defaults() -> (breaker: CircuitBreaker)
        ensures
            breaker@ == BreakerState::fresh(DEFAULT_THRESHOLD as nat, DEFAULT_RECOVERY as nat),
    {
        CircuitBreaker::new(DEFAULT_THRESHOLD, DEFAULT_RECOVERY)
    }

    /// Whether the breaker refuses requests at `now`. Where the recovery time
    /// has passed since the last failure, asking closes the breaker.
    pub fn is_open_at(&mut self, now: u128) -> (open: bool)
        ensures
            open == old(self)@.open_at(now as nat),
            final(self)@ == old(self)@.asked_at(now as nat),
    {
        if self.failure_count < self.threshold {
            return false;
        }
        match self.last_failure {
            Some(at) => {
                if clock::elapsed(at, now) > self.recovery_time {
                    self.reset();
                    return false;
                }
            },
            None => {},
        }
        true
    }

    /// Whether the breaker refuses requests now. The answer is the one that
    /// `is_open_at` gives for some reading of the clock.
    pub fn is_open(&mut self) -> (open: bool)
        ensures
            exists|now: nat|
                open == old(self)@.open_at(now) && final(self)@ == #[trigger] old(self)@.asked_at(
                    now,
                ),
    {
        let now = self.clock.now();
        self.is_open_at(now)
    }

    /// Notes a success: the failure count is cleared.
    pub fn record_success(&mut self)
        ensures
            final(self)@ == old(self)@.after_success(),
    {
        self.failure_count = 0;
    }

    /// Notes a failure at `now`.
    pub fn record_failure_at(&mut self, now: u128)
        ensures
            final(self)@ == old(self)@.after_failure(now as nat),
    {
        if self.failure_count < u32::MAX {
            self.failure_count = self.failure_count + 1;
        }
        self.last_failure = Some(now);
    }

    /// Notes a failure now: the count goes up and the clock is read.
    pub fn record_failure(&mut self)
        ensures
            exists|now: nat| final(self)@ == #[trigger] old(self)@.after_failure(now),
    {
        let now = self.clock.now();
        self.record_failure_at(now);
    }

    /// Clears the failure count and the time of the last failure.
    pub fn reset(&mut self)
        ensures
            final(self)@ == old(self)@.cleared(),
    {
        self.failure_count = 0;
        self.last_failure = None;
    }

    /// The failures counted since the count was last cleared.
    pub fn failure_count(&self) -> (count: u32)
        ensures
            count == self@.failures,
    {
        self.failure_count
    }
}

impl Default for CircuitBreaker {
    fn default() -> (breaker: CircuitBreaker)
        ensures
            breaker@ == BreakerState::fresh(DEFAULT_THRESHOLD as nat, DEFAULT_RECOVERY as nat),
    {
        CircuitBreaker::with_defaults()
    }
}

/// After failures in a row a fresh breaker has counted them, as long as
/// their number can be held, and remembers the time of the last one.
pub proof fn failures_are_counted(threshold: nat, recovery: nat, times: Seq<nat>)
    requires
        times.len() <= u32::MAX,
    ensures
        BreakerState::fresh(threshold, recovery).after_failures(times).failures == times.len(),
        BreakerState::fresh(threshold, recovery).after_failures(times).threshold == threshold,
        BreakerState::fresh(threshold, recovery).after_failures(times).recovery == recovery,
        times.len() > 0 ==> BreakerState::fresh(threshold, recovery).after_failures(
            times,
        ).last_failure == Some(times.last()),
    decreases times.len(),
{
    if times.len() > 0 {
        failures_are_counted(threshold, recovery, times.drop_last());
    }
}

/// A fresh breaker stays closed below the threshold and is open once the
/// threshold is reached: after failures in a row it refuses requests, at
/// any time within the recovery time of the last of them, exactly when
/// their number has reached the threshold.
pub proof fn threshold_opens_breaker(threshold: nat, recovery: nat, times: Seq<nat>, now: nat)
    requires
        0 < times.len() <= u32::MAX,
        elapsed_between(times.last(), now) <= recovery,
    ensures
        BreakerState::fresh(threshold, recovery).after_failures(times).open_at(now)
            <==> times.len() >= threshold,
{
    failures_are_counted(threshold, recovery, times);
}

/// A success closes the breaker: whatever it had counted, it refuses no
/// request afterwards, and asking leaves the count at zero. This needs a
/// threshold of at least one.
pub proof fn success_closes_breaker(state: BreakerState, now: nat)
    requires
        state.threshold > 0,
    ensures
        !state.after_success().open_at(now),
        state.after_success().asked_at(now).failures == 0,
{
}

/// The breaker heals by itself: once more than the recovery time has passed
/// since the last failure it refuses no request, without any success having
/// been noted, and asking it then clears it, so that it stays closed at
/// every later time until the next failures.
pub proof fn recovery_closes_breaker(state: BreakerState, at: nat, now: nat, later: nat)
    requires
        state.threshold > 0,
        state.last_failure == Some(at),
        elapsed_between(at, now) > state.recovery,
    ensures
        !state.open_at(now),
        !state.asked_at(now).open_at(later),
{
}

/// Asking a breaker that is open changes nothing, and, with a threshold of
/// at least one, asking never makes a breaker refuse what it would have let
/// pass.
pub proof fn asking_never_opens(state: BreakerState, now: nat, later: nat)
    requires
        state.threshold > 0,
    ensures
        state.open_at(now) ==> state.asked_at(now) == state,
        !state.open_at(later) ==> !state.asked_at(now).open_at(later),
{
}

} // verus!
