//! Reading of elapsed time.
//!
//! Points in time are nanoseconds on a clock that starts at zero when it is
//! created; spans of time are nanoseconds too. The components that depend on
//! time offer each operation twice: once with the time given, which is what
//! is specified and proved, and once reading the clock.

use vstd::prelude::*;
use std::time::Instant;

verus! {

/// A moment on the monotonic clock of std, carried through as it is.
#[verifier::external_type_specification]
#[verifier::external_body]
pub struct ExInstant(Instant);

/// Nanoseconds in a millisecond.
pub const NANOS_PER_MILLI: u128 = 1_000_000;

/// The time from `since` to `now`; zero where `now` lies before `since`.
pub open spec fn elapsed_between(since: nat, now: nat) -> nat {
    if now >= since {
        (now - since) as nat
    } else {
        0
    }
}

/// The time from `since` to `now`; zero where `now` lies before `since`.
pub fn elapsed(since: u128, now: u128) -> (r: u128)
    ensures
        r == elapsed_between(since as nat, now as nat),
{
    if now >= since {
        now - since
    } else {
        0
    }
}

/// A clock that counts from the moment it was started.
pub struct Clock {
    origin: Instant,
}

impl Clock {
    /// Calls `Instant::now`: a clock that starts counting now.
    #[verifier::external_body]
    pub(crate) fn start() -> Clock {
        Clock { origin: Instant::now() }
    }

    /// Calls `Instant::elapsed` on the moment the clock was started: the
    /// nanoseconds since then. Nothing is promised of the reading.
    #[verifier::external_body]
    pub(crate) fn now(&self) -> u128 {
        self.origin.elapsed().as_nanos()
    }
}

} // verus!
