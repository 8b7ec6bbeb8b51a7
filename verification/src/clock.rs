//! Points in time and the spans that cycle detection goes by.

use vstd::prelude::*;

verus! {

/// Nanoseconds in one second.
pub const NANOS_PER_SEC: u128 = 1_000_000_000;

/// A cycle that runs longer than this is a main dry.
pub const MAIN_DRY_THRESHOLD: u128 = 30 * NANOS_PER_SEC;

/// A fluff dry runs at least this long.
pub const FLUFF_DRY_MIN_DURATION: u128 = 15 * NANOS_PER_SEC;

/// A fluff dry runs at most this long.
pub const FLUFF_DRY_MAX_DURATION: u128 = 30 * NANOS_PER_SEC;

/// For this long after a cycle has ended, a fluff dry may follow it.
pub const FLUFF_WINDOW: u128 = 600 * NANOS_PER_SEC;

/// Without a message for longer than this, the broker counts as silent.
pub const PRESENCE_TIMEOUT: u128 = 120 * NANOS_PER_SEC;

/// A reading of a monotonic clock, in nanoseconds since an origin that the caller picks
/// once and keeps.
#[derive(Clone, Copy, Debug, PartialEq, Eq, Structural)]
pub struct Moment {
    pub nanos: u128,
}

impl Moment {
    /// The time that has passed at `self` since `earlier`, in nanoseconds: none if
    /// `earlier` lies ahead.
    pub open spec fn since(self, earlier: Moment) -> int {
        if earlier.nanos <= self.nanos {
            self.nanos - earlier.nanos
        } else {
            0
        }
    }

    /// How long after `earlier` this moment is, in nanoseconds; 0 if it is not after it.
    pub fn duration_since(self, earlier: Moment) -> (duration: u128)
        ensures
            duration == self.since(earlier),
    {
        self.nanos.saturating_sub(earlier.nanos)
    }

    /// A moment one second more than the timeout before `self`: what a monitor that has
    /// heard nothing yet starts from, so that it does not look as if it had.
    pub fn before_timeout(self) -> (moment: Moment)
        requires
            self.nanos >= PRESENCE_TIMEOUT + NANOS_PER_SEC,
        ensures
            moment.nanos == self.nanos - PRESENCE_TIMEOUT - NANOS_PER_SEC,
    {
        Moment { nanos: self.nanos - PRESENCE_TIMEOUT - NANOS_PER_SEC }
    }
}

} // verus!
