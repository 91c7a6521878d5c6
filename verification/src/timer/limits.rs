//! Hard count and retained-byte limits for one timer queue.

use vstd::prelude::*;

use crate::count::NonZeroCount;
use crate::retained::RetainedBytes;

verus! {

/// Maximum timers and variable bytes retained by one owner-local queue.
#[derive(Clone, Copy, Debug, PartialEq, Eq, Structural)]
pub struct TimerLimits {
    timers: NonZeroCount,
    retained_bytes: RetainedBytes,
}

impl TimerLimits {
    /// The maximum pending timer count.
    pub closed spec fn timers_spec(self) -> NonZeroCount {
        self.timers
    }

    /// The maximum variable retained bytes.
    pub closed spec fn retained_bytes_spec(self) -> RetainedBytes {
        self.retained_bytes
    }

    /// Creates timer-queue limits.
    ///
    /// A zero retained-byte limit accepts only values whose measurement is
    /// zero.
    pub fn new(timers: NonZeroCount, retained_bytes: RetainedBytes) -> (limits: TimerLimits)
        ensures
            limits.timers_spec() == timers,
            limits.retained_bytes_spec() == retained_bytes,
    {
        TimerLimits { timers, retained_bytes }
    }

    /// Returns the maximum pending timer count.
    pub fn timers(self) -> (timers: NonZeroCount)
        ensures
            timers == self.timers_spec(),
    {
        self.timers
    }

    /// Returns the maximum variable retained bytes.
    pub fn retained_bytes(self) -> (retained_bytes: RetainedBytes)
        ensures
            retained_bytes == self.retained_bytes_spec(),
    {
        self.retained_bytes
    }
}

impl Default for TimerLimits {
    /// At most 1024 timers retaining at most 16 MiB.
    fn default() -> (limits: TimerLimits)
        ensures
            limits.timers_spec().value() == 1024,
            limits.retained_bytes_spec().bytes() == 16 * 1024 * 1024,
    {
        let timers = match NonZeroCount::new(1024) {
            Some(count) => count,
            None => {
                proof {
                    assert(false);
                }
                return TimerLimits { timers: NonZeroCount::new(1).unwrap(), retained_bytes: RetainedBytes::zero() };
            },
        };
        TimerLimits::new(timers, RetainedBytes::new(16 * 1024 * 1024))
    }
}

} // verus!
