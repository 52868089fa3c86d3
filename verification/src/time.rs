//! Instants and durations on a single consistent time base.
//!
//! Both are fixed-point tick counts: one second is `TICKS_PER_SEC` ticks, so
//! the low 32 bits of a count are the sub-second fraction. An instant is the
//! tick count elapsed since the Unix epoch; wire encodings of instants keep
//! whole seconds only (see `crate::codec`).

use vstd::prelude::*;

verus! {

/// Number of ticks in one second: sub-second precision is 1/2^32 s.
pub const TICKS_PER_SEC: u64 = 0x1_0000_0000;

/// A span of time, never negative: a count of ticks.
#[derive(Clone, Copy, PartialEq, Eq, Structural, Debug)]
pub struct Duration {
    ticks: u64,
}

/// An instant: the time elapsed since the Unix epoch, as a count of ticks.
#[derive(Clone, Copy, PartialEq, Eq, Structural, Debug)]
pub struct UnixTimeStamp {
    ticks: u64,
}

impl View for Duration {
    type V = u64;

    closed spec fn view(&self) -> u64 {
        self.ticks
    }
}

impl View for UnixTimeStamp {
    type V = u64;

    closed spec fn view(&self) -> u64 {
        self.ticks
    }
}

impl Duration {
    /// A duration of exactly `ticks` ticks.
    pub fn from_ticks(ticks: u64) -> (r: Duration)
        ensures
            r@ == ticks,
    {
        Duration { ticks }
    }

    /// A duration of exactly `secs` whole seconds.
    pub fn from_secs(secs: u64) -> (r: Duration)
        requires
            secs <= 0xFFFF_FFFFu64,
        ensures
            r@ == secs * TICKS_PER_SEC,
    {
        Duration { ticks: secs * TICKS_PER_SEC }
    }

    /// The duration as a count of ticks.
    pub fn as_ticks(&self) -> (r: u64)
        ensures
            r == self@,
    {
        self.ticks
    }

    /// The duration rounded down to whole seconds.
    pub fn as_secs(&self) -> (r: u64)
        ensures
            r == self@ / TICKS_PER_SEC,
    {
        self.ticks / TICKS_PER_SEC
    }
}

impl UnixTimeStamp {
    /// The instant exactly `ticks` ticks after the epoch.
    pub fn from_ticks(ticks: u64) -> (r: UnixTimeStamp)
        ensures
            r@ == ticks,
    {
        UnixTimeStamp { ticks }
    }

    /// The instant exactly `secs` whole seconds after the epoch.
    pub fn from_secs(secs: u64) -> (r: UnixTimeStamp)
        requires
            secs <= 0xFFFF_FFFFu64,
        ensures
            r@ == secs * TICKS_PER_SEC,
    {
        UnixTimeStamp { ticks: secs * TICKS_PER_SEC }
    }

    /// The instant as a count of ticks since the epoch.
    pub fn as_ticks(&self) -> (r: u64)
        ensures
            r == self@,
    {
        self.ticks
    }

    /// The instant rounded down to whole seconds since the epoch.
    pub fn as_secs(&self) -> (r: u64)
        ensures
            r == self@ / TICKS_PER_SEC,
    {
        self.ticks / TICKS_PER_SEC
    }

    /// The instant `d` later than `self`, clamped to the representable range.
    pub fn saturating_add(self, d: Duration) -> (r: UnixTimeStamp)
        ensures
            r@ == if self@ + d@ <= u64::MAX {
                self@ + d@
            } else {
                u64::MAX as int
            },
    {
        if self.ticks <= u64::MAX - d.ticks {
            UnixTimeStamp { ticks: self.ticks + d.ticks }
        } else {
            UnixTimeStamp { ticks: u64::MAX }
        }
    }

    /// The current time. Nothing is promised of a clock reading: two calls
    /// may return anything, in any order.
    pub fn now() -> UnixTimeStamp {
        UnixTimeStamp { ticks: clock_now_ticks() }
    }
}

/// Relies on `coarsetime::Clock::now_since_epoch` (with
/// `coarsetime::Duration::as_ticks` reading out the plain tick count): the
/// elapsed time since the Unix epoch, in the same tick base as this module.
/// Nothing can be promised of a clock reading. It panics when the system
/// clock reads before the Unix epoch — an environment condition no
/// `requires` can exclude.
#[verifier::external_body]
fn clock_now_ticks() -> u64 {
    coarsetime::Clock::now_since_epoch().as_ticks()
}

} // verus!
