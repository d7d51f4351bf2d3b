//! Points in time and the spans between them, in nanoseconds.

use vstd::prelude::*;

verus! {

/// Nanoseconds in a second.
pub const NANOS_PER_SEC: u64 = 1_000_000_000;

/// A point in time, counted from the origin of a clock that never runs backwards.
#[derive(Copy, Clone, Debug, PartialEq, Eq, Structural)]
pub struct Moment {
    pub nanos: u64,
}

/// A length of time.
#[derive(Copy, Clone, Debug, PartialEq, Eq, Structural)]
pub struct Span {
    pub nanos: u64,
}

/// The time that passed from `earlier` to `now`, in nanoseconds: none if `earlier` is later.
pub open spec fn elapsed(now: Moment, earlier: Moment) -> int {
    if now.nanos >= earlier.nanos {
        now.nanos - earlier.nanos
    } else {
        0
    }
}

impl Moment {
    /// The time that passed since `earlier`, or no time if `earlier` is later.
    pub fn duration_since(self, earlier: Moment) -> (d: Span)
        ensures
            d.nanos == elapsed(self, earlier),
    {
        Span { nanos: self.nanos.saturating_sub(earlier.nanos) }
    }

    /// The point in time that lies `nanos` before this one, unless that is before the origin.
    pub fn checked_sub(self, nanos: u64) -> (r: Option<Moment>)
        ensures
            r == if self.nanos >= nanos {
                Some(Moment { nanos: (self.nanos - nanos) as u64 })
            } else {
                None
            },
    {
        if self.nanos >= nanos {
            Some(Moment { nanos: self.nanos - nanos })
        } else {
            None
        }
    }
}

impl Span {
    /// The whole seconds in this span.
    pub fn as_secs(self) -> (s: u64)
        ensures
            s == self.nanos / NANOS_PER_SEC,
    {
        self.nanos / NANOS_PER_SEC
    }
}

} // verus!
