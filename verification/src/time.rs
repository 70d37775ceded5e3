//! Points in time as plain numbers.
//!
//! The rules of the canvas compare instants and times of day; they never
//! need a calendar. An instant is a count of seconds and nanoseconds since
//! the Unix epoch, a time of day a count since local midnight.

use chrono::Timelike;
use vstd::prelude::*;

verus! {

/// An instant: whole seconds since the Unix epoch and the nanoseconds past
/// that second.
#[derive(Clone, Copy, Debug, PartialEq, Eq)]
pub struct Timestamp {
    pub secs: i64,
    pub nanos: u32,
}

impl Timestamp {
    /// The instant as one count of nanoseconds since the epoch.
    pub open spec fn as_nanos(self) -> int {
        self.secs as int * 1_000_000_000 + self.nanos as int
    }

    /// The nanoseconds from `earlier` to `self`; negative where `self` comes
    /// first.
    pub fn nanos_since(&self, earlier: &Timestamp) -> (d: i128)
        ensures
            d == self.as_nanos() - earlier.as_nanos(),
    {
        let secs: i128 = self.secs as i128 - earlier.secs as i128;
        let nanos: i128 = self.nanos as i128 - earlier.nanos as i128;
        secs * 1_000_000_000 + nanos
    }

    /// Whether both are the same instant, field by field.
    pub fn same(&self, other: &Timestamp) -> (eq: bool)
        ensures
            eq == (*self == *other),
    {
        self.secs == other.secs && self.nanos == other.nanos
    }
}

/// A time of day: whole seconds since local midnight and the nanoseconds
/// past that second.
#[derive(Clone, Copy, Debug, PartialEq, Eq)]
pub struct TimeOfDay {
    pub secs: u32,
    pub nanos: u32,
}

impl TimeOfDay {
    /// Whether `self` comes strictly before `other`: by the seconds first,
    /// then by the nanoseconds.
    pub open spec fn before(self, other: TimeOfDay) -> bool {
        self.secs < other.secs || (self.secs == other.secs && self.nanos < other.nanos)
    }

    /// Whether `self` comes strictly before `other`.
    pub fn is_before(&self, other: &TimeOfDay) -> (b: bool)
        ensures
            b == self.before(*other),
    {
        self.secs < other.secs || (self.secs == other.secs && self.nanos < other.nanos)
    }
}

/// The part of the day in which painting is allowed, both ends included.
#[derive(Clone, Copy, Debug, PartialEq, Eq)]
pub struct PaintWindow {
    pub begin: TimeOfDay,
    pub end: TimeOfDay,
}

impl PaintWindow {
    /// Whether `t` lies in the window.
    pub open spec fn admits(self, t: TimeOfDay) -> bool {
        !t.before(self.begin) && !self.end.before(t)
    }

    /// Whether `t` lies in the window.
    pub fn contains(&self, t: &TimeOfDay) -> (inside: bool)
        ensures
            inside == self.admits(*t),
    {
        !t.is_before(&self.begin) && !self.end.is_before(t)
    }

    /// The window from 15:00 to 20:00.
    pub fn afternoon() -> (w: PaintWindow)
        ensures
            w.begin == (TimeOfDay { secs: 54_000, nanos: 0 }),
            w.end == (TimeOfDay { secs: 72_000, nanos: 0 }),
    {
        PaintWindow {
            begin: TimeOfDay { secs: 54_000, nanos: 0 },
            end: TimeOfDay { secs: 72_000, nanos: 0 },
        }
    }
}

/// One reading of the clock: the instant, and the local time of day at that
/// instant.
#[derive(Clone, Copy, Debug, PartialEq, Eq)]
pub struct Moment {
    pub stamp: Timestamp,
    pub time_of_day: TimeOfDay,
}

/// Reads the system clock through `chrono::Local::now`. Nothing is claimed of
/// the reading: two calls may return anything.
#[verifier::external_body]
pub(crate) fn local_now() -> (now: Moment) {
    let now = chrono::Local::now();
    let time = now.time();
    Moment {
        stamp: Timestamp { secs: now.timestamp(), nanos: now.timestamp_subsec_nanos() },
        time_of_day: TimeOfDay {
            secs: time.num_seconds_from_midnight(),
            nanos: time.nanosecond(),
        },
    }
}

} // verus!
