//! Points in time as plain integers, so that bounds can be compared exactly.

use vstd::prelude::*;

verus! {

/// Nanoseconds in one second.
pub const NANOS_PER_SEC: u32 = 1_000_000_000;

/// A point in time: whole seconds since the Unix epoch plus a nanosecond part.
///
/// The nanosecond part is not required to be below one second, so a leap
/// second written as `secs` plus more than a billion nanoseconds is a valid
/// value. Two values denote the same instant when their totals agree.
#[derive(Clone, Copy, Debug)]
pub struct Timestamp {
    pub secs: i64,
    pub nanos: u32,
}

impl Timestamp {
    /// The instant as one number: nanoseconds since the Unix epoch.
    pub open spec fn total_nanos(self) -> int {
        self.secs * 1_000_000_000 + self.nanos
    }

    /// Creates a timestamp from seconds and nanoseconds since the Unix epoch.
    pub fn new(secs: i64, nanos: u32) -> (t: Timestamp)
        ensures
            t.secs == secs,
            t.nanos == nanos,
    {
        Timestamp { secs, nanos }
    }

    /// The instant at a distance of `secs` seconds and `nanos` nanoseconds
    /// from the Unix epoch, as one number: below zero if the instant lies
    /// before the epoch.
    pub open spec fn epoch_distance(before: bool, secs: u64, nanos: u32) -> int {
        if before {
            -(secs * 1_000_000_000 + nanos)
        } else {
            secs * 1_000_000_000 + nanos
        }
    }

    /// Whether an instant, given in nanoseconds since the Unix epoch, can be
    /// held: its whole seconds, rounded down, fit the field for them.
    pub open spec fn holds(total: int) -> bool {
        i64::MIN <= total / 1_000_000_000 <= i64::MAX
    }

    /// The instant that lies `secs` seconds and `nanos` nanoseconds after
    /// the Unix epoch, or that far before it: the form in which a clock's
    /// time comes. The nanosecond part of the timestamp counts forward from
    /// its seconds and stays below one second. `None` where the instant lies
    /// too far off to be held.
    pub fn from_epoch_distance(before: bool, secs: u64, nanos: u32) -> (t: Option<Timestamp>)
        ensures
            match t {
                Some(t) => t.total_nanos() == Self::epoch_distance(before, secs, nanos) && t.nanos
                    < NANOS_PER_SEC,
                None => !Self::holds(Self::epoch_distance(before, secs, nanos)),
            },
    {
        let distance: u128 = secs as u128 * 1_000_000_000 + nanos as u128;
        let whole: u128 = distance / 1_000_000_000;
        let rest: u128 = distance % 1_000_000_000;
        let limit: u128 = 0x8000_0000_0000_0000;
        if !before {
            if whole >= limit {
                None
            } else {
                Some(Timestamp { secs: whole as i64, nanos: rest as u32 })
            }
        } else if rest == 0 {
            if whole > limit {
                None
            } else {
                Some(Timestamp { secs: (-(whole as i128)) as i64, nanos: 0 })
            }
        } else if whole >= limit {
            None
        } else {
            Some(
                Timestamp {
                    secs: (-(whole as i128) - 1) as i64,
                    nanos: (1_000_000_000 - rest) as u32,
                },
            )
        }
    }

    fn total(&self) -> (n: i128)
        ensures
            n == self.total_nanos(),
    {
        let secs: i128 = self.secs as i128;
        let nanos: i128 = self.nanos as i128;
        secs * 1_000_000_000 + nanos
    }

    /// Whether this instant is strictly earlier than `other`.
    pub fn is_before(&self, other: &Timestamp) -> (b: bool)
        ensures
            b == (self.total_nanos() < other.total_nanos()),
    {
        self.total() < other.total()
    }

    /// Whether this instant is strictly later than `other`.
    pub fn is_after(&self, other: &Timestamp) -> (b: bool)
        ensures
            b == (self.total_nanos() > other.total_nanos()),
    {
        self.total() > other.total()
    }
}

} // verus!
