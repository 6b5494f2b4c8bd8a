//! Timestamps used for `created_at` / `updated_at`, and the clock that
//! produces them.

use vstd::prelude::*;

verus! {

/// 2000-01-01T00:00:00 UTC in seconds since the Unix epoch: the stamp used
/// when the system clock cannot be read.
pub const SENTINEL_SECS: i64 = 946_684_800;

/// The largest seconds count that a stamp can hold (`i64::MAX`).
pub const MAX_STAMP_SECS: u64 = 9_223_372_036_854_775_807;

/// A point in time, as whole seconds since the Unix epoch (UTC) and the
/// nanoseconds within that second.
#[derive(Clone, Copy, Debug, PartialEq, Eq, Structural)]
pub struct Timestamp {
    pub secs: i64,
    pub nanos: u32,
}

impl Timestamp {
    /// The nanosecond part stays below one second.
    pub open spec fn wf(self) -> bool {
        self.nanos < 1_000_000_000
    }

    /// `self` is at or before `other`.
    pub open spec fn not_after(self, other: Timestamp) -> bool {
        self.secs < other.secs || (self.secs == other.secs && self.nanos <= other.nanos)
    }

    /// The degraded-mode stamp, 2000-01-01T00:00:00 UTC.
    pub open spec fn sentinel() -> Timestamp {
        Timestamp { secs: SENTINEL_SECS, nanos: 0 }
    }

    /// Whether `self` is at or before `other`.
    pub fn is_not_after(&self, other: &Timestamp) -> (r: bool)
        ensures
            r == self.not_after(*other),
    {
        self.secs < other.secs || (self.secs == other.secs && self.nanos <= other.nanos)
    }
}

/// The stamp made from a clock reading `(seconds, nanoseconds)` since the
/// epoch: the reading itself whenever there is one that a stamp can hold,
/// else the sentinel.
pub open spec fn stamp_of_reading(reading: Option<(u64, u32)>) -> Timestamp {
    match reading {
        Some((s, n)) if s <= MAX_STAMP_SECS && n < 1_000_000_000 => Timestamp {
            secs: s as i64,
            nanos: n,
        },
        _ => Timestamp::sentinel(),
    }
}

/// Turns a clock reading into a stamp, falling back to the sentinel only
/// when the clock could not be read or its reading cannot be held.
pub fn stamp_from_reading(reading: Option<(u64, u32)>) -> (r: Timestamp)
    ensures
        r == stamp_of_reading(reading),
        r.wf(),
{
    match reading {
        Some((s, n)) => {
            if s <= MAX_STAMP_SECS && n < 1_000_000_000 {
                Timestamp { secs: s as i64, nanos: n }
            } else {
                Timestamp { secs: SENTINEL_SECS, nanos: 0 }
            }
        },
        None => Timestamp { secs: SENTINEL_SECS, nanos: 0 },
    }
}

/// Relies on std's `SystemTime::elapsed`, taken from `UNIX_EPOCH`: `Ok` with
/// the time since the epoch (whole seconds and the nanoseconds below one
/// second), `Err` when the clock stands before the epoch.
#[verifier::external_body]
fn read_system_clock() -> (r: Option<(u64, u32)>)
    ensures
        r matches Some((_, n)) ==> n < 1_000_000_000,
{
    match std::time::UNIX_EPOCH.elapsed() {
        Ok(d) => Some((d.as_secs(), d.subsec_nanos())),
        Err(_) => None,
    }
}

/// The current time, for stamping. Never fails: when the clock cannot be
/// read the sentinel is returned instead.
pub fn get_date() -> (r: Timestamp)
    ensures
        r.wf(),
        r == Timestamp::sentinel() || 0 <= r.secs,
{
    let reading = read_system_clock();
    stamp_from_reading(reading)
}

} // verus!
