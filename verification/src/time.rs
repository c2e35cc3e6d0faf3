//! Points in time, as the library holds `chrono::DateTime<Utc>` values:
//! whole seconds since the Unix epoch and the nanoseconds past them.

use vstd::prelude::*;

verus! {

/// Earliest second `chrono::DateTime<Utc>` can hold (`DateTime::MIN_UTC`).
pub const MIN_UNIX_SECS: i64 = -8334601228800i64;

/// Latest second `chrono::DateTime<Utc>` can hold (`DateTime::MAX_UTC`).
pub const MAX_UNIX_SECS: i64 = 8210266876799i64;

/// Largest magnitude `chrono::TimeDelta::seconds` accepts (`i64::MAX / 1000`).
pub const MAX_DELTA_SECS: i64 = 9223372036854775i64;

/// A point in time: `secs` whole seconds after the Unix epoch plus `nanos`
/// nanoseconds.
#[derive(Clone, Copy, Debug, PartialEq, Eq, Structural)]
pub struct Timestamp {
    pub secs: i64,
    pub nanos: u32,
}

/// `a` comes strictly before `b` (the order of `DateTime<Utc>`).
pub open spec fn precedes(a: Timestamp, b: Timestamp) -> bool {
    a.secs < b.secs || (a.secs == b.secs && a.nanos < b.nanos)
}

/// Adding `delta` seconds to `t` neither panics in `chrono` nor leaves
/// its range, and `t` is not inside a leap second.
pub open spec fn can_add_seconds(t: Timestamp, delta: int) -> bool {
    &&& t.nanos < 1_000_000_000
    &&& -MAX_DELTA_SECS <= delta <= MAX_DELTA_SECS
    &&& MIN_UNIX_SECS <= t.secs + delta <= MAX_UNIX_SECS
}

/// A value `chrono::Utc::now()` can give.
pub open spec fn clock_reading(t: Timestamp) -> bool {
    t.nanos < 1_000_000_000 && MIN_UNIX_SECS <= t.secs <= MAX_UNIX_SECS
}

impl Timestamp {
    /// `self < other`.
    pub fn is_before(&self, other: &Timestamp) -> (res: bool)
        ensures
            res == precedes(*self, *other),
    {
        self.secs < other.secs || (self.secs == other.secs && self.nanos < other.nanos)
    }

    /// Whether `self + TimeDelta::seconds(delta)` can be computed.
    pub fn can_add_seconds(&self, delta: i64) -> (res: bool)
        ensures
            res == can_add_seconds(*self, delta as int),
    {
        let sum: i128 = self.secs as i128 + delta as i128;
        self.nanos < 1_000_000_000 && -MAX_DELTA_SECS <= delta && delta <= MAX_DELTA_SECS
            && MIN_UNIX_SECS as i128 <= sum && sum <= MAX_UNIX_SECS as i128
    }

    /// `self + TimeDelta::seconds(delta)`.
    pub fn plus_seconds(&self, delta: i64) -> (res: Timestamp)
        requires
            can_add_seconds(*self, delta as int),
        ensures
            res.secs == self.secs + delta,
            res.nanos == self.nanos,
    {
        Timestamp { secs: self.secs + delta, nanos: self.nanos }
    }
}

/// `chrono::Utc::now()`: the current time. Only what holds of every reading
/// is stated: the nanoseconds come from `Duration::subsec_nanos` and so stay
/// below one second, and the reading lies in `chrono`'s range (otherwise the
/// call panics).
#[verifier::external_body]
pub(crate) fn utc_now() -> (res: Timestamp)
    ensures
        clock_reading(res),
{
    let now = chrono::Utc::now();
    Timestamp { secs: now.timestamp(), nanos: now.timestamp_subsec_nanos() }
}

} // verus!
