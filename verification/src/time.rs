//! UTC instants as plain values, and the calendar arithmetic the scheduler needs.
//!
//! The arithmetic itself is done by `chrono`, through a few calls whose contracts are assumed; the
//! library holds an instant as whole seconds since the Unix epoch plus the
//! nanoseconds past them, which is exactly what `DateTime<Utc>` carries.

use vstd::prelude::*;

verus! {

/// Seconds in a day.
pub const SECONDS_PER_DAY: i64 = 86400;

/// Seconds in an hour.
pub const SECONDS_PER_HOUR: i64 = 3600;

/// The earliest second `DateTime<Utc>` can hold (January 1 of the year -262143).
pub const MIN_UTC_SECS: i64 = -8334601228800;

/// The latest second `DateTime<Utc>` can hold (December 31 of the year 262142, 23:59:59).
pub const MAX_UTC_SECS: i64 = 8210266876799;

/// The largest number of seconds a `TimeDelta` can be built from.
pub const MAX_DELTA_SECS: i64 = 9223372036854775;

/// A UTC instant: `secs` whole seconds after 1970-01-01T00:00:00Z, plus `nanos` nanoseconds.
#[derive(Clone, Copy, Debug, PartialEq, Eq, Structural)]
pub struct Timestamp {
    pub secs: i64,
    pub nanos: u32,
}

/// Whether a second count lies in the range of `DateTime<Utc>`.
pub open spec fn utc_secs_in_range(secs: int) -> bool {
    MIN_UTC_SECS <= secs <= MAX_UTC_SECS
}

impl Timestamp {
    /// The nanoseconds are below one second, and the instant lies in the range of `DateTime<Utc>`.
    pub open spec fn wf(self) -> bool {
        self.nanos < 1_000_000_000 && utc_secs_in_range(self.secs as int)
    }

    /// The instant as a count of nanoseconds since the epoch.
    pub open spec fn total_nanos(self) -> int {
        self.secs * 1_000_000_000 + self.nanos
    }

    /// `self` shifted by `delta` whole seconds.
    pub open spec fn plus_secs(self, delta: int) -> Timestamp {
        Timestamp { secs: (self.secs + delta) as i64, nanos: self.nanos }
    }

    /// `self` is strictly earlier than `other`.
    pub open spec fn is_before(self, other: Timestamp) -> bool {
        self.secs < other.secs || (self.secs == other.secs && self.nanos < other.nanos)
    }

    /// Builds an instant from seconds and nanoseconds.
    pub fn new(secs: i64, nanos: u32) -> (r: Timestamp)
        ensures
            r.secs == secs,
            r.nanos == nanos,
    {
        Timestamp { secs, nanos }
    }

    /// Whether `self` is strictly earlier than `other`.
    pub fn before(&self, other: &Timestamp) -> (r: bool)
        ensures
            r == self.is_before(*other),
    {
        self.secs < other.secs || (self.secs == other.secs && self.nanos < other.nanos)
    }
}

/// Ordering by `is_before` agrees with the count of nanoseconds for well-formed instants.
pub proof fn lemma_before_is_earlier(a: Timestamp, b: Timestamp)
    requires
        a.wf(),
        b.wf(),
    ensures
        a.is_before(b) <==> a.total_nanos() < b.total_nanos(),
{
    assert(a.is_before(b) <==> a.total_nanos() < b.total_nanos()) by (nonlinear_arith)
        requires
            a.nanos < 1_000_000_000,
            b.nanos < 1_000_000_000,
    ;
}

/// Calls `DateTime::<Utc>::checked_add_signed` with `TimeDelta::seconds(delta)`.
///
/// chrono's `checked_add_signed` adds the delta exactly and returns `None` when the
/// instant or the sum falls outside the range of `DateTime<Utc>`; `TimeDelta::seconds`
/// panics beyond `MAX_DELTA_SECS`, which `requires` leaves out.
#[verifier::external_body]
pub(crate) fn checked_add_seconds(t: Timestamp, delta: i64) -> (r: Option<Timestamp>)
    requires
        t.nanos < 1_000_000_000,
        -MAX_DELTA_SECS <= delta <= MAX_DELTA_SECS,
    ensures
        r is Some <==> (utc_secs_in_range(t.secs as int) && utc_secs_in_range(t.secs + delta)),
        r matches Some(u) ==> u == t.plus_secs(delta as int),
{
    let d = chrono::DateTime::<chrono::Utc>::from_timestamp(t.secs, t.nanos)?;
    let u = d.checked_add_signed(chrono::TimeDelta::seconds(delta))?;
    Some(Timestamp { secs: u.timestamp(), nanos: u.timestamp_subsec_nanos() })
}

/// Calls `chrono::Utc::now`. The reading comes from the system clock; all that holds of
/// every outcome is that it is a well-formed instant not before the epoch (chrono stops
/// with a panic when the clock reads earlier than the epoch).
#[verifier::external_body]
pub(crate) fn utc_now() -> (r: Timestamp)
    ensures
        r.wf(),
        r.secs >= 0,
{
    let now = chrono::Utc::now();
    Timestamp { secs: now.timestamp(), nanos: now.timestamp_subsec_nanos() }
}

/// `t` moved forward by `delta` seconds, where the result stays in range.
pub fn add_seconds(t: Timestamp, delta: i64) -> (r: Timestamp)
    requires
        t.wf(),
        0 <= delta <= MAX_DELTA_SECS,
        utc_secs_in_range(t.secs + delta),
    ensures
        r == t.plus_secs(delta as int),
        r.wf(),
{
    match checked_add_seconds(t, delta) {
        Some(u) => u,
        None => {
            assert(false);
            t
        },
    }
}

/// The current instant, as the system clock reads it: a well-formed instant not before
/// the epoch.
pub fn now() -> (r: Timestamp)
    ensures
        r.wf(),
        r.secs >= 0,
{
    utc_now()
}

/// The day number (days since 1970-01-01) of the UTC calendar day holding second `secs`.
pub open spec fn day_of(secs: int) -> int {
    secs / (SECONDS_PER_DAY as int)
}

/// The first instant of the UTC day holding `t` and the first instant of the next day,
/// as `date_naive().and_hms_opt(0, 0, 0)` and the same after adding one day give them.
pub fn utc_day_bounds(t: Timestamp) -> (r: (Timestamp, Timestamp))
    requires
        t.wf(),
        utc_secs_in_range(day_of(t.secs as int) * SECONDS_PER_DAY + SECONDS_PER_DAY),
    ensures
        r.0.secs == day_of(t.secs as int) * SECONDS_PER_DAY,
        r.0.nanos == 0,
        r.1.secs == r.0.secs + SECONDS_PER_DAY,
        r.1.nanos == 0,
        !t.is_before(r.0),
        t.is_before(r.1),
{
    let start: i64 = if t.secs >= 0 {
        let q: i64 = t.secs / SECONDS_PER_DAY;
        assert(q == day_of(t.secs as int));
        q * SECONDS_PER_DAY
    } else {
        let m: i64 = -(t.secs + 1);
        let q: i64 = m / SECONDS_PER_DAY;
        assert(-(q + 1) == day_of(t.secs as int)) by (nonlinear_arith)
            requires
                m == -(t.secs + 1),
                m >= 0,
                q == m / 86400,
                SECONDS_PER_DAY == 86400,
        ;
        -(q + 1) * SECONDS_PER_DAY
    };
    (Timestamp { secs: start, nanos: 0 }, Timestamp { secs: start + SECONDS_PER_DAY, nanos: 0 })
}

} // verus!
