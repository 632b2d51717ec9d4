use vstd::prelude::*;

verus! {

/// Seconds in one hour.
pub const SECS_PER_HOUR: i64 = 3600;

/// The last instant the library handles: 9999-12-31 23:59:59.
pub const LATEST_SECS: i64 = 253402300799;

/// An instant that the library can handle.
pub open spec fn in_range(t: int) -> bool {
    0 <= t <= LATEST_SECS
}

/// How often log files are archived; three hours when left unset.
#[derive(Debug, Clone, Copy, PartialEq, Eq, Structural)]
pub enum ArchiveDurantion {
    /// One hour.
    OneHour,
    /// Three hours.
    ThreeHour,
    /// Six hours.
    SixHour,
    /// Twelve hours.
    TwelveHour,
    /// One day.
    OneDay,
}

/// The length of an interval in whole hours.
pub open spec fn interval_hours(d: ArchiveDurantion) -> int {
    match d {
        ArchiveDurantion::OneHour => 1,
        ArchiveDurantion::ThreeHour => 3,
        ArchiveDurantion::SixHour => 6,
        ArchiveDurantion::TwelveHour => 12,
        ArchiveDurantion::OneDay => 24,
    }
}

/// The length of an interval in seconds.
pub open spec fn interval_secs(d: ArchiveDurantion) -> int {
    interval_hours(d) * 3600
}

/// The top of the hour that holds `t`: minutes and seconds zeroed.
pub open spec fn align_to_hour(t: int) -> int {
    t - t % 3600
}

/// The next rotation instant: the top of the current hour plus one interval.
pub open spec fn next_boundary_spec(now: int, d: ArchiveDurantion) -> int {
    align_to_hour(now) + interval_secs(d)
}

impl ArchiveDurantion {
    /// The length of this interval in seconds.
    pub fn get_durantion(&self) -> (r: i64)
        ensures
            r == interval_secs(*self),
    {
        match self {
            ArchiveDurantion::OneHour => SECS_PER_HOUR,
            ArchiveDurantion::ThreeHour => 3 * SECS_PER_HOUR,
            ArchiveDurantion::SixHour => 6 * SECS_PER_HOUR,
            ArchiveDurantion::TwelveHour => 12 * SECS_PER_HOUR,
            ArchiveDurantion::OneDay => 24 * SECS_PER_HOUR,
        }
    }
}

/// The largest instant whose next boundary an `i64` still holds.
pub const LATEST_BOUNDED: i64 = 9223372036854689407;

/// The next rotation instant after `now`.
pub fn next_boundary(now: i64, interval: ArchiveDurantion) -> (r: i64)
    requires
        now <= LATEST_BOUNDED,
    ensures
        r == next_boundary_spec(now as int, interval),
{
    let m = now % SECS_PER_HOUR;
    let m = if m < 0 {
        m + SECS_PER_HOUR
    } else {
        m
    };
    assert(m == now as int % 3600);
    now + interval.get_durantion() - m
}

/// The next boundary lies strictly after `now`, on the top of an hour, and a
/// whole positive number of intervals after the top of the hour of `now`.
pub proof fn lemma_next_boundary(now: int, interval: ArchiveDurantion)
    ensures
        next_boundary_spec(now, interval) > now,
        next_boundary_spec(now, interval) % 3600 == 0,
        exists|k: int|
            k >= 1 && #[trigger] (k * interval_secs(interval)) == next_boundary_spec(now, interval)
                - align_to_hour(now),
{
    let b = next_boundary_spec(now, interval);
    let h = interval_hours(interval);
    assert(0 <= now % 3600 < 3600);
    assert(b == (now / 3600 + h) * 3600) by (nonlinear_arith)
        requires
            b == now - now % 3600 + h * 3600,
            now == (now / 3600) * 3600 + now % 3600,
    {}
    assert(now == (now / 3600) * 3600 + now % 3600);
    assert(b % 3600 == 0) by (nonlinear_arith)
        requires
            b == (now / 3600 + h) * 3600,
    {}
    assert(1 * interval_secs(interval) == b - align_to_hour(now));
}

} // verus!
