use vstd::prelude::*;
use crate::clock::LATEST_SECS;

verus! {

/// The hour stamp `YYYYMMDDHH` of an instant, as chrono formats it.
pub uninterp spec fn hour_stamp_of(secs: int) -> Seq<char>;

/// The clock text `YYYY-MM-DD HH:MM:SS` of an instant, as chrono formats it.
pub uninterp spec fn clock_text_of(secs: int) -> Seq<char>;

/// Relies on chrono's `DateTime::from_timestamp`, which returns `Some` for every
/// instant in years 1970 through 9999, and on its `format("%Y%m%d%H")`, whose
/// text depends on the instant alone.
#[verifier::external_body]
pub(crate) fn hour_stamp(secs: i64) -> (r: String)
    requires
        0 <= secs <= LATEST_SECS,
    ensures
        r@ == hour_stamp_of(secs as int),
{
    let t = chrono::DateTime::from_timestamp(secs, 0).expect("instant in range");
    t.format("%Y%m%d%H").to_string()
}

/// Relies on chrono's `DateTime::from_timestamp`, which returns `Some` for every
/// instant in years 1970 through 9999, and on its `format("%Y-%m-%d %H:%M:%S")`,
/// whose text depends on the instant alone.
#[verifier::external_body]
pub(crate) fn clock_text(secs: i64) -> (r: String)
    requires
        0 <= secs <= LATEST_SECS,
    ensures
        r@ == clock_text_of(secs as int),
{
    let t = chrono::DateTime::from_timestamp(secs, 0).expect("instant in range");
    t.format("%Y-%m-%d %H:%M:%S").to_string()
}

} // verus!
