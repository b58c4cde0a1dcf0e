use vstd::prelude::*;

verus! {

/// Microseconds in one second.
pub const MICROS_PER_SECOND: i64 = 1_000_000;

/// The earliest instant chrono represents: January 1 of the year -262143,
/// 00:00:00 UTC (`NaiveDateTime::MIN`), in microseconds since the epoch.
pub const MIN_INSTANT_MICROS: i64 = -8_334_601_228_800_000_000;

/// The latest whole microsecond chrono represents: December 31 of the year
/// 262142, 23:59:59.999999 UTC (within `NaiveDateTime::MAX`).
pub const MAX_INSTANT_MICROS: i64 = 8_210_266_876_799_999_999;

/// The text that chrono's `NaiveDateTime` display gives for the UTC instant
/// `micros` microseconds after the epoch: `YYYY-MM-DD HH:MM:SS`, followed by a
/// fraction of 3, 6 or 9 digits where the instant is not a whole second.
pub uninterp spec fn naive_utc_text(micros: int) -> Seq<char>;

/// Relies on chrono's `From<SystemTime> for DateTime<Utc>`, applied to
/// `SystemTime::now()` and read as whole microseconds since the epoch (negative
/// before it) by `DateTime::timestamp_micros`. The conversion takes a clock
/// before the epoch as well, and yields a `DateTime` in chrono's range, so the
/// instant read lies in that range; nothing else is known of it.
#[verifier::external_body]
pub(crate) fn now_micros() -> (r: i64)
    ensures
        MIN_INSTANT_MICROS <= r <= MAX_INSTANT_MICROS,
{
    chrono::DateTime::<chrono::Utc>::from(std::time::SystemTime::now()).timestamp_micros()
}

/// Relies on chrono's `DateTime::from_timestamp_micros`, shown through
/// `naive_utc` and `NaiveDateTime`'s `Display`. It returns `None` exactly for
/// an instant outside chrono's range.
#[verifier::external_body]
pub(crate) fn utc_text(micros: i64) -> (r: Option<String>)
    ensures
        r matches Some(s) ==> s@ == naive_utc_text(micros as int),
        r is Some <==> MIN_INSTANT_MICROS <= micros <= MAX_INSTANT_MICROS,
{
    chrono::DateTime::from_timestamp_micros(micros).map(|d| d.naive_utc().to_string())
}

} // verus!
