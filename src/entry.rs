use vstd::prelude::*;
use crate::time::{MAX_INSTANT_MICROS, MIN_INSTANT_MICROS, naive_utc_text, now_micros, utc_text};

verus! {

/// One row of the append-only usage log, as the library hands it to storage:
/// when it was written, as naive UTC text, and the running total it records.
/// The store adds the sequence id, and the total in hours.
pub struct UsageLogEntry {
    pub timestamp: String,
    pub total_micros: u64,
}

impl UsageLogEntry {
    /// The entry that records `total_micros` as written at `at`, or `None`
    /// where `at` lies outside the instants that chrono represents.
    pub fn at(total_micros: u64, at: i64) -> (r: Option<UsageLogEntry>)
        ensures
            r is Some <==> MIN_INSTANT_MICROS <= at <= MAX_INSTANT_MICROS,
            r matches Some(e) ==> e.timestamp@ == naive_utc_text(at as int) && e.total_micros
                == total_micros,
    {
        match utc_text(at) {
            Some(text) => Some(UsageLogEntry { timestamp: text, total_micros }),
            None => None,
        }
    }

    /// The entry that records `total_micros` as written now.
    pub fn now(total_micros: u64) -> (r: UsageLogEntry)
        ensures
            r.total_micros == total_micros,
            exists|t: int|
                #![trigger naive_utc_text(t)]
                MIN_INSTANT_MICROS <= t <= MAX_INSTANT_MICROS && r.timestamp@ == naive_utc_text(t),
    {
        let t = now_micros();
        match UsageLogEntry::at(total_micros, t) {
            Some(entry) => entry,
            None => unreached(),
        }
    }
}

} // verus!
