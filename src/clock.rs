use vstd::prelude::*;

use crate::user::Timestamp;

verus! {

/// Relies on chrono's `From<SystemTime> for DateTime<Utc>` and
/// `DateTime::timestamp_micros` for the current instant in UTC; the
/// conversion also takes readings before 1970. The clock may stand still or
/// go back between two readings, so only a bound is promised: a
/// `DateTime<Utc>` lies within `DateTime::MAX_UTC` (the end of the year
/// 262142), whose count of microseconds is far below `i64::MAX`.
#[verifier::external_body]
pub(crate) fn now() -> (t: Timestamp)
    ensures
        t.micros < i64::MAX,
{
    Timestamp {
        micros: chrono::DateTime::<chrono::Utc>::from(std::time::SystemTime::now()).timestamp_micros(),
    }
}

} // verus!
