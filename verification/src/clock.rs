//! The one window onto the system clock: a trusted reading of the local
//! date and time as plain field values. Everything computed from it is
//! verified against whatever values it returns.

use chrono::Datelike;
use chrono::Timelike;
use vstd::prelude::*;

verus! {

/// The local civil date and wall-clock time now, as
/// `(year, month, day, hour, minute, second)`.
///
/// Relies on `chrono::Local::now` and chrono's `Datelike` / `Timelike`
/// accessors: month is 1 to 12, day of month 1 to 31, hour 0 to 23, minute
/// 0 to 59, second 0 to 59 (never 60, even during a leap second). The year
/// is whatever the clock says; nothing more is assumed of it.
#[verifier::external_body]
pub(crate) fn local_now_fields() -> (r: (i32, u32, u32, u32, u32, u32))
    ensures
        1 <= r.1 <= 12,
        1 <= r.2 <= 31,
        r.3 <= 23,
        r.4 <= 59,
        r.5 <= 59,
{
    let now = chrono::Local::now();
    (now.year(), now.month(), now.day(), now.hour(), now.minute(), now.second())
}

} // verus!
