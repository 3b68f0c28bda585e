//! The system clock, read in UTC, and the text that the shell hands out for it.

use crate::civil::UtcDateTime;
use crate::text::{
    has_fixed_layout, lemma_text_has_fixed_layout, rfc3339_millis_text, write_rfc3339_millis,
};
use chrono::{Datelike, Timelike};
use vstd::prelude::*;

verus! {

/// The year of the Unix epoch. The clock is never read as earlier.
pub const EPOCH_YEAR: i32 = 1970;

/// What every reading of the clock is: a moment of the calendar, not before
/// the year of the epoch.
pub open spec fn is_clock_reading(t: UtcDateTime) -> bool {
    t.wf() && t.year >= EPOCH_YEAR
}

/// Whether `s` is the text of some reading of the clock.
pub open spec fn is_clock_text(s: Seq<char>) -> bool {
    exists|t: UtcDateTime| is_clock_reading(t) && #[trigger] rfc3339_millis_text(t) == s
}

/// Reads the system clock with `chrono::Utc::now` and takes the reading apart
/// with the getters of `Datelike` and `Timelike`. Believed, not proved: the
/// fields name a moment of the calendar, with no leap second, and the year is
/// 1970 or later, because `Utc::now` counts from the Unix epoch and does not
/// return where the system's clock stands before it. Nothing is said of which
/// moment it is: two readings may differ in any way.
#[verifier::external_body]
fn read_utc_clock() -> (t: UtcDateTime)
    ensures
        is_clock_reading(t),
{
    let now = chrono::Utc::now();
    UtcDateTime {
        year: now.year(),
        month: now.month(),
        day: now.day(),
        hour: now.hour(),
        minute: now.minute(),
        second: now.second(),
        nanosecond: now.nanosecond(),
    }
}

/// The current time in UTC as RFC 3339 text with millisecond precision and the
/// designator `Z`, such as `2024-05-01T12:34:56.789Z`. The text is that of one
/// reading of the clock; it has the fixed layout `YYYY-MM-DDTHH:MM:SS.sssZ`
/// unless the clock stands past the year 9999, where the year is written with
/// a `+` and five or more digits.
pub fn get_current_time_iso() -> (s: String)
    ensures
        is_clock_text(s@),
        has_fixed_layout(s@) || s@.first() == '+',
{
    let t = read_utc_clock();
    let s = write_rfc3339_millis(&t);
    proof {
        if t.year <= 9999 {
            lemma_text_has_fixed_layout(t);
        }
    }
    s
}

/// The same text under the command's other name.
pub fn get_current_timestamp() -> (s: String)
    ensures
        is_clock_text(s@),
        has_fixed_layout(s@) || s@.first() == '+',
{
    get_current_time_iso()
}

} // verus!
