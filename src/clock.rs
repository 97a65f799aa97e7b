//! Wall-clock text for epoch timestamps.
use vstd::prelude::*;
use crate::payload::UNAVAILABLE;

verus! {

/// Whether the UTC date `seconds` after the epoch lies within the dates that
/// chrono can represent (about years -262143 to 262142).
pub uninterp spec fn in_date_range(seconds: int) -> bool;

/// The two decimal digits of `n`, for `0 <= n < 100`.
pub open spec fn two_digits(n: int) -> Seq<char> {
    let digits = seq!['0', '1', '2', '3', '4', '5', '6', '7', '8', '9'];
    seq![digits[n / 10], digits[n % 10]]
}

/// The `hh:mm am` text of the UTC time of day `seconds` after the epoch:
/// the 12-hour hour and the minute, two digits each, then `am` or `pm`.
pub open spec fn clock_text(seconds: int) -> Seq<char> {
    let t = seconds % 86400;
    let h = t / 3600;
    let m = (t % 3600) / 60;
    let h12 = if h % 12 == 0 {
        12
    } else {
        h % 12
    };
    two_digits(h12) + seq![':'] + two_digits(m) + if h < 12 {
        seq![' ', 'a', 'm']
    } else {
        seq![' ', 'p', 'm']
    }
}

/// Relies on chrono's `DateTime::from_timestamp(seconds, 0)`, which splits
/// `seconds` into whole UTC days and seconds of the day and gives none where
/// the day falls outside `NaiveDate`'s years (-262143 to 262142), and on its
/// `format("%0I:%M %P")`: zero-padded 12-hour hour, zero-padded minute,
/// lowercase `am`/`pm`.
#[verifier::external_body]
fn clock_of(seconds: i64) -> (r: Option<String>)
    ensures
        r is Some <==> in_date_range(seconds as int),
        -7_776_000_000_000 <= seconds <= 7_776_000_000_000 ==> r is Some,
        match r {
            Some(s) => s@ == clock_text(seconds as int),
            None => true,
        },
{
    match chrono::DateTime::from_timestamp(seconds, 0) {
        Some(t) => Some(t.format("%0I:%M %P").to_string()),
        None => None,
    }
}

/// The displayed time of day of a timestamp: its clock text, or the
/// placeholder where its date cannot be represented.
pub open spec fn time_text(seconds: i64) -> Seq<char> {
    if in_date_range(seconds as int) {
        clock_text(seconds as int)
    } else {
        UNAVAILABLE@
    }
}

/// The time of day `seconds` after the epoch, as `hh:mm am` text.
pub fn convert_time(seconds: i64) -> (r: String)
    ensures
        r@ == time_text(seconds),
        -7_776_000_000_000 <= seconds <= 7_776_000_000_000 ==> r@ == clock_text(seconds as int),
{
    match clock_of(seconds) {
        Some(t) => t,
        None => String::from_str(UNAVAILABLE),
    }
}

/// Converting a timestamp is deterministic: two results for the same
/// timestamp are the same text.
pub proof fn lemma_convert_time_deterministic(seconds: i64, first: Seq<char>, second: Seq<char>)
    requires
        first == time_text(seconds),
        second == time_text(seconds),
    ensures
        first == second,
{
}

/// The clock text is always eight characters, and repeats every day.
pub proof fn lemma_clock_text_daily(seconds: int)
    ensures
        clock_text(seconds).len() == 8,
        clock_text(seconds + 86400) == clock_text(seconds),
{
    assert((seconds + 86400) % 86400 == seconds % 86400);
    let t = seconds % 86400;
    let h = t / 3600;
    let m = (t % 3600) / 60;
    assert(0 <= h < 24);
    assert(0 <= m < 60);
}

} // verus!
