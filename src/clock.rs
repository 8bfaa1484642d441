use crate::text::{two_digit_text, two_digits};
use chrono::Timelike;
use vstd::prelude::*;

verus! {

/// Hour and minute of the wall clock in Lisbon at a Unix time, or `None`
/// where that time lies outside the calendar's range.
pub uninterp spec fn lisbon_hour_minute(unix_secs: i64) -> Option<(u32, u32)>;

/// Relies on chrono's `DateTime::from_timestamp` (`None` out of range) and on
/// chrono-tz's `Europe::Lisbon` rules through `with_timezone`; the hour of
/// `NaiveTime` is 0 to 23 and its minute 0 to 59.
#[verifier::external_body]
pub(crate) fn lisbon_clock(unix_secs: i64) -> (r: Option<(u32, u32)>)
    ensures
        r == lisbon_hour_minute(unix_secs),
        r matches Some(hm) ==> hm.0 < 24 && hm.1 < 60,
{
    match chrono::DateTime::from_timestamp(unix_secs, 0) {
        Some(utc) => {
            let local = utc.with_timezone(&chrono_tz::Europe::Lisbon).time();
            Some((local.hour(), local.minute()))
        },
        None => None,
    }
}

/// "HH:MM" for an hour and a minute.
pub open spec fn clock_label(hour: nat, minute: nat) -> Seq<char> {
    two_digits(hour) + seq![':'] + two_digits(minute)
}

/// The clock text "HH:MM" for an hour below 24 and a minute below 60;
/// seconds are not shown.
pub fn clock_text(hour: u32, minute: u32) -> (r: String)
    requires
        hour < 24,
        minute < 60,
    ensures
        r@ == clock_label(hour as nat, minute as nat),
{
    let mut r = two_digit_text(hour);
    let m = two_digit_text(minute);
    proof {
        reveal_strlit(":");
    }
    r.append(":");
    r.append(m.as_str());
    r
}

/// The Lisbon wall-clock text "HH:MM" at a Unix time, if that time has one.
pub fn lisbon_time_text(unix_secs: i64) -> (r: Option<String>)
    ensures
        match lisbon_hour_minute(unix_secs) {
            Some(hm) => r matches Some(t) && t@ == clock_label(hm.0 as nat, hm.1 as nat),
            None => r is None,
        },
{
    match lisbon_clock(unix_secs) {
        Some((h, m)) => Some(clock_text(h, m)),
        None => None,
    }
}

} // verus!
