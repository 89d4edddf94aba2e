//! Rendering an epoch-seconds timestamp as `YYYY-MM-DD HH:MM:SS`.
//!
//! The calendar arithmetic is deliberately simple: every year counts
//! 365 days and February always 28, so dates drift from the civil
//! calendar; the rendering is for display beside file listings, not for
//! computation. Reading a file's modification time is I/O and stays
//! with the caller, which hands in the seconds since the epoch.

use vstd::prelude::*;
use crate::fmt::{append_pad2, append_pad4, spec_pad2, spec_pad4};

verus! {

/// The day count of each month, January first, in the fixed 365-day year.
pub open spec fn month_lengths() -> Seq<int> {
    seq![31, 28, 31, 30, 31, 30, 31, 31, 30, 31, 30, 31]
}

/// Walk the months from `i`, taking days off `d`, until a month holds
/// day `d`: the month (numbered from one) and the day left, or month
/// zero past December.
pub open spec fn find_month(d: int, i: int) -> (int, int)
    decreases 12 - i,
{
    if i < 0 || i >= 12 {
        (0, d)
    } else if d < month_lengths()[i] {
        (i + 1, d)
    } else {
        find_month(d - month_lengths()[i], i + 1)
    }
}

/// A clock-and-calendar reading of an epoch timestamp, in the fixed
/// 365-day calendar.
#[derive(Debug, Clone, Copy, PartialEq, Eq, Structural)]
pub struct Timestamp {
    /// Calendar year.
    pub year: u64,
    /// Month, from 1.
    pub month: u64,
    /// Day of the month, from 1.
    pub day: u64,
    /// Hour of the day.
    pub hour: u64,
    /// Minute of the hour.
    pub minute: u64,
    /// Second of the minute.
    pub second: u64,
}

/// The reading of `secs` seconds since the epoch: days of 86400
/// seconds, years of 365 days, and the month found by walking the fixed
/// month lengths (with December's last day standing in should the walk
/// ever run out).
pub open spec fn spec_timestamp(secs: u64) -> Timestamp {
    let days = secs as int / 86400;
    let in_day = secs as int % 86400;
    let year = 1970 + days / 365;
    let day_of_year = days % 365;
    let md = find_month(day_of_year, 0);
    let month = if md.0 == 0 {
        12
    } else {
        md.0
    };
    let day = if md.0 == 0 {
        31
    } else {
        md.1
    };
    Timestamp {
        year: year as u64,
        month: month as u64,
        day: (day + 1) as u64,
        hour: ((in_day / 3600) % 24) as u64,
        minute: ((in_day / 60) % 60) as u64,
        second: (in_day % 60) as u64,
    }
}

/// The length of month `i` (numbered from zero) in the fixed calendar.
fn month_length(i: usize) -> (r: u64)
    requires
        i < 12,
    ensures
        r == month_lengths()[i as int],
{
    if i == 0 {
        31
    } else if i == 1 {
        28
    } else if i == 2 {
        31
    } else if i == 3 {
        30
    } else if i == 4 {
        31
    } else if i == 5 {
        30
    } else if i == 6 {
        31
    } else if i == 7 {
        31
    } else if i == 8 {
        30
    } else if i == 9 {
        31
    } else if i == 10 {
        30
    } else {
        31
    }
}

/// Read an epoch timestamp as year, month, day and time of day.
pub fn decompose_timestamp(secs: u64) -> (t: Timestamp)
    ensures
        t == spec_timestamp(secs),
        1 <= t.month <= 12,
        1 <= t.day <= 32,
        t.hour < 24,
        t.minute < 60,
        t.second < 60,
{
    let days: u64 = secs / 86400;
    let in_day: u64 = secs % 86400;
    let year: u64 = 1970 + days / 365;
    let day_of_year: u64 = days % 365;

    let mut i: usize = 0;
    let mut d: u64 = day_of_year;
    let mut month: u64 = 0;
    let mut found = false;
    while i < 12 && !found
        invariant
            0 <= i <= 12,
            !found ==> find_month(day_of_year as int, 0) == find_month(d as int, i as int),
            found ==> (
            find_month(day_of_year as int, 0) == (month as int, d as int) && 1 <= month <= 12
                && d < 31),
        decreases 12 - i, (if found { 0int } else { 1int }),
    {
        let len = month_length(i);
        if d < len {
            month = (i as u64) + 1;
            found = true;
        } else {
            d = d - len;
            i = i + 1;
        }
    }
    let day: u64 = if found {
        d
    } else {
        31
    };
    let month: u64 = if found {
        month
    } else {
        12
    };
    Timestamp {
        year,
        month,
        day: day + 1,
        hour: (in_day / 3600) % 24,
        minute: (in_day / 60) % 60,
        second: in_day % 60,
    }
}

/// The rendering `YYYY-MM-DD HH:MM:SS` of a timestamp reading.
pub open spec fn spec_format_timestamp(secs: u64) -> Seq<char> {
    let t = spec_timestamp(secs);
    spec_pad4(t.year as nat) + "-"@ + spec_pad2(t.month as int) + "-"@ + spec_pad2(t.day as int)
        + " "@ + spec_pad2(t.hour as int) + ":"@ + spec_pad2(t.minute as int) + ":"@ + spec_pad2(
        t.second as int,
    )
}

/// Render an epoch timestamp as `YYYY-MM-DD HH:MM:SS`.
pub fn format_timestamp(secs: u64) -> (r: String)
    ensures
        r@ == spec_format_timestamp(secs),
{
    let t = decompose_timestamp(secs);
    let mut out = String::new();
    append_pad4(&mut out, t.year);
    proof {
        reveal_strlit("-");
        reveal_strlit(" ");
        reveal_strlit(":");
    }
    out.append("-");
    append_pad2(&mut out, t.month);
    out.append("-");
    append_pad2(&mut out, t.day);
    out.append(" ");
    append_pad2(&mut out, t.hour);
    out.append(":");
    append_pad2(&mut out, t.minute);
    out.append(":");
    append_pad2(&mut out, t.second);
    proof {
        assert(out@ =~= spec_format_timestamp(secs));
    }
    out
}

} // verus!
