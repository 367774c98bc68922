use vstd::prelude::*;
use chrono::{Datelike, Timelike};
use crate::text::{push_char, push_zero_padded, zero_padded};

verus! {

/// A local wall-clock time, field by field.
#[derive(Debug, Clone, Copy, PartialEq, Eq, Structural)]
pub struct LocalTime {
    pub year: i32,
    /// 1 to 12.
    pub month: u32,
    /// 1 to 31.
    pub day: u32,
    /// 0 to 23.
    pub hour: u32,
    /// 0 to 59.
    pub minute: u32,
    /// 0 to 59.
    pub second: u32,
    /// Nanoseconds within the second; 1_000_000_000 and above during a leap second.
    pub nanosecond: u32,
}

impl LocalTime {
    /// Every field lies in its calendar range.
    pub open spec fn wf(self) -> bool {
        &&& 1 <= self.month <= 12
        &&& 1 <= self.day <= 31
        &&& self.hour <= 23
        &&& self.minute <= 59
        &&& self.second <= 59
        &&& self.nanosecond < 2_000_000_000
    }

    /// Microseconds within the second, as shown in timestamps.
    pub open spec fn micros(self) -> nat {
        (self.nanosecond / 1000 % 1_000_000) as nat
    }
}

/// The year with at least four digits; a sign is added outside 0 to 9999.
pub open spec fn year_text(y: int) -> Seq<char> {
    if 0 <= y <= 9999 {
        zero_padded(y as nat, 4)
    } else if y < 0 {
        seq!['-'] + zero_padded((-y) as nat, 4)
    } else {
        seq!['+'] + zero_padded(y as nat, 4)
    }
}

/// A field of the date or time: two digits.
pub open spec fn two_digits(n: u32) -> Seq<char> {
    zero_padded(n as nat, 2)
}

/// `YYYY-MM-DD`.
pub open spec fn date_text(t: LocalTime) -> Seq<char> {
    year_text(t.year as int) + "-"@ + two_digits(t.month) + "-"@ + two_digits(t.day)
}

/// `HH:MM:SS.ffffff`, with microsecond precision.
pub open spec fn time_text(t: LocalTime) -> Seq<char> {
    two_digits(t.hour) + ":"@ + two_digits(t.minute) + ":"@ + two_digits(t.second) + "."@
        + zero_padded(t.micros(), 6)
}

/// The timestamp of a line: the date and a space when asked for, then the time.
pub open spec fn timestamp_text(t: LocalTime, include_date: bool) -> Seq<char> {
    if include_date {
        date_text(t) + " "@ + time_text(t)
    } else {
        time_text(t)
    }
}

/// `log_YYYYMMDD_HHMMSS.txt`.
pub open spec fn file_name_text(t: LocalTime) -> Seq<char> {
    "log_"@ + year_text(t.year as int) + two_digits(t.month) + two_digits(t.day) + "_"@
        + two_digits(t.hour) + two_digits(t.minute) + two_digits(t.second) + ".txt"@
}

/// Relies on chrono::Local::now and the Datelike / Timelike accessors, whose
/// documented ranges are the calendar ranges of each field.
#[verifier::external_body]
pub fn local_now() -> (r: LocalTime)
    ensures
        r.wf(),
{
    let now = chrono::Local::now();
    LocalTime {
        year: now.year(),
        month: now.month(),
        day: now.day(),
        hour: now.hour(),
        minute: now.minute(),
        second: now.second(),
        nanosecond: now.nanosecond(),
    }
}

/// Appends the year as `year_text` gives it.
pub fn push_year(s: &mut String, y: i32)
    ensures
        final(s)@ == old(s)@ + year_text(y as int),
{
    if 0 <= y && y <= 9999 {
        push_zero_padded(s, y as u64, 4);
    } else if y < 0 {
        push_char(s, '-');
        push_zero_padded(s, (0i64 - y as i64) as u64, 4);
        assert(final(s)@ =~= old(s)@ + year_text(y as int));
    } else {
        push_char(s, '+');
        push_zero_padded(s, y as u64, 4);
        assert(final(s)@ =~= old(s)@ + year_text(y as int));
    }
}

/// Appends the date, `YYYY-MM-DD`.
pub fn push_date(s: &mut String, t: &LocalTime)
    ensures
        final(s)@ == old(s)@ + date_text(*t),
{
    push_year(s, t.year);
    s.append("-");
    push_zero_padded(s, t.month as u64, 2);
    s.append("-");
    push_zero_padded(s, t.day as u64, 2);
    assert(final(s)@ =~= old(s)@ + date_text(*t));
}

/// Appends the time of day, `HH:MM:SS.ffffff`.
pub fn push_time(s: &mut String, t: &LocalTime)
    ensures
        final(s)@ == old(s)@ + time_text(*t),
{
    push_zero_padded(s, t.hour as u64, 2);
    s.append(":");
    push_zero_padded(s, t.minute as u64, 2);
    s.append(":");
    push_zero_padded(s, t.second as u64, 2);
    s.append(".");
    push_zero_padded(s, (t.nanosecond / 1000 % 1_000_000) as u64, 6);
    assert(final(s)@ =~= old(s)@ + time_text(*t));
}

/// The timestamp that starts a line.
pub fn timestamp(t: &LocalTime, include_date: bool) -> (r: String)
    ensures
        r@ == timestamp_text(*t, include_date),
{
    let mut s = String::new();
    if include_date {
        push_date(&mut s, t);
        s.append(" ");
    }
    push_time(&mut s, t);
    assert(s@ =~= timestamp_text(*t, include_date));
    s
}

/// The name of the log file opened at time `t`.
pub fn file_name(t: &LocalTime) -> (r: String)
    ensures
        r@ == file_name_text(*t),
{
    let mut s = String::from_str("log_");
    push_year(&mut s, t.year);
    push_zero_padded(&mut s, t.month as u64, 2);
    push_zero_padded(&mut s, t.day as u64, 2);
    s.append("_");
    push_zero_padded(&mut s, t.hour as u64, 2);
    push_zero_padded(&mut s, t.minute as u64, 2);
    push_zero_padded(&mut s, t.second as u64, 2);
    s.append(".txt");
    assert(s@ =~= file_name_text(*t));
    s
}

} // verus!
