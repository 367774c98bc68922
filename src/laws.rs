use vstd::prelude::*;
use crate::clock::{file_name_text, timestamp_text, two_digits, year_text, LocalTime};
use crate::level::LogLevel;
use crate::logger::{colored, fragments_text, line_text, Fragment, LoggerState};
use crate::text::{
    decimal_value, is_digit, lemma_zero_padded_digits, lemma_zero_padded_len,
    lemma_zero_padded_value, pow10, zero_padded,
};

verus! {

/// After any record and its flush the buffer is empty and the level is `Info`,
/// whichever sinks took the line.
pub proof fn lemma_flush_clears_record(m: LoggerState, level: LogLevel, fs: Seq<Fragment>)
    ensures
        m.recorded(level, fs).flushed().buffer.len() == 0,
        m.recorded(level, fs).flushed().level == LogLevel::Info,
{
}

/// A record reaches the console exactly when its level is at least the console
/// threshold, in the order `Verbose < Debug < Info < Warning < Error < Fatal < Fixed`;
/// the file sink's settings play no part in it.
pub proof fn lemma_console_gate(m: LoggerState, t: LocalTime, file_threshold: LogLevel, path: Option<Seq<char>>, icons: bool)
    ensures
        m.console_line(t).is_some() <==> m.level.rank() >= m.console_threshold.rank(),
        LogLevel::Verbose.rank() < LogLevel::Debug.rank() < LogLevel::Info.rank() < LogLevel::Warning.rank()
            < LogLevel::Error.rank() < LogLevel::Fatal.rank() < LogLevel::Fixed.rank(),
        (LoggerState { file_threshold, log_file_path: path, use_icons_in_file: icons, ..m }).console_line(t)
            == m.console_line(t),
{
}

/// Switching file logging on twice names one file only, keeps it, and the
/// second time asks for no file; switching it off while off changes nothing.
pub proof fn lemma_enable_twice(m: LoggerState, t1: LocalTime, t2: LocalTime)
    ensures
        m.enabled_at(t1).enabled_at(t2) == m.enabled_at(t1),
        m.enabled_at(t1).file_to_create(t2).is_none(),
        m.log_file_path.is_none() ==> m.disabled() == m,
{
}

/// Two records made one after the other on a logger between records each give
/// lines made of their own fragments only.
pub proof fn lemma_records_do_not_mix(
    m: LoggerState,
    la: LogLevel,
    a: Seq<Fragment>,
    lb: LogLevel,
    b: Seq<Fragment>,
    t1: LocalTime,
    t2: LocalTime,
)
    requires
        m.buffer.len() == 0,
    ensures
        m.recorded(la, a).buffer == fragments_text(a),
        m.recorded(la, a).flushed().recorded(lb, b).buffer == fragments_text(b),
        m.recorded(la, a).console_line(t1) == if la.rank() >= m.console_threshold.rank() {
            Some(colored(m.use_colors, la, line_text(timestamp_text(t1, m.include_date), la.label_text(), fragments_text(a))))
        } else {
            None
        },
        m.recorded(la, a).flushed().recorded(lb, b).console_line(t2) == if lb.rank() >= m.console_threshold.rank() {
            Some(colored(m.use_colors, lb, line_text(timestamp_text(t2, m.include_date), lb.label_text(), fragments_text(b))))
        } else {
            None
        },
{
    assert(m.recorded(la, a).buffer =~= fragments_text(a));
    assert(m.recorded(la, a).flushed().recorded(lb, b).buffer =~= fragments_text(b));
}

/// Two times that fall in the same second.
pub open spec fn same_second(t1: LocalTime, t2: LocalTime) -> bool {
    &&& t1.year == t2.year
    &&& t1.month == t2.month
    &&& t1.day == t2.day
    &&& t1.hour == t2.hour
    &&& t1.minute == t2.minute
    &&& t1.second == t2.second
}

/// Switching file logging off and on again at a later second asks for a fresh
/// file whose name differs from the one opened before.
pub proof fn lemma_reenable_new_file(m: LoggerState, t1: LocalTime, t2: LocalTime)
    requires
        t1.wf(),
        t2.wf(),
        m.log_file_path == Some(file_name_text(t1)),
        !same_second(t1, t2),
    ensures
        m.disabled().file_to_create(t2) == Some(file_name_text(t2)),
        m.disabled().enabled_at(t2).log_file_path == Some(file_name_text(t2)),
        file_name_text(t2) != file_name_text(t1),
{
    if file_name_text(t2) == file_name_text(t1) {
        lemma_file_name_injective(t1, t2);
    }
}

proof fn lemma_split(a1: Seq<char>, b1: Seq<char>, a2: Seq<char>, b2: Seq<char>)
    requires
        a1 + b1 == a2 + b2,
        a1.len() == a2.len() || b1.len() == b2.len(),
    ensures
        a1 == a2,
        b1 == b2,
{
    let s = a1 + b1;
    assert(a1 =~= s.subrange(0, a1.len() as int));
    assert(a2 =~= s.subrange(0, a2.len() as int));
    assert(b1 =~= s.subrange(a1.len() as int, s.len() as int));
    assert(b2 =~= s.subrange(a2.len() as int, s.len() as int));
}

proof fn lemma_two_digits(n: u32)
    requires
        n < 100,
    ensures
        two_digits(n).len() == 2,
        decimal_value(two_digits(n)) == n,
{
    reveal_with_fuel(pow10, 3);
    lemma_zero_padded_len(n as nat, 2);
    lemma_zero_padded_value(n as nat, 2);
}

proof fn lemma_two_digits_injective(n1: u32, n2: u32)
    requires
        n1 < 100,
        n2 < 100,
        two_digits(n1) == two_digits(n2),
    ensures
        n1 == n2,
{
    lemma_two_digits(n1);
    lemma_two_digits(n2);
}

proof fn lemma_year_text_injective(y1: int, y2: int)
    requires
        year_text(y1) == year_text(y2),
    ensures
        y1 == y2,
{
    reveal_with_fuel(pow10, 5);
    assert(!is_digit('-') && !is_digit('+'));
    let s = year_text(y1);
    if 0 <= y1 <= 9999 {
        lemma_zero_padded_len(y1 as nat, 4);
        lemma_zero_padded_digits(y1 as nat, 4);
        assert(is_digit(s[0]));
    }
    if 0 <= y2 <= 9999 {
        lemma_zero_padded_len(y2 as nat, 4);
        lemma_zero_padded_digits(y2 as nat, 4);
        assert(is_digit(year_text(y2)[0]));
    }
    if y1 < 0 {
        assert(s[0] == '-');
    } else if y1 > 9999 {
        assert(s[0] == '+');
    }
    if y2 < 0 {
        assert(year_text(y2)[0] == '-');
    } else if y2 > 9999 {
        assert(year_text(y2)[0] == '+');
    }
    if 0 <= y1 <= 9999 && 0 <= y2 <= 9999 {
        lemma_zero_padded_value(y1 as nat, 4);
        lemma_zero_padded_value(y2 as nat, 4);
    } else if y1 < 0 && y2 < 0 {
        lemma_split(seq!['-'], zero_padded((-y1) as nat, 4), seq!['-'], zero_padded((-y2) as nat, 4));
        lemma_zero_padded_value((-y1) as nat, 4);
        lemma_zero_padded_value((-y2) as nat, 4);
    } else if y1 > 9999 && y2 > 9999 {
        lemma_split(seq!['+'], zero_padded(y1 as nat, 4), seq!['+'], zero_padded(y2 as nat, 4));
        lemma_zero_padded_value(y1 as nat, 4);
        lemma_zero_padded_value(y2 as nat, 4);
    }
}

/// Log files opened in different seconds have different names.
pub proof fn lemma_file_name_injective(t1: LocalTime, t2: LocalTime)
    requires
        t1.wf(),
        t2.wf(),
        file_name_text(t1) == file_name_text(t2),
    ensures
        same_second(t1, t2),
{
    lemma_two_digits(t1.month);
    lemma_two_digits(t1.day);
    lemma_two_digits(t1.hour);
    lemma_two_digits(t1.minute);
    lemma_two_digits(t1.second);
    lemma_two_digits(t2.month);
    lemma_two_digits(t2.day);
    lemma_two_digits(t2.hour);
    lemma_two_digits(t2.minute);
    lemma_two_digits(t2.second);
    let y1 = "log_"@ + year_text(t1.year as int);
    let y2 = "log_"@ + year_text(t2.year as int);
    let m1 = y1 + two_digits(t1.month);
    let m2 = y2 + two_digits(t2.month);
    let d1 = m1 + two_digits(t1.day);
    let d2 = m2 + two_digits(t2.day);
    let u1 = d1 + "_"@;
    let u2 = d2 + "_"@;
    let h1 = u1 + two_digits(t1.hour);
    let h2 = u2 + two_digits(t2.hour);
    let n1 = h1 + two_digits(t1.minute);
    let n2 = h2 + two_digits(t2.minute);
    let s1 = n1 + two_digits(t1.second);
    let s2 = n2 + two_digits(t2.second);
    lemma_split(s1, ".txt"@, s2, ".txt"@);
    lemma_split(n1, two_digits(t1.second), n2, two_digits(t2.second));
    lemma_split(h1, two_digits(t1.minute), h2, two_digits(t2.minute));
    lemma_split(u1, two_digits(t1.hour), u2, two_digits(t2.hour));
    lemma_split(d1, "_"@, d2, "_"@);
    lemma_split(m1, two_digits(t1.day), m2, two_digits(t2.day));
    lemma_split(y1, two_digits(t1.month), y2, two_digits(t2.month));
    lemma_split("log_"@, year_text(t1.year as int), "log_"@, year_text(t2.year as int));
    lemma_two_digits_injective(t1.month, t2.month);
    lemma_two_digits_injective(t1.day, t2.day);
    lemma_two_digits_injective(t1.hour, t2.hour);
    lemma_two_digits_injective(t1.minute, t2.minute);
    lemma_two_digits_injective(t1.second, t2.second);
    lemma_year_text_injective(t1.year as int, t2.year as int);
}

} // verus!
