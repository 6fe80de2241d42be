//! Log-file naming: one file per run, under `Logs/`, named with a fixed
//! timestamp pattern `rip_YYYY-MM-DD_HH-MM-SS.log` from the local clock.

use vstd::prelude::*;
use vstd::string::*;
use chrono::Datelike;
use chrono::Timelike;

verus! {

/// One reading of the local calendar clock, broken into fields.
#[derive(Copy, Clone, Debug, PartialEq, Eq, Structural)]
pub struct ClockFields {
    pub year: i32,
    /// 1 to 12.
    pub month: u8,
    /// 1 to 31.
    pub day: u8,
    /// 0 to 23.
    pub hour: u8,
    /// 0 to 59.
    pub minute: u8,
    /// 0 to 59.
    pub second: u8,
}

/// The field ranges that the calendar promises.
pub open spec fn valid_clock_fields(f: ClockFields) -> bool {
    &&& 1 <= f.month <= 12
    &&& 1 <= f.day <= 31
    &&& f.hour <= 23
    &&& f.minute <= 59
    &&& f.second <= 59
}

/// Relies on chrono::Local::now and the Datelike/Timelike accessors:
/// month runs from 1 to 12, day of month from 1 to 31, hour from 0 to 23,
/// minute and second from 0 to 59. Nothing is assumed of the year. Note
/// that chrono itself aborts the process when the host clock reads before
/// the Unix epoch; no argument of this function can exclude that
/// environment state.
#[verifier::external_body]
fn local_clock_fields() -> (r: ClockFields)
    ensures
        valid_clock_fields(r),
{
    let now = chrono::Local::now();
    ClockFields {
        year: now.year(),
        month: now.month() as u8,
        day: now.day() as u8,
        hour: now.hour() as u8,
        minute: now.minute() as u8,
        second: now.second() as u8,
    }
}

/// The character for one decimal digit.
pub open spec fn digit_char(d: int) -> char {
    if d == 0 {
        '0'
    } else if d == 1 {
        '1'
    } else if d == 2 {
        '2'
    } else if d == 3 {
        '3'
    } else if d == 4 {
        '4'
    } else if d == 5 {
        '5'
    } else if d == 6 {
        '6'
    } else if d == 7 {
        '7'
    } else if d == 8 {
        '8'
    } else {
        '9'
    }
}

/// A number below one hundred, zero-padded to two digits.
pub open spec fn two_digits(n: int) -> Seq<char> {
    seq![digit_char(n / 10), digit_char(n % 10)]
}

/// A number below ten thousand, zero-padded to four digits.
pub open spec fn four_digits(n: int) -> Seq<char> {
    two_digits(n / 100) + two_digits(n % 100)
}

/// The log-file name for a clock reading: the fixed pattern
/// `Logs/rip_YYYY-MM-DD_HH-MM-SS.log` with zero-padded fields.
pub open spec fn log_name_spec(f: ClockFields) -> Seq<char> {
    "Logs/rip_"@ + four_digits(f.year as int) + "-"@ + two_digits(f.month as int) + "-"@
        + two_digits(f.day as int) + "_"@ + two_digits(f.hour as int) + "-"@
        + two_digits(f.minute as int) + "-"@ + two_digits(f.second as int) + ".log"@
}

/// Append one decimal digit character.
fn push_digit(s: &mut String, d: u8)
    requires
        d < 10,
    ensures
        final(s)@ == old(s)@ + seq![digit_char(d as int)],
{
    proof {
        reveal_strlit("0");
        reveal_strlit("1");
        reveal_strlit("2");
        reveal_strlit("3");
        reveal_strlit("4");
        reveal_strlit("5");
        reveal_strlit("6");
        reveal_strlit("7");
        reveal_strlit("8");
        reveal_strlit("9");
    }
    match d {
        0 => s.append("0"),
        1 => s.append("1"),
        2 => s.append("2"),
        3 => s.append("3"),
        4 => s.append("4"),
        5 => s.append("5"),
        6 => s.append("6"),
        7 => s.append("7"),
        8 => s.append("8"),
        _ => s.append("9"),
    }
    assert(final(s)@ =~= old(s)@ + seq![digit_char(d as int)]);
}

/// Append a number below one hundred, zero-padded to two digits.
fn push_two_digits(s: &mut String, n: u8)
    requires
        n < 100,
    ensures
        final(s)@ == old(s)@ + two_digits(n as int),
{
    push_digit(s, n / 10);
    push_digit(s, n % 10);
    assert(final(s)@ =~= old(s)@ + two_digits(n as int));
}

/// Append a number below ten thousand, zero-padded to four digits.
fn push_four_digits(s: &mut String, n: u16)
    requires
        n < 10000,
    ensures
        final(s)@ == old(s)@ + four_digits(n as int),
{
    push_two_digits(s, (n / 100) as u8);
    push_two_digits(s, (n % 100) as u8);
    assert(final(s)@ =~= old(s)@ + four_digits(n as int));
}

/// Build the log-file name for a clock reading whose year has at most
/// four digits.
pub fn log_file_name(f: ClockFields) -> (r: String)
    requires
        valid_clock_fields(f),
        0 <= f.year <= 9999,
    ensures
        r@ == log_name_spec(f),
{
    let mut s = String::new();
    s.append("Logs/rip_");
    push_four_digits(&mut s, f.year as u16);
    s.append("-");
    push_two_digits(&mut s, f.month);
    s.append("-");
    push_two_digits(&mut s, f.day);
    s.append("_");
    push_two_digits(&mut s, f.hour);
    s.append("-");
    push_two_digits(&mut s, f.minute);
    s.append("-");
    push_two_digits(&mut s, f.second);
    s.append(".log");
    assert(s@ =~= log_name_spec(f));
    s
}

/// Whether a character sequence is the log-file name of some calendar
/// instant with a four-digit year.
pub open spec fn is_dated_log_name(s: Seq<char>) -> bool {
    exists|f: ClockFields|
        valid_clock_fields(f) && 0 <= f.year <= 9999 && s == #[trigger] log_name_spec(f)
}

/// The log-file name for this run, read from the local clock. `None` only
/// when the local year does not fit in four digits, in which case the run
/// has no well-formed name and the host treats it as a log-file failure.
pub fn current_log_file_name() -> (r: Option<String>)
    ensures
        r matches Some(name) ==> is_dated_log_name(name@),
{
    let f = local_clock_fields();
    if 0 <= f.year && f.year <= 9999 {
        let name = log_file_name(f);
        proof {
            assert(valid_clock_fields(f) && 0 <= f.year <= 9999 && name@ == log_name_spec(f));
        }
        Option::Some(name)
    } else {
        Option::None
    }
}

} // verus!
