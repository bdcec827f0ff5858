//! The output artifact's path: `Captures/screen_recording_<timestamp>.mp4`,
//! where the timestamp is the capture start time written as
//! `YYYY-MM-DD_HH-MM-SS` with zero-padded components. The path is built here
//! from plain calendar fields and proved equal to that pattern; only reading
//! the clock itself is trusted to chrono.

use vstd::prelude::*;
use chrono::Datelike;
use chrono::Timelike;

verus! {

/// A local calendar time, reduced to the fields the output path shows.
pub struct Timestamp {
    pub year: i32,
    pub month: u8,
    pub day: u8,
    pub hour: u8,
    pub minute: u8,
    pub second: u8,
}

impl Timestamp {
    /// The field ranges of a calendar time whose year fits the four-digit,
    /// zero-padded pattern.
    pub open spec fn wf(self) -> bool {
        &&& 0 <= self.year <= 9999
        &&& 1 <= self.month <= 12
        &&& 1 <= self.day <= 31
        &&& self.hour <= 23
        &&& self.minute <= 59
        &&& self.second <= 59
    }
}

/// The decimal digit character for `d`, for `0 <= d <= 9`.
pub open spec fn digit_char(d: int) -> char {
    if d == 0 {
        '0'
    } else if d == 1 {
        '1'
    } else if d == 2 {
        '2'
    } else if d == 3 {
        '3'
    } else if d == 4 {
        '4'
    } else if d == 5 {
        '5'
    } else if d == 6 {
        '6'
    } else if d == 7 {
        '7'
    } else if d == 8 {
        '8'
    } else {
        '9'
    }
}

pub open spec fn is_digit_char(c: char) -> bool {
    ||| c == '0'
    ||| c == '1'
    ||| c == '2'
    ||| c == '3'
    ||| c == '4'
    ||| c == '5'
    ||| c == '6'
    ||| c == '7'
    ||| c == '8'
    ||| c == '9'
}

/// `n` written as exactly two decimal digits, zero-padded.
pub open spec fn two_digits(n: int) -> Seq<char> {
    seq![digit_char(n / 10 % 10), digit_char(n % 10)]
}

/// `n` written as exactly four decimal digits, zero-padded.
pub open spec fn four_digits(n: int) -> Seq<char> {
    seq![
        digit_char(n / 1000 % 10),
        digit_char(n / 100 % 10),
        digit_char(n / 10 % 10),
        digit_char(n % 10),
    ]
}

/// The timestamp written as `YYYY-MM-DD_HH-MM-SS`.
pub open spec fn timestamp_chars(ts: Timestamp) -> Seq<char> {
    four_digits(ts.year as int) + "-"@ + two_digits(ts.month as int) + "-"@ + two_digits(
        ts.day as int,
    ) + "_"@ + two_digits(ts.hour as int) + "-"@ + two_digits(ts.minute as int) + "-"@
        + two_digits(ts.second as int)
}

/// The whole output path for a recording started at `ts`.
pub open spec fn output_path_chars(ts: Timestamp) -> Seq<char> {
    "Captures/screen_recording_"@ + timestamp_chars(ts) + ".mp4"@
}

/// Position `j` of the 19-character timestamp `YYYY-MM-DD_HH-MM-SS`: a
/// separator at its five fixed places, a decimal digit everywhere else.
pub open spec fn pattern_char_ok(c: char, j: int) -> bool {
    if j == 4 || j == 7 || j == 13 || j == 16 {
        c == '-'
    } else if j == 10 {
        c == '_'
    } else {
        is_digit_char(c)
    }
}

/// What it means to match the pattern
/// `Captures/screen_recording_YYYY-MM-DD_HH-MM-SS.mp4`: the fixed prefix,
/// nineteen timestamp characters with separators at their fixed places and
/// decimal digits everywhere else, and the fixed suffix.
pub open spec fn matches_output_pattern(s: Seq<char>) -> bool {
    &&& s.len() == 49
    &&& s.subrange(0, 26) == "Captures/screen_recording_"@
    &&& forall|j: int| 0 <= j < 19 ==> #[trigger] pattern_char_ok(s[26 + j], j)
    &&& s.subrange(45, 49) == ".mp4"@
}

/// Law: the output path of every well-formed timestamp matches the pattern
/// `Captures/screen_recording_YYYY-MM-DD_HH-MM-SS.mp4`, with zero-padded
/// components.
pub proof fn lemma_output_path_matches_pattern(ts: Timestamp)
    requires
        ts.wf(),
    ensures
        matches_output_pattern(output_path_chars(ts)),
{
    reveal_strlit("Captures/screen_recording_");
    reveal_strlit("-");
    reveal_strlit("_");
    reveal_strlit(".mp4");
    let s = output_path_chars(ts);
    let t = timestamp_chars(ts);
    assert(t.len() == 19);
    assert(s.len() == 49);
    assert(s.subrange(0, 26) =~= "Captures/screen_recording_"@);
    assert(s.subrange(45, 49) =~= ".mp4"@);
    assert forall|j: int| 0 <= j < 19 implies #[trigger] pattern_char_ok(s[26 + j], j) by {
        assert(s[26 + j] == t[j]);
    }
}

/// The one-character string for the digit `d`.
fn digit_str(d: u8) -> (s: &'static str)
    requires
        d <= 9,
    ensures
        s@ == seq![digit_char(d as int)],
{
    proof {
        reveal_strlit("0");
        reveal_strlit("1");
        reveal_strlit("2");
        reveal_strlit("3");
        reveal_strlit("4");
        reveal_strlit("5");
        reveal_strlit("6");
        reveal_strlit("7");
        reveal_strlit("8");
        reveal_strlit("9");
    }
    let s = match d {
        0 => "0",
        1 => "1",
        2 => "2",
        3 => "3",
        4 => "4",
        5 => "5",
        6 => "6",
        7 => "7",
        8 => "8",
        _ => "9",
    };
    proof {
        assert(s@ =~= seq![digit_char(d as int)]);
    }
    s
}

/// Appends `n` as two zero-padded decimal digits.
fn push_two_digits(s: &mut String, n: u8)
    requires
        n <= 99,
    ensures
        final(s)@ == old(s)@ + two_digits(n as int),
{
    s.append(digit_str(n / 10));
    s.append(digit_str(n % 10));
    proof {
        assert(n / 10 % 10 == n as int / 10 % 10);
        assert(s@ =~= old(s)@ + two_digits(n as int));
    }
}

/// Appends `n` as four zero-padded decimal digits.
fn push_four_digits(s: &mut String, n: i32)
    requires
        0 <= n <= 9999,
    ensures
        final(s)@ == old(s)@ + four_digits(n as int),
{
    s.append(digit_str((n / 1000 % 10) as u8));
    s.append(digit_str((n / 100 % 10) as u8));
    s.append(digit_str((n / 10 % 10) as u8));
    s.append(digit_str((n % 10) as u8));
    proof {
        assert(s@ =~= old(s)@ + four_digits(n as int));
    }
}

/// The output path for a recording started at `ts`:
/// `Captures/screen_recording_YYYY-MM-DD_HH-MM-SS.mp4`, every component
/// zero-padded.
pub fn output_path_for(ts: &Timestamp) -> (path: String)
    requires
        ts.wf(),
    ensures
        path@ == output_path_chars(*ts),
{
    let mut s = String::from_str("Captures/screen_recording_");
    push_four_digits(&mut s, ts.year);
    s.append("-");
    push_two_digits(&mut s, ts.month);
    s.append("-");
    push_two_digits(&mut s, ts.day);
    s.append("_");
    push_two_digits(&mut s, ts.hour);
    s.append("-");
    push_two_digits(&mut s, ts.minute);
    s.append("-");
    push_two_digits(&mut s, ts.second);
    s.append(".mp4");
    proof {
        assert(s@ =~= output_path_chars(*ts));
    }
    s
}

/// Relies on chrono's `Local::now` and its `Datelike` / `Timelike`
/// accessors: the month runs from 1 to 12, the day of month from 1 to 31,
/// the hour from 0 to 23, the minute and the second from 0 to 59. Nothing is
/// promised of the year: the clock may say anything. Panics only when the
/// system clock is set before the Unix epoch, as the underlying clock read
/// does.
#[verifier::external_body]
fn local_now_fields() -> (r: (i32, u32, u32, u32, u32, u32))
    ensures
        1 <= r.1 <= 12,
        1 <= r.2 <= 31,
        r.3 <= 23,
        r.4 <= 59,
        r.5 <= 59,
{
    let now = chrono::Local::now();
    (now.year(), now.month(), now.day(), now.hour(), now.minute(), now.second())
}

/// The output path for a clock reading handed in as plain calendar fields:
/// `Some` exactly when the year fits the four-digit pattern, and then the
/// timestamped path for those fields.
pub fn path_for_clock_fields(
    year: i32,
    month: u8,
    day: u8,
    hour: u8,
    minute: u8,
    second: u8,
) -> (r: Option<String>)
    requires
        1 <= month <= 12,
        1 <= day <= 31,
        hour <= 23,
        minute <= 59,
        second <= 59,
    ensures
        r is Some <==> 0 <= year <= 9999,
        r matches Some(path) ==> path@ == output_path_chars(
            (Timestamp { year, month, day, hour, minute, second }),
        ),
{
    if 0 <= year && year <= 9999 {
        let ts = Timestamp { year, month, day, hour, minute, second };
        Some(output_path_for(&ts))
    } else {
        None
    }
}

/// The output path for a recording started now, by the local clock. The
/// clock's reading cannot stand in a contract, so the choice of `Some`
/// against `None` is fixed one call down, in [`path_for_clock_fields`]:
/// `None` comes back only when the clock's year does not fit the four-digit
/// pattern.
pub fn current_output_path() -> (r: Option<String>)
    ensures
        r matches Some(path) ==> exists|ts: Timestamp|
            ts.wf() && path@ == output_path_chars(ts),
{
    let (year, month, day, hour, minute, second) = local_now_fields();
    let r = path_for_clock_fields(
        year,
        month as u8,
        day as u8,
        hour as u8,
        minute as u8,
        second as u8,
    );
    proof {
        if r is Some {
            let ts = Timestamp {
                year,
                month: month as u8,
                day: day as u8,
                hour: hour as u8,
                minute: minute as u8,
                second: second as u8,
            };
            assert(ts.wf() && r->Some_0@ == output_path_chars(ts));
        }
    }
    r
}

} // verus!
