//! Local calendar time, and the two ways it is written out: the date stamp of
//! a diagnostic bundle and the timestamp of a log line.

use vstd::prelude::*;

verus! {

/// A moment of local time, to the second.
#[derive(Debug, Clone, Copy, PartialEq, Eq, Structural)]
pub struct Moment {
    pub year: i32,
    pub month: u32,
    pub day: u32,
    pub hour: u32,
    pub minute: u32,
    pub second: u32,
}

impl Moment {
    /// The fields are in the ranges of a calendar date and a time of day.
    pub open spec fn well_formed(&self) -> bool {
        &&& 1 <= self.month <= 12
        &&& 1 <= self.day <= 31
        &&& self.hour <= 23
        &&& self.minute <= 59
        &&& self.second <= 59
    }

    /// The current local time.
    pub fn now() -> (now: Moment)
        ensures
            now.well_formed(),
    {
        local_now()
    }
}

/// Reads the clock.
///
/// Calls `chrono::Local::now` and takes the fields apart with chrono's
/// `Datelike` and `Timelike`. Trusted: the ranges that chrono documents for
/// the month, the day, the hour, the minute and the second. Which moment comes
/// back depends on the clock, so nothing more is stated. Where the system
/// clock reads a time before 1970 chrono panics; no argument decides that, so
/// no precondition can leave it out.
#[verifier::external_body]
fn local_now() -> (now: Moment)
    ensures
        now.well_formed(),
{
    let now = chrono::Local::now();
    Moment {
        year: chrono::Datelike::year(&now),
        month: chrono::Datelike::month(&now),
        day: chrono::Datelike::day(&now),
        hour: chrono::Timelike::hour(&now),
        minute: chrono::Timelike::minute(&now),
        second: chrono::Timelike::second(&now),
    }
}

/// The character of a decimal digit.
pub open spec fn digit(value: nat) -> char
    recommends
        value < 10,
{
    if value == 0 {
        '0'
    } else if value == 1 {
        '1'
    } else if value == 2 {
        '2'
    } else if value == 3 {
        '3'
    } else if value == 4 {
        '4'
    } else if value == 5 {
        '5'
    } else if value == 6 {
        '6'
    } else if value == 7 {
        '7'
    } else if value == 8 {
        '8'
    } else {
        '9'
    }
}

/// `value` in decimal, padded with zeros on the left to at least `width`
/// digits.
pub open spec fn digits(value: nat, width: nat) -> Seq<char>
    decreases value, width,
{
    if value < 10 && width <= 1 {
        seq![digit(value)]
    } else {
        digits(value / 10, if width == 0 { 0 } else { (width - 1) as nat }).push(digit(value % 10))
    }
}

/// A year in four digits; with a sign in front where it is negative or needs
/// more than four.
pub open spec fn year_text(year: int) -> Seq<char> {
    if 0 <= year <= 9999 {
        digits(year as nat, 4)
    } else if year < 0 {
        seq!['-'] + digits((-year) as nat, 4)
    } else {
        seq!['+'] + digits(year as nat, 4)
    }
}

/// A date as `YYYYMMDD`.
pub open spec fn date_stamp_text(moment: Moment) -> Seq<char> {
    year_text(moment.year as int) + digits(moment.month as nat, 2) + digits(moment.day as nat, 2)
}

/// A moment as `YYYY-MM-DD HH:MM:SS`.
pub open spec fn timestamp_text(moment: Moment) -> Seq<char> {
    year_text(moment.year as int) + seq!['-'] + digits(moment.month as nat, 2) + seq!['-']
        + digits(moment.day as nat, 2) + seq![' '] + digits(moment.hour as nat, 2) + seq![':']
        + digits(moment.minute as nat, 2) + seq![':'] + digits(moment.second as nat, 2)
}

fn digit_text(value: u32) -> (text: &'static str)
    requires
        value < 10,
    ensures
        text@ == seq![digit(value as nat)],
{
    proof {
        reveal_strlit("0");
        reveal_strlit("1");
        reveal_strlit("2");
        reveal_strlit("3");
        reveal_strlit("4");
        reveal_strlit("5");
        reveal_strlit("6");
        reveal_strlit("7");
        reveal_strlit("8");
        reveal_strlit("9");
    }
    let text = if value == 0 {
        "0"
    } else if value == 1 {
        "1"
    } else if value == 2 {
        "2"
    } else if value == 3 {
        "3"
    } else if value == 4 {
        "4"
    } else if value == 5 {
        "5"
    } else if value == 6 {
        "6"
    } else if value == 7 {
        "7"
    } else if value == 8 {
        "8"
    } else {
        "9"
    };
    assert(text@ =~= seq![digit(value as nat)]);
    text
}

/// Appends `value` in decimal, in at least `width` digits.
fn push_digits(out: &mut String, value: u32, width: u32)
    ensures
        final(out)@ == old(out)@ + digits(value as nat, width as nat),
    decreases value, width,
{
    if value < 10 && width <= 1 {
        out.append(digit_text(value));
    } else {
        let rest: u32 = if width == 0 { 0 } else { width - 1 };
        push_digits(out, value / 10, rest);
        out.append(digit_text(value % 10));
        assert(final(out)@ =~= old(out)@ + digits(value as nat, width as nat));
    }
}

fn push_year(out: &mut String, year: i32)
    ensures
        final(out)@ == old(out)@ + year_text(year as int),
{
    if 0 <= year && year <= 9999 {
        push_digits(out, year as u32, 4);
    } else if year < 0 {
        proof {
            reveal_strlit("-");
        }
        out.append("-");
        let size: i64 = -(year as i64);
        push_digits(out, size as u32, 4);
        assert(final(out)@ =~= old(out)@ + year_text(year as int));
    } else {
        proof {
            reveal_strlit("+");
        }
        out.append("+");
        push_digits(out, year as u32, 4);
        assert(final(out)@ =~= old(out)@ + year_text(year as int));
    }
}

/// The date of `moment` as `YYYYMMDD`.
pub fn date_stamp(moment: &Moment) -> (stamp: String)
    ensures
        stamp@ == date_stamp_text(*moment),
{
    let mut stamp = String::new();
    push_year(&mut stamp, moment.year);
    push_digits(&mut stamp, moment.month, 2);
    push_digits(&mut stamp, moment.day, 2);
    assert(stamp@ =~= date_stamp_text(*moment));
    stamp
}

/// `moment` as `YYYY-MM-DD HH:MM:SS`.
pub fn timestamp(moment: &Moment) -> (stamp: String)
    ensures
        stamp@ == timestamp_text(*moment),
{
    proof {
        reveal_strlit("-");
        reveal_strlit(" ");
        reveal_strlit(":");
    }
    let mut stamp = String::new();
    push_year(&mut stamp, moment.year);
    stamp.append("-");
    push_digits(&mut stamp, moment.month, 2);
    stamp.append("-");
    push_digits(&mut stamp, moment.day, 2);
    stamp.append(" ");
    push_digits(&mut stamp, moment.hour, 2);
    stamp.append(":");
    push_digits(&mut stamp, moment.minute, 2);
    stamp.append(":");
    push_digits(&mut stamp, moment.second, 2);
    assert(stamp@ =~= timestamp_text(*moment));
    stamp
}

} // verus!
