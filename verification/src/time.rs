//! The wall clock: a reading of it, the texts that show it, and the test
//! that decides whether the alarm is due.

use chrono::{Datelike, Timelike};
use vstd::prelude::*;
use vstd::string::*;

use crate::text::{
    append_decimal, append_two_digits, decimal, digit_value, lemma_two_digits_below_100, two_digits,
};

verus! {

/// The pattern in which an alarm time is written and read: hour and minute.
pub const ALARM_PATTERN: &'static str = "%H:%M";

/// The calendar fields of one instant, in local time.
#[derive(Debug, Clone, Copy)]
pub struct ClockReading {
    pub year: i32,
    /// 1 for January up to 12 for December.
    pub month: u32,
    /// The day of the month, from 1.
    pub day: u32,
    /// Days since Monday: 0 for Monday up to 6 for Sunday.
    pub weekday: u32,
    pub hour: u32,
    pub minute: u32,
    pub second: u32,
}

impl ClockReading {
    /// Every field lies in the range that a calendar gives it.
    pub open spec fn wf(&self) -> bool {
        &&& 1 <= self.month <= 12
        &&& 1 <= self.day <= 31
        &&& self.weekday < 7
        &&& self.hour < 24
        &&& self.minute < 60
        &&& self.second < 60
    }

    /// The hour on a twelve-hour dial: 12 at midnight and at noon.
    pub open spec fn hour12(&self) -> nat {
        if self.hour % 12 == 0 {
            12
        } else {
            (self.hour % 12) as nat
        }
    }

    /// Noon and after.
    pub open spec fn is_pm(&self) -> bool {
        self.hour >= 12
    }

    /// A reading of the given fields, or `None` where one of them is out of
    /// its range.
    pub fn new(
        year: i32,
        month: u32,
        day: u32,
        weekday: u32,
        hour: u32,
        minute: u32,
        second: u32,
    ) -> (reading: Option<ClockReading>)
        ensures
            reading is Some <==> (ClockReading {
                year,
                month,
                day,
                weekday,
                hour,
                minute,
                second,
            }).wf(),
            reading matches Some(r) ==> r == (ClockReading {
                year,
                month,
                day,
                weekday,
                hour,
                minute,
                second,
            }),
    {
        let r = ClockReading { year, month, day, weekday, hour, minute, second };
        if r.is_valid() {
            Some(r)
        } else {
            None
        }
    }

    /// Tests `wf` at run time.
    pub fn is_valid(&self) -> (valid: bool)
        ensures
            valid == self.wf(),
    {
        1 <= self.month && self.month <= 12 && 1 <= self.day && self.day <= 31 && self.weekday < 7
            && self.hour < 24 && self.minute < 60 && self.second < 60
    }
}

/// `AM` before noon, `PM` from noon on.
pub open spec fn meridiem_text(t: ClockReading) -> Seq<char> {
    if t.is_pm() {
        "PM"@
    } else {
        "AM"@
    }
}

/// The time of day: `HH:MM:SS` on a 24-hour clock, `HH:MM:SS AM` or
/// `HH:MM:SS PM` on a 12-hour clock.
pub open spec fn time_text(t: ClockReading, format_24h: bool) -> Seq<char> {
    if format_24h {
        two_digits(t.hour as nat) + seq![':'] + two_digits(t.minute as nat) + seq![':']
            + two_digits(t.second as nat)
    } else {
        two_digits(t.hour12()) + seq![':'] + two_digits(t.minute as nat) + seq![':'] + two_digits(
            t.second as nat,
        ) + seq![' '] + meridiem_text(t)
    }
}

/// Month and day, the month first where `format_us` holds.
pub open spec fn date_text(t: ClockReading, format_us: bool) -> Seq<char> {
    if format_us {
        two_digits(t.month as nat) + seq!['/'] + two_digits(t.day as nat)
    } else {
        two_digits(t.day as nat) + seq!['/'] + two_digits(t.month as nat)
    }
}

/// The English three-letter name of the day of the week.
pub open spec fn weekday_text(t: ClockReading) -> Seq<char>
    recommends
        t.weekday < 7,
{
    if t.weekday == 0 {
        "Mon"@
    } else if t.weekday == 1 {
        "Tue"@
    } else if t.weekday == 2 {
        "Wed"@
    } else if t.weekday == 3 {
        "Thu"@
    } else if t.weekday == 4 {
        "Fri"@
    } else if t.weekday == 5 {
        "Sat"@
    } else {
        "Sun"@
    }
}

/// `n` in decimal, with leading zeros where it has fewer than four digits.
pub open spec fn four_digits(n: nat) -> Seq<char> {
    if n < 10 {
        seq!['0', '0', '0'] + decimal(n)
    } else if n < 100 {
        seq!['0', '0'] + decimal(n)
    } else if n < 1000 {
        seq!['0'] + decimal(n)
    } else {
        decimal(n)
    }
}

/// The year in four digits; a year before 0 or after 9999 carries its sign.
pub open spec fn year_text(t: ClockReading) -> Seq<char> {
    if t.year < 0 {
        seq!['-'] + four_digits((-t.year) as nat)
    } else if t.year > 9999 {
        seq!['+'] + four_digits(t.year as nat)
    } else {
        four_digits(t.year as nat)
    }
}

/// Hour and minute on a 24-hour clock, `HH:MM`: the form of an alarm time.
pub open spec fn hour_minute_text(t: ClockReading) -> Seq<char> {
    two_digits(t.hour as nat) + seq![':'] + two_digits(t.minute as nat)
}

/// The number that two digits of `text` write, the first of them at `at`.
pub open spec fn number_at(text: Seq<char>, at: int) -> int {
    digit_value(text[at]) * 10 + digit_value(text[at + 1])
}

/// The hour of the day that a text in 24-hour form shows.
pub open spec fn hour_in_24h_text(text: Seq<char>) -> int {
    number_at(text, 0)
}

/// The hour of the day that a text in 12-hour form shows: the hour on the
/// dial, with 12 standing for 0, and twelve more where the text ends in `PM`.
pub open spec fn hour_in_12h_text(text: Seq<char>) -> int {
    number_at(text, 0) % 12 + if text[9] == 'P' {
        12int
    } else {
        0int
    }
}

/// The 24-hour text and the 12-hour text of one reading show the same time:
/// both give the hour of the reading, each by its own convention, and they
/// agree letter for letter on the minutes and the seconds.
pub proof fn lemma_time_formats_agree(t: ClockReading)
    requires
        t.wf(),
    ensures
        time_text(t, true).len() == 8,
        time_text(t, false).len() == 11,
        hour_in_24h_text(time_text(t, true)) == t.hour,
        hour_in_12h_text(time_text(t, false)) == t.hour,
        1 <= number_at(time_text(t, false), 0) <= 12,
        number_at(time_text(t, true), 3) == t.minute,
        number_at(time_text(t, true), 6) == t.second,
        time_text(t, true).subrange(2, 8) == time_text(t, false).subrange(2, 8),
        time_text(t, false).subrange(8, 11) == if t.hour >= 12 {
            seq![' ', 'P', 'M']
        } else {
            seq![' ', 'A', 'M']
        },
{
    reveal_strlit("AM");
    reveal_strlit("PM");
    lemma_two_digits_below_100(t.hour as nat);
    lemma_two_digits_below_100(t.hour12());
    lemma_two_digits_below_100(t.minute as nat);
    lemma_two_digits_below_100(t.second as nat);
    let a = time_text(t, true);
    let b = time_text(t, false);
    assert(meridiem_text(t).len() == 2);
    assert(a.subrange(2, 8) =~= b.subrange(2, 8));
    assert(b.subrange(8, 11) =~= seq![' '] + meridiem_text(t));
}

/// The hour and the minute that chrono's `NaiveTime::parse_from_str` reads
/// from `text` under `pattern`, or `None` where it reports an error.
pub uninterp spec fn parsed_time_of_day(text: Seq<char>, pattern: Seq<char>) -> Option<(u32, u32)>;

/// The time of day that a stored alarm time stands for, if it stands for one.
pub open spec fn alarm_target(alarm_time: Option<String>) -> Option<(u32, u32)> {
    match alarm_time {
        Some(text) => parsed_time_of_day(text@, ALARM_PATTERN@),
        None => None,
    }
}

/// The reading shows the hour and the minute of `target`.
pub open spec fn minute_matches(now: ClockReading, target: Option<(u32, u32)>) -> bool {
    target matches Some((hour, minute)) && now.hour == hour && now.minute == minute
}

/// Calls chrono's `NaiveTime::parse_from_str` and hands back the hour and the
/// minute of the time it read, `None` for its error.
///
/// Not proved: that the result is `parsed_time_of_day` of the two texts, which
/// is to say that chrono reads the same texts the same way every time.
#[verifier::external_body]
fn parse_time_of_day(text: &str, pattern: &str) -> (parsed: Option<(u32, u32)>)
    ensures
        parsed == parsed_time_of_day(text@, pattern@),
{
    match chrono::NaiveTime::parse_from_str(text, pattern) {
        Ok(time) => Some((time.hour(), time.minute())),
        Err(_) => None,
    }
}

/// Reads the system clock with chrono's `Local::now`, moves `minutes` minutes
/// on with chrono's `DateTime + TimeDelta`, and takes the calendar fields of
/// that instant in the machine's time zone.
///
/// Not proved: that the fields lie in the ranges that chrono's `Datelike` and
/// `Timelike` document for them. chrono stops the program where the system
/// clock stands before 1970.
#[verifier::external_body]
pub(crate) fn local_time_in(minutes: u32) -> (reading: ClockReading)
    ensures
        reading.wf(),
{
    let t = chrono::Local::now() + chrono::TimeDelta::minutes(i64::from(minutes));
    ClockReading {
        year: t.year(),
        month: t.month(),
        day: t.day(),
        weekday: t.weekday().num_days_from_monday(),
        hour: t.hour(),
        minute: t.minute(),
        second: t.second(),
    }
}

/// Tells whether `now` shows the hour and the minute of `target`.
pub fn matches_minute(now: &ClockReading, target: Option<(u32, u32)>) -> (due: bool)
    ensures
        due == minute_matches(*now, target),
{
    match target {
        Some((hour, minute)) => now.hour == hour && now.minute == minute,
        None => false,
    }
}

/// Writes `n` with leading zeros up to four digits.
fn append_four_digits(out: &mut String, n: u64)
    ensures
        final(out)@ == old(out)@ + four_digits(n as nat),
{
    proof {
        reveal_strlit("0");
        reveal_strlit("00");
        reveal_strlit("000");
    }
    let ghost before = out@;
    if n < 10 {
        out.append("000");
        assert(out@ =~= before + seq!['0', '0', '0']);
    } else if n < 100 {
        out.append("00");
        assert(out@ =~= before + seq!['0', '0']);
    } else if n < 1000 {
        out.append("0");
        assert(out@ =~= before + seq!['0']);
    }
    append_decimal(out, n);
    assert(out@ =~= before + four_digits(n as nat));
}

/// Holds the reading of the wall clock that the watch shows.
#[derive(Debug, Clone, Copy)]
pub struct TimeManager {
    pub current_time: ClockReading,
}

impl TimeManager {
    /// A manager that shows the present local time.
    pub fn new() -> (manager: Self)
        ensures
            manager.current_time.wf(),
    {
        TimeManager { current_time: local_time_in(0) }
    }

    /// A manager that shows `reading`.
    pub fn at(reading: ClockReading) -> (manager: Self)
        ensures
            manager.current_time == reading,
    {
        TimeManager { current_time: reading }
    }

    /// Reads the wall clock again.
    pub fn update(&mut self)
        ensures
            final(self).current_time.wf(),
    {
        self.current_time = local_time_in(0);
    }

    /// The time of day in 24-hour or in 12-hour form.
    pub fn format_time(&self, format_24h: bool) -> (text: String)
        ensures
            text@ == time_text(self.current_time, format_24h),
    {
        let t = &self.current_time;
        let mut text = String::new();
        proof {
            reveal_strlit(":");
            reveal_strlit(" ");
        }
        if format_24h {
            append_two_digits(&mut text, t.hour as u64);
        } else {
            let on_dial: u32 = if t.hour % 12 == 0 {
                12
            } else {
                t.hour % 12
            };
            append_two_digits(&mut text, on_dial as u64);
        }
        let ghost hours = text@;
        text.append(":");
        append_two_digits(&mut text, t.minute as u64);
        text.append(":");
        append_two_digits(&mut text, t.second as u64);
        assert(text@ =~= hours + seq![':'] + two_digits(t.minute as nat) + seq![':'] + two_digits(
            t.second as nat,
        ));
        if !format_24h {
            let ghost clock = text@;
            text.append(" ");
            if t.hour >= 12 {
                text.append("PM");
            } else {
                text.append("AM");
            }
            assert(text@ =~= clock + seq![' '] + meridiem_text(*t));
        }
        text
    }

    /// Month and day, in the order that `format_us` chooses.
    pub fn format_date(&self, format_us: bool) -> (text: String)
        ensures
            text@ == date_text(self.current_time, format_us),
    {
        let t = &self.current_time;
        let mut text = String::new();
        proof {
            reveal_strlit("/");
        }
        if format_us {
            append_two_digits(&mut text, t.month as u64);
            text.append("/");
            append_two_digits(&mut text, t.day as u64);
        } else {
            append_two_digits(&mut text, t.day as u64);
            text.append("/");
            append_two_digits(&mut text, t.month as u64);
        }
        assert(text@ =~= date_text(self.current_time, format_us));
        text
    }

    /// The three-letter name of the day of the week.
    pub fn format_day_of_week(&self) -> (text: String)
        requires
            self.current_time.wf(),
        ensures
            text@ == weekday_text(self.current_time),
    {
        let day = self.current_time.weekday;
        let name = if day == 0 {
            "Mon"
        } else if day == 1 {
            "Tue"
        } else if day == 2 {
            "Wed"
        } else if day == 3 {
            "Thu"
        } else if day == 4 {
            "Fri"
        } else if day == 5 {
            "Sat"
        } else {
            "Sun"
        };
        String::from_str(name)
    }

    /// The year, in four digits.
    pub fn format_year(&self) -> (text: String)
        ensures
            text@ == year_text(self.current_time),
    {
        let year = self.current_time.year;
        let mut text = String::new();
        proof {
            reveal_strlit("-");
            reveal_strlit("+");
        }
        if year < 0 {
            text.append("-");
            let size: u64 = (-(year as i64)) as u64;
            append_four_digits(&mut text, size);
            assert(text@ =~= year_text(self.current_time));
        } else if year > 9999 {
            text.append("+");
            append_four_digits(&mut text, year as u64);
            assert(text@ =~= year_text(self.current_time));
        } else {
            append_four_digits(&mut text, year as u64);
            assert(text@ =~= year_text(self.current_time));
        }
        text
    }

    /// Hour and minute as an alarm time is written.
    pub fn format_hour_minute(&self) -> (text: String)
        ensures
            text@ == hour_minute_text(self.current_time),
    {
        let t = &self.current_time;
        let mut text = String::new();
        proof {
            reveal_strlit(":");
        }
        append_two_digits(&mut text, t.hour as u64);
        text.append(":");
        append_two_digits(&mut text, t.minute as u64);
        assert(text@ =~= hour_minute_text(self.current_time));
        text
    }

    /// Tells whether the alarm is due: whether `alarm_time` reads as the
    /// hour and the minute that the clock shows. No alarm time, or one that
    /// does not read as a time of day, is never due.
    pub fn check_alarm(&self, alarm_time: &Option<String>) -> (due: bool)
        ensures
            due == minute_matches(self.current_time, alarm_target(*alarm_time)),
            alarm_time is None ==> !due,
    {
        match alarm_time {
            Some(alarm) => {
                let parsed = parse_time_of_day(alarm.as_str(), ALARM_PATTERN);
                matches_minute(&self.current_time, parsed)
            },
            None => false,
        }
    }
}

} // verus!
