//! Commit timestamps and the "time since commit" label shown next to each
//! branch.

use crate::strutil::{spec_decimal, u64_to_decimal};
use vstd::prelude::*;

verus! {

pub const SECONDS_IN_MINUTE: u64 = 60;

pub const SECONDS_IN_HOUR: u64 = 3600;

pub const SECONDS_IN_DAY: u64 = 86400;

pub const SECONDS_IN_WEEK: u64 = 604800;

pub const SECONDS_IN_MONTH: u64 = 2419200;

pub const SECONDS_IN_YEAR: u64 = 31536000;

/// Whole seconds elapsed between a commit and now.
#[derive(Clone, Copy, Debug, PartialEq, Eq, PartialOrd, Ord)]
pub struct TimeSinceCommit(pub u64);

/// A commit's timestamp: its seconds since the Unix epoch, paired with its
/// age at the time the history was read.
#[derive(Clone, Copy, Debug, PartialEq)]
pub struct CommitDate {
    pub seconds: u64,
    pub time_since_commit: TimeSinceCommit,
}

impl CommitDate {
    /// Pair a commit's Unix timestamp with its age, given the current time
    /// as the caller read it from the clock.
    pub fn new(unix_time: u64, now: u64) -> (d: Self)
        ensures
            d.seconds == unix_time,
            d.time_since_commit == time_since_commit_spec(unix_time, now),
    {
        Self { seconds: unix_time, time_since_commit: time_since_commit(unix_time, now) }
    }

    pub fn time_since_commit(&self) -> (t: &TimeSinceCommit)
        ensures
            t == self.time_since_commit,
    {
        &self.time_since_commit
    }
}

/// Seconds from commit to now, clamped at zero when the clock reads a time
/// before the commit.
pub open spec fn time_since_commit_spec(commit_seconds: u64, now: u64) -> TimeSinceCommit {
    TimeSinceCommit(
        if now >= commit_seconds {
            (now - commit_seconds) as u64
        } else {
            0
        },
    )
}

pub fn time_since_commit(commit_seconds: u64, now: u64) -> (t: TimeSinceCommit)
    ensures
        t == time_since_commit_spec(commit_seconds, now),
{
    TimeSinceCommit(now.saturating_sub(commit_seconds))
}

/// The age label: the age in the largest unit that fits, followed by the
/// unit's suffix.
pub open spec fn spec_age_label(x: u64) -> Seq<char> {
    if x < SECONDS_IN_HOUR {
        spec_decimal((x / SECONDS_IN_MINUTE) as nat) + "m"@
    } else if x < SECONDS_IN_DAY {
        spec_decimal((x / SECONDS_IN_HOUR) as nat) + "hr"@
    } else if x < SECONDS_IN_WEEK {
        spec_decimal((x / SECONDS_IN_DAY) as nat) + "d"@
    } else if x < SECONDS_IN_MONTH {
        spec_decimal((x / SECONDS_IN_WEEK) as nat) + "wk"@
    } else if x < SECONDS_IN_YEAR {
        spec_decimal((x / SECONDS_IN_MONTH) as nat) + "mo"@
    } else {
        spec_decimal((x / SECONDS_IN_YEAR) as nat) + "yr"@
    }
}

impl TimeSinceCommit {
    /// The label a branch list renders for this age.
    pub fn label(&self) -> (s: String)
        ensures
            s@ == spec_age_label(self.0),
    {
        let x = self.0;
        let (value, suffix): (u64, &str) = if x < SECONDS_IN_HOUR {
            (x / SECONDS_IN_MINUTE, "m")
        } else if x < SECONDS_IN_DAY {
            (x / SECONDS_IN_HOUR, "hr")
        } else if x < SECONDS_IN_WEEK {
            (x / SECONDS_IN_DAY, "d")
        } else if x < SECONDS_IN_MONTH {
            (x / SECONDS_IN_WEEK, "wk")
        } else if x < SECONDS_IN_YEAR {
            (x / SECONDS_IN_MONTH, "mo")
        } else {
            (x / SECONDS_IN_YEAR, "yr")
        };
        let mut s = u64_to_decimal(value);
        s.append(suffix);
        s
    }
}

/// A commit timestamp broken into its calendar parts, all in UTC.
#[derive(Clone, Copy, Debug, PartialEq)]
pub struct CalendarDate {
    pub year: u64,
    pub month: u64,
    pub day: u64,
    pub weekday: u64,
    pub hour: u64,
    pub minute: u64,
    pub second: u64,
}

/// Subtraction clamped at zero; the calendar arithmetic never reaches the
/// clamp, it only keeps every step total.
pub open spec fn floor_sub(a: int, b: int) -> int {
    if a >= b {
        a - b
    } else {
        0
    }
}

/// The calendar parts of a Unix timestamp, by the era-based civil-from-days
/// breakdown of the proleptic Gregorian calendar.
pub open spec fn spec_calendar(seconds: u64) -> CalendarDate {
    let days = seconds as int / 86400;
    let sod = seconds as int % 86400;
    let z = days + 719468;
    let era = z / 146097;
    let doe = z % 146097;
    let yoe = floor_sub(floor_sub(doe, doe / 1460) + doe / 36524, doe / 146096) / 365;
    let doy = floor_sub(doe, floor_sub(365 * yoe + yoe / 4, yoe / 100));
    let mp = (5 * doy + 2) / 153;
    let day = floor_sub(doy, (153 * mp + 2) / 5) + 1;
    let month = if mp < 10 {
        mp + 3
    } else {
        mp - 9
    };
    CalendarDate {
        year: (yoe + era * 400 + if month <= 2 {
            1int
        } else {
            0int
        }) as u64,
        month: month as u64,
        day: day as u64,
        weekday: ((days + 4) % 7) as u64,
        hour: (sod / 3600) as u64,
        minute: (sod % 3600 / 60) as u64,
        second: (sod % 60) as u64,
    }
}

impl CommitDate {
    /// The calendar parts of this timestamp.
    pub fn calendar(&self) -> (c: CalendarDate)
        ensures
            c == spec_calendar(self.seconds),
    {
        let seconds = self.seconds;
        let days = seconds / 86400;
        let sod = seconds % 86400;
        proof {
            assert(days * 86400 <= seconds);
            assert(days <= 0x10_0000_0000_0000) by (nonlinear_arith)
                requires
                    days * 86400 <= u64::MAX,
            ;
        }
        let z = days + 719468;
        let era = z / 146097;
        let doe = z % 146097;
        let a = sub_floor(doe, doe / 1460) + doe / 36524;
        let yoe = sub_floor(a, doe / 146096) / 365;
        proof {
            assert(yoe <= a);
            assert(a < 2 * 146097);
        }
        let doy = sub_floor(doe, sub_floor(365 * yoe + yoe / 4, yoe / 100));
        let mp = (5 * doy + 2) / 153;
        let day = sub_floor(doy, (153 * mp + 2) / 5) + 1;
        let month = if mp < 10 {
            mp + 3
        } else {
            mp - 9
        };
        let year = yoe + era * 400 + if month <= 2 {
            1
        } else {
            0
        };
        CalendarDate {
            year,
            month,
            day,
            weekday: (days + 4) % 7,
            hour: sod / 3600,
            minute: sod % 3600 / 60,
            second: sod % 60,
        }
    }
}

fn sub_floor(a: u64, b: u64) -> (r: u64)
    ensures
        r as int == floor_sub(a as int, b as int),
{
    if a >= b {
        a - b
    } else {
        0
    }
}

/// The three-letter weekday tag, for weekday numbers counted from Sunday.
pub open spec fn spec_weekday_name(w: u64) -> Seq<char> {
    if w == 0 {
        "Sun"@
    } else if w == 1 {
        "Mon"@
    } else if w == 2 {
        "Tue"@
    } else if w == 3 {
        "Wed"@
    } else if w == 4 {
        "Thu"@
    } else if w == 5 {
        "Fri"@
    } else {
        "Sat"@
    }
}

fn weekday_name(w: u64) -> (r: &'static str)
    ensures
        r@ == spec_weekday_name(w),
{
    if w == 0 {
        "Sun"
    } else if w == 1 {
        "Mon"
    } else if w == 2 {
        "Tue"
    } else if w == 3 {
        "Wed"
    } else if w == 4 {
        "Thu"
    } else if w == 5 {
        "Fri"
    } else {
        "Sat"
    }
}

/// The month's name, for month numbers counted from one.
pub open spec fn spec_month_name(m: u64) -> Seq<char> {
    if m == 1 {
        "January"@
    } else if m == 2 {
        "February"@
    } else if m == 3 {
        "March"@
    } else if m == 4 {
        "April"@
    } else if m == 5 {
        "May"@
    } else if m == 6 {
        "June"@
    } else if m == 7 {
        "July"@
    } else if m == 8 {
        "August"@
    } else if m == 9 {
        "September"@
    } else if m == 10 {
        "October"@
    } else if m == 11 {
        "November"@
    } else {
        "December"@
    }
}

fn month_name(m: u64) -> (r: &'static str)
    ensures
        r@ == spec_month_name(m),
{
    if m == 1 {
        "January"
    } else if m == 2 {
        "February"
    } else if m == 3 {
        "March"
    } else if m == 4 {
        "April"
    } else if m == 5 {
        "May"
    } else if m == 6 {
        "June"
    } else if m == 7 {
        "July"
    } else if m == 8 {
        "August"
    } else if m == 9 {
        "September"
    } else if m == 10 {
        "October"
    } else if m == 11 {
        "November"
    } else {
        "December"
    }
}

/// `n` in decimal, padded with a leading zero to at least two digits.
pub open spec fn spec_two_digits(n: u64) -> Seq<char> {
    if n < 10 {
        seq!['0'] + spec_decimal(n as nat)
    } else {
        spec_decimal(n as nat)
    }
}

/// The label the commit-detail popup renders for a timestamp: weekday,
/// month, day, clock time, year, all in UTC.
pub open spec fn spec_date_label(seconds: u64) -> Seq<char> {
    let c = spec_calendar(seconds);
    spec_weekday_name(c.weekday) + " "@ + spec_month_name(c.month) + " "@ + spec_decimal(
        c.day as nat,
    ) + " "@ + spec_two_digits(c.hour) + ":"@ + spec_two_digits(c.minute) + ":"@ + spec_two_digits(
        c.second,
    ) + " "@ + spec_decimal(c.year as nat) + " UTC"@
}

fn push_two_digits(s: &mut String, n: u64)
    ensures
        final(s)@ == old(s)@ + spec_two_digits(n),
{
    if n < 10 {
        s.push('0');
    }
    let digits = u64_to_decimal(n);
    s.append(digits.as_str());
    proof {
        if n < 10 {
            assert(old(s)@ + (seq!['0'] + spec_decimal(n as nat)) =~= old(s)@.push('0')
                + spec_decimal(n as nat));
        }
    }
}

impl CommitDate {
    /// The timestamp written out as its calendar date.
    pub fn date_label(&self) -> (s: String)
        ensures
            s@ == spec_date_label(self.seconds),
    {
        let c = self.calendar();
        let mut s = weekday_name(c.weekday).to_owned();
        s.append(" ");
        s.append(month_name(c.month));
        s.append(" ");
        let day = u64_to_decimal(c.day);
        s.append(day.as_str());
        s.append(" ");
        push_two_digits(&mut s, c.hour);
        s.append(":");
        push_two_digits(&mut s, c.minute);
        s.append(":");
        push_two_digits(&mut s, c.second);
        s.append(" ");
        let year = u64_to_decimal(c.year);
        s.append(year.as_str());
        s.append(" UTC");
        s
    }
}

} // verus!
