//! Days of the week, times of day, and the host's clocks.

use chrono::{Datelike, Local, NaiveTime, TimeZone, Timelike};
use std::time::{SystemTime, UNIX_EPOCH};
use vstd::prelude::*;

verus! {

/// A day of the week.
#[derive(Clone, Copy, Debug, PartialEq, Eq, Structural)]
pub enum Weekday {
    Monday,
    Tuesday,
    Wednesday,
    Thursday,
    Friday,
    Saturday,
    Sunday,
}

impl Weekday {
    /// The number of days since Monday.
    pub open spec fn index(self) -> int {
        match self {
            Weekday::Monday => 0,
            Weekday::Tuesday => 1,
            Weekday::Wednesday => 2,
            Weekday::Thursday => 3,
            Weekday::Friday => 4,
            Weekday::Saturday => 5,
            Weekday::Sunday => 6,
        }
    }

    /// The day's full English name in lower case.
    pub open spec fn name(self) -> Seq<char> {
        match self {
            Weekday::Monday => "monday"@,
            Weekday::Tuesday => "tuesday"@,
            Weekday::Wednesday => "wednesday"@,
            Weekday::Thursday => "thursday"@,
            Weekday::Friday => "friday"@,
            Weekday::Saturday => "saturday"@,
            Weekday::Sunday => "sunday"@,
        }
    }

    /// The day's full English name as a headline writes it.
    pub open spec fn title(self) -> Seq<char> {
        match self {
            Weekday::Monday => "Monday"@,
            Weekday::Tuesday => "Tuesday"@,
            Weekday::Wednesday => "Wednesday"@,
            Weekday::Thursday => "Thursday"@,
            Weekday::Friday => "Friday"@,
            Weekday::Saturday => "Saturday"@,
            Weekday::Sunday => "Sunday"@,
        }
    }

    fn of_days_from_monday(days: u32) -> (day: Weekday)
        requires
            days < 7,
        ensures
            day.index() == days,
    {
        if days == 0 {
            Weekday::Monday
        } else if days == 1 {
            Weekday::Tuesday
        } else if days == 2 {
            Weekday::Wednesday
        } else if days == 3 {
            Weekday::Thursday
        } else if days == 4 {
            Weekday::Friday
        } else if days == 5 {
            Weekday::Saturday
        } else {
            Weekday::Sunday
        }
    }

    /// The day that lies `days` days after a Monday, for `days` below 7.
    pub fn from_index(days: u32) -> (day: Option<Weekday>)
        ensures
            day is Some <==> days < 7,
            day matches Some(d) ==> d.index() == days,
    {
        if days < 7 {
            Some(Weekday::of_days_from_monday(days))
        } else {
            None
        }
    }

    /// The day's full English name in lower case.
    pub fn label(self) -> (text: &'static str)
        ensures
            text@ == self.name(),
    {
        match self {
            Weekday::Monday => "monday",
            Weekday::Tuesday => "tuesday",
            Weekday::Wednesday => "wednesday",
            Weekday::Thursday => "thursday",
            Weekday::Friday => "friday",
            Weekday::Saturday => "saturday",
            Weekday::Sunday => "sunday",
        }
    }
}

/// A time of day: whole seconds since midnight, and the nanoseconds past
/// them. During a leap second the nanoseconds run from 1,000,000,000 on.
#[derive(Clone, Copy, Debug, PartialEq, Eq, Structural)]
pub struct TimeOfDay {
    pub seconds: u32,
    pub nanos: u32,
}

impl TimeOfDay {
    /// Whether the value lies within one day.
    pub open spec fn valid(self) -> bool {
        self.seconds < 86_400 && self.nanos < 2_000_000_000
    }

    /// The hour of the day.
    pub open spec fn hour(self) -> int {
        self.seconds as int / 3600
    }

    /// The minute of the hour.
    pub open spec fn minute(self) -> int {
        self.seconds as int / 60 % 60
    }

    /// The second of the minute as a clock shows it: 60 during a leap
    /// second.
    pub open spec fn second(self) -> int {
        self.seconds as int % 60 + self.nanos as int / 1_000_000_000
    }

    /// The hour on the 12-hour clock, from 1 to 12.
    pub open spec fn hour12(self) -> int {
        if self.hour() % 12 == 0 {
            12
        } else {
            self.hour() % 12
        }
    }

    /// Whether `self` comes no later in the day than `other`.
    pub open spec fn not_after(self, other: TimeOfDay) -> bool {
        self.seconds < other.seconds || (self.seconds == other.seconds && self.nanos
            <= other.nanos)
    }

    /// The time at a full second of the day.
    pub open spec fn at(hour: int, minute: int, second: int) -> TimeOfDay {
        TimeOfDay { seconds: (hour * 3600 + minute * 60 + second) as u32, nanos: 0 }
    }

    /// The time `hour:minute:second`, where the three name a second of the
    /// day.
    pub fn new(hour: u32, minute: u32, second: u32) -> (time: Option<TimeOfDay>)
        ensures
            time is Some <==> hour < 24 && minute < 60 && second < 60,
            time matches Some(t) ==> t == TimeOfDay::at(hour as int, minute as int, second as int)
                && t.valid(),
    {
        if hour < 24 && minute < 60 && second < 60 {
            Some(TimeOfDay { seconds: hour * 3600 + minute * 60 + second, nanos: 0 })
        } else {
            None
        }
    }

    /// The hour of the day.
    pub fn hour_of_day(self) -> (hour: u32)
        ensures
            hour == self.hour(),
    {
        self.seconds / 3600
    }

    /// Whether `self` comes no later in the day than `other`.
    pub fn is_not_after(self, other: TimeOfDay) -> (b: bool)
        ensures
            b == self.not_after(other),
    {
        self.seconds < other.seconds || (self.seconds == other.seconds && self.nanos
            <= other.nanos)
    }
}

/// A moment on the host's local clock: the day of the week and the time of
/// day.
#[derive(Clone, Copy, Debug, PartialEq, Eq, Structural)]
pub struct LocalMoment {
    pub weekday: Weekday,
    pub time: TimeOfDay,
}

impl LocalMoment {
    /// Whether the time lies within one day.
    pub open spec fn valid(self) -> bool {
        self.time.valid()
    }

    /// The moment `hour:minute:second` on the given day, where the three name
    /// a second of the day.
    pub fn new(weekday: Weekday, hour: u32, minute: u32, second: u32) -> (moment: Option<
        LocalMoment,
    >)
        ensures
            moment is Some <==> hour < 24 && minute < 60 && second < 60,
            moment matches Some(m) ==> m == (LocalMoment {
                weekday,
                time: TimeOfDay::at(hour as int, minute as int, second as int),
            }) && m.valid(),
    {
        match TimeOfDay::new(hour, minute, second) {
            Some(time) => Some(LocalMoment { weekday, time }),
            None => None,
        }
    }

    /// The moment that the host's local clock shows.
    pub fn now() -> (moment: LocalMoment)
        ensures
            moment.valid(),
    {
        LocalMoment::at(ClockReading::now())
    }

    /// The moment at which the Unix epoch began on the clock of Greenwich: a
    /// Thursday, at midnight. It stands in where no local moment can be had.
    pub open spec fn epoch() -> LocalMoment {
        LocalMoment { weekday: Weekday::Thursday, time: TimeOfDay { seconds: 0, nanos: 0 } }
    }

    /// The moment that the parts of a local date and time stand for, and the
    /// epoch's where there are none or they name no moment of a day.
    pub open spec fn settled(parts: Option<(u32, u32, u32)>, moment: LocalMoment) -> bool {
        match parts {
            Some((days, seconds, nanos)) => if days < 7 && seconds < 86_400 && nanos
                < 2_000_000_000 {
                moment.weekday.index() == days && moment.time == (TimeOfDay { seconds, nanos })
            } else {
                moment == LocalMoment::epoch()
            },
            None => moment == LocalMoment::epoch(),
        }
    }

    /// The moment that the parts of a local date and time stand for: the day
    /// that lies so many days after a Monday, at so many seconds and
    /// nanoseconds past midnight. Where there are no parts, or they name no
    /// moment of a day, it is the epoch's.
    pub fn settle(parts: Option<(u32, u32, u32)>) -> (moment: LocalMoment)
        ensures
            LocalMoment::settled(parts, moment),
            moment.valid(),
    {
        let fallback = LocalMoment {
            weekday: Weekday::Thursday,
            time: TimeOfDay { seconds: 0, nanos: 0 },
        };
        match parts {
            Some((days, seconds, nanos)) => match LocalMoment::from_parts(days, seconds, nanos) {
                Some(moment) => moment,
                None => fallback,
            },
            None => fallback,
        }
    }

    /// The local moment at a reading of the system clock, by the time zone of
    /// the host. A reading that lies beyond the dates that can be told counts
    /// as the epoch.
    pub fn at(reading: ClockReading) -> (moment: LocalMoment)
        ensures
            moment.valid(),
            reading.seconds > i64::MAX ==> moment == LocalMoment::epoch(),
    {
        if reading.seconds <= i64::MAX as u64 {
            LocalMoment::settle(local_parts(reading.seconds as i64, reading.nanos))
        } else {
            LocalMoment::settle(None)
        }
    }

    /// The moment that a reading of the clock stands for: the day that lies
    /// `days` days after a Monday, at `seconds` seconds and `nanos`
    /// nanoseconds past midnight. `None` where the three name no moment of a
    /// day.
    pub fn from_parts(days: u32, seconds: u32, nanos: u32) -> (moment: Option<LocalMoment>)
        ensures
            moment is Some <==> days < 7 && seconds < 86_400 && nanos < 2_000_000_000,
            moment matches Some(m) ==> m.weekday.index() == days && m.time == (TimeOfDay {
                seconds,
                nanos,
            }) && m.valid(),
    {
        if days < 7 && seconds < 86_400 && nanos < 2_000_000_000 {
            Some(
                LocalMoment {
                    weekday: Weekday::of_days_from_monday(days),
                    time: TimeOfDay { seconds, nanos },
                },
            )
        } else {
            None
        }
    }
}

/// A reading of the system clock: the whole seconds since the Unix epoch and
/// the nanoseconds past them.
#[derive(Clone, Copy, Debug, PartialEq, Eq, Structural)]
pub struct ClockReading {
    pub seconds: u64,
    pub nanos: u32,
}

impl ClockReading {
    /// What a look at the system clock stands for: the time that it gave,
    /// and the epoch itself for a clock that stands before the epoch.
    pub open spec fn taken_from(raw: Option<(u64, u32)>) -> ClockReading {
        match raw {
            Some((seconds, nanos)) => ClockReading { seconds, nanos },
            None => ClockReading { seconds: 0, nanos: 0 },
        }
    }

    /// What a look at the system clock stands for: the time that it gave,
    /// and the epoch itself for a clock that stands before the epoch.
    pub fn of(raw: Option<(u64, u32)>) -> (reading: ClockReading)
        ensures
            reading == ClockReading::taken_from(raw),
    {
        match raw {
            Some((seconds, nanos)) => ClockReading { seconds, nanos },
            None => ClockReading { seconds: 0, nanos: 0 },
        }
    }

    /// A reading of the host's system clock.
    pub fn now() -> (reading: ClockReading)
        ensures
            reading.nanos < 1_000_000_000,
    {
        ClockReading::of(system_clock())
    }
}

/// The pattern of a time of day as a time window writes it: hours and
/// minutes on the 24-hour clock.
pub const CLOCK_PATTERN: &'static str = "%H:%M";

/// The pattern of the label that marks a refresh.
pub const REFRESH_PATTERN: &'static str = "%H:%M:%S";

/// The pattern of the line that shows the day and the time.
pub const HEADLINE_PATTERN: &'static str = "%A, %B %d - %I:%M %p";

/// The character that writes a number below ten.
pub open spec fn digit(n: int) -> char {
    ((48 + n) as u8) as char
}

/// A number below a hundred, written with two digits.
pub open spec fn two_digits(n: int) -> Seq<char> {
    seq![digit(n / 10), digit(n % 10)]
}

/// The full English name of a month, counted from 1.
pub open spec fn month_title(month: int) -> Seq<char> {
    if month == 1 {
        "January"@
    } else if month == 2 {
        "February"@
    } else if month == 3 {
        "March"@
    } else if month == 4 {
        "April"@
    } else if month == 5 {
        "May"@
    } else if month == 6 {
        "June"@
    } else if month == 7 {
        "July"@
    } else if month == 8 {
        "August"@
    } else if month == 9 {
        "September"@
    } else if month == 10 {
        "October"@
    } else if month == 11 {
        "November"@
    } else {
        "December"@
    }
}

/// The label of a refresh at a time of day: hour, minute and second, two
/// digits each, with colons between them, as in `14:32:07`.
pub open spec fn refresh_label_of(time: TimeOfDay) -> Seq<char> {
    two_digits(time.hour()) + seq![':'] + two_digits(time.minute()) + seq![':'] + two_digits(
        time.second(),
    )
}

/// Whether a text is the refresh label of a time of day.
pub open spec fn is_refresh_label(text: Seq<char>) -> bool {
    exists|time: TimeOfDay| time.valid() && text == #[trigger] refresh_label_of(time)
}

/// The headline of a moment: the name of the day, the name of the month and
/// the day of the month, then the time on the 12-hour clock, as in
/// `Wednesday, October 28 - 02:32 PM`.
pub open spec fn headline_of(weekday: Weekday, month: int, day: int, time: TimeOfDay) -> Seq<char> {
    weekday.title() + seq![',', ' '] + month_title(month) + seq![' '] + two_digits(day) + seq![
        ' ',
        '-',
        ' ',
    ] + two_digits(time.hour12()) + seq![':'] + two_digits(time.minute()) + seq![' '] + (if time.hour()
        >= 12 {
        seq!['P', 'M']
    } else {
        seq!['A', 'M']
    })
}

/// Whether a text is the headline of a moment of some day of a month.
pub open spec fn is_headline(text: Seq<char>) -> bool {
    exists|weekday: Weekday, month: int, day: int, time: TimeOfDay|
        1 <= month <= 12 && 1 <= day <= 31 && time.valid() && text == #[trigger] headline_of(
            weekday,
            month,
            day,
            time,
        )
}

/// The refresh label of midnight, which stands in where no local time can
/// be had.
pub const MIDNIGHT_LABEL: &'static str = "00:00:00";

/// The headline of the moment at which the Unix epoch began, which stands in
/// where no local moment can be had.
pub const EPOCH_HEADLINE: &'static str = "Thursday, January 01 - 12:00 AM";

/// The text that was written, or the text that stands in where none was.
pub open spec fn written_or(written: Option<String>, stand_in: Seq<char>) -> Seq<char> {
    match written {
        Some(text) => text@,
        None => stand_in,
    }
}

/// The label that stands in for a missing one is the refresh label of
/// midnight.
pub proof fn lemma_midnight_label()
    ensures
        is_refresh_label(MIDNIGHT_LABEL@),
{
    reveal_strlit("00:00:00");
    let midnight = TimeOfDay { seconds: 0, nanos: 0 };
    assert(refresh_label_of(midnight) =~= MIDNIGHT_LABEL@);
}

/// The headline that stands in for a missing one is the headline of the
/// first of January, a Thursday, at midnight.
pub proof fn lemma_epoch_headline()
    ensures
        is_headline(EPOCH_HEADLINE@),
{
    reveal_strlit("Thursday, January 01 - 12:00 AM");
    reveal_strlit("Thursday");
    reveal_strlit("January");
    let midnight = TimeOfDay { seconds: 0, nanos: 0 };
    assert(headline_of(Weekday::Thursday, 1, 1, midnight) =~= EPOCH_HEADLINE@);
}

/// What `chrono::NaiveTime::parse_from_str` makes of a text under a pattern:
/// the seconds since midnight and the nanoseconds of the time it reads, or
/// `None` where it reports an error.
pub uninterp spec fn parsed_time(text: Seq<char>, pattern: Seq<char>) -> Option<(u32, u32)>;

/// The time of day that a text states in hours and minutes, if it states one.
pub open spec fn clock_time_of(text: Seq<char>) -> Option<TimeOfDay> {
    match parsed_time(text, CLOCK_PATTERN@) {
        Some((seconds, nanos)) => Some(TimeOfDay { seconds, nanos }),
        None => None,
    }
}

/// Calls `chrono::NaiveTime::parse_from_str`. Trusted: the outcome depends on
/// the two texts alone. A time that was read is handed on as its seconds
/// since midnight and its nanoseconds, an error as `None`.
#[verifier::external_body]
fn parse_time(text: &str, pattern: &str) -> (time: Option<(u32, u32)>)
    ensures
        time == parsed_time(text@, pattern@),
{
    match NaiveTime::parse_from_str(text, pattern) {
        Ok(t) => Some((t.num_seconds_from_midnight(), t.nanosecond())),
        Err(_) => None,
    }
}

/// Calls `chrono::TimeZone::timestamp_opt` on `chrono::Local`, which gives
/// the local date and time at so many seconds and nanoseconds since the Unix
/// epoch, or none where they lie beyond the dates that `chrono` can tell.
/// Trusted: of a date and time that it gives, the days since Monday are
/// below 7, the seconds since midnight below 86,400 and the nanoseconds
/// below 2,000,000,000. Which local time belongs to the instant is for the
/// host's time zone to say.
#[verifier::external_body]
fn local_parts(seconds: i64, nanos: u32) -> (parts: Option<(u32, u32, u32)>)
    ensures
        parts matches Some(p) ==> p.0 < 7 && p.1 < 86_400 && p.2 < 2_000_000_000,
{
    match Local.timestamp_opt(seconds, nanos).single() {
        Some(t) => Some(
            (t.weekday().num_days_from_monday(), t.num_seconds_from_midnight(), t.nanosecond()),
        ),
        None => None,
    }
}

/// Calls `chrono::DateTime::format` on the local date and time that
/// `chrono::TimeZone::timestamp_opt` gives for `chrono::Local`, and writes
/// the result out; `None` where there is no such date. The two patterns
/// admitted are ones that `chrono` formats without error. Trusted: which
/// local time belongs to the instant is for the host's time zone to say, and
/// how it is written is as `chrono` documents its patterns. Day of the
/// month, hour, minute and second take two digits each; the hour runs to 23,
/// or from 1 to 12 before `AM` or `PM`; the second is 60 during a leap
/// second; the names of the day and of the month are the English ones in
/// full.
#[verifier::external_body]
fn format_local(seconds: i64, nanos: u32, pattern: &str) -> (written: Option<String>)
    requires
        pattern@ == REFRESH_PATTERN@ || pattern@ == HEADLINE_PATTERN@,
    ensures
        written matches Some(text) ==> (pattern@ == REFRESH_PATTERN@ ==> is_refresh_label(text@))
            && (pattern@ == HEADLINE_PATTERN@ ==> is_headline(text@)),
{
    match Local.timestamp_opt(seconds, nanos).single() {
        Some(t) => Some(t.format(pattern).to_string()),
        None => None,
    }
}

/// Calls `std::time::SystemTime::now` and measures it from the Unix epoch
/// with `SystemTime::duration_since`. Trusted: the whole seconds since the
/// epoch and the nanoseconds past them, which stay below 1,000,000,000; or
/// `None` where the clock stands before the epoch.
#[verifier::external_body]
fn system_clock() -> (time: Option<(u64, u32)>)
    ensures
        time matches Some(t) ==> t.1 < 1_000_000_000,
{
    match SystemTime::now().duration_since(UNIX_EPOCH) {
        Ok(elapsed) => Some((elapsed.as_secs(), elapsed.subsec_nanos())),
        Err(_) => None,
    }
}

/// Reads a time of day written in hours and minutes on the 24-hour clock.
pub fn parse_clock_time(text: &str) -> (time: Option<TimeOfDay>)
    ensures
        time == clock_time_of(text@),
{
    match parse_time(text, CLOCK_PATTERN) {
        Some((seconds, nanos)) => Some(TimeOfDay { seconds, nanos }),
        None => None,
    }
}

/// The host's local time of day as a refresh label shows it: the label of
/// the time of day that the clock shows.
pub fn refresh_label_now() -> (label: String)
    ensures
        is_refresh_label(label@),
{
    refresh_label_at(ClockReading::now())
}

/// The host's local day and time as the headline shows them: the headline of
/// the moment that the clock shows.
pub fn headline_now() -> (headline: String)
    ensures
        is_headline(headline@),
{
    headline_at(ClockReading::now())
}

/// The whole seconds that the host's clock counts since the Unix epoch; a
/// clock that stands before the epoch counts as the epoch itself.
pub fn unix_seconds_now() -> u64 {
    ClockReading::now().seconds
}

/// The refresh label that was written, and that of midnight where none was.
pub fn refresh_label_or_midnight(written: Option<String>) -> (label: String)
    ensures
        label@ == written_or(written, MIDNIGHT_LABEL@),
{
    match written {
        Some(text) => text,
        None => MIDNIGHT_LABEL.to_owned(),
    }
}

/// The headline that was written, and that of the epoch where none was.
pub fn headline_or_epoch(written: Option<String>) -> (headline: String)
    ensures
        headline@ == written_or(written, EPOCH_HEADLINE@),
{
    match written {
        Some(text) => text,
        None => EPOCH_HEADLINE.to_owned(),
    }
}

/// The refresh label of the local time of day at a reading of the system
/// clock, by the time zone of the host. A reading that lies beyond the dates
/// that can be told gets the label of midnight.
pub fn refresh_label_at(reading: ClockReading) -> (label: String)
    ensures
        is_refresh_label(label@),
        reading.seconds > i64::MAX ==> label@ == MIDNIGHT_LABEL@,
{
    proof {
        lemma_midnight_label();
    }
    if reading.seconds <= i64::MAX as u64 {
        refresh_label_or_midnight(
            format_local(reading.seconds as i64, reading.nanos, REFRESH_PATTERN),
        )
    } else {
        refresh_label_or_midnight(None)
    }
}

/// The headline of the local moment at a reading of the system clock, by the
/// time zone of the host. A reading that lies beyond the dates that can be
/// told gets the headline of the epoch.
pub fn headline_at(reading: ClockReading) -> (headline: String)
    ensures
        is_headline(headline@),
        reading.seconds > i64::MAX ==> headline@ == EPOCH_HEADLINE@,
{
    proof {
        lemma_epoch_headline();
    }
    if reading.seconds <= i64::MAX as u64 {
        headline_or_epoch(format_local(reading.seconds as i64, reading.nanos, HEADLINE_PATTERN))
    } else {
        headline_or_epoch(None)
    }
}

} // verus!
