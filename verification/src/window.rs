//! When a reminder is eligible: on which days and in which window of the
//! day.

use crate::clock::{clock_time_of, parse_clock_time, LocalMoment, TimeOfDay, Weekday};
use crate::record::{names_of, Reminder, ReminderView};
use crate::text::{
    first_index_of, lemma_first_index_of, lemma_lowercase_of_small, lowercase_of, split_first,
    split_once_at, str_eq, to_lowercase, trim, trimmed,
};
use vstd::prelude::*;

verus! {

/// Whether a list of day names holds the name of `weekday`, whatever the case
/// of its letters.
pub open spec fn day_listed(names: Seq<Seq<char>>, weekday: Weekday) -> bool {
    exists|i: int| 0 <= i < names.len() && #[trigger] lowercase_of(names[i]) == weekday.name()
}

/// Whether the days of a reminder admit `weekday`: an absent list admits
/// every day.
pub open spec fn day_allows(days: Option<Seq<Seq<char>>>, weekday: Weekday) -> bool {
    match days {
        Some(names) => day_listed(names, weekday),
        None => true,
    }
}

/// The hours of the day that a keyword stands for, from the first up to but
/// not including the second.
pub open spec fn keyword_hours(word: Seq<char>) -> Option<(u32, u32)> {
    if word == "morning"@ {
        Some((6u32, 12u32))
    } else if word == "afternoon"@ {
        Some((12u32, 17u32))
    } else if word == "evening"@ {
        Some((17u32, 22u32))
    } else {
        None
    }
}

/// The two times of day that a range such as `"09:00-17:00"` states: the text
/// is parted at its first `-`, and each part, without the white space around
/// it, has to state a time.
pub open spec fn literal_window(range: Seq<char>) -> Option<(TimeOfDay, TimeOfDay)> {
    match split_first(range, '-') {
        Some((head, tail)) => match (clock_time_of(trimmed(head)), clock_time_of(trimmed(tail))) {
            (Some(start), Some(end)) => Some((start, end)),
            _ => None,
        },
        None => None,
    }
}

/// Whether a time lies in a window from `start` to `end`, both included. No
/// window admits every time; one that ends before it starts admits none.
pub open spec fn within(window: Option<(TimeOfDay, TimeOfDay)>, time: TimeOfDay) -> bool {
    match window {
        Some((start, end)) => start.not_after(time) && time.not_after(end),
        None => true,
    }
}

/// Whether a time range admits a time of day. A keyword, in whatever case,
/// admits its hours; any other text admits what lies in the range it states,
/// and every time where it states none.
pub open spec fn range_allows(range: Seq<char>, time: TimeOfDay) -> bool {
    match keyword_hours(lowercase_of(range)) {
        Some((from, until)) => from <= time.hour() < until,
        None => within(literal_window(range), time),
    }
}

/// Whether the time range of a reminder admits a time of day: an absent range
/// admits every time.
pub open spec fn window_allows(time_range: Option<Seq<char>>, time: TimeOfDay) -> bool {
    match time_range {
        Some(range) => range_allows(range, time),
        None => true,
    }
}

/// Whether a reminder is eligible at a moment: its days admit the moment's
/// day, and its time range the moment's time.
pub open spec fn is_eligible(reminder: ReminderView, now: LocalMoment) -> bool {
    day_allows(reminder.days, now.weekday) && window_allows(reminder.time_range, now.time)
}

/// Whether a list of day names holds the name of `weekday`, whatever the case
/// of its letters.
pub fn day_is_listed(names: &Vec<String>, weekday: Weekday) -> (listed: bool)
    ensures
        listed == day_listed(names_of(names@), weekday),
{
    let today = weekday.label();
    let mut i: usize = 0;
    while i < names.len()
        invariant
            i <= names.len(),
            today@ == weekday.name(),
            forall|k: int| 0 <= k < i ==> lowercase_of(#[trigger] names_of(names@)[k]) != weekday.name(),
        decreases names.len() - i,
    {
        let lowered = to_lowercase(names[i].as_str());
        if str_eq(lowered.as_str(), today) {
            assert(lowercase_of(names_of(names@)[i as int]) == weekday.name());
            return true;
        }
        i += 1;
    }
    false
}

/// The hours of the day that a keyword in lower case stands for.
pub fn keyword_window(word: &str) -> (hours: Option<(u32, u32)>)
    ensures
        hours == keyword_hours(word@),
{
    if str_eq(word, "morning") {
        Some((6, 12))
    } else if str_eq(word, "afternoon") {
        Some((12, 17))
    } else if str_eq(word, "evening") {
        Some((17, 22))
    } else {
        None
    }
}

/// The two times of day that a range such as `"09:00-17:00"` states, if it
/// states two.
pub fn parse_window(range: &str) -> (window: Option<(TimeOfDay, TimeOfDay)>)
    ensures
        window == literal_window(range@),
{
    match split_once_at(range, '-') {
        Some((head, tail)) => {
            let start = parse_clock_time(trim(head));
            let end = parse_clock_time(trim(tail));
            match (start, end) {
                (Some(start), Some(end)) => Some((start, end)),
                _ => None,
            }
        },
        None => None,
    }
}

/// Whether a time lies in a window, both ends included; no window admits
/// every time.
pub fn is_within(window: Option<(TimeOfDay, TimeOfDay)>, time: TimeOfDay) -> (inside: bool)
    ensures
        inside == within(window, time),
{
    match window {
        Some((start, end)) => start.is_not_after(time) && time.is_not_after(end),
        None => true,
    }
}

impl Reminder {
    /// Whether a time range admits the time of `now`.
    pub fn is_in_time_range(&self, time_range: &str, now: &LocalMoment) -> (inside: bool)
        ensures
            inside == range_allows(time_range@, now.time),
    {
        let word = to_lowercase(time_range);
        match keyword_window(word.as_str()) {
            Some((from, until)) => {
                let hour = now.time.hour_of_day();
                hour >= from && hour < until
            },
            None => is_within(parse_window(time_range), now.time),
        }
    }

    /// Whether the reminder is eligible at `now`. The days are looked at
    /// first: a day that is not listed settles the matter.
    pub fn is_eligible(&self, now: &LocalMoment) -> (eligible: bool)
        ensures
            eligible == is_eligible(self@, *now),
    {
        if let Some(days) = &self.days {
            if !day_is_listed(days, now.weekday) {
                return false;
            }
        }
        if let Some(time_range) = &self.time_range {
            return self.is_in_time_range(time_range.as_str(), now);
        }
        true
    }

    /// Whether the reminder is eligible at the moment that the host's local
    /// clock shows. One without days and without a time range always is.
    pub fn is_active_now(&self) -> (active: bool)
        ensures
            exists|now: LocalMoment| now.valid() && active == #[trigger] is_eligible(self@, now),
            self@.days is None && self@.time_range is None ==> active,
    {
        let now = LocalMoment::now();
        self.is_eligible(&now)
    }
}

/// Without a list of days, the day of the week has no say: two moments at
/// the same time of day agree on whether the reminder is eligible.
pub proof fn law_absent_days_ignore_weekday(reminder: ReminderView, a: LocalMoment, b: LocalMoment)
    requires
        reminder.days is None,
        a.time == b.time,
    ensures
        is_eligible(reminder, a) == is_eligible(reminder, b),
{
}

/// With a list of days, a reminder is eligible exactly when the moment's day
/// is listed, whatever the case of the letters. Left out are the moments of
/// a listed day that the time range rules out.
pub proof fn law_listed_days_decide(reminder: ReminderView, now: LocalMoment)
    requires
        reminder.days is Some,
        window_allows(reminder.time_range, now.time) || !day_listed(
            reminder.days->0,
            now.weekday,
        ),
    ensures
        is_eligible(reminder, now) <==> day_listed(reminder.days->0, now.weekday),
{
}

/// What the three keywords stand for: `morning` for the hours from six up to
/// noon, `afternoon` from noon up to five, `evening` from five up to ten.
pub proof fn law_keywords()
    ensures
        keyword_hours("morning"@) == Some((6u32, 12u32)),
        keyword_hours("afternoon"@) == Some((12u32, 17u32)),
        keyword_hours("evening"@) == Some((17u32, 22u32)),
{
    reveal_strlit("morning");
    reveal_strlit("afternoon");
    reveal_strlit("evening");
    assert("afternoon"@ != "morning"@) by {
        assert("afternoon"@.len() != "morning"@.len());
    }
    assert("evening"@ != "morning"@) by {
        assert("evening"@[0] != "morning"@[0]);
    }
    assert("evening"@ != "afternoon"@) by {
        assert("evening"@.len() != "afternoon"@.len());
    }
}

/// A time range that reads as a keyword, in whatever case, makes a reminder
/// eligible exactly in the keyword's hours. Left out are the moments within
/// those hours on a day that the reminder does not list.
pub proof fn law_keyword_hours_decide(
    reminder: ReminderView,
    now: LocalMoment,
    from: u32,
    until: u32,
)
    requires
        reminder.time_range is Some,
        keyword_hours(lowercase_of(reminder.time_range->0)) == Some((from, until)),
        day_allows(reminder.days, now.weekday) || !(from <= now.time.hour() < until),
    ensures
        is_eligible(reminder, now) <==> from <= now.time.hour() < until,
{
}

/// The three keywords are their own lowercase forms, so a time range that
/// is written as one of them reads as that keyword.
pub proof fn law_keywords_read_as_written()
    ensures
        lowercase_of("morning"@) == "morning"@,
        lowercase_of("afternoon"@) == "afternoon"@,
        lowercase_of("evening"@) == "evening"@,
{
    reveal_strlit("morning");
    reveal_strlit("afternoon");
    reveal_strlit("evening");
    lemma_lowercase_of_small("morning"@);
    lemma_lowercase_of_small("afternoon"@);
    lemma_lowercase_of_small("evening"@);
}

/// The time range `morning` makes a reminder eligible exactly from six
/// o'clock up to noon. Left out are the moments within those hours on a day
/// that the reminder does not list.
pub proof fn law_morning_hours(reminder: ReminderView, now: LocalMoment)
    requires
        reminder.time_range == Some("morning"@),
        day_allows(reminder.days, now.weekday) || !(6 <= now.time.hour() < 12),
    ensures
        is_eligible(reminder, now) <==> 6 <= now.time.hour() < 12,
{
    law_keywords_read_as_written();
}

/// The name of a day is its own lowercase form, so a list that holds the
/// name as the library writes it lists the day.
pub proof fn law_named_day_is_listed(names: Seq<Seq<char>>, at: int, weekday: Weekday)
    requires
        0 <= at < names.len(),
        names[at] == weekday.name(),
    ensures
        day_listed(names, weekday),
{
    reveal_strlit("monday");
    reveal_strlit("tuesday");
    reveal_strlit("wednesday");
    reveal_strlit("thursday");
    reveal_strlit("friday");
    reveal_strlit("saturday");
    reveal_strlit("sunday");
    lemma_lowercase_of_small(weekday.name());
}

/// A time range that is no keyword and states no two times restricts
/// nothing: the reminder is eligible at every time of a day that it admits.
pub proof fn law_unreadable_range_admits(reminder: ReminderView, now: LocalMoment)
    requires
        reminder.time_range is Some,
        keyword_hours(lowercase_of(reminder.time_range->0)) is None,
        literal_window(reminder.time_range->0) is None,
        day_allows(reminder.days, now.weekday),
    ensures
        is_eligible(reminder, now),
{
}

/// A time range that is no keyword and holds no `-` states no two times, and
/// so restricts nothing.
pub proof fn law_range_without_dash_admits(reminder: ReminderView, now: LocalMoment)
    requires
        reminder.time_range is Some,
        keyword_hours(lowercase_of(reminder.time_range->0)) is None,
        !reminder.time_range->0.contains('-'),
        day_allows(reminder.days, now.weekday),
    ensures
        is_eligible(reminder, now),
{
    let range = reminder.time_range->0;
    lemma_first_index_of(range, '-');
    if first_index_of(range, '-') < range.len() {
        assert(range.contains(range[first_index_of(range, '-')]));
    }
}

/// A day that is not listed settles the matter, whatever the time range
/// says.
pub proof fn law_unlisted_day_settles(reminder: ReminderView, now: LocalMoment)
    requires
        reminder.days is Some,
        !day_listed(reminder.days->0, now.weekday),
    ensures
        !is_eligible(reminder, now),
{
}

/// A range whose end lies before its start admits no time of day.
pub proof fn law_inverted_window_admits_none(start: TimeOfDay, end: TimeOfDay, time: TimeOfDay)
    requires
        !start.not_after(end),
    ensures
        !within(Some((start, end)), time),
{
}

} // verus!
