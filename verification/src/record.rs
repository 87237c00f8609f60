//! A reminder as the backing source states it, and the colour that its
//! priority calls for.

use crate::text::{lowercase_of, str_eq, to_lowercase};
use egui::Color32;
use vstd::prelude::*;

verus! {

/// One reminder. An empty `category` stands for none; `time_range` and `days`
/// restrict when the reminder is shown, and an absent one restricts nothing.
#[derive(Debug, Clone)]
pub struct Reminder {
    pub text: String,
    pub category: String,
    pub priority: String,
    /// `"morning"`, `"afternoon"`, `"evening"`, or a range such as
    /// `"09:00-17:00"`.
    pub time_range: Option<String>,
    /// Full English names of the days on which the reminder is shown.
    pub days: Option<Vec<String>>,
}

/// What a reminder holds, as plain sequences of characters.
pub struct ReminderView {
    pub text: Seq<char>,
    pub category: Seq<char>,
    pub priority: Seq<char>,
    pub time_range: Option<Seq<char>>,
    pub days: Option<Seq<Seq<char>>>,
}

impl View for Reminder {
    type V = ReminderView;

    open spec fn view(&self) -> ReminderView {
        ReminderView {
            text: self.text@,
            category: self.category@,
            priority: self.priority@,
            time_range: match self.time_range {
                Some(range) => Some(range@),
                None => None,
            },
            days: match self.days {
                Some(names) => Some(names_of(names@)),
                None => None,
            },
        }
    }
}

/// The characters of each text of a list, in the order of the list.
pub open spec fn names_of(list: Seq<String>) -> Seq<Seq<char>> {
    list.map_values(|name: String| name@)
}

/// The views of a list of reminders, in the order of the list.
pub open spec fn views_of(list: Seq<Reminder>) -> Seq<ReminderView> {
    list.map_values(|r: Reminder| r@)
}

/// How strongly a reminder is set off on the display.
#[derive(Clone, Copy, Debug, PartialEq, Eq, Structural)]
pub enum PriorityTier {
    High,
    Medium,
    Low,
    Neutral,
}

/// The tier that a priority in lower case names; any word that names none
/// gets the neutral tier.
pub open spec fn tier_of_word(word: Seq<char>) -> PriorityTier {
    if word == "high"@ || word == "urgent"@ {
        PriorityTier::High
    } else if word == "medium"@ || word == "important"@ {
        PriorityTier::Medium
    } else if word == "low"@ || word == "info"@ {
        PriorityTier::Low
    } else {
        PriorityTier::Neutral
    }
}

/// The tier of a priority, whatever the case of its letters.
pub open spec fn tier_of(priority: Seq<char>) -> PriorityTier {
    tier_of_word(lowercase_of(priority))
}

/// The colour that `egui::Color32::from_rgb` makes of three channels.
pub uninterp spec fn opaque_rgb(red: u8, green: u8, blue: u8) -> Color32;

#[verifier::external_type_specification]
#[verifier::external_body]
pub struct ExColor32(Color32);

/// Calls `egui::Color32::from_rgb`. Trusted: the colour depends on the three
/// channels alone.
#[verifier::external_body]
fn color_from_rgb(red: u8, green: u8, blue: u8) -> (color: Color32)
    ensures
        color == opaque_rgb(red, green, blue),
{
    Color32::from_rgb(red, green, blue)
}

impl PriorityTier {
    /// The red, green and blue of the tier's colour.
    pub open spec fn channels(self) -> (u8, u8, u8) {
        match self {
            PriorityTier::High => (255, 100, 100),
            PriorityTier::Medium => (255, 200, 100),
            PriorityTier::Low => (100, 200, 255),
            PriorityTier::Neutral => (255, 255, 255),
        }
    }

    /// The tier's colour: opaque, with the tier's channels.
    pub open spec fn color(self) -> Color32 {
        opaque_rgb(self.channels().0, self.channels().1, self.channels().2)
    }

    /// The tier that a priority in lower case names.
    pub fn of_word(word: &str) -> (tier: PriorityTier)
        ensures
            tier == tier_of_word(word@),
    {
        if str_eq(word, "high") || str_eq(word, "urgent") {
            PriorityTier::High
        } else if str_eq(word, "medium") || str_eq(word, "important") {
            PriorityTier::Medium
        } else if str_eq(word, "low") || str_eq(word, "info") {
            PriorityTier::Low
        } else {
            PriorityTier::Neutral
        }
    }

    /// The red, green and blue of the tier's colour.
    pub fn rgb(self) -> (channels: (u8, u8, u8))
        ensures
            channels == self.channels(),
    {
        match self {
            PriorityTier::High => (255, 100, 100),
            PriorityTier::Medium => (255, 200, 100),
            PriorityTier::Low => (100, 200, 255),
            PriorityTier::Neutral => (255, 255, 255),
        }
    }
}

impl Reminder {
    /// The tier of the reminder's priority, whatever the case of its letters.
    pub fn priority_tier(&self) -> (tier: PriorityTier)
        ensures
            tier == tier_of(self@.priority),
    {
        let word = to_lowercase(self.priority.as_str());
        PriorityTier::of_word(word.as_str())
    }

    /// The colour in which the reminder is shown: that of its priority's tier.
    pub fn get_color(&self) -> (color: Color32)
        ensures
            color == tier_of(self@.priority).color(),
    {
        let (red, green, blue) = self.priority_tier().rgb();
        color_from_rgb(red, green, blue)
    }
}

} // verus!
