//! The list of reminders that the display works on, and how a reading of
//! the backing source changes it.

use crate::record::{names_of, views_of, Reminder, ReminderView};
use vstd::prelude::*;

verus! {

/// What an attempt to read the backing source gave.
#[derive(Debug)]
pub enum SourceRead {
    /// The source was read and held a list of reminders.
    Loaded(Vec<Reminder>),
    /// There is no source.
    Missing,
    /// The source is there and could not be read; the text says why.
    Unreadable(String),
    /// The source was read and holds no list of reminders; the text says
    /// why.
    Malformed(String),
}

/// A reading of the source, with sequences in place of the texts.
pub enum ReadModel {
    Loaded(Seq<ReminderView>),
    Missing,
    Unreadable(Seq<char>),
    Malformed(Seq<char>),
}

impl View for SourceRead {
    type V = ReadModel;

    open spec fn view(&self) -> ReadModel {
        match self {
            SourceRead::Loaded(list) => ReadModel::Loaded(views_of(list@)),
            SourceRead::Missing => ReadModel::Missing,
            SourceRead::Unreadable(why) => ReadModel::Unreadable(why@),
            SourceRead::Malformed(why) => ReadModel::Malformed(why@),
        }
    }
}

/// How a refresh ended.
#[derive(Debug)]
pub enum RefreshOutcome {
    /// The list was replaced by the one read, of this many reminders.
    Loaded(usize),
    /// There was no source: the list was replaced by the default one, of this
    /// many reminders, which is now to be written to the source.
    Created(usize),
    /// The source held no list of reminders; the list stays as it was.
    ParseError(String),
    /// The source could not be read; the list stays as it was.
    Unchanged,
}

/// The end of a refresh, with a sequence in place of the text.
pub enum OutcomeModel {
    Loaded(nat),
    Created(nat),
    ParseError(Seq<char>),
    Unchanged,
}

impl View for RefreshOutcome {
    type V = OutcomeModel;

    open spec fn view(&self) -> OutcomeModel {
        match self {
            RefreshOutcome::Loaded(n) => OutcomeModel::Loaded(*n as nat),
            RefreshOutcome::Created(n) => OutcomeModel::Created(*n as nat),
            RefreshOutcome::ParseError(why) => OutcomeModel::ParseError(why@),
            RefreshOutcome::Unchanged => OutcomeModel::Unchanged,
        }
    }
}

/// The days from Monday to Friday.
pub open spec fn working_days() -> Seq<Seq<char>> {
    seq!["monday"@, "tuesday"@, "wednesday"@, "thursday"@, "friday"@]
}

/// The list that stands in for a source that is missing: five reminders of
/// several categories, priorities and restrictions.
pub open spec fn default_views() -> Seq<ReminderView> {
    seq![
        ReminderView {
            text: "Check your monitoring dashboards"@,
            category: "DevOps"@,
            priority: "high"@,
            time_range: Some("09:00-17:00"@),
            days: Some(working_days()),
        },
        ReminderView {
            text: "Review and respond to alerts"@,
            category: "DevOps"@,
            priority: "high"@,
            time_range: Some("09:00-17:00"@),
            days: Some(working_days()),
        },
        ReminderView {
            text: "Take a 5-minute break and stretch"@,
            category: "Health"@,
            priority: "medium"@,
            time_range: None,
            days: None,
        },
        ReminderView {
            text: "Check backup status and logs"@,
            category: "DevOps"@,
            priority: "medium"@,
            time_range: Some("morning"@),
            days: Some(seq!["monday"@, "wednesday"@, "friday"@]),
        },
        ReminderView {
            text: "Review security alerts and patches"@,
            category: "Security"@,
            priority: "high"@,
            time_range: Some("morning"@),
            days: Some(seq!["monday"@, "thursday"@]),
        },
    ]
}

fn names_from_monday_to_friday() -> (names: Vec<String>)
    ensures
        names_of(names@) == working_days(),
{
    let mut names: Vec<String> = Vec::new();
    names.push("monday".to_owned());
    names.push("tuesday".to_owned());
    names.push("wednesday".to_owned());
    names.push("thursday".to_owned());
    names.push("friday".to_owned());
    assert(names_of(names@) =~= working_days());
    names
}

fn names_of_three(first: &str, second: &str, third: &str) -> (names: Vec<String>)
    ensures
        names_of(names@) == seq![first@, second@, third@],
{
    let mut names: Vec<String> = Vec::new();
    names.push(first.to_owned());
    names.push(second.to_owned());
    names.push(third.to_owned());
    assert(names_of(names@) =~= seq![first@, second@, third@]);
    names
}

fn names_of_two(first: &str, second: &str) -> (names: Vec<String>)
    ensures
        names_of(names@) == seq![first@, second@],
{
    let mut names: Vec<String> = Vec::new();
    names.push(first.to_owned());
    names.push(second.to_owned());
    assert(names_of(names@) =~= seq![first@, second@]);
    names
}

/// The list that stands in for a source that is missing.
pub fn default_reminders() -> (list: Vec<Reminder>)
    ensures
        views_of(list@) == default_views(),
{
    let mut list: Vec<Reminder> = Vec::new();
    list.push(
        Reminder {
            text: "Check your monitoring dashboards".to_owned(),
            category: "DevOps".to_owned(),
            priority: "high".to_owned(),
            time_range: Some("09:00-17:00".to_owned()),
            days: Some(names_from_monday_to_friday()),
        },
    );
    list.push(
        Reminder {
            text: "Review and respond to alerts".to_owned(),
            category: "DevOps".to_owned(),
            priority: "high".to_owned(),
            time_range: Some("09:00-17:00".to_owned()),
            days: Some(names_from_monday_to_friday()),
        },
    );
    list.push(
        Reminder {
            text: "Take a 5-minute break and stretch".to_owned(),
            category: "Health".to_owned(),
            priority: "medium".to_owned(),
            time_range: None,
            days: None,
        },
    );
    list.push(
        Reminder {
            text: "Check backup status and logs".to_owned(),
            category: "DevOps".to_owned(),
            priority: "medium".to_owned(),
            time_range: Some("morning".to_owned()),
            days: Some(names_of_three("monday", "wednesday", "friday")),
        },
    );
    list.push(
        Reminder {
            text: "Review security alerts and patches".to_owned(),
            category: "Security".to_owned(),
            priority: "high".to_owned(),
            time_range: Some("morning".to_owned()),
            days: Some(names_of_two("monday", "thursday")),
        },
    );
    assert(views_of(list@) =~= default_views());
    list
}

/// What a store holds: the reminders, the label of the last refresh that
/// replaced them, and the place of the source.
pub struct StoreState {
    pub records: Seq<ReminderView>,
    pub label: Seq<char>,
    pub source: Seq<char>,
}

impl ReadModel {
    /// Whether a refresh on this reading replaces the list.
    pub open spec fn replaces(self) -> bool {
        self is Loaded || self is Missing
    }

    /// The list that a refresh on this reading installs, where it installs
    /// one.
    pub open spec fn installed(self) -> Seq<ReminderView> {
        match self {
            ReadModel::Loaded(list) => list,
            _ => default_views(),
        }
    }

    /// How a refresh on this reading ends.
    pub open spec fn outcome(self) -> OutcomeModel {
        match self {
            ReadModel::Loaded(list) => OutcomeModel::Loaded(list.len()),
            ReadModel::Missing => OutcomeModel::Created(default_views().len()),
            ReadModel::Unreadable(_) => OutcomeModel::Unchanged,
            ReadModel::Malformed(why) => OutcomeModel::ParseError(why),
        }
    }
}

impl StoreState {
    /// A store for the source at `source`, before the first refresh.
    pub open spec fn empty(source: Seq<char>) -> StoreState {
        StoreState { records: Seq::empty(), label: Seq::empty(), source }
    }

    /// The store after a refresh on `read` that is stamped `stamp`. A list
    /// that was read replaces the old one whole; a missing source has the
    /// default list installed; any other reading leaves the store as it was.
    pub open spec fn refreshed(self, read: ReadModel, stamp: Seq<char>) -> StoreState {
        if read.replaces() {
            StoreState { records: read.installed(), label: stamp, source: self.source }
        } else {
            self
        }
    }
}

/// The reminders in use. They are replaced whole or not at all.
#[derive(Debug)]
pub struct ReminderStore {
    records: Vec<Reminder>,
    last_refresh: String,
    source: String,
}

impl View for ReminderStore {
    type V = StoreState;

    closed spec fn view(&self) -> StoreState {
        StoreState {
            records: views_of(self.records@),
            label: self.last_refresh@,
            source: self.source@,
        }
    }
}

impl ReminderStore {
    /// A store for the source at `source`, with no reminders yet.
    pub fn new(source: String) -> (store: ReminderStore)
        ensures
            store@ == StoreState::empty(source@),
    {
        let store = ReminderStore { records: Vec::new(), last_refresh: String::new(), source };
        assert(store@.records =~= Seq::empty());
        store
    }

    /// Installs the default list and stamps the store with `stamp`. Returns
    /// the number of reminders installed.
    pub fn install_defaults(&mut self, stamp: String) -> (count: usize)
        ensures
            final(self)@ == old(self)@.refreshed(ReadModel::Missing, stamp@),
            count == default_views().len(),
    {
        let list = default_reminders();
        let count: usize = list.len();
        self.records = list;
        self.last_refresh = stamp;
        count
    }

    /// Takes in a reading of the source. A list that was read replaces the
    /// old one and the store is stamped with `stamp`; so does the default
    /// list where the source is missing. A source that could not be read, or
    /// that holds no list, leaves the store as it was.
    pub fn refresh(&mut self, read: SourceRead, stamp: String) -> (outcome: RefreshOutcome)
        ensures
            final(self)@ == old(self)@.refreshed(read@, stamp@),
            outcome@ == read@.outcome(),
    {
        match read {
            SourceRead::Loaded(list) => {
                let count: usize = list.len();
                self.records = list;
                self.last_refresh = stamp;
                RefreshOutcome::Loaded(count)
            },
            SourceRead::Missing => {
                let count: usize = self.install_defaults(stamp);
                RefreshOutcome::Created(count)
            },
            SourceRead::Unreadable(_) => RefreshOutcome::Unchanged,
            SourceRead::Malformed(why) => RefreshOutcome::ParseError(why),
        }
    }

    /// The reminders in use, in the order of the source.
    pub fn current_records(&self) -> (list: &Vec<Reminder>)
        ensures
            views_of(list@) == self@.records,
    {
        &self.records
    }

    /// The label of the last refresh that replaced the list; empty before
    /// the first.
    pub fn last_refresh_label(&self) -> (label: &str)
        ensures
            label@ == self@.label,
    {
        self.last_refresh.as_str()
    }

    /// The place of the source.
    pub fn source(&self) -> (place: &str)
        ensures
            place@ == self@.source,
    {
        self.source.as_str()
    }
}

/// A refresh on a source that could not be read, or that holds no list,
/// leaves the reminders and the label as they were.
pub proof fn law_failed_read_keeps_list(store: StoreState, read: ReadModel, stamp: Seq<char>)
    requires
        read is Unreadable || read is Malformed,
    ensures
        store.refreshed(read, stamp) == store,
{
}

/// A refresh never leaves a store without reminders on account of a missing
/// source, and never changes the place of the source.
pub proof fn law_refresh_keeps_source(store: StoreState, read: ReadModel, stamp: Seq<char>)
    ensures
        store.refreshed(read, stamp).source == store.source,
        read is Missing ==> store.refreshed(read, stamp).records.len() == 5,
{
}

} // verus!
