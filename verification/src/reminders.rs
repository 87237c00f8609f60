//! The display's engine: the store of reminders and the rotating cursor,
//! behind the questions that the screen asks and the two steps that the
//! periodic driver takes.

use crate::active::{
    active_among, active_records, count_active, law_active_within_records, views_of_refs,
};
use crate::clock::{
    headline_now, is_headline, is_refresh_label, refresh_label_at, unix_seconds_now,
    ClockReading, LocalMoment,
};
use crate::record::{views_of, ReminderView};
use crate::scheduler::{
    capped, law_position_in_range, RotationScheduler, SchedulerState, DEFAULT_INTERVAL,
};
use crate::store::{ReadModel, RefreshOutcome, ReminderStore, SourceRead, StoreState};
use crate::window::is_eligible;
use vstd::prelude::*;

pub use crate::record::Reminder;

verus! {

/// What the engine holds: the store and the scheduler.
pub struct EngineState {
    pub store: StoreState,
    pub scheduler: SchedulerState,
}

impl EngineState {
    /// The reminders that are eligible at `now`, in the order of the store.
    pub open spec fn active(self, now: LocalMoment) -> Seq<ReminderView> {
        active_among(self.store.records, now)
    }

    /// The number of reminders that are eligible at `now`.
    pub open spec fn active_count(self, now: LocalMoment) -> nat {
        self.active(now).len()
    }

    /// The place of the reminder on show among those eligible at `now`: the
    /// cursor, taken around their number as it is at `now`.
    pub open spec fn position(self, now: LocalMoment) -> nat {
        self.scheduler.position(self.active_count(now))
    }

    /// The reminder on show at `now`, if any is eligible.
    pub open spec fn current(self, now: LocalMoment) -> Option<ReminderView> {
        if self.active_count(now) == 0 {
            None
        } else {
            Some(self.active(now)[self.position(now) as int])
        }
    }

    /// The engine after one step of the driver at second `second`, with the
    /// local clock at `now`.
    pub open spec fn ticked(self, second: nat, now: LocalMoment) -> EngineState {
        EngineState {
            store: self.store,
            scheduler: self.scheduler.advanced(self.active_count(now), second),
        }
    }

    /// The engine after it took in a reading of the source, with the local
    /// clock at `now`. Where the list was replaced, a cursor that the number
    /// of reminders now eligible does not exceed is back at 0.
    pub open spec fn polled(self, read: ReadModel, stamp: Seq<char>, now: LocalMoment) -> EngineState {
        let store = self.store.refreshed(read, stamp);
        EngineState {
            store,
            scheduler: if read.replaces() {
                self.scheduler.fitted(active_among(store.records, now).len())
            } else {
                self.scheduler
            },
        }
    }

    /// The engine as it starts at second `second`: an empty store for the
    /// source at `source`, a cursor at 0, and then the first reading taken
    /// in.
    pub open spec fn started(
        source: Seq<char>,
        read: ReadModel,
        stamp: Seq<char>,
        second: nat,
        now: LocalMoment,
    ) -> EngineState {
        (EngineState {
            store: StoreState::empty(source),
            scheduler: SchedulerState::starting(second, DEFAULT_INTERVAL as nat),
        }).polled(read, stamp, now)
    }
}

/// The engine of the display.
#[derive(Debug)]
pub struct ReminderManager {
    store: ReminderStore,
    scheduler: RotationScheduler,
}

impl View for ReminderManager {
    type V = EngineState;

    closed spec fn view(&self) -> EngineState {
        EngineState { store: self.store@, scheduler: self.scheduler@ }
    }
}

impl ReminderManager {
    /// An engine for the source at `file_path` that starts at second
    /// `second` and has taken in a first reading of the source, stamped
    /// `stamp`, with the local clock at `now`.
    pub fn start(
        file_path: String,
        read: SourceRead,
        stamp: String,
        second: u64,
        now: &LocalMoment,
    ) -> (manager: ReminderManager)
        ensures
            manager@ == EngineState::started(file_path@, read@, stamp@, second as nat, *now),
    {
        let mut manager = ReminderManager {
            store: ReminderStore::new(file_path),
            scheduler: RotationScheduler::new(second),
        };
        manager.poll_source(read, stamp, now);
        manager
    }

    /// An engine for the source at `file_path` that starts now and has taken
    /// in a first reading of the source. The host's clocks give the second,
    /// the local moment and the stamp.
    pub fn new(file_path: String, read: SourceRead) -> (manager: ReminderManager)
        ensures
            exists|stamp: Seq<char>, second: nat, now: LocalMoment|
                is_refresh_label(stamp) && now.valid() && manager@
                    == #[trigger] EngineState::started(file_path@, read@, stamp, second, now),
    {
        let reading = ClockReading::now();
        let now = LocalMoment::at(reading);
        let stamp = refresh_label_at(reading);
        ReminderManager::start(file_path, read, stamp, reading.seconds, &now)
    }

    /// Takes in a reading of the source, stamped `stamp`, with the local
    /// clock at `now`. A list that was read, or the default list where the
    /// source is missing, replaces the old one whole; the cursor then goes
    /// back to 0 unless the number of reminders eligible at `now` exceeds it.
    /// Any other reading changes nothing. After `Created` the list is to be
    /// written to the source; the engine goes on with it whether or not that
    /// succeeds.
    pub fn poll_source(&mut self, read: SourceRead, stamp: String, now: &LocalMoment) -> (outcome:
        RefreshOutcome)
        ensures
            final(self)@ == old(self)@.polled(read@, stamp@, *now),
            outcome@ == read@.outcome(),
    {
        let outcome = self.store.refresh(read, stamp);
        match outcome {
            RefreshOutcome::Loaded(_) | RefreshOutcome::Created(_) => {
                let count = count_active(self.store.current_records(), now);
                self.scheduler.fit_to(count);
            },
            _ => {},
        }
        outcome
    }

    /// Takes in a reading of the source, as `poll_source` does, with the
    /// local moment that the host's clock gives, and with the refresh label
    /// of that time of day as the stamp.
    pub fn load_reminders(&mut self, read: SourceRead) -> (outcome: RefreshOutcome)
        ensures
            exists|stamp: Seq<char>, now: LocalMoment|
                is_refresh_label(stamp) && now.valid() && final(self)@ == #[trigger] old(
                    self,
                )@.polled(read@, stamp, now),
            outcome@ == read@.outcome(),
    {
        let reading = ClockReading::now();
        let now = LocalMoment::at(reading);
        let stamp = refresh_label_at(reading);
        self.poll_source(read, stamp, &now)
    }

    /// Takes in a reading of the source: the driver's first step.
    pub fn check_for_updates(&mut self, read: SourceRead) -> (outcome: RefreshOutcome)
        ensures
            exists|stamp: Seq<char>, now: LocalMoment|
                is_refresh_label(stamp) && now.valid() && final(self)@ == #[trigger] old(
                    self,
                )@.polled(read@, stamp, now),
            outcome@ == read@.outcome(),
    {
        self.load_reminders(read)
    }

    /// The reminders that are eligible at `now`, in the order of the store.
    pub fn active_records(&self, now: &LocalMoment) -> (active: Vec<&Reminder>)
        ensures
            views_of_refs(active@) == self@.active(*now),
            active@.len() <= self@.store.records.len(),
            forall|i: int| 0 <= i < active@.len() ==> is_eligible((#[trigger] active@[i])@, *now),
    {
        active_records(self.store.current_records(), now)
    }

    /// The number of reminders that are eligible at `now`.
    pub fn active_count(&self, now: &LocalMoment) -> (count: usize)
        ensures
            count == self@.active_count(*now),
            count <= self@.store.records.len(),
    {
        count_active(self.store.current_records(), now)
    }

    /// The place of the reminder on show among those eligible at `now`,
    /// counted from 0: below their number wherever there is one, and 0 where
    /// there is none.
    pub fn current_position(&self, now: &LocalMoment) -> (position: usize)
        ensures
            position == self@.position(*now),
            self@.active_count(*now) > 0 ==> position < self@.active_count(*now),
            self@.active_count(*now) == 0 ==> position == 0,
    {
        let count = self.active_count(now);
        self.scheduler.position_among(count)
    }

    /// The reminder on show at `now`: of those eligible at `now`, the one at
    /// the cursor taken around their number; `None` where none is eligible.
    pub fn current_reminder(&self, now: &LocalMoment) -> (current: Option<&Reminder>)
        ensures
            current is None <==> self@.active_count(*now) == 0,
            match current {
                Some(reminder) => Some(reminder@) == self@.current(*now),
                None => self@.current(*now) is None,
            },
    {
        let active = self.active_records(now);
        if active.len() == 0 {
            None
        } else {
            let at = self.scheduler.position_among(active.len());
            let reminder = active[at];
            Some(reminder)
        }
    }

    /// One step of the driver at second `second`, with the local clock at
    /// `now`: the cursor moves on if the interval has passed.
    pub fn tick(&mut self, second: u64, now: &LocalMoment)
        ensures
            final(self)@ == old(self)@.ticked(second as nat, *now),
    {
        let count = self.active_count(now);
        self.scheduler.advance_if_due(count, second);
    }

    /// The seconds from second `second` to the next move of the cursor.
    /// They are capped at what 64 bits hold, which can matter only for a
    /// clock that went back behind the last move.
    pub fn seconds_to_next_rotation(&self, second: u64) -> (seconds: u64)
        ensures
            seconds == capped(self@.scheduler.time_to_next(second as nat)),
            second >= self@.scheduler.last_advance ==> seconds == self@.scheduler.time_to_next(
                second as nat,
            ),
    {
        self.scheduler.time_to_next(second)
    }

    /// The label of the last refresh that replaced the list.
    pub fn last_refresh_label(&self) -> (label: &str)
        ensures
            label@ == self@.store.label,
    {
        self.store.last_refresh_label()
    }

    /// The reminders in use, eligible or not, in the order of the source.
    pub fn reminders(&self) -> (list: &Vec<Reminder>)
        ensures
            views_of(list@) == self@.store.records,
    {
        self.store.current_records()
    }

    /// The place of the source.
    pub fn file_path(&self) -> (place: &str)
        ensures
            place@ == self@.store.source,
    {
        self.store.source()
    }

    /// The reminder on show at the moment that the host's local clock shows.
    pub fn get_current_reminder(&self) -> (current: Option<&Reminder>)
        ensures
            exists|now: LocalMoment|
                now.valid() && #[trigger] self@.current(now) == match current {
                    Some(reminder) => Some(reminder@),
                    None => None,
                },
    {
        let now = LocalMoment::now();
        self.current_reminder(&now)
    }

    /// The driver's second step, by the host's clocks: the cursor moves on
    /// if the interval has passed.
    pub fn rotate_if_needed(&mut self)
        ensures
            exists|second: nat, now: LocalMoment|
                now.valid() && final(self)@ == #[trigger] old(self)@.ticked(second, now),
    {
        let reading = ClockReading::now();
        let now = LocalMoment::at(reading);
        self.tick(reading.seconds, &now);
    }

    /// The number of reminders that are eligible at the moment that the
    /// host's local clock shows.
    pub fn get_total_reminders(&self) -> (count: usize)
        ensures
            exists|now: LocalMoment| now.valid() && count == #[trigger] self@.active_count(now),
            count <= self@.store.records.len(),
    {
        let now = LocalMoment::now();
        self.active_count(&now)
    }

    /// The place of the reminder on show among those eligible at the moment
    /// that the host's local clock shows, counted from 0: the cursor, taken
    /// around their number.
    pub fn get_current_index(&self) -> (index: usize)
        ensures
            exists|now: LocalMoment| now.valid() && index == #[trigger] self@.position(now),
    {
        let now = LocalMoment::now();
        self.current_position(&now)
    }

    /// The scheduler, for a look at the cursor as it stands and at the
    /// interval.
    pub fn scheduler(&self) -> (scheduler: &RotationScheduler)
        ensures
            scheduler@ == self@.scheduler,
    {
        &self.scheduler
    }

    /// The seconds from now, by the host's clock, to the next move of the
    /// cursor.
    pub fn time_until_next_rotation(&self) -> (seconds: u64)
        ensures
            exists|second: nat|
                seconds == capped(#[trigger] self@.scheduler.time_to_next(second)) && (second
                    >= self@.scheduler.last_advance ==> seconds == self@.scheduler.time_to_next(
                    second,
                )),
    {
        let second = ReminderManager::current_timestamp();
        self.seconds_to_next_rotation(second)
    }

    /// The host's local day and time, as the headline shows them.
    pub fn current_time(&self) -> (headline: String)
        ensures
            is_headline(headline@),
    {
        headline_now()
    }

    /// The label of the last refresh that replaced the list.
    pub fn last_file_check(&self) -> (label: &str)
        ensures
            label@ == self@.store.label,
    {
        self.last_refresh_label()
    }

    /// The second that the host's clock counts since the Unix epoch.
    pub fn current_timestamp() -> u64 {
        unix_seconds_now()
    }
}

/// Nothing is shown exactly when nothing is eligible, and the place on show
/// is then 0: no count of zero is ever divided by.
pub proof fn law_nothing_eligible_nothing_shown(engine: EngineState, now: LocalMoment)
    ensures
        engine.active_count(now) == 0 <==> engine.current(now) is None,
        engine.active_count(now) == 0 ==> engine.position(now) == 0,
{
}

/// However far the cursor has run past the reminders that are eligible by
/// now, the place on show lies among them, and what is shown is one of the
/// store's reminders that is eligible at the moment asked about.
pub proof fn law_shown_reminder_is_eligible(engine: EngineState, now: LocalMoment)
    requires
        engine.active_count(now) > 0,
    ensures
        engine.position(now) < engine.active_count(now),
        engine.current(now) is Some,
        is_eligible(engine.current(now)->0, now),
        engine.store.records.contains(engine.current(now)->0),
{
    law_position_in_range(engine.scheduler, engine.active_count(now));
    law_active_within_records(engine.store.records, now);
}

/// Once a list has been read, the store holds that list, and the number of
/// eligible reminders is the number of those in the list that are eligible
/// at the moment asked about.
pub proof fn law_loaded_list_is_counted(
    engine: EngineState,
    list: Seq<ReminderView>,
    stamp: Seq<char>,
    polled_at: LocalMoment,
    now: LocalMoment,
)
    ensures
        engine.polled(ReadModel::Loaded(list), stamp, polled_at).store.records == list,
        engine.polled(ReadModel::Loaded(list), stamp, polled_at).active_count(now) == active_among(
            list,
            now,
        ).len(),
        engine.polled(ReadModel::Loaded(list), stamp, polled_at).active_count(now) <= list.len(),
{
    law_active_within_records(list, now);
}

/// A reading that replaced the list leaves the cursor below the number of
/// reminders eligible at that moment, or at 0.
pub proof fn law_poll_fits_cursor(
    engine: EngineState,
    read: ReadModel,
    stamp: Seq<char>,
    now: LocalMoment,
)
    requires
        read.replaces(),
    ensures
        engine.polled(read, stamp, now).scheduler.cursor == 0 || engine.polled(
            read,
            stamp,
            now,
        ).scheduler.cursor < engine.polled(read, stamp, now).active_count(now),
{
}

/// A source that could not be read, or that holds no list, changes nothing:
/// the display goes on with what it had.
pub proof fn law_failed_poll_changes_nothing(
    engine: EngineState,
    read: ReadModel,
    stamp: Seq<char>,
    now: LocalMoment,
)
    requires
        !read.replaces(),
    ensures
        engine.polled(read, stamp, now) == engine,
{
}

/// A step of the driver leaves the store alone.
pub proof fn law_tick_keeps_store(engine: EngineState, second: nat, now: LocalMoment)
    ensures
        engine.ticked(second, now).store == engine.store,
{
}

} // verus!
