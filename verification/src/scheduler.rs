//! The cursor that rotates through the eligible reminders.

use vstd::arithmetic::div_mod::{lemma_add_mod_noop_right, lemma_mod_bound};
use vstd::prelude::*;

verus! {

/// The seconds between two advances of the cursor, unless another interval
/// is asked for.
pub const DEFAULT_INTERVAL: u64 = 30;

/// What a scheduler holds: the cursor, the second of its last advance, and
/// the seconds that have to pass before the next.
pub struct SchedulerState {
    pub cursor: nat,
    pub last_advance: nat,
    pub interval: nat,
}

/// The base of the cursor's arithmetic: the number of eligible reminders,
/// and 1 where there is none.
pub open spec fn rotation_base(active_count: nat) -> nat {
    if active_count == 0 {
        1
    } else {
        active_count
    }
}

/// A number of seconds as the machine counts it: itself where it fits 64
/// bits, and the largest number that does where it does not.
pub open spec fn capped(seconds: nat) -> nat {
    if seconds <= u64::MAX {
        seconds
    } else {
        u64::MAX as nat
    }
}

impl SchedulerState {
    /// A scheduler that starts at second `started` with the cursor on the
    /// first reminder.
    pub open spec fn starting(started: nat, interval: nat) -> SchedulerState {
        SchedulerState { cursor: 0, last_advance: started, interval }
    }

    /// Whether the interval has passed at second `now`.
    pub open spec fn is_due(self, now: nat) -> bool {
        now - self.last_advance >= self.interval
    }

    /// The state after a look at the clock at second `now`: where the interval
    /// has passed, the cursor has moved on by one, around the number of
    /// eligible reminders, and the interval starts anew.
    pub open spec fn advanced(self, active_count: nat, now: nat) -> SchedulerState {
        if self.is_due(now) {
            SchedulerState {
                cursor: (self.cursor + 1) % rotation_base(active_count),
                last_advance: now,
                interval: self.interval,
            }
        } else {
            self
        }
    }

    /// The seconds from `now` until the interval has passed, and 0 once it
    /// has.
    pub open spec fn time_to_next(self, now: nat) -> nat {
        let remaining = self.interval - (now - self.last_advance);
        if remaining < 0 {
            0
        } else {
            remaining as nat
        }
    }

    /// The position that the cursor stands for among `active_count` eligible
    /// reminders.
    pub open spec fn position(self, active_count: nat) -> nat {
        self.cursor % rotation_base(active_count)
    }

    /// The state once the number of eligible reminders is known to be
    /// `active_count`: a cursor that this number does not exceed goes back to
    /// the first reminder.
    pub open spec fn fitted(self, active_count: nat) -> SchedulerState {
        if active_count <= self.cursor {
            SchedulerState { cursor: 0, ..self }
        } else {
            self
        }
    }
}

/// The rotating cursor. It owns no timer: whoever drives it shows it the
/// clock.
#[derive(Debug)]
pub struct RotationScheduler {
    cursor: usize,
    last_advance: u64,
    interval: u64,
}

impl View for RotationScheduler {
    type V = SchedulerState;

    closed spec fn view(&self) -> SchedulerState {
        SchedulerState {
            cursor: self.cursor as nat,
            last_advance: self.last_advance as nat,
            interval: self.interval as nat,
        }
    }
}

impl RotationScheduler {
    /// A scheduler that starts at second `started`, with the default
    /// interval.
    pub fn new(started: u64) -> (scheduler: RotationScheduler)
        ensures
            scheduler@ == SchedulerState::starting(started as nat, DEFAULT_INTERVAL as nat),
    {
        RotationScheduler { cursor: 0, last_advance: started, interval: DEFAULT_INTERVAL }
    }

    /// A scheduler that starts at second `started` and advances every
    /// `interval` seconds.
    pub fn with_interval(started: u64, interval: u64) -> (scheduler: RotationScheduler)
        ensures
            scheduler@ == SchedulerState::starting(started as nat, interval as nat),
    {
        RotationScheduler { cursor: 0, last_advance: started, interval }
    }

    /// Moves the cursor on by one, around the number of eligible reminders,
    /// if the interval has passed at second `now`; the interval then starts
    /// anew at `now`. With no eligible reminder the cursor goes to 0.
    pub fn advance_if_due(&mut self, active_count: usize, now: u64)
        ensures
            final(self)@ == old(self)@.advanced(active_count as nat, now as nat),
    {
        if now >= self.last_advance && now - self.last_advance >= self.interval {
            let base: usize = if active_count == 0 {
                1
            } else {
                active_count
            };
            proof {
                lemma_mod_bound(self.cursor as int, base as int);
                lemma_add_mod_noop_right(1, self.cursor as int, base as int);
            }
            let reduced: usize = self.cursor % base;
            self.cursor = (reduced + 1) % base;
            self.last_advance = now;
        }
    }

    /// The seconds from `now` until the interval has passed, and 0 once it
    /// has. A clock that went back behind the last advance makes them more
    /// than the interval; they are capped at what 64 bits hold.
    pub fn time_to_next(&self, now: u64) -> (seconds: u64)
        ensures
            seconds == capped(self@.time_to_next(now as nat)),
            now >= self@.last_advance ==> seconds == self@.time_to_next(now as nat),
    {
        if now >= self.last_advance {
            let elapsed: u64 = now - self.last_advance;
            if elapsed >= self.interval {
                0
            } else {
                self.interval - elapsed
            }
        } else {
            let ahead: u64 = self.last_advance - now;
            if ahead > u64::MAX - self.interval {
                u64::MAX
            } else {
                self.interval + ahead
            }
        }
    }

    /// The cursor as it stands. It may exceed the number of reminders that
    /// are eligible by now: `position_among` reduces it.
    pub fn current_position(&self) -> (cursor: usize)
        ensures
            cursor == self@.cursor,
    {
        self.cursor
    }

    /// The position that the cursor stands for among `active_count` eligible
    /// reminders: below `active_count` wherever there is one.
    pub fn position_among(&self, active_count: usize) -> (position: usize)
        ensures
            position == self@.position(active_count as nat),
            active_count > 0 ==> position < active_count,
    {
        if active_count == 0 {
            proof {
                lemma_mod_bound(self.cursor as int, 1);
            }
            0
        } else {
            proof {
                lemma_mod_bound(self.cursor as int, active_count as int);
            }
            self.cursor % active_count
        }
    }

    /// Puts the cursor back on the first reminder if the number of eligible
    /// reminders does not exceed it.
    pub fn fit_to(&mut self, active_count: usize)
        ensures
            final(self)@ == old(self)@.fitted(active_count as nat),
    {
        if active_count <= self.cursor {
            self.cursor = 0;
        }
    }

    /// The second of the last advance.
    pub fn last_advance(&self) -> (second: u64)
        ensures
            second == self@.last_advance,
    {
        self.last_advance
    }

    /// The seconds between two advances.
    pub fn interval(&self) -> (seconds: u64)
        ensures
            seconds == self@.interval,
    {
        self.interval
    }
}

/// Within one interval the cursor moves at most once: of two looks at the
/// clock less than an interval apart, the second leaves the scheduler as the
/// first left it. Left out is the case that nothing was due at the first
/// look and something is at the second, where the second look is the one
/// that moves a cursor which has anywhere to go.
pub proof fn law_second_look_changes_nothing(
    state: SchedulerState,
    first_count: nat,
    first: nat,
    second_count: nat,
    second: nat,
)
    requires
        second - first < state.interval,
        state.is_due(first) || !state.is_due(second) || (second_count <= 1 && state.cursor == 0),
    ensures
        state.advanced(first_count, first).advanced(second_count, second).cursor
            == state.advanced(first_count, first).cursor,
{
    if !state.is_due(first) && state.is_due(second) {
        assert(rotation_base(second_count) == 1);
        assert(1nat % 1nat == 0);
    }
}

/// A look at the clock that finds the interval passed is followed by a full
/// interval of rest, whatever the number of eligible reminders does.
pub proof fn law_rest_after_advance(
    state: SchedulerState,
    first_count: nat,
    first: nat,
    second_count: nat,
    second: nat,
)
    requires
        state.is_due(first),
        second - first < state.interval,
    ensures
        state.advanced(first_count, first).advanced(second_count, second) == state.advanced(
            first_count,
            first,
        ),
{
}

/// After an advance the cursor lies below the number of eligible reminders,
/// and at 0 where there is none.
pub proof fn law_advance_stays_in_range(state: SchedulerState, active_count: nat, now: nat)
    requires
        state.is_due(now),
    ensures
        state.advanced(active_count, now).cursor < rotation_base(active_count),
        active_count == 0 ==> state.advanced(active_count, now).cursor == 0,
{
    lemma_mod_bound((state.cursor + 1) as int, rotation_base(active_count) as int);
}

/// However far the cursor has run past the eligible reminders, the position
/// that it stands for lies among them.
pub proof fn law_position_in_range(state: SchedulerState, active_count: nat)
    requires
        active_count > 0,
    ensures
        state.position(active_count) < active_count,
{
    lemma_mod_bound(state.cursor as int, active_count as int);
}

/// The seconds until the next advance are 0 exactly when the interval has
/// passed.
pub proof fn law_due_when_no_time_left(state: SchedulerState, now: nat)
    ensures
        state.is_due(now) <==> state.time_to_next(now) == 0,
{
}

} // verus!
