//! The reminders that are eligible at a moment, picked afresh at every
//! question: what is eligible changes with the clock.

use crate::clock::LocalMoment;
use crate::record::{views_of, Reminder, ReminderView};
use crate::window::is_eligible;
use vstd::prelude::*;

verus! {

/// The test that a reminder is eligible at `now`.
pub open spec fn eligible_at(now: LocalMoment) -> spec_fn(ReminderView) -> bool {
    |reminder: ReminderView| is_eligible(reminder, now)
}

/// Those of `records` that are eligible at `now`, in the order in which
/// `records` holds them.
pub open spec fn active_among(records: Seq<ReminderView>, now: LocalMoment) -> Seq<ReminderView> {
    records.filter(eligible_at(now))
}

/// The views of the reminders that a list refers to.
pub open spec fn views_of_refs(list: Seq<&Reminder>) -> Seq<ReminderView> {
    list.map_values(|r: &Reminder| r@)
}

/// Taking one more reminder into account adds it to the eligible ones if it
/// is eligible itself, and changes nothing if not.
pub proof fn lemma_active_among_push(records: Seq<ReminderView>, next: ReminderView, now: LocalMoment)
    ensures
        active_among(records.push(next), now) == if is_eligible(next, now) {
            active_among(records, now).push(next)
        } else {
            active_among(records, now)
        },
{
    records.lemma_filter_push(next, eligible_at(now));
}

/// The reminders of `records` that are eligible at `now`, in the order of
/// `records`.
pub fn active_records<'a>(records: &'a Vec<Reminder>, now: &LocalMoment) -> (active: Vec<
    &'a Reminder,
>)
    ensures
        views_of_refs(active@) == active_among(views_of(records@), *now),
        active@.len() <= records@.len(),
        forall|i: int| 0 <= i < active@.len() ==> is_eligible((#[trigger] active@[i])@, *now),
{
    let mut active: Vec<&Reminder> = Vec::new();
    let mut i: usize = 0;
    proof {
        reveal(Seq::filter);
        assert(views_of(records@.take(0)) =~= Seq::empty());
        assert(views_of_refs(active@) =~= Seq::empty());
    }
    while i < records.len()
        invariant
            i <= records.len(),
            views_of_refs(active@) == active_among(views_of(records@.take(i as int)), *now),
            active@.len() <= i,
            forall|k: int| 0 <= k < active@.len() ==> is_eligible((#[trigger] active@[k])@, *now),
        decreases records.len() - i,
    {
        let reminder = &records[i];
        let ghost before = active@;
        proof {
            assert(views_of(records@.take(i + 1)) =~= views_of(records@.take(i as int)).push(
                reminder@,
            ));
            lemma_active_among_push(views_of(records@.take(i as int)), reminder@, *now);
        }
        if reminder.is_eligible(now) {
            active.push(reminder);
            assert(views_of_refs(active@) =~= views_of_refs(before).push(reminder@));
        }
        i += 1;
    }
    assert(records@.take(records.len() as int) =~= records@);
    active
}

/// The number of reminders of `records` that are eligible at `now`.
pub fn count_active(records: &Vec<Reminder>, now: &LocalMoment) -> (count: usize)
    ensures
        count == active_among(views_of(records@), *now).len(),
        count <= records@.len(),
{
    let mut count: usize = 0;
    let mut i: usize = 0;
    proof {
        reveal(Seq::filter);
        assert(views_of(records@.take(0)) =~= Seq::empty());
    }
    while i < records.len()
        invariant
            i <= records.len(),
            count == active_among(views_of(records@.take(i as int)), *now).len(),
            count <= i,
        decreases records.len() - i,
    {
        let reminder = &records[i];
        proof {
            assert(views_of(records@.take(i + 1)) =~= views_of(records@.take(i as int)).push(
                reminder@,
            ));
            lemma_active_among_push(views_of(records@.take(i as int)), reminder@, *now);
        }
        if reminder.is_eligible(now) {
            count += 1;
        }
        i += 1;
    }
    assert(records@.take(records.len() as int) =~= records@);
    count
}

/// The eligible reminders are never more than the reminders there are; each
/// of them is eligible at the moment asked about, and each is one of the
/// reminders.
pub proof fn law_active_within_records(records: Seq<ReminderView>, now: LocalMoment)
    ensures
        active_among(records, now).len() <= records.len(),
        forall|i: int|
            0 <= i < active_among(records, now).len() ==> is_eligible(
                #[trigger] active_among(records, now)[i],
                now,
            ),
        forall|i: int|
            0 <= i < active_among(records, now).len() ==> records.contains(
                #[trigger] active_among(records, now)[i],
            ),
{
    broadcast use vstd::seq_lib::group_filter_ensures;

    records.lemma_filter_len(eligible_at(now));
    assert forall|i: int| 0 <= i < active_among(records, now).len() implies is_eligible(
        #[trigger] active_among(records, now)[i],
        now,
    ) by {
        records.lemma_filter_pred(eligible_at(now), i);
    }
    assert forall|i: int| 0 <= i < active_among(records, now).len() implies records.contains(
        #[trigger] active_among(records, now)[i],
    ) by {
        let picked = active_among(records, now)[i];
        assert(active_among(records, now).contains(picked));
        records.lemma_filter_contains_rev(eligible_at(now), picked);
    }
}

/// Every reminder that is eligible at the moment asked about is among the
/// eligible reminders.
pub proof fn law_active_holds_every_eligible(records: Seq<ReminderView>, now: LocalMoment, i: int)
    requires
        0 <= i < records.len(),
        is_eligible(records[i], now),
    ensures
        active_among(records, now).contains(records[i]),
{
    records.lemma_filter_contains(eligible_at(now), i);
}

} // verus!
