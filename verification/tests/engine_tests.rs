use reminder_display::active::{active_records, count_active};
use reminder_display::clock::{LocalMoment, Weekday};
use reminder_display::reminders::{Reminder, ReminderManager};
use reminder_display::scheduler::{RotationScheduler, DEFAULT_INTERVAL};
use reminder_display::store::{default_reminders, RefreshOutcome, ReminderStore, SourceRead};

fn reminder(text: &str, time_range: Option<&str>, days: Option<&[&str]>) -> Reminder {
    Reminder {
        text: text.to_string(),
        category: "Test".to_string(),
        priority: "high".to_string(),
        time_range: time_range.map(|r| r.to_string()),
        days: days.map(|list| list.iter().map(|d| d.to_string()).collect()),
    }
}

fn at(weekday: Weekday, hour: u32, minute: u32) -> LocalMoment {
    LocalMoment::new(weekday, hour, minute, 0).unwrap()
}

fn texts_of(list: &[&Reminder]) -> Vec<String> {
    list.iter().map(|r| r.text.clone()).collect()
}

fn engine_with(list: Vec<Reminder>, second: u64, now: &LocalMoment) -> ReminderManager {
    ReminderManager::start(
        "reminders.json".to_string(),
        SourceRead::Loaded(list),
        "08:00:00".to_string(),
        second,
        now,
    )
}

fn mixed_list() -> Vec<Reminder> {
    vec![
        reminder("always", None, None),
        reminder("mornings", Some("morning"), None),
        reminder("mondays", None, Some(&["monday"])),
        reminder("office", Some("09:00-17:00"), Some(&["monday", "tuesday"])),
        reminder("evenings", Some("evening"), None),
    ]
}

#[test]
fn scheduler_starts_at_zero_with_the_default_interval() {
    let scheduler = RotationScheduler::new(1_000);
    assert_eq!(DEFAULT_INTERVAL, 30);
    assert_eq!(scheduler.current_position(), 0);
    assert_eq!(scheduler.last_advance(), 1_000);
    assert_eq!(scheduler.interval(), 30);
    let other = RotationScheduler::with_interval(5, 7);
    assert_eq!(other.current_position(), 0);
    assert_eq!(other.last_advance(), 5);
    assert_eq!(other.interval(), 7);
}

#[test]
fn scheduler_advances_once_the_interval_has_passed() {
    let mut scheduler = RotationScheduler::new(1_000);
    scheduler.advance_if_due(3, 1_029);
    assert_eq!(scheduler.current_position(), 0);
    assert_eq!(scheduler.last_advance(), 1_000);
    scheduler.advance_if_due(3, 1_030);
    assert_eq!(scheduler.current_position(), 1);
    assert_eq!(scheduler.last_advance(), 1_030);
    scheduler.advance_if_due(3, 1_100);
    assert_eq!(scheduler.current_position(), 2);
    assert_eq!(scheduler.last_advance(), 1_100);
    scheduler.advance_if_due(3, 1_130);
    assert_eq!(scheduler.current_position(), 0);
    assert_eq!(scheduler.last_advance(), 1_130);
}

#[test]
fn scheduler_second_look_within_the_interval_changes_nothing() {
    let mut scheduler = RotationScheduler::new(1_000);
    scheduler.advance_if_due(4, 1_040);
    assert_eq!(scheduler.current_position(), 1);
    scheduler.advance_if_due(4, 1_069);
    assert_eq!(scheduler.current_position(), 1);
    assert_eq!(scheduler.last_advance(), 1_040);
    scheduler.advance_if_due(2, 1_041);
    assert_eq!(scheduler.current_position(), 1);
    scheduler.advance_if_due(0, 1_050);
    assert_eq!(scheduler.current_position(), 1);
    scheduler.advance_if_due(4, 1_070);
    assert_eq!(scheduler.current_position(), 2);
}

#[test]
fn scheduler_idle_look_does_not_put_off_the_advance() {
    let mut scheduler = RotationScheduler::new(0);
    scheduler.advance_if_due(3, 20);
    assert_eq!(scheduler.current_position(), 0);
    assert_eq!(scheduler.last_advance(), 0);
    scheduler.advance_if_due(3, 40);
    assert_eq!(scheduler.current_position(), 1);
    assert_eq!(scheduler.last_advance(), 40);
}

#[test]
fn scheduler_with_nothing_eligible_goes_to_zero() {
    let mut scheduler = RotationScheduler::new(0);
    scheduler.advance_if_due(5, 30);
    scheduler.advance_if_due(5, 60);
    assert_eq!(scheduler.current_position(), 2);
    scheduler.advance_if_due(0, 90);
    assert_eq!(scheduler.current_position(), 0);
    assert_eq!(scheduler.last_advance(), 90);
    assert_eq!(scheduler.position_among(0), 0);
    scheduler.advance_if_due(1, 120);
    assert_eq!(scheduler.current_position(), 0);
}

#[test]
fn scheduler_position_is_taken_around_the_count_at_hand() {
    let mut scheduler = RotationScheduler::new(0);
    for step in 1..=4u64 {
        scheduler.advance_if_due(10, step * 30);
    }
    assert_eq!(scheduler.current_position(), 4);
    assert_eq!(scheduler.position_among(10), 4);
    assert_eq!(scheduler.position_among(5), 4);
    assert_eq!(scheduler.position_among(4), 0);
    assert_eq!(scheduler.position_among(3), 1);
    assert_eq!(scheduler.position_among(1), 0);
    assert_eq!(scheduler.position_among(0), 0);
    scheduler.advance_if_due(3, 150);
    assert_eq!(scheduler.current_position(), 2);
}

#[test]
fn scheduler_fit_to_resets_a_cursor_out_of_range() {
    let mut scheduler = RotationScheduler::new(0);
    for step in 1..=4u64 {
        scheduler.advance_if_due(10, step * 30);
    }
    scheduler.fit_to(5);
    assert_eq!(scheduler.current_position(), 4);
    scheduler.fit_to(4);
    assert_eq!(scheduler.current_position(), 0);
    assert_eq!(scheduler.last_advance(), 120);
    scheduler.fit_to(0);
    assert_eq!(scheduler.current_position(), 0);
}

#[test]
fn scheduler_time_to_next() {
    let mut scheduler = RotationScheduler::new(1_000);
    assert_eq!(scheduler.time_to_next(1_000), 30);
    assert_eq!(scheduler.time_to_next(1_001), 29);
    assert_eq!(scheduler.time_to_next(1_029), 1);
    assert_eq!(scheduler.time_to_next(1_030), 0);
    assert_eq!(scheduler.time_to_next(9_999), 0);
    scheduler.advance_if_due(2, 1_045);
    assert_eq!(scheduler.time_to_next(1_045), 30);
    assert_eq!(scheduler.time_to_next(1_060), 15);
}

#[test]
fn scheduler_with_a_clock_that_went_back() {
    let mut scheduler = RotationScheduler::new(1_000);
    assert_eq!(scheduler.time_to_next(990), 40);
    scheduler.advance_if_due(3, 990);
    assert_eq!(scheduler.current_position(), 0);
    assert_eq!(scheduler.last_advance(), 1_000);
    let late = RotationScheduler::with_interval(u64::MAX, u64::MAX);
    assert_eq!(late.time_to_next(0), u64::MAX);
    assert_eq!(late.time_to_next(u64::MAX), u64::MAX);
    let zero = RotationScheduler::with_interval(10, 0);
    assert_eq!(zero.time_to_next(10), 0);
    assert_eq!(zero.time_to_next(4), 6);
}

#[test]
fn scheduler_with_interval_zero_advances_at_every_look() {
    let mut scheduler = RotationScheduler::with_interval(10, 0);
    scheduler.advance_if_due(3, 10);
    assert_eq!(scheduler.current_position(), 1);
    scheduler.advance_if_due(3, 10);
    assert_eq!(scheduler.current_position(), 2);
    scheduler.advance_if_due(3, 9);
    assert_eq!(scheduler.current_position(), 2);
}

#[test]
fn default_list_has_five_varied_reminders() {
    let list = default_reminders();
    assert_eq!(list.len(), 5);
    assert_eq!(list[0].text, "Check your monitoring dashboards");
    assert_eq!(list[0].category, "DevOps");
    assert_eq!(list[0].priority, "high");
    assert_eq!(list[0].time_range.as_deref(), Some("09:00-17:00"));
    assert_eq!(
        list[0].days,
        Some(vec![
            "monday".to_string(),
            "tuesday".to_string(),
            "wednesday".to_string(),
            "thursday".to_string(),
            "friday".to_string(),
        ])
    );
    assert_eq!(list[1].text, "Review and respond to alerts");
    assert_eq!(list[1].time_range.as_deref(), Some("09:00-17:00"));
    assert_eq!(list[1].days, list[0].days);
    assert_eq!(list[2].text, "Take a 5-minute break and stretch");
    assert_eq!(list[2].category, "Health");
    assert_eq!(list[2].priority, "medium");
    assert_eq!(list[2].time_range, None);
    assert_eq!(list[2].days, None);
    assert_eq!(list[3].text, "Check backup status and logs");
    assert_eq!(list[3].priority, "medium");
    assert_eq!(list[3].time_range.as_deref(), Some("morning"));
    assert_eq!(
        list[3].days,
        Some(vec!["monday".to_string(), "wednesday".to_string(), "friday".to_string()])
    );
    assert_eq!(list[4].text, "Review security alerts and patches");
    assert_eq!(list[4].category, "Security");
    assert_eq!(list[4].priority, "high");
    assert_eq!(list[4].time_range.as_deref(), Some("morning"));
    assert_eq!(list[4].days, Some(vec!["monday".to_string(), "thursday".to_string()]));
}

#[test]
fn store_starts_empty() {
    let store = ReminderStore::new("somewhere.json".to_string());
    assert_eq!(store.current_records().len(), 0);
    assert_eq!(store.last_refresh_label(), "");
    assert_eq!(store.source(), "somewhere.json");
}

#[test]
fn store_takes_a_list_that_was_read() {
    let mut store = ReminderStore::new("somewhere.json".to_string());
    let outcome = store.refresh(SourceRead::Loaded(mixed_list()), "14:32:07".to_string());
    assert!(matches!(outcome, RefreshOutcome::Loaded(5)));
    assert_eq!(store.last_refresh_label(), "14:32:07");
    let names: Vec<&str> = store.current_records().iter().map(|r| r.text.as_str()).collect();
    assert_eq!(names, ["always", "mornings", "mondays", "office", "evenings"]);

    let outcome = store.refresh(
        SourceRead::Loaded(vec![reminder("only", None, None)]),
        "14:32:17".to_string(),
    );
    assert!(matches!(outcome, RefreshOutcome::Loaded(1)));
    assert_eq!(store.current_records().len(), 1);
    assert_eq!(store.current_records()[0].text, "only");
    assert_eq!(store.last_refresh_label(), "14:32:17");
    assert_eq!(store.source(), "somewhere.json");

    let outcome = store.refresh(SourceRead::Loaded(vec![]), "14:32:27".to_string());
    assert!(matches!(outcome, RefreshOutcome::Loaded(0)));
    assert_eq!(store.current_records().len(), 0);
}

#[test]
fn store_keeps_its_list_when_the_source_holds_no_list() {
    let mut store = ReminderStore::new("somewhere.json".to_string());
    store.refresh(SourceRead::Loaded(mixed_list()), "14:32:07".to_string());
    let outcome = store.refresh(
        SourceRead::Malformed("expected value at line 1 column 1".to_string()),
        "14:32:17".to_string(),
    );
    match outcome {
        RefreshOutcome::ParseError(why) => assert_eq!(why, "expected value at line 1 column 1"),
        other => panic!("{:?}", other),
    }
    assert_eq!(store.current_records().len(), 5);
    assert_eq!(store.current_records()[3].text, "office");
    assert_eq!(store.last_refresh_label(), "14:32:07");
}

#[test]
fn store_keeps_its_list_when_the_source_cannot_be_read() {
    let mut store = ReminderStore::new("somewhere.json".to_string());
    store.refresh(SourceRead::Loaded(mixed_list()), "14:32:07".to_string());
    let outcome = store.refresh(
        SourceRead::Unreadable("permission denied".to_string()),
        "14:32:17".to_string(),
    );
    assert!(matches!(outcome, RefreshOutcome::Unchanged));
    assert_eq!(store.current_records().len(), 5);
    assert_eq!(store.last_refresh_label(), "14:32:07");
}

#[test]
fn store_installs_the_default_list_for_a_missing_source() {
    let mut store = ReminderStore::new("somewhere.json".to_string());
    let outcome = store.refresh(SourceRead::Missing, "09:00:00".to_string());
    assert!(matches!(outcome, RefreshOutcome::Created(5)));
    assert_eq!(store.current_records().len(), 5);
    assert_eq!(store.current_records()[2].text, "Take a 5-minute break and stretch");
    assert_eq!(store.last_refresh_label(), "09:00:00");

    let mut other = ReminderStore::new("elsewhere.json".to_string());
    other.refresh(SourceRead::Loaded(mixed_list()), "09:00:00".to_string());
    assert_eq!(other.install_defaults("09:00:10".to_string()), 5);
    assert_eq!(other.current_records()[0].text, "Check your monitoring dashboards");
    assert_eq!(other.last_refresh_label(), "09:00:10");
}

#[test]
fn active_records_keep_the_order_of_the_list() {
    let list = mixed_list();
    let monday_ten = at(Weekday::Monday, 10, 0);
    assert_eq!(
        texts_of(&active_records(&list, &monday_ten)),
        ["always", "mornings", "mondays", "office"]
    );
    assert_eq!(count_active(&list, &monday_ten), 4);
    let wednesday_eight = at(Weekday::Wednesday, 20, 0);
    assert_eq!(texts_of(&active_records(&list, &wednesday_eight)), ["always", "evenings"]);
    assert_eq!(count_active(&list, &wednesday_eight), 2);
    let tuesday_night = at(Weekday::Tuesday, 23, 0);
    assert_eq!(texts_of(&active_records(&list, &tuesday_night)), ["always"]);
    assert_eq!(count_active(&list, &tuesday_night), 1);
    assert_eq!(count_active(&vec![], &tuesday_night), 0);
    assert!(active_records(&vec![], &tuesday_night).is_empty());
}

#[test]
fn active_records_never_exceed_the_list() {
    let list = mixed_list();
    for day in [Weekday::Monday, Weekday::Thursday, Weekday::Sunday] {
        for hour in 0..24 {
            let now = at(day, hour, 15);
            let active = active_records(&list, &now);
            assert!(active.len() <= list.len());
            assert_eq!(active.len(), count_active(&list, &now));
            assert_eq!(active.len(), list.iter().filter(|r| r.is_eligible(&now)).count());
            assert!(active.iter().all(|r| r.is_eligible(&now)));
        }
    }
}

#[test]
fn engine_shows_a_reminder_only_in_its_window() {
    let list = vec![Reminder {
        text: "Stand-up".to_string(),
        category: "Team".to_string(),
        priority: "high".to_string(),
        time_range: Some("09:00-17:00".to_string()),
        days: Some(vec!["monday".to_string()]),
    }];
    let monday = at(Weekday::Monday, 10, 0);
    let tuesday = at(Weekday::Tuesday, 10, 0);
    let engine = engine_with(list, 0, &monday);
    let shown = engine.current_reminder(&monday).unwrap();
    assert_eq!(shown.text, "Stand-up");
    assert_eq!(shown.priority, "high");
    assert_eq!(engine.active_count(&monday), 1);
    assert!(engine.current_reminder(&tuesday).is_none());
    assert_eq!(engine.active_count(&tuesday), 0);
}

#[test]
fn engine_with_nothing_eligible_shows_nothing() {
    let now = at(Weekday::Sunday, 3, 0);
    let mut engine = engine_with(vec![reminder("mondays", None, Some(&["monday"]))], 0, &now);
    assert!(engine.current_reminder(&now).is_none());
    assert_eq!(engine.active_count(&now), 0);
    assert_eq!(engine.current_position(&now), 0);
    engine.tick(30, &now);
    engine.tick(60, &now);
    assert_eq!(engine.scheduler().current_position(), 0);
    assert!(engine.current_reminder(&now).is_none());

    let mut empty = engine_with(vec![], 0, &now);
    assert!(empty.current_reminder(&now).is_none());
    empty.tick(100, &now);
    assert_eq!(empty.current_position(&now), 0);
    assert_eq!(empty.active_records(&now).len(), 0);
}

#[test]
fn engine_rotates_through_the_eligible_reminders() {
    let now = at(Weekday::Monday, 10, 0);
    let mut engine = engine_with(mixed_list(), 1_000, &now);
    assert_eq!(engine.current_reminder(&now).unwrap().text, "always");
    assert_eq!(engine.seconds_to_next_rotation(1_010), 20);
    engine.tick(1_010, &now);
    assert_eq!(engine.current_reminder(&now).unwrap().text, "always");
    engine.tick(1_030, &now);
    assert_eq!(engine.current_reminder(&now).unwrap().text, "mornings");
    assert_eq!(engine.current_position(&now), 1);
    engine.tick(1_040, &now);
    assert_eq!(engine.current_position(&now), 1);
    engine.tick(1_060, &now);
    assert_eq!(engine.current_reminder(&now).unwrap().text, "mondays");
    engine.tick(1_090, &now);
    assert_eq!(engine.current_reminder(&now).unwrap().text, "office");
    assert_eq!(engine.current_position(&now), 3);
    engine.tick(1_120, &now);
    assert_eq!(engine.current_reminder(&now).unwrap().text, "always");
    assert_eq!(engine.scheduler().current_position(), 0);
    assert_eq!(engine.seconds_to_next_rotation(1_120), 30);
    assert_eq!(engine.seconds_to_next_rotation(1_200), 0);
}

#[test]
fn engine_reads_around_a_set_that_shrank_since_the_last_tick() {
    let morning = at(Weekday::Monday, 10, 0);
    let mut engine = engine_with(mixed_list(), 0, &morning);
    engine.tick(30, &morning);
    engine.tick(60, &morning);
    engine.tick(90, &morning);
    assert_eq!(engine.scheduler().current_position(), 3);
    assert_eq!(engine.current_reminder(&morning).unwrap().text, "office");

    let night = at(Weekday::Wednesday, 23, 0);
    assert_eq!(engine.active_count(&night), 1);
    assert_eq!(engine.scheduler().current_position(), 3);
    assert_eq!(engine.current_position(&night), 0);
    assert_eq!(engine.current_reminder(&night).unwrap().text, "always");

    let evening = at(Weekday::Wednesday, 20, 0);
    assert_eq!(engine.active_count(&evening), 2);
    assert_eq!(engine.current_position(&evening), 1);
    assert_eq!(engine.current_reminder(&evening).unwrap().text, "evenings");

    engine.tick(120, &evening);
    assert_eq!(engine.scheduler().current_position(), 0);
    assert_eq!(engine.current_reminder(&evening).unwrap().text, "always");
}

#[test]
fn engine_counts_the_eligible_ones_of_a_list_that_was_read() {
    let now = at(Weekday::Tuesday, 9, 30);
    let mut engine = engine_with(vec![], 0, &now);
    assert_eq!(engine.active_count(&now), 0);
    let list = mixed_list();
    let eligible = list.iter().filter(|r| r.is_eligible(&now)).count();
    assert_eq!(eligible, 3);
    let outcome = engine.poll_source(SourceRead::Loaded(list), "09:30:00".to_string(), &now);
    assert!(matches!(outcome, RefreshOutcome::Loaded(5)));
    assert_eq!(engine.active_count(&now), 3);
    assert_eq!(engine.reminders().len(), 5);
    assert_eq!(engine.last_refresh_label(), "09:30:00");
    assert_eq!(engine.last_file_check(), "09:30:00");
    assert_eq!(texts_of(&engine.active_records(&now)), ["always", "mornings", "office"]);
}

#[test]
fn engine_keeps_rotating_on_what_it_has_when_a_poll_fails() {
    let now = at(Weekday::Monday, 10, 0);
    let mut engine = engine_with(mixed_list(), 0, &now);
    engine.tick(30, &now);
    engine.tick(60, &now);
    let outcome =
        engine.poll_source(SourceRead::Malformed("bad".to_string()), "10:00:10".to_string(), &now);
    assert!(matches!(outcome, RefreshOutcome::ParseError(_)));
    let outcome =
        engine.poll_source(SourceRead::Unreadable("busy".to_string()), "10:00:20".to_string(), &now);
    assert!(matches!(outcome, RefreshOutcome::Unchanged));
    assert_eq!(engine.reminders().len(), 5);
    assert_eq!(engine.last_refresh_label(), "08:00:00");
    assert_eq!(engine.scheduler().current_position(), 2);
    assert_eq!(engine.current_reminder(&now).unwrap().text, "mondays");
    engine.tick(90, &now);
    assert_eq!(engine.current_reminder(&now).unwrap().text, "office");
}

#[test]
fn engine_puts_the_cursor_back_when_a_new_list_is_too_short_for_it() {
    let now = at(Weekday::Monday, 10, 0);
    let mut engine = engine_with(mixed_list(), 0, &now);
    engine.tick(30, &now);
    engine.tick(60, &now);
    assert_eq!(engine.scheduler().current_position(), 2);

    let three = vec![reminder("a", None, None), reminder("b", None, None), reminder("c", None, None)];
    engine.poll_source(SourceRead::Loaded(three), "10:00:10".to_string(), &now);
    assert_eq!(engine.scheduler().current_position(), 2);
    assert_eq!(engine.current_reminder(&now).unwrap().text, "c");

    let two = vec![reminder("a", None, None), reminder("b", None, None)];
    engine.poll_source(SourceRead::Loaded(two), "10:00:20".to_string(), &now);
    assert_eq!(engine.scheduler().current_position(), 0);
    assert_eq!(engine.current_reminder(&now).unwrap().text, "a");
    assert_eq!(engine.last_refresh_label(), "10:00:20");
}

#[test]
fn engine_counts_only_eligible_reminders_when_it_fits_the_cursor() {
    let now = at(Weekday::Monday, 10, 0);
    let mut engine = engine_with(mixed_list(), 0, &now);
    engine.tick(30, &now);
    assert_eq!(engine.scheduler().current_position(), 1);
    let list = vec![
        reminder("a", None, None),
        reminder("sundays", None, Some(&["sunday"])),
        reminder("evenings", Some("evening"), None),
    ];
    engine.poll_source(SourceRead::Loaded(list), "10:00:10".to_string(), &now);
    assert_eq!(engine.reminders().len(), 3);
    assert_eq!(engine.active_count(&now), 1);
    assert_eq!(engine.scheduler().current_position(), 0);
}

#[test]
fn engine_starts_on_the_default_list_when_the_source_is_missing() {
    let now = at(Weekday::Saturday, 10, 0);
    let mut engine = ReminderManager::start(
        "missing.json".to_string(),
        SourceRead::Missing,
        "10:00:00".to_string(),
        50,
        &now,
    );
    assert_eq!(engine.file_path(), "missing.json");
    assert_eq!(engine.reminders().len(), 5);
    assert_eq!(engine.last_refresh_label(), "10:00:00");
    assert_eq!(texts_of(&engine.active_records(&now)), ["Take a 5-minute break and stretch"]);
    let monday = at(Weekday::Monday, 10, 0);
    assert_eq!(engine.active_count(&monday), 5);
    let outcome = engine.poll_source(SourceRead::Missing, "10:00:10".to_string(), &now);
    assert!(matches!(outcome, RefreshOutcome::Created(5)));
    assert_eq!(engine.last_refresh_label(), "10:00:10");
}

#[test]
fn engine_by_the_clock_of_the_host() {
    let list = vec![reminder("a", None, None), reminder("b", None, None)];
    let mut engine = ReminderManager::new("reminders.json".to_string(), SourceRead::Loaded(list));
    assert_eq!(engine.get_total_reminders(), 2);
    assert_eq!(engine.get_current_reminder().unwrap().text, "a");
    assert_eq!(engine.get_current_index(), 0);
    let left = engine.time_until_next_rotation();
    assert!(left <= 30 && left >= 25);
    engine.rotate_if_needed();
    assert_eq!(engine.get_current_index(), 0);
    assert_eq!(engine.last_file_check().len(), 8);
    let outcome = engine.load_reminders(SourceRead::Unreadable("gone".to_string()));
    assert!(matches!(outcome, RefreshOutcome::Unchanged));
    assert_eq!(engine.get_total_reminders(), 2);
    let outcome = engine.load_reminders(SourceRead::Loaded(vec![]));
    assert!(matches!(outcome, RefreshOutcome::Loaded(0)));
    assert_eq!(engine.get_total_reminders(), 0);
    assert!(engine.get_current_reminder().is_none());
}

#[test]
fn engine_index_by_the_clock_is_taken_around_the_count_by_the_clock() {
    let today = LocalMoment::now().weekday;
    let tomorrow = [
        Weekday::Tuesday,
        Weekday::Wednesday,
        Weekday::Thursday,
        Weekday::Friday,
        Weekday::Saturday,
        Weekday::Sunday,
        Weekday::Monday,
    ][[
        Weekday::Monday,
        Weekday::Tuesday,
        Weekday::Wednesday,
        Weekday::Thursday,
        Weekday::Friday,
        Weekday::Saturday,
        Weekday::Sunday,
    ]
    .iter()
    .position(|day| *day == today)
    .unwrap()];
    let list = vec![
        reminder("always", None, None),
        reminder("tomorrow 1", None, Some(&[tomorrow.label()])),
        reminder("tomorrow 2", None, Some(&[tomorrow.label()])),
        reminder("also always", None, None),
        reminder("tomorrow 3", None, Some(&[tomorrow.label()])),
    ];
    let then = at(tomorrow, 10, 0);
    let mut engine = engine_with(list, 0, &then);
    engine.tick(30, &then);
    engine.tick(60, &then);
    engine.tick(90, &then);
    assert_eq!(engine.scheduler().current_position(), 3);
    assert_eq!(engine.current_position(&then), 3);
    assert_eq!(engine.current_reminder(&then).unwrap().text, "also always");

    if LocalMoment::now().weekday == today {
        assert_eq!(engine.get_total_reminders(), 2);
        assert_eq!(engine.get_current_index(), 1);
        assert_eq!(engine.get_current_reminder().unwrap().text, "also always");
        assert_eq!(engine.scheduler().current_position(), 3);
    }
}

#[test]
fn engine_lets_the_scheduler_be_looked_at() {
    let now = at(Weekday::Monday, 10, 0);
    let mut engine = engine_with(mixed_list(), 1_000, &now);
    assert_eq!(engine.scheduler().current_position(), 0);
    assert_eq!(engine.scheduler().last_advance(), 1_000);
    assert_eq!(engine.scheduler().interval(), 30);
    engine.tick(1_030, &now);
    assert_eq!(engine.scheduler().current_position(), 1);
    assert_eq!(engine.scheduler().last_advance(), 1_030);
    assert_eq!(engine.scheduler().time_to_next(1_040), 20);
}
