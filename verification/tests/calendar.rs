use clokwerk::{Interval, NextTime};
use still_bott::calendar::{next_poll_after, Schedule, TimeOfDay, Trigger};

const DAY: i64 = 86_400;

fn at(hour: u8, minute: u8, second: u8) -> TimeOfDay {
    TimeOfDay::from_hms(hour, minute, second).unwrap()
}

/// A schedule with only the given weekday (0 is Sunday) flagged.
fn only_on(weekday: u8, tweet_at: TimeOfDay) -> Schedule {
    Schedule::new(
        tweet_at,
        weekday == 0,
        weekday == 1,
        weekday == 2,
        weekday == 3,
        weekday == 4,
        weekday == 5,
        weekday == 6,
    )
}

fn paused(tweet_at: TimeOfDay) -> Schedule {
    Schedule::new(tweet_at, false, false, false, false, false, false, false)
}

fn utc(seconds: i64) -> chrono::DateTime<chrono::Utc> {
    chrono::DateTime::<chrono::Utc>::from_timestamp(seconds, 0).unwrap()
}

#[test]
fn time_of_day_accepts_only_clock_times() {
    assert!(TimeOfDay::from_hms(0, 0, 0).is_some());
    assert!(TimeOfDay::from_hms(23, 59, 59).is_some());
    assert!(TimeOfDay::from_hms(24, 0, 0).is_none());
    assert!(TimeOfDay::from_hms(0, 60, 0).is_none());
    assert!(TimeOfDay::from_hms(0, 0, 60).is_none());
}

#[test]
fn time_of_day_fields_and_seconds() {
    let t = at(7, 30, 15);
    assert_eq!(t.hour(), 7);
    assert_eq!(t.minute(), 30);
    assert_eq!(t.second(), 15);
    assert_eq!(t.seconds_since_midnight(), 7 * 3600 + 30 * 60 + 15);
}

#[test]
fn schedule_flags_by_weekday() {
    let s = Schedule::new(at(1, 2, 3), true, false, true, false, true, false, true);
    assert!(s.is_enabled_on(0));
    assert!(!s.is_enabled_on(1));
    assert!(s.is_enabled_on(2));
    assert!(!s.is_enabled_on(3));
    assert!(s.is_enabled_on(4));
    assert!(!s.is_enabled_on(5));
    assert!(s.is_enabled_on(6));
    assert!(!s.is_enabled_on(7));
    assert!(!s.paused());
    assert!(paused(at(1, 2, 3)).paused());
}

#[test]
fn next_monday_after_the_epoch() {
    // 1970-01-01 was a Thursday; the first Monday is 1970-01-05, day 4.
    let s = only_on(1, at(7, 30, 0));
    assert_eq!(s.next_after(0), Some(4 * DAY + 27_000));
    // At the firing instant itself the next one is a week later.
    assert_eq!(s.next_after(4 * DAY + 27_000), Some(11 * DAY + 27_000));
    // One second before, it is the firing instant.
    assert_eq!(s.next_after(4 * DAY + 26_999), Some(4 * DAY + 27_000));
}

#[test]
fn next_firing_later_on_the_same_day() {
    // Thursday, 1970-01-01.
    let s = only_on(4, at(12, 0, 0));
    assert_eq!(s.next_after(0), Some(43_200));
    assert_eq!(s.next_after(43_200), Some(7 * DAY + 43_200));
}

#[test]
fn next_firing_before_the_epoch() {
    // 1969-12-31 was a Wednesday, day -1.
    let s = only_on(3, at(23, 0, 0));
    assert_eq!(s.next_after(-2 * DAY), Some(-DAY + 82_800));
    assert_eq!(s.next_after(-3_601), Some(-3_600));
    assert_eq!(s.next_after(-3_600), Some(6 * DAY + 82_800));
}

#[test]
fn every_day_fires_daily() {
    let s = Schedule::new(at(6, 0, 0), true, true, true, true, true, true, true);
    let mut from = 0;
    for day in 0..10 {
        let next = s.next_after(from).unwrap();
        assert_eq!(next, day * DAY + 21_600);
        from = next;
    }
}

#[test]
fn paused_schedule_has_no_next_firing() {
    let s = paused(at(7, 30, 0));
    assert_eq!(s.next_after(0), None);
    assert_eq!(s.next_after(-1_000_000), None);
    assert_eq!(s.next_after(1_700_000_000), None);
}

#[test]
fn no_firing_beyond_the_range_of_instants() {
    let s = Schedule::new(at(0, 0, 0), true, true, true, true, true, true, true);
    assert_eq!(s.next_after(i64::MAX), None);
    assert_eq!(s.next_after(i64::MAX - 10), None);
    assert!(s.next_after(i64::MIN).is_some());
}

#[test]
fn interval_fires_every_four_hours_from_midnight() {
    assert_eq!(next_poll_after(0), Some(14_400));
    assert_eq!(next_poll_after(1), Some(14_400));
    assert_eq!(next_poll_after(14_399), Some(14_400));
    assert_eq!(next_poll_after(14_400), Some(28_800));
    assert_eq!(next_poll_after(-1), Some(0));
    assert_eq!(next_poll_after(-14_400), Some(0));
    assert_eq!(next_poll_after(-14_401), Some(-14_400));
    assert_eq!(next_poll_after(i64::MAX), None);
}

#[test]
fn interval_agrees_with_clokwerk() {
    let starts = [0i64, 1, 14_399, 14_400, 86_399, 86_400, 1_700_000_000, 1_700_006_400];
    for from in starts {
        let theirs = Interval::Hours(4).next(&utc(from)).timestamp();
        assert_eq!(next_poll_after(from), Some(theirs), "from {}", from);
    }
}

#[test]
fn weekday_at_midnight_agrees_with_clokwerk() {
    let days = [
        (0u8, Interval::Sunday),
        (1, Interval::Monday),
        (2, Interval::Tuesday),
        (3, Interval::Wednesday),
        (4, Interval::Thursday),
        (5, Interval::Friday),
        (6, Interval::Saturday),
    ];
    let starts = [0i64, 1, 86_399, 86_400, 5 * 86_400 + 17, 1_700_000_000, 1_700_500_000];
    for (weekday, interval) in days {
        let s = only_on(weekday, at(0, 0, 0));
        for from in starts {
            let theirs = interval.next(&utc(from)).timestamp();
            assert_eq!(s.next_after(from), Some(theirs), "weekday {} from {}", weekday, from);
        }
    }
}

#[test]
fn trigger_with_one_weekday_fires_once_on_each_matching_day() {
    // Tuesday at 00:00:10, ticked every second for two weeks from the epoch.
    let s = only_on(2, at(0, 0, 10));
    let mut trigger = Trigger::arm(s, false, 0);
    let mut fired = Vec::new();
    for tick in 1..=(14 * DAY) {
        if trigger.poll(tick) {
            fired.push(tick);
        }
    }
    // Tuesdays are 1970-01-06 (day 5) and 1970-01-13 (day 12).
    assert_eq!(fired, vec![5 * DAY + 10, 12 * DAY + 10]);
}

#[test]
fn trigger_of_a_paused_schedule_never_fires() {
    let mut trigger = Trigger::arm(paused(at(0, 0, 10)), false, 0);
    assert_eq!(trigger.next_run(), None);
    for tick in 1..=(8 * DAY) {
        assert!(!trigger.poll(tick));
    }
    // Out of order and far away as well.
    for tick in [i64::MAX, i64::MIN, 0, -5, 1_700_000_000] {
        assert!(!trigger.is_pending(tick));
        assert!(!trigger.poll(tick));
    }
}

#[test]
fn late_tick_fires_once_and_arms_again_from_the_tick() {
    let s = Schedule::new(at(0, 0, 0), true, true, true, true, true, true, true);
    let mut trigger = Trigger::arm(s, false, 0);
    assert_eq!(trigger.next_run(), Some(DAY));
    assert!(!trigger.poll(DAY - 1));
    // Three days pass without a tick.
    assert!(trigger.poll(4 * DAY + 5));
    assert_eq!(trigger.next_run(), Some(5 * DAY));
    assert!(!trigger.poll(4 * DAY + 6));
    assert!(trigger.poll(5 * DAY));
}

#[test]
fn trigger_with_interval_fires_on_both() {
    // Friday 01:00:00 and every four hours.
    let s = only_on(5, at(1, 0, 0));
    let mut trigger = Trigger::arm(s, true, 0);
    assert!(trigger.every_four_hours());
    let mut fired = Vec::new();
    for tick in 1..=(2 * DAY) {
        if trigger.poll(tick) {
            fired.push(tick);
        }
    }
    let mut expected: Vec<i64> = (1..=12).map(|k| k * 14_400).collect();
    expected.push(DAY + 3_600);
    expected.sort();
    assert_eq!(fired, expected);
}

#[test]
fn trigger_without_interval_ignores_it() {
    let s = only_on(5, at(1, 0, 0));
    let mut trigger = Trigger::arm(s, false, 0);
    assert!(!trigger.every_four_hours());
    assert_eq!(trigger.schedule(), s);
    assert!(!trigger.poll(14_400));
    assert!(trigger.poll(DAY + 3_600));
}
