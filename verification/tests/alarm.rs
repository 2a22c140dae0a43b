use app_core::alarm::{day_of_week, AlarmEntry, AlarmReprogram, AlarmState};

fn state_with(entries: &[(u8, u8, u8, bool)]) -> AlarmState {
    let mut s = AlarmState::default();
    for (i, &(h, m, days, enabled)) in entries.iter().enumerate() {
        s.entries[i] = AlarmEntry { hour: h, minute: m, days, enabled };
    }
    s
}

#[test]
fn snoozed_blocks_reprogram() {
    let mut s = state_with(&[(7, 0, 0b0111_1111, true)]);
    s.snoozed = true;
    assert_eq!(s.plan_reprogram(6, 0, 0), None);
}

#[test]
fn fresh_alarm_produces_set_command() {
    let mut s = state_with(&[(7, 30, 0b0111_1111, true)]);
    assert_eq!(s.plan_reprogram(6, 0, 0), Some(AlarmReprogram::SetAlarm { hour: 7, minute: 30 }));
    assert_eq!(s.active_hw, Some(0));
}

#[test]
fn idempotent_when_nothing_changed() {
    let mut s = state_with(&[(7, 30, 0b0111_1111, true)]);
    assert!(s.plan_reprogram(6, 0, 0).is_some());
    assert_eq!(s.plan_reprogram(6, 0, 0), None);
}

#[test]
fn snooze_adds_minutes_no_wrap() {
    assert_eq!(AlarmState::compute_snooze(7, 30, 10), (7, 40));
}

#[test]
fn snooze_wraps_minutes_into_next_hour() {
    assert_eq!(AlarmState::compute_snooze(7, 55, 10), (8, 5));
}

#[test]
fn snooze_wraps_past_midnight() {
    assert_eq!(AlarmState::compute_snooze(23, 55, 10), (0, 5));
}

#[test]
fn snooze_with_larger_delay_spans_multiple_hours() {
    assert_eq!(AlarmState::compute_snooze(22, 0, 180), (1, 0));
}

#[test]
fn disabling_all_alarms_produces_cancel() {
    let mut s = state_with(&[(7, 30, 0b0111_1111, true)]);
    assert!(s.plan_reprogram(6, 0, 0).is_some());
    s.entries[0].enabled = false;
    assert_eq!(s.plan_reprogram(6, 0, 0), Some(AlarmReprogram::CancelAlarm));
}

#[test]
fn next_alarm_prefers_soonest_and_skips_past_times() {
    // 06:00 on a Sunday: the 07:30 alarm is 90 minutes away, the 06:30 one 30.
    let s = state_with(&[(7, 30, 0x7F, true), (6, 30, 0x7F, true), (5, 0, 0x7F, true)]);
    assert_eq!(s.next_alarm(6, 0, 0), Some(1));
    // At 06:45 the 06:30 alarm has passed; 07:30 is next.
    assert_eq!(s.next_alarm(6, 45, 0), Some(0));
}

#[test]
fn next_alarm_follows_weekday_mask() {
    // Monday-only alarm (bit 1), asked on Sunday at noon: fires tomorrow.
    let s = state_with(&[(8, 0, 0b0000_0010, true), (9, 0, 0b0000_0100, true)]);
    assert_eq!(s.next_alarm(12, 0, 0), Some(0));
    assert!(s.entries[0].fires_on(1));
    assert!(!s.entries[0].fires_on(0));
}

#[test]
fn one_day_alarm_that_passed_today_fires_next_week() {
    // Sundays only at 07:00, asked on Sunday at 08:00: next Sunday.
    let s = state_with(&[(7, 0, 0b0000_0001, true)]);
    assert_eq!(s.next_alarm(8, 0, 0), Some(0));
    assert_eq!(s.next_alarm(7, 0, 0), Some(0));
    // An enabled alarm with no day selected never fires.
    let t = state_with(&[(7, 0, 0, true)]);
    assert_eq!(t.next_alarm(8, 0, 0), None);
}

#[test]
fn no_enabled_alarm_means_none() {
    let s = state_with(&[(7, 30, 0x7F, false)]);
    assert_eq!(s.next_alarm(6, 0, 0), None);
    assert_eq!(s.enabled_count(), 0);
    let t = state_with(&[(7, 30, 0x7F, true), (8, 0, 0x7F, true)]);
    assert_eq!(t.enabled_count(), 2);
}

#[test]
fn weekday_of_known_dates() {
    // 2026-01-01 was a Thursday, 2024-02-29 a Thursday, 2000-01-01 a Saturday.
    assert_eq!(day_of_week(2026, 1, 1), 4);
    assert_eq!(day_of_week(2024, 2, 29), 4);
    assert_eq!(day_of_week(2000, 1, 1), 6);
    assert_eq!(day_of_week(2026, 4, 22), 3);
}
