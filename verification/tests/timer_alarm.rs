use app_core::alarm::AlarmEntry;
use app_core::data::TimeData;
use app_core::events::SystemEvent;
use app_core::layout::Rect;
use app_core::screens::alarm::{list_content_h, AlarmScreen};
use app_core::screens::timer::{digits_to_duration, duration_to_raw, remaining_from_rtc, TimerScreen};
use app_core::screens::AppChrome;
use app_core::ui_types::{Action, SystemData, TimerState};

fn chrome() -> AppChrome {
    AppChrome {
        content_top: 80,
        home_bar_y: 484,
        bottom_safe_margin: 40,
        back_zone: Rect { x: 0, y: 20, width: 110, height: 50 },
    }
}

fn time(hour: u8, minute: u8, second: u8) -> TimeData {
    TimeData { hour, minute, second, year: 2026, month: 4, day: 22 }
}

#[test]
fn timer_helpers() {
    assert_eq!(remaining_from_rtc(3600, &time(0, 30, 0)), 1800);
    assert_eq!(remaining_from_rtc(60, &time(23, 59, 0)), 120);
    assert_eq!(digits_to_duration(&[1, 3, 0]), 90_000);
    assert_eq!(digits_to_duration(&[1, 2, 3, 4, 5, 6]), (12 * 3600 + 34 * 60 + 56) * 1000);
    assert_eq!(duration_to_raw(15_300_000), [0, 4, 1, 5, 0, 0]);
    assert_eq!(duration_to_raw(400 * 3600 * 1000), [9, 9, 0, 0, 0, 0]);
}

#[test]
fn timer_entry_start_pause_resume_reset() {
    let c = chrome();
    let mut t = TimerScreen::new(c);
    let mut d = SystemData::default();
    d.time = time(10, 0, 0);
    // Readout: x 28..382; bottom tiles at y 424, so the readout top is
    // 80 + (424 - 8 - 80 - 130) / 2 = 183.
    assert_eq!(t.on_event_at(&SystemEvent::Tap { x: 200, y: 200 }, &mut d, 1_000), Action::Redraw);
    // Keypad: type 1, 3, 0 and confirm (90 s).
    for (x, y) in [(60u16, 150u16), (260, 150), (160, 330)] {
        assert_eq!(t.on_event_at(&SystemEvent::Tap { x, y }, &mut d, 1_000), Action::Redraw);
    }
    assert_eq!(t.on_event_at(&SystemEvent::Tap { x: 300, y: 330 }, &mut d, 1_000), Action::Redraw);
    assert!(matches!(d.timer, TimerState::Idle { duration_ms: 90_000 }));
    // Start.
    assert_eq!(t.on_event_at(&SystemEvent::Tap { x: 30, y: 430 }, &mut d, 2_000), Action::StartTimer { seconds: 90 });
    assert!(matches!(d.timer, TimerState::Running { deadline_ms: 92_000, target_secs: 36_090 }));
    // Pause 30 s later.
    assert_eq!(t.on_event_at(&SystemEvent::Tap { x: 30, y: 430 }, &mut d, 32_000), Action::CancelTimer);
    assert!(matches!(d.timer, TimerState::Paused { remaining_ms: 60_000 }));
    // Resume, then reset while running.
    assert_eq!(t.on_event_at(&SystemEvent::Tap { x: 30, y: 430 }, &mut d, 40_000), Action::StartTimer { seconds: 60 });
    assert_eq!(t.on_event_at(&SystemEvent::Tap { x: 300, y: 430 }, &mut d, 41_000), Action::CancelTimer);
    assert!(matches!(d.timer, TimerState::Idle { duration_ms: 0 }));
    // Reset with nothing left does nothing.
    assert_eq!(t.on_event_at(&SystemEvent::Tap { x: 300, y: 430 }, &mut d, 42_000), Action::Nothing);
    assert_eq!(t.on_event_at(&SystemEvent::Tap { x: 10, y: 30 }, &mut d, 42_000), Action::Back);
}

#[test]
fn timer_caps_long_entries_and_alerts() {
    let mut t = TimerScreen::new(chrome());
    let mut d = SystemData::default();
    t.on_event_at(&SystemEvent::Tap { x: 200, y: 200 }, &mut d, 0);
    // 5 hours: 5, 0, 0, 0, 0.
    for (x, y) in [(160u16, 210u16), (160, 330), (160, 330), (160, 330), (160, 330)] {
        t.on_event_at(&SystemEvent::Tap { x, y }, &mut d, 0);
    }
    assert_eq!(t.on_event_at(&SystemEvent::Tap { x: 300, y: 330 }, &mut d, 0), Action::Redraw);
    assert!(matches!(d.timer, TimerState::Idle { duration_ms: 15_300_000 }));
    // Expiry alerts; a tap stops the buzz.
    assert_eq!(
        t.on_event_at(&SystemEvent::TimerExpired, &mut d, 0),
        Action::StartBuzz { on_ms: 200, off_ms: 100 }
    );
    assert_eq!(t.on_event_at(&SystemEvent::Tap { x: 1, y: 1 }, &mut d, 0), Action::StopBuzz);
}

#[test]
fn timer_resyncs_to_rtc() {
    let mut t = TimerScreen::new(chrome());
    let mut d = SystemData::default();
    d.timer = TimerState::Running { deadline_ms: 500_000, target_secs: 36_090 };
    let ev = SystemEvent::TimeUpdated { data: time(10, 1, 0) };
    assert_eq!(t.on_event_at(&ev, &mut d, 100_000), Action::Redraw);
    assert!(matches!(d.timer, TimerState::Running { deadline_ms: 130_000, target_secs: 36_090 }));
    let ev = SystemEvent::TimeUpdated { data: time(10, 1, 30) };
    t.on_event_at(&ev, &mut d, 130_000);
    assert!(matches!(d.timer, TimerState::Idle { duration_ms: 0 }));
}

#[test]
fn alarm_list_toggle_and_edit() {
    let c = chrome();
    let mut a = AlarmScreen::new(c);
    let mut d = SystemData::default();
    d.alarms.entries[1] = AlarmEntry { hour: 7, minute: 30, days: 0x3E, enabled: true };
    // Row 1 spans y 80 + 4 + 88 = 172 .. 252; its toggle zone starts at x 322.
    assert_eq!(a.on_event(&SystemEvent::Tap { x: 330, y: 200 }, &mut d), Action::PersistAlarms);
    assert!(!d.alarms.entries[1].enabled);
    // Open it for editing: keypad at 80 + 138 = 218.
    assert_eq!(a.on_event(&SystemEvent::Tap { x: 100, y: 200 }, &mut d), Action::Redraw);
    // Toggle Sunday (cell 6 at x 61 + 288 = 349, row y 172).
    assert_eq!(a.on_event(&SystemEvent::Tap { x: 349, y: 172 }, &mut d), Action::Redraw);
    // Backspace twice, type 4, 5, confirm: 07:45.
    a.on_event(&SystemEvent::Tap { x: 60, y: 398 }, &mut d);
    a.on_event(&SystemEvent::Tap { x: 60, y: 398 }, &mut d);
    a.on_event(&SystemEvent::Tap { x: 60, y: 278 }, &mut d);
    a.on_event(&SystemEvent::Tap { x: 160, y: 278 }, &mut d);
    assert_eq!(a.on_event(&SystemEvent::Tap { x: 300, y: 398 }, &mut d), Action::PersistAlarms);
    let e = d.alarms.entries[1];
    assert_eq!((e.hour, e.minute, e.days, e.enabled), (7, 45, 0x3F, true));
    assert_eq!(list_content_h(), 704);
}

#[test]
fn alarm_rings_and_snoozes() {
    let mut a = AlarmScreen::new(chrome());
    let mut d = SystemData::default();
    d.time = time(7, 30, 0);
    d.alarms.entries[0] = AlarmEntry { hour: 7, minute: 30, days: 0x08, enabled: true };
    d.alarms.active_hw = Some(0);
    // 2026-04-22 is a Wednesday (bit 3).
    assert_eq!(a.on_event(&SystemEvent::AlarmFired, &mut d), Action::StartBuzz { on_ms: 200, off_ms: 100 });
    assert!(d.alarms.alerting);
    assert_eq!(a.on_event(&SystemEvent::Tap { x: 30, y: 430 }, &mut d), Action::SnoozeAlarm);
    assert!(!d.alarms.alerting);
    // A snoozed alarm always rings and clears the snooze.
    d.alarms.snoozed = true;
    d.alarms.active_hw = None;
    assert_eq!(a.on_event(&SystemEvent::AlarmFired, &mut d), Action::StartBuzz { on_ms: 200, off_ms: 100 });
    assert!(!d.alarms.snoozed);
    assert_eq!(a.on_event(&SystemEvent::Tap { x: 300, y: 430 }, &mut d), Action::DismissAlarm);
}

#[test]
fn alarm_for_another_weekday_does_not_ring() {
    let mut a = AlarmScreen::new(chrome());
    let mut d = SystemData::default();
    d.time = time(7, 30, 0);
    d.alarms.entries[0] = AlarmEntry { hour: 7, minute: 30, days: 0x01, enabled: true };
    d.alarms.active_hw = Some(0);
    assert_eq!(a.on_event(&SystemEvent::AlarmFired, &mut d), Action::Nothing);
    assert!(!d.alarms.alerting);
}
