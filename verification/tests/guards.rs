use app_core::alarm::AlarmEntry;
use app_core::config::Config;
use app_core::data::TimeData;
use app_core::events::SystemEvent;
use app_core::layout::Rect;
use app_core::model::{snooze_fits, Model};
use app_core::screens::alarm::AlarmScreen;
use app_core::screens::timer::TimerScreen;
use app_core::screens::AppChrome;
use app_core::ui_types::{Action, SystemData, TimerState};

fn chrome() -> AppChrome {
    AppChrome {
        content_top: 80,
        home_bar_y: 484,
        bottom_safe_margin: 40,
        back_zone: Rect { x: 0, y: 20, width: 110, height: 50 },
    }
}

fn at(hour: u8, minute: u8, second: u8) -> TimeData {
    TimeData { hour, minute, second, year: 2026, month: 4, day: 22 }
}

#[test]
fn snooze_fits_a_byte() {
    assert!(snooze_fits(&at(23, 55, 0)));
    assert!(snooze_fits(&at(254, 59, 0)));
    assert!(!snooze_fits(&at(255, 50, 0)));
}

#[test]
fn tick_needs_time_after_last_activity() {
    let mut m = Model::new(SystemData::default(), Config::default(), 1_000);
    assert!(m.can_tick(1_000));
    assert!(!m.can_tick(999));
    let mut out = app_core::model::Effects::new();
    m.dispatch_action(&SystemEvent::AlarmFired, Action::StartBuzz { on_ms: 300, off_ms: 300 }, &mut out);
    assert!(m.can_tick(1_500));
}

#[test]
fn alarm_screen_guard() {
    let s = AlarmScreen::new(chrome());
    let mut d = SystemData::default();
    d.alarms.entries[1] = AlarmEntry { hour: 7, minute: 0, days: 0x7F, enabled: true };
    d.alarms.active_hw = Some(1);
    assert!(s.accepts(&SystemEvent::AlarmFired, &d));
    d.alarms.active_hw = Some(9);
    assert!(!s.accepts(&SystemEvent::AlarmFired, &d));
    d.alarms.snoozed = true;
    assert!(s.accepts(&SystemEvent::AlarmFired, &d));
    assert!(s.accepts(&SystemEvent::Tap { x: 200, y: 300 }, &d));
}

#[test]
fn timer_screen_guard() {
    let t = TimerScreen::new(chrome());
    let mut d = SystemData::default();
    d.timer = TimerState::Running { deadline_ms: 60_000, target_secs: 100 };
    assert!(t.accepts(&SystemEvent::TimeUpdated { data: at(0, 1, 0) }, &d));
    assert!(t.accepts(&SystemEvent::TimeUpdated { data: at(23, 59, 59) }, &d));
    // 25:00:00 lies past the end of a day: the countdown cannot wrap from it.
    assert!(!t.accepts(&SystemEvent::TimeUpdated { data: at(25, 0, 0) }, &d));
    d.timer = TimerState::Idle { duration_ms: 0 };
    assert!(t.accepts(&SystemEvent::TimeUpdated { data: at(25, 0, 0) }, &d));
}
