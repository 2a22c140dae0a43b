use app_core::alarm::{AlarmEntry, AlarmState};
use app_core::data::TimeData;
use app_core::events::SystemEvent;
use app_core::layout::Rect;
use app_core::screens::alarm::{
    alert_readout_rect, alert_readout_text, list_telemetry, list_viewport_rect, row_day_active, row_is_next,
    AlarmScreen,
};
use app_core::screens::quick_access::QuickAccessScreen;
use app_core::screens::timer::{format_duration, run_label, TimerScreen};
use app_core::screens::battery::{
    battery_readout_text, plot_y, sparkline_plot, sparkline_points, sparkline_segment_levels,
};
use app_core::screens::AppChrome;
use app_core::text::{hhmm, push_dec, push_pad2};
use app_core::screens::settings::{confirm_date, confirm_time, date_prefill, time_prefill};
use app_core::ui_types::{Action, ScreenId, SystemData, TimerState};
use app_core::widgets::FlashTone;

fn chrome() -> AppChrome {
    AppChrome {
        content_top: 80,
        home_bar_y: 484,
        bottom_safe_margin: 40,
        back_zone: Rect { x: 0, y: 20, width: 110, height: 50 },
    }
}

#[test]
fn hhmm_pads_like_format() {
    assert_eq!(hhmm(7, 5), b"07:05".to_vec());
    assert_eq!(hhmm(23, 59), b"23:59".to_vec());
    assert_eq!(hhmm(200, 0), b"200:00".to_vec());
}

#[test]
fn duration_readout() {
    assert_eq!(format_duration(90_000), b"00:01:30".to_vec());
    assert_eq!(format_duration(90_999), b"00:01:30".to_vec());
    assert_eq!(format_duration(15_300_000), b"04:15:00".to_vec());
    assert_eq!(format_duration(0), b"00:00:00".to_vec());
    // 111 h 2 min 3 s: the hours are capped at 99.
    assert_eq!(format_duration((111 * 3600 + 2 * 60 + 3) * 1000), b"99:02:03".to_vec());
}

#[test]
fn run_button_labels() {
    assert_eq!(run_label(&TimerState::Running { deadline_ms: 5000, target_secs: 10 }), "PAUSE");
    assert_eq!(run_label(&TimerState::Paused { remaining_ms: 1 }), "RESUME");
    assert_eq!(run_label(&TimerState::Paused { remaining_ms: 0 }), "START");
    assert_eq!(run_label(&TimerState::Idle { duration_ms: 60_000 }), "START");
}

#[test]
fn timer_flash_tones() {
    let t = TimerScreen::new(chrome());
    assert_eq!(t.alert_color(), FlashTone::Accent);
    assert_eq!(t.time_label_color(), FlashTone::Accent);
}

#[test]
fn alarm_readouts() {
    let mut alarms = AlarmState::default();
    assert_eq!(alert_readout_text(&alarms), b"--:--".to_vec());
    alarms.entries[2] = AlarmEntry { hour: 6, minute: 45, days: 0x3E, enabled: true };
    alarms.entries[5] = AlarmEntry { hour: 22, minute: 0, days: 0x7F, enabled: true };
    alarms.active_hw = Some(2);
    assert_eq!(alert_readout_text(&alarms), b"06:45".to_vec());
    assert_eq!(list_telemetry(&alarms), b"x02 ACTIVE".to_vec());
    assert_eq!(list_telemetry(&AlarmState::default()), b"x00 ACTIVE".to_vec());
    assert!(row_is_next(&alarms, 2));
    assert!(!row_is_next(&alarms, 5));
    alarms.entries[2].enabled = false;
    assert!(!row_is_next(&alarms, 2));
}

#[test]
fn alarm_row_day_cells() {
    // Weekdays only (bits 1..=5): cells run Monday first, Sunday last.
    let e = AlarmEntry { hour: 7, minute: 0, days: 0x3E, enabled: true };
    let lit: Vec<bool> = (0..7).map(|i| row_day_active(&e, i)).collect();
    assert_eq!(lit, vec![true, true, true, true, true, false, false]);
    let off = AlarmEntry { enabled: false, ..e };
    assert!((0..7).all(|i| !row_day_active(&off, i)));
}

#[test]
fn alarm_panels() {
    let c = chrome();
    assert_eq!(list_viewport_rect(&c), Rect { x: 0, y: 80, width: 410, height: 400 });
    // Bottom tiles at 502 - 40 - 38 = 424: top = 80 + (424 - 8 - 80 - 130) / 2 = 183.
    assert_eq!(alert_readout_rect(&c), Rect { x: 28, y: 183, width: 354, height: 130 });
    let mut s = AlarmScreen::new(c);
    assert_eq!(s.alert_color(), FlashTone::Accent);
    let mut d = SystemData::default();
    d.alarms.entries[0] = AlarmEntry { hour: 7, minute: 0, days: 0x7F, enabled: true };
    d.alarms.active_hw = Some(0);
    s.on_event(&SystemEvent::AlarmFired, &mut d);
    for _ in 0..5 {
        s.on_event(&SystemEvent::MotionUpdated { data: Default::default() }, &mut d);
    }
    assert_eq!(s.alert_color(), FlashTone::Danger);
}

#[test]
fn quick_access_brightness_readout() {
    let q = QuickAccessScreen::new(ScreenId::Clock);
    assert_eq!(q.brightness_text(), b"68%".to_vec());
    // (68 - 5) * 364 / 95 = 241.
    assert_eq!(q.brightness_fill_w(), 241);
}

fn clock_time(hour: u8, minute: u8, second: u8) -> TimeData {
    TimeData { hour, minute, second, year: 2026, month: 4, day: 22 }
}

#[test]
fn clock_editor_seeds() {
    assert_eq!(time_prefill(&clock_time(9, 5, 7)), [0, 9, 0, 5, 0, 7]);
    assert_eq!(date_prefill(&clock_time(9, 5, 7)), [2, 2, 0, 4, 2, 0, 2, 6]);
}

#[test]
fn clock_editor_confirms() {
    let now = clock_time(9, 5, 7);
    assert_eq!(
        confirm_time(&[1, 2, 3, 0, 4, 5], &now),
        Some(Action::SetTime { year: 2026, month: 4, day: 22, hour: 12, minute: 30, second: 45 })
    );
    // A short entry fills from the right: 30 seconds.
    assert_eq!(
        confirm_time(&[3, 0], &now),
        Some(Action::SetTime { year: 2026, month: 4, day: 22, hour: 0, minute: 0, second: 30 })
    );
    assert_eq!(confirm_time(&[2, 5, 0, 0, 0, 0], &now), None);
    assert_eq!(confirm_time(&[1, 2, 6, 0, 0, 0], &now), None);
    assert_eq!(
        confirm_date(&[2, 5, 1, 2, 2, 0, 2, 6], &now),
        Some(Action::SetTime { year: 2026, month: 12, day: 25, hour: 9, minute: 5, second: 7 })
    );
    assert_eq!(confirm_date(&[3, 2, 0, 1, 2, 0, 2, 6], &now), None);
    assert_eq!(confirm_date(&[0, 1, 1, 3, 2, 0, 2, 6], &now), None);
    assert_eq!(confirm_date(&[0, 1, 0, 1, 1, 9, 9, 9], &now), None);
}

#[test]
fn battery_readout() {
    assert_eq!(battery_readout_text(Some(87), Some(4012)), b"87% / 4.01V".to_vec());
    assert_eq!(battery_readout_text(Some(5), Some(3999)), b"5% / 3.99V".to_vec());
    assert_eq!(battery_readout_text(Some(100), Some(4205)), b"100% / 4.20V".to_vec());
    assert_eq!(battery_readout_text(Some(42), None), b"42%".to_vec());
    assert_eq!(battery_readout_text(None, Some(4000)), b"--".to_vec());
    assert_eq!(battery_readout_text(None, None), b"--".to_vec());
}

#[test]
fn battery_sparkline_geometry() {
    assert_eq!(
        sparkline_plot(Rect { x: 0, y: 200, width: 410, height: 96 }),
        Rect { x: 24, y: 206, width: 362, height: 84 }
    );
    assert_eq!(plot_y(100, 206, 84), 206);
    assert_eq!(plot_y(0, 206, 84), 290);
    assert_eq!(plot_y(50, 206, 84), 248);
    assert_eq!(plot_y(150, 206, 84), 206);
    assert_eq!(sparkline_points(&[80, 40, 60], 24, 362, 206, 84), vec![(24, 222), (205, 256), (386, 239)]);
    assert_eq!(sparkline_points(&[50], 24, 362, 206, 84), vec![(205, 248)]);
    assert!(sparkline_points(&[], 24, 362, 206, 84).is_empty());
    assert_eq!(sparkline_segment_levels(&[80, 40, 60, 90]), vec![40, 40, 60]);
    assert_eq!(sparkline_segment_levels(&[33]), vec![33]);
    assert!(sparkline_segment_levels(&[]).is_empty());
}

#[test]
fn decimal_text_of_any_size() {
    let mut t = Vec::new();
    push_dec(&mut t, 0);
    push_dec(&mut t, 7);
    push_dec(&mut t, 1234);
    assert_eq!(t, b"071234".to_vec());
    let mut u = Vec::new();
    push_pad2(&mut u, 5);
    push_pad2(&mut u, 42);
    push_pad2(&mut u, 18446744073709551615);
    assert_eq!(u, b"054218446744073709551615".to_vec());
}
