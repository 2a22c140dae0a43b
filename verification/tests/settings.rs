use app_core::data::TimeData;
use app_core::events::{SelfTestId, SelfTestResult, SwipeDir, SwipeRegion, SystemEvent};
use app_core::layout::{content_card_rect, Rect, VStack};
use app_core::numpad::button_origin;
use app_core::screens::settings::{confirmation_slots, imu_slots, row_at, storage_sd_slots, SettingsScreen};
use app_core::screens::active::ActiveScreen;
use app_core::screens::AppChrome;
use app_core::ui_types::{Action, ScreenId, SystemData};

fn tap(x: u16, y: u16) -> SystemEvent {
    SystemEvent::Tap { x, y }
}

// Centre of the keypad button at (row, col) on the default grid.
fn key(row: usize, col: usize) -> SystemEvent {
    let (x, y) = button_origin(150, row, col);
    tap((x + 10) as u16, (y + 10) as u16)
}

fn data_at(hour: u8, minute: u8, second: u8) -> SystemData {
    let mut d = SystemData::default();
    d.time = TimeData { hour, minute, second, year: 2026, month: 4, day: 22 };
    d
}

fn row(i: u16) -> SystemEvent {
    tap(200, 62 + 52 * i + 10)
}

#[test]
fn settings_slots_follow_the_stack() {
    let mut s = VStack::new(80);
    let p0 = s.slot(80);
    assert_eq!(imu_slots()[0].0, p0);
    assert_eq!(imu_slots()[1].1, Rect { x: 28, y: 308, width: 354, height: 36 });
    assert_eq!(storage_sd_slots().1, Rect { x: 28, y: 198, width: 354, height: 36 });
    assert_eq!(confirmation_slots().2, Rect { x: 211, y: 198, width: 171, height: 36 });
    assert_eq!(row_at(10, 62, 8), Some(0));
    assert_eq!(row_at(10, 113, 8), Some(0));
    assert_eq!(row_at(10, 114, 8), Some(1));
    assert_eq!(row_at(10, 61, 8), None);
    assert_eq!(row_at(410, 100, 8), None);
    assert_eq!(row_at(10, 62 + 52 * 4, 4), None);
}

#[test]
fn settings_index_navigates_and_backs_out() {
    let mut s = SettingsScreen::new();
    let mut d = SystemData::default();
    assert_eq!(s.on_event(&tap(10, 30), &mut d), Action::Back);
    assert_eq!(s.on_event(&row(3), &mut d), Action::ToggleNightMode);
    assert_eq!(s.on_event(&row(0), &mut d), Action::Nothing);
    assert_eq!(s.on_event(&row(5), &mut d), Action::Redraw);
    // Battery view: refreshes, then a right swipe returns to the index.
    assert_eq!(s.on_event(&SystemEvent::BatteryChanged { percent: 50 }, &mut d), Action::Redraw);
    let swipe = SystemEvent::Swipe { dir: SwipeDir::Right, region: SwipeRegion::Content };
    assert_eq!(s.on_event(&swipe, &mut d), Action::Redraw);
    assert_eq!(s.on_event(&tap(10, 30), &mut d), Action::Back);
    assert_eq!(s.on_event(&SystemEvent::PowerButtonLong, &mut d), Action::Shutdown);
}

#[test]
fn settings_time_editor_sets_time() {
    let mut s = SettingsScreen::new();
    let mut d = data_at(9, 5, 7);
    assert_eq!(s.on_event(&row(4), &mut d), Action::Redraw);
    let card = content_card_rect(0);
    assert_eq!(s.on_event(&tap((card.x + 5) as u16, (card.y + 5) as u16), &mut d), Action::Redraw);
    // Seeded with 09:05:07 (leading zero dropped): confirm sets it back.
    assert!(s.accepts(&key(3, 2)));
    assert_eq!(
        s.on_event(&key(3, 2), &mut d),
        Action::SetTime { year: 2026, month: 4, day: 22, hour: 9, minute: 5, second: 7 }
    );
}

#[test]
fn settings_date_editor_rejects_bad_date_then_backs_out() {
    let mut s = SettingsScreen::new();
    let mut d = data_at(9, 5, 7);
    s.on_event(&row(4), &mut d);
    let card = content_card_rect(1);
    assert_eq!(s.on_event(&tap((card.x + 5) as u16, (card.y + 5) as u16), &mut d), Action::Redraw);
    // Seeded with 22042026 (eight digits, full): a digit is refused.
    assert_eq!(s.on_event(&key(0, 0), &mut d), Action::Nothing);
    // Backspace twice then 99: year 2099 is accepted.
    assert_eq!(s.on_event(&key(3, 0), &mut d), Action::Redraw);
    assert_eq!(s.on_event(&key(3, 0), &mut d), Action::Redraw);
    assert_eq!(s.on_event(&key(2, 2), &mut d), Action::Redraw);
    assert_eq!(s.on_event(&key(2, 2), &mut d), Action::Redraw);
    assert_eq!(
        s.on_event(&key(3, 2), &mut d),
        Action::SetTime { year: 2099, month: 4, day: 22, hour: 9, minute: 5, second: 7 }
    );
}

#[test]
fn settings_imu_runs_tests_unless_running() {
    let mut s = SettingsScreen::new();
    let mut d = SystemData::default();
    s.on_event(&row(6), &mut d);
    assert_eq!(s.on_event(&tap(100, 180), &mut d), Action::RunSelfTest(SelfTestId::ImuAccel));
    d.self_tests[1] = SelfTestResult::Running;
    assert_eq!(s.on_event(&tap(100, 320), &mut d), Action::Nothing);
    assert_eq!(s.on_event(&tap(100, 100), &mut d), Action::Nothing);
}

#[test]
fn settings_storage_leaves() {
    let mut s = SettingsScreen::new();
    let mut d = SystemData::default();
    s.on_event(&row(7), &mut d);
    assert_eq!(s.on_event(&row(1), &mut d), Action::Redraw);
    assert_eq!(s.on_event(&tap(100, 210), &mut d), Action::InitSd);
    assert_eq!(s.on_event(&tap(10, 30), &mut d), Action::Redraw);
    assert_eq!(s.on_event(&row(3), &mut d), Action::Redraw);
    assert_eq!(s.on_event(&tap(300, 210), &mut d), Action::FactoryReset);
    // Back on the storage index after the purge.
    assert_eq!(s.on_event(&row(2), &mut d), Action::Redraw);
    assert_eq!(s.on_event(&tap(300, 210), &mut d), Action::Nothing);
    assert_eq!(s.on_event(&tap(100, 210), &mut d), Action::Redraw);
}

#[test]
fn active_screen_builds_and_dispatches() {
    let chrome = AppChrome {
        content_top: 80,
        home_bar_y: 484,
        bottom_safe_margin: 40,
        back_zone: Rect { x: 0, y: 20, width: 110, height: 50 },
    };
    let mut d = SystemData::default();
    assert_eq!(ActiveScreen::new(ScreenId::Timer, chrome).id(), ScreenId::Timer);
    assert_eq!(ActiveScreen::new(ScreenId::QuickAccess, chrome).id(), ScreenId::Clock);
    assert_eq!(ActiveScreen::new_quick_access(ScreenId::Alarm).id(), ScreenId::QuickAccess);
    assert_eq!(ActiveScreen::new_app_drawer(ScreenId::Clock).id(), ScreenId::AppDrawer);
    let mut s = ActiveScreen::new(ScreenId::Settings, chrome);
    assert!(s.accepts(&tap(10, 30), &d, chrome));
    assert_eq!(s.on_event(&tap(10, 30), &mut d, chrome, 0), Action::Back);
    let mut w = ActiveScreen::new(ScreenId::Stopwatch, chrome);
    assert_eq!(w.on_event(&SystemEvent::PowerButtonLong, &mut d, chrome, 0), Action::Nothing);
    let mut c = ActiveScreen::new(ScreenId::Clock, chrome);
    assert_eq!(c.on_event(&SystemEvent::PowerButtonLong, &mut d, chrome, 0), Action::Shutdown);
}
