use app_core::events::{SwipeDir, SwipeRegion, SystemEvent};
use app_core::layout::{self, Rect, ScrollState, VStack};
use app_core::numpad::{Numpad, NumpadAction};
use app_core::screens::clock::{short_month, short_weekday, ClockScreen};
use app_core::screens::quick_access::QuickAccessScreen;
use app_core::screens::settings::{header_back_hit, pad_digits};
use app_core::screens::status::StatusScreen;
use app_core::screens::AppChrome;
use app_core::ui_types::{Action, ScreenId, SystemData};
use app_core::widgets::{header_icon_hit, row_layout, toggle_pill, RowControlKind, RowLayout};

fn chrome() -> AppChrome {
    AppChrome {
        content_top: 80,
        home_bar_y: 484,
        bottom_safe_margin: 40,
        back_zone: Rect { x: 0, y: 20, width: 110, height: 50 },
    }
}

#[test]
fn circle_and_pill_hits() {
    assert!(layout::left_circle_hit(123, 380));
    assert!(layout::left_circle_hit(123, 450));
    assert!(!layout::left_circle_hit(123, 451));
    assert!(layout::right_circle_hit(287 + 42, 380 + 56));
    assert!(!layout::right_circle_hit(123, 380));
    assert!(!layout::left_circle_hit(65535, 65535));
    assert!(layout::hero_pill_hit(45, 160));
    assert!(!layout::hero_pill_hit(365, 160));
    assert!(!layout::hero_pill_hit(200, 290));
    assert!(layout::header_icon_hit(55, 79));
    assert!(!layout::header_icon_hit(56, 10));
    assert!(!layout::header_icon_hit(10, 80));
    assert!(layout::header_icon_hit(10, 40));
    // Above the header bar is not the header.
    assert!(!layout::header_icon_hit(10, 39));
    assert!(!layout::header_icon_hit(10, 5));
}

#[test]
fn card_rects_and_header() {
    assert_eq!(layout::header_rect(), Rect { x: 0, y: 40, width: 410, height: 40 });
    assert_eq!(layout::content_card_rect(0), Rect { x: 28, y: 104, width: 354, height: 84 });
    assert_eq!(layout::content_card_rect(2).y, 104 + 2 * 96);
}

#[test]
fn vstack_slots_pair_and_row() {
    let mut s = VStack::new(100);
    let a = s.slot(50);
    assert_eq!(a, Rect { x: 28, y: 100, width: 354, height: 50 });
    s.gap(10);
    let (l, r) = s.pair(36, 12);
    assert_eq!(l, Rect { x: 28, y: 160, width: 171, height: 36 });
    assert_eq!(r, Rect { x: 211, y: 160, width: 171, height: 36 });
    assert_eq!(s.cursor_y(), 196);
    let cells = s.row(3, 20, 6);
    assert_eq!(cells.len(), 3);
    assert_eq!(cells[0], Rect { x: 28, y: 196, width: 114, height: 20 });
    assert_eq!(cells[2].x, 28 + 2 * 120);
    assert_eq!(s.cursor_y(), 216);
    let inner = VStack::inside(Rect { x: 10, y: 0, width: 100, height: 10 }, 5, 7);
    assert_eq!(inner.cursor_y(), 7);
    let mut m = VStack::with_margin(0, 50);
    assert_eq!(m.slot(1).width, 310);
}

#[test]
fn scroll_state_drags_and_clamps() {
    let mut s = ScrollState::new();
    assert!(!s.drag(300, 200));
    assert!(s.drag(250, 200));
    assert_eq!(s.offset(), 50);
    assert!(s.drag(0, 200));
    assert_eq!(s.offset(), 200);
    assert!(!s.drag(-100, 200));
    s.release();
    assert_eq!(s.offset(), 200);
    // A shrunken range re-clamps on the next touch-down.
    assert!(s.drag(10, 120));
    assert_eq!(s.offset(), 120);
    assert!(s.drag(500, -5));
    assert_eq!(s.offset(), 0);
}

#[test]
fn header_zone_hits() {
    let r = Rect { x: 0, y: 26, width: 410, height: 28 };
    assert!(header_icon_hit(0, 14, r));
    assert!(header_icon_hit(109, 65, r));
    assert!(!header_icon_hit(110, 30, r));
    assert!(!header_icon_hit(10, 66, r));
    assert!(!header_icon_hit(10, 13, r));
    assert!(header_back_hit(50, 40));
    assert!(!header_back_hit(50, 100));
}

#[test]
fn numpad_hits_and_buffer() {
    let mut n = Numpad::new(4);
    assert_eq!(n.hit_test(60, 150), Some(NumpadAction::Digit(1)));
    assert_eq!(n.hit_test(349, 201), Some(NumpadAction::Digit(3)));
    assert_eq!(n.hit_test(150, 150), None);
    assert_eq!(n.hit_test(160, 330), Some(NumpadAction::Digit(0)));
    assert_eq!(n.hit_test(60, 330), Some(NumpadAction::Backspace));
    assert_eq!(n.hit_test(300, 330), Some(NumpadAction::Confirm));
    assert_eq!(n.hit_test(300, 382), None);
    for d in [1u8, 2, 3, 4, 5] {
        n.apply(NumpadAction::Digit(d));
    }
    assert_eq!(n.digit_slice(), &[1, 2, 3, 4]);
    assert!(!n.apply(NumpadAction::Confirm));
    assert!(n.apply(NumpadAction::Backspace));
    assert_eq!(n.padded(), [0, 1, 2, 3, 0, 0, 0, 0]);
    n.clear();
    assert!(!n.apply(NumpadAction::Backspace));
    let moved = Numpad::new(20).with_top(0);
    assert_eq!(moved.hit_test(60, 0), Some(NumpadAction::Digit(1)));
}

#[test]
fn numpad_prefill_strips_zeros_and_caps() {
    let mut n = Numpad::new(6);
    n.prefill(&[0, 0, 1, 5, 0, 0]);
    assert_eq!(n.digit_slice(), &[1, 5, 0, 0]);
    n.prefill(&[0, 0, 0]);
    assert!(n.digit_slice().is_empty());
    let mut short = Numpad::new(2);
    short.prefill(&[7, 8, 9]);
    assert_eq!(short.digit_slice(), &[7, 8]);
    assert_eq!(n.digits.len(), 0);
}

#[test]
fn pad_digits_right_aligns() {
    assert_eq!(pad_digits(&[1, 2], 6), [0, 0, 0, 0, 1, 2, 0, 0]);
    assert_eq!(pad_digits(&[9; 10], 8), [9; 8]);
    assert_eq!(pad_digits(&[], 4), [0; 8]);
}

#[test]
fn status_screen_pages_and_close() {
    let mut s = StatusScreen::new();
    let mut d = SystemData::default();
    let up = SystemEvent::Swipe { dir: SwipeDir::Up, region: SwipeRegion::Content };
    let down = SystemEvent::Swipe { dir: SwipeDir::Down, region: SwipeRegion::Content };
    assert_eq!(s.on_event(&SystemEvent::TouchReleased, &mut d), Action::Nothing);
    assert_eq!(s.on_event(&down, &mut d), Action::Redraw);
    // Now on the environment page: touches redraw, motion does not.
    assert_eq!(s.on_event(&SystemEvent::TouchReleased, &mut d), Action::Redraw);
    assert_eq!(s.on_event(&SystemEvent::MotionUpdated { data: d.motion }, &mut d), Action::Nothing);
    assert_eq!(s.on_event(&up, &mut d), Action::Redraw);
    assert_eq!(s.on_event(&SystemEvent::MotionUpdated { data: d.motion }, &mut d), Action::Redraw);
    assert_eq!(s.on_event(&SystemEvent::Tap { x: 10, y: 50 }, &mut d), Action::Back);
    assert_eq!(s.on_event(&SystemEvent::Tap { x: 200, y: 300 }, &mut d), Action::Nothing);
    assert_eq!(s.on_event(&SystemEvent::PowerButtonLong, &mut d), Action::Shutdown);
}

#[test]
fn quick_access_brightness_and_tiles() {
    assert_eq!(QuickAccessScreen::brightness_from_x(22, 116), Some(5));
    assert_eq!(QuickAccessScreen::brightness_from_x(387, 116), Some(100));
    assert_eq!(QuickAccessScreen::brightness_from_x(-50, 104), Some(5));
    assert_eq!(QuickAccessScreen::brightness_from_x(205, 139), Some(52));
    assert_eq!(QuickAccessScreen::brightness_from_x(205, 140), None);
    assert_eq!(QuickAccessScreen::brightness_from_x(205, 103), None);
    let mut q = QuickAccessScreen::new(ScreenId::Clock);
    let mut d = SystemData::default();
    assert_eq!(q.on_event(&SystemEvent::TouchPressed { x: 205, y: 120 }, &mut d), Action::Redraw);
    assert_eq!(q.on_event(&SystemEvent::TouchPressed { x: 205, y: 120 }, &mut d), Action::Nothing);
    assert_eq!(q.on_event(&SystemEvent::Tap { x: 30, y: 200 }, &mut d), Action::Redraw);
    assert_eq!(q.on_event(&SystemEvent::Tap { x: 109, y: 200 }, &mut d), Action::Nothing);
    let up = SystemEvent::Swipe { dir: SwipeDir::Up, region: SwipeRegion::Top };
    assert_eq!(q.on_event(&up, &mut d), Action::Back);
    assert_eq!(app_core::screens::quick_access::toggle_rect(5), Rect { x: 115, y: 315, width: 87, height: 139 });
}

#[test]
fn clock_tiles_open_alarm_and_timer() {
    let c = chrome();
    let mut s = ClockScreen::new();
    let mut d = SystemData::default();
    // Bottom tiles sit at y = 502 - 40 - 38 = 424.
    assert_eq!(s.on_event(&SystemEvent::Tap { x: 30, y: 430 }, &mut d, &c), Action::SwitchScreen(ScreenId::Alarm));
    assert_eq!(s.on_event(&SystemEvent::Tap { x: 300, y: 461 }, &mut d, &c), Action::SwitchScreen(ScreenId::Timer));
    assert_eq!(s.on_event(&SystemEvent::Tap { x: 205, y: 430 }, &mut d, &c), Action::Nothing);
    assert_eq!(s.on_event(&SystemEvent::AlarmFired, &mut d, &c), Action::Redraw);
    assert_eq!(short_weekday(3), "WED");
    assert_eq!(short_weekday(7), "SUN");
    assert_eq!(short_month(4), "APR");
    assert_eq!(short_month(0), "DEC");
}

#[test]
fn settings_row_places_icon_label_control_and_rule() {
    let rect = Rect { x: 0, y: 62, width: 410, height: 52 };
    assert_eq!(
        row_layout(rect, RowControlKind::Chevron),
        RowLayout {
            icon_cx: 26,
            center_y: 88,
            label_x: 58,
            label_y: 81,
            control_x: 392,
            control_y: 88,
            rule_x0: 0,
            rule_x1: 409,
            rule_y: 113,
        }
    );
    let t = row_layout(rect, RowControlKind::Toggle);
    assert_eq!((t.control_x, t.control_y), (360, 80));
    let i = row_layout(rect, RowControlKind::Inline);
    assert_eq!((i.control_x, i.control_y), (392, 81));
    // An odd height rounds the centre down.
    let odd = row_layout(Rect { x: 5, y: 10, width: 100, height: 51 }, RowControlKind::Chevron);
    assert_eq!((odd.icon_cx, odd.center_y, odd.control_x, odd.rule_x1, odd.rule_y), (31, 35, 87, 104, 60));
}

#[test]
fn toggle_pill_sits_at_the_end_its_state_names() {
    assert_eq!(toggle_pill(360, 80, true), (379, 82));
    assert_eq!(toggle_pill(360, 80, false), (361, 82));
}
