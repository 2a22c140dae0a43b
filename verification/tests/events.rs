use app_core::events::{classify_for_log, is_user_activity, is_wake_source, LoggedEvent, SwipeDir, SwipeRegion, SystemEvent};

#[test]
fn touch_press_counts_as_user_activity() {
    assert!(is_user_activity(&SystemEvent::TouchPressed { x: 10, y: 20 }));
    assert!(is_user_activity(&SystemEvent::TouchReleased));
    assert!(is_user_activity(&SystemEvent::Tap { x: 0, y: 0 }));
    assert!(is_user_activity(&SystemEvent::BootButtonPressed));
}

#[test]
fn wake_on_motion_is_not_user_activity() {
    assert!(!is_user_activity(&SystemEvent::WakeOnMotion));
    assert!(is_wake_source(&SystemEvent::WakeOnMotion));
}

#[test]
fn alarm_and_timer_are_wake_sources_not_activity() {
    assert!(!is_user_activity(&SystemEvent::AlarmFired));
    assert!(!is_user_activity(&SystemEvent::TimerExpired));
    assert!(is_wake_source(&SystemEvent::AlarmFired));
    assert!(is_wake_source(&SystemEvent::TimerExpired));
}

#[test]
fn power_button_long_is_neither() {
    assert!(!is_user_activity(&SystemEvent::PowerButtonLong));
    assert!(!is_wake_source(&SystemEvent::PowerButtonLong));
}

#[test]
fn log_classifier_covers_alarm_timer_power_button() {
    assert_eq!(
        classify_for_log(&SystemEvent::AlarmFired),
        Some(LoggedEvent { tag: "alarm", detail: None }),
    );
    assert_eq!(
        classify_for_log(&SystemEvent::TimerExpired),
        Some(LoggedEvent { tag: "timer_expired", detail: None }),
    );
    assert_eq!(
        classify_for_log(&SystemEvent::PowerButtonLong),
        Some(LoggedEvent { tag: "shutdown_req", detail: None }),
    );
}

#[test]
fn log_classifier_captures_battery_percent() {
    assert_eq!(
        classify_for_log(&SystemEvent::BatteryChanged { percent: 73 }),
        Some(LoggedEvent { tag: "battery", detail: Some(73) }),
    );
}

#[test]
fn log_classifier_skips_firehose_events() {
    assert!(classify_for_log(&SystemEvent::HalfMinuteChanged).is_none());
    assert!(classify_for_log(&SystemEvent::TouchPressed { x: 0, y: 0 }).is_none());
    assert!(classify_for_log(&SystemEvent::TouchReleased).is_none());
}

#[test]
fn log_classifier_vbus_tags() {
    assert_eq!(
        classify_for_log(&SystemEvent::VbusInserted),
        Some(LoggedEvent { tag: "vbus_in", detail: None }),
    );
    assert_eq!(
        classify_for_log(&SystemEvent::VbusRemoved),
        Some(LoggedEvent { tag: "vbus_out", detail: None }),
    );
}

#[test]
fn swipes_and_short_power_press_are_activity_but_not_wake() {
    let swipe = SystemEvent::Swipe { dir: SwipeDir::Left, region: SwipeRegion::Content };
    assert!(is_user_activity(&swipe));
    assert!(!is_wake_source(&swipe));
    assert!(is_user_activity(&SystemEvent::PowerButtonShort));
    assert!(!is_wake_source(&SystemEvent::PowerButtonShort));
}
