use app_core::commands::{ImuCommand, RtcCommand, SleepState};
use app_core::config::Config;
use app_core::events::{SelfTestId, SelfTestResult, SwipeDir, SwipeRegion, SystemEvent};
use app_core::model::{Effect, Effects, Model};
use app_core::ui_types::{Action, DisplayState, ScreenId, SystemData, TimerState};

fn fresh() -> Model {
    Model::new(SystemData::default(), Config::default(), 0)
}

#[test]
fn boot_button_while_awake_sleeps_with_buzz_pulse() {
    let mut m = fresh();
    let (fx, _) = m.handle_event(&SystemEvent::BootButtonPressed, 0);
    assert!(m.sleeping);
    assert_eq!(fx[0], Effect::MotorPulse { duration_ms: 100 });
    assert!(fx.contains(&Effect::BroadcastSleep(SleepState::Sleeping)));
    assert!(fx.iter().any(|e| matches!(e, Effect::TransitionDisplay { to: DisplayState::Off, .. })));
}

#[test]
fn touch_while_sleeping_wakes_and_consumes_event() {
    let mut m = fresh();
    m.handle_event(&SystemEvent::BootButtonPressed, 0);
    assert!(m.sleeping);
    let (fx, forward) = m.handle_event(&SystemEvent::TouchPressed { x: 100, y: 100 }, 5_000);
    assert!(!m.sleeping);
    assert!(fx.contains(&Effect::BroadcastSleep(SleepState::Awake)));
    assert!(fx.iter().any(|e| matches!(e, Effect::TransitionDisplay { to: DisplayState::Active, .. })));
    assert!(!forward);
}

#[test]
fn shutdown_action_produces_effect() {
    let mut m = fresh();
    let mut out: Effects = heapless::Vec::new();
    m.dispatch_action(&SystemEvent::BootButtonPressed, Action::Shutdown, &mut out);
    assert_eq!(out[0], Effect::Shutdown);
}

#[test]
fn snooze_emits_motor_off_and_set_alarm_at_now_plus_10() {
    let mut m = fresh();
    m.cached_data.time.hour = 7;
    m.cached_data.time.minute = 55;
    let mut out: Effects = heapless::Vec::new();
    m.dispatch_action(&SystemEvent::BootButtonPressed, Action::SnoozeAlarm, &mut out);
    assert!(out.contains(&Effect::MotorOff));
    assert!(out.contains(&Effect::RtcCommand(RtcCommand::SetAlarm { hour: 8, minute: 5, weekday: None })));
    assert!(m.cached_data.alarms.snoozed);
}

#[test]
fn idle_past_dim_threshold_emits_dim_transition() {
    let mut m = fresh();
    let dim_timeout = m.config.display.dim_timeout_s;
    let fx = m.tick((dim_timeout + 1) * 1000);
    assert!(fx.iter().any(|e| matches!(e, Effect::TransitionDisplay { to: DisplayState::Dim, .. })));
    assert_eq!(m.display_state, DisplayState::Dim);
}

#[test]
fn idle_past_off_threshold_enters_sleep() {
    let mut m = fresh();
    let off_timeout = m.config.display.off_timeout_s;
    let fx = m.tick((off_timeout + 1) * 1000);
    assert!(m.sleeping);
    assert!(fx.contains(&Effect::BroadcastSleep(SleepState::Sleeping)));
}

#[test]
fn fresh_model_is_awake_on_clock_with_pending_frame() {
    let m = fresh();
    assert_eq!(m.screen, ScreenId::Clock);
    assert!(m.needs_redraw());
    assert!(!m.sleeping());
    assert_eq!(m.display_state, DisplayState::Active);
    assert!(m.nav_stack.is_empty());
}

#[test]
fn tick_before_dim_timeout_changes_nothing() {
    let mut m = fresh();
    let fx = m.tick(19_999);
    assert!(fx.is_empty());
    assert_eq!(m.display_state, DisplayState::Active);
    // Exactly at the threshold the display dims.
    let fx = m.tick(20_000);
    assert_eq!(fx.len(), 1);
    assert_eq!(fx[0], Effect::TransitionDisplay { from: DisplayState::Active, to: DisplayState::Dim });
}

#[test]
fn idle_sleep_goes_through_dim_then_off() {
    let mut m = fresh();
    let fx = m.tick(31_000);
    assert_eq!(fx.len(), 3);
    assert_eq!(fx[0], Effect::TransitionDisplay { from: DisplayState::Active, to: DisplayState::Dim });
    assert_eq!(fx[1], Effect::BroadcastSleep(SleepState::Sleeping));
    assert_eq!(fx[2], Effect::TransitionDisplay { from: DisplayState::Dim, to: DisplayState::Off });
    // Asleep: further ticks are quiet.
    assert!(m.tick(90_000).is_empty());
}

#[test]
fn wake_on_motion_wakes_without_reaching_screen() {
    let mut m = fresh();
    m.handle_event(&SystemEvent::BootButtonPressed, 0);
    let (fx, forward) = m.handle_event(&SystemEvent::WakeOnMotion, 1_000);
    assert!(!m.sleeping);
    assert!(!forward);
    assert_eq!(fx.len(), 2);
    assert_eq!(m.last_activity, 1_000);
}

#[test]
fn alarm_while_sleeping_wakes_switches_and_reaches_screen() {
    let mut m = fresh();
    m.handle_event(&SystemEvent::BootButtonPressed, 0);
    let (fx, forward) = m.handle_event(&SystemEvent::AlarmFired, 2_000);
    assert!(!m.sleeping);
    assert!(forward);
    assert_eq!(m.screen, ScreenId::Alarm);
    assert!(m.remount);
    assert!(fx.contains(&Effect::BroadcastSleep(SleepState::Awake)));
    assert_eq!(m.nav_stack.peek_or_home(), ScreenId::Clock);
}

#[test]
fn timer_expiry_resets_timer_and_opens_timer_screen() {
    let mut m = fresh();
    m.cached_data.timer = TimerState::Paused { remaining_ms: 5_000 };
    let (_, forward) = m.handle_event(&SystemEvent::TimerExpired, 10);
    assert!(forward);
    assert_eq!(m.screen, ScreenId::Timer);
    assert!(matches!(m.cached_data.timer, TimerState::Idle { duration_ms: 0 }));
    // A second expiry while on Timer does not stack it again.
    m.handle_event(&SystemEvent::TimerExpired, 20);
    assert_eq!(m.nav_stack.len(), 1);
}

#[test]
fn pull_down_opens_quick_access_and_back_returns() {
    let mut m = fresh();
    let swipe = SystemEvent::Swipe { dir: SwipeDir::Down, region: SwipeRegion::Top };
    let (fx, forward) = m.handle_event(&swipe, 100);
    assert!(fx.is_empty());
    assert!(!forward);
    assert_eq!(m.screen, ScreenId::QuickAccess);
    let mut out: Effects = heapless::Vec::new();
    m.dispatch_action(&swipe, Action::Back, &mut out);
    assert_eq!(m.screen, ScreenId::Clock);
    assert!(m.nav_stack.is_empty());
}

#[test]
fn switch_screen_pushes_and_back_pops() {
    let mut m = fresh();
    let mut out: Effects = heapless::Vec::new();
    m.dispatch_action(&SystemEvent::HalfMinuteChanged, Action::SwitchScreen(ScreenId::Settings), &mut out);
    assert_eq!(m.screen, ScreenId::Settings);
    m.dispatch_action(&SystemEvent::HalfMinuteChanged, Action::SwitchScreen(ScreenId::Timer), &mut out);
    m.dispatch_action(&SystemEvent::HalfMinuteChanged, Action::Back, &mut out);
    assert_eq!(m.screen, ScreenId::Settings);
    m.dispatch_action(&SystemEvent::HalfMinuteChanged, Action::Back, &mut out);
    assert_eq!(m.screen, ScreenId::Clock);
    assert!(out.is_empty());
}

#[test]
fn rtc_and_imu_actions_are_forwarded() {
    let mut m = fresh();
    let mut out: Effects = heapless::Vec::new();
    let ev = SystemEvent::HalfMinuteChanged;
    m.dispatch_action(&ev, Action::StartTimer { seconds: 90 }, &mut out);
    m.dispatch_action(&ev, Action::CancelTimer, &mut out);
    m.dispatch_action(&ev, Action::SetAlarm { hour: 6, minute: 15, weekday: Some(2) }, &mut out);
    m.dispatch_action(&ev, Action::CancelAlarm, &mut out);
    m.dispatch_action(&ev, Action::RunSelfTest(SelfTestId::ImuGyro), &mut out);
    m.dispatch_action(
        &ev,
        Action::SetTime { year: 2026, month: 4, day: 22, hour: 19, minute: 3, second: 14 },
        &mut out,
    );
    assert_eq!(out.len(), 6);
    assert_eq!(out[0], Effect::RtcCommand(RtcCommand::StartTimer { seconds: 90 }));
    assert_eq!(out[1], Effect::RtcCommand(RtcCommand::CancelTimer));
    assert_eq!(out[2], Effect::RtcCommand(RtcCommand::SetAlarm { hour: 6, minute: 15, weekday: Some(2) }));
    assert_eq!(out[3], Effect::RtcCommand(RtcCommand::CancelAlarm));
    assert_eq!(out[4], Effect::ImuCommand(ImuCommand::RunSelfTest(SelfTestId::ImuGyro)));
    assert_eq!(
        out[5],
        Effect::RtcCommand(RtcCommand::SetTime { year: 2026, month: 4, day: 22, hour: 19, minute: 3, second: 14 })
    );
}

#[test]
fn buzz_start_tick_stop() {
    let mut m = fresh();
    let mut out: Effects = heapless::Vec::new();
    m.dispatch_action(&SystemEvent::TimerExpired, Action::StartBuzz { on_ms: 200, off_ms: 100 }, &mut out);
    assert_eq!(out[0], Effect::MotorOn);
    assert!(m.buzz.is_some());
    let fx = m.tick(200);
    assert_eq!(fx[0], Effect::MotorOff);
    let fx = m.tick(300);
    assert_eq!(fx[0], Effect::MotorOn);
    let mut out: Effects = heapless::Vec::new();
    m.dispatch_action(&SystemEvent::Tap { x: 0, y: 0 }, Action::StopBuzz, &mut out);
    assert_eq!(out[0], Effect::MotorOff);
    assert!(m.buzz.is_none());
}

#[test]
fn time_update_programs_next_alarm_once() {
    let mut m = fresh();
    m.cached_data.alarms.entries[0] = app_core::alarm::AlarmEntry { hour: 7, minute: 30, days: 0x7F, enabled: true };
    let t = app_core::data::TimeData { hour: 6, minute: 0, second: 0, year: 2026, month: 4, day: 22 };
    let (fx, _) = m.handle_event(&SystemEvent::TimeUpdated { data: t }, 10);
    assert_eq!(fx.len(), 1);
    assert_eq!(fx[0], Effect::RtcCommand(RtcCommand::SetAlarm { hour: 7, minute: 30, weekday: None }));
    assert_eq!(m.cached_data.time.hour, 6);
    let (fx, _) = m.handle_event(&SystemEvent::TimeUpdated { data: t }, 20);
    assert!(fx.is_empty());
}

#[test]
fn self_test_and_touch_snapshots_are_cached() {
    let mut m = fresh();
    m.clear_redraw();
    m.handle_event(
        &SystemEvent::SelfTestUpdated { id: SelfTestId::ImuGyro, result: SelfTestResult::PassAxes3([1, 2, 3]) },
        5,
    );
    assert_eq!(m.cached_data.self_tests[1], SelfTestResult::PassAxes3([1, 2, 3]));
    assert_eq!(m.cached_data.self_tests[0], SelfTestResult::NotRun);
    assert!(m.needs_redraw());
    m.handle_event(&SystemEvent::TouchPressed { x: 12, y: 34 }, 6);
    assert_eq!((m.cached_data.touch.x, m.cached_data.touch.y), (Some(12), Some(34)));
    m.handle_event(&SystemEvent::TouchReleased, 7);
    assert_eq!((m.cached_data.touch.x, m.cached_data.touch.y), (None, None));
    m.set_tick_count(42);
    assert_eq!(m.cached_data().tick_count, 42);
}

#[test]
fn awake_user_activity_resets_idle_and_reaches_screen() {
    let mut m = fresh();
    let (fx, forward) = m.handle_event(&SystemEvent::Tap { x: 5, y: 5 }, 15_000);
    assert!(fx.is_empty());
    assert!(forward);
    assert_eq!(m.last_activity, 15_000);
    // The dim timer now counts from the tap.
    assert!(m.tick(30_000).is_empty());
}
