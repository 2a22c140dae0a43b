//! Countdown timer screen.
//!
//! Main view: a readout of the remaining time (tap it while stopped to
//! enter a duration), a run button (START / PAUSE / RESUME) and a RESET
//! button. Numpad view: duration entry as `HH:MM:SS`, filled right to
//! left. A duration above the hardware countdown maximum is capped, the
//! capped value is shown, and the label flashes until the user confirms
//! again. On expiry the screen alerts (buzzing) until tapped.
//!
//! Durations and deadlines are milliseconds; the deadline is measured
//! from boot.

use vstd::prelude::*;

use crate::data::TimeData;
use crate::events::SystemEvent;
use crate::layout::{Rect, VSTACK_SIDE_MARGIN};
use crate::numpad::{spec_apply, spec_hit, spec_prefilled, Numpad, NumpadAction, DEFAULT_TOP};
use crate::screens::{rect_hit, AppChrome};
use crate::text::{push_pad2, spec_pad2};
use crate::ui_types::{now_ms, Action, SystemData, TimerState};
use crate::widgets::FlashTone;

verus! {

/// Readout panel height.
pub const READOUT_H: i32 = 130;

/// Gap between the readout's bottom edge and the action row.
pub const READOUT_BUTTON_GAP: i32 = 8;

/// Longest countdown in seconds (255 minutes), the limit of the RTC's
/// countdown register.
pub const MAX_TIMER_SECS: u64 = 15300;

/// Motion updates per flash phase.
pub const FLASH_PHASE_TICKS: u8 = 5;

/// Motion updates of the clamp-warning flash (4 phases).
pub const FLASH_TOTAL_TICKS: u8 = 20;

/// Digits the duration keypad accepts (`HHMMSS`).
pub const DURATION_DIGITS: usize = 6;

/// Seconds in a day.
pub const DAY_SECS: u64 = 86400;

/// Latest time (ms since boot) at which a countdown of any 32-bit
/// number of seconds still has a representable deadline.
pub const NOW_LIMIT_MS: u64 = 18446739778742256615;

/// Which view the timer shows.
#[derive(Debug, Clone, Copy, PartialEq, Eq, Structural)]
pub enum TimerView {
    Main,
    Numpad,
}

/// The timer screen's state as a value.
pub struct TimerScreenView {
    pub view: TimerView,
    pub last_rendered_sec: u64,
    pub digits: Seq<u8>,
    pub flash_ticks: u8,
    pub alerting: bool,
    pub alert_ticks: u8,
}

/// Timer screen state.
pub struct TimerScreen {
    view: TimerView,
    /// Last displayed remaining second; gates the 1 Hz redraw.
    last_rendered_sec: u64,
    /// Duration entry keypad.
    numpad: Numpad,
    /// Remaining motion updates of the clamp-warning flash.
    flash_ticks: u8,
    /// The countdown expired and the user has not acknowledged it.
    alerting: bool,
    /// Motion updates counted while alerting (drives the flash).
    alert_ticks: u8,
    chrome: AppChrome,
}

/// Seconds since midnight of a time of day.
pub open spec fn spec_day_secs(t: TimeData) -> int {
    t.hour * 3600 + t.minute * 60 + t.second
}

/// Seconds from the time of day `t` to `target_secs` since midnight,
/// wrapping over midnight.
pub open spec fn spec_remaining_from_rtc(target_secs: u32, t: TimeData) -> int {
    let now = spec_day_secs(t);
    if target_secs >= now { target_secs - now } else { (DAY_SECS - now) + target_secs }
}

/// The time of day fits the wrap-around computation: a target earlier
/// in the day than `t` needs `t` to be within a day.
pub open spec fn spec_rtc_wrap_ok(target_secs: u32, t: TimeData) -> bool {
    target_secs < spec_day_secs(t) ==> spec_day_secs(t) <= DAY_SECS
}

/// Digit `j` of `digits` right-aligned in the six-digit `HHMMSS` field.
pub open spec fn spec_pad6(digits: Seq<u8>, j: int) -> int {
    let offset = 6 - digits.len();
    if offset <= j < 6 { digits[j - offset] as int } else { 0 }
}

/// Milliseconds of an `HHMMSS` entry (the fields are not range-checked).
pub open spec fn spec_digits_to_ms(digits: Seq<u8>) -> int {
    let h = spec_pad6(digits, 0) * 10 + spec_pad6(digits, 1);
    let m = spec_pad6(digits, 2) * 10 + spec_pad6(digits, 3);
    let s = spec_pad6(digits, 4) * 10 + spec_pad6(digits, 5);
    (h * 3600 + m * 60 + s) * 1000
}

/// The `HHMMSS` digits of a duration (whole seconds; hours capped at 99).
pub open spec fn spec_duration_to_raw(ms: u64) -> Seq<u8> {
    let total = ms / 1000;
    let h = if total / 3600 < 99 { total / 3600 } else { 99 };
    let m = (total / 60) % 60;
    let s = total % 60;
    seq![(h / 10) as u8, (h % 10) as u8, (m / 10) as u8, (m % 10) as u8, (s / 10) as u8, (s % 10) as u8]
}

/// A countdown of `secs` started at time of day `t` and boot time `now`.
pub open spec fn spec_started(secs: u32, t: TimeData, now: u64) -> TimerState {
    TimerState::Running {
        deadline_ms: (now + secs * 1000) as u64,
        target_secs: ((spec_day_secs(t) + secs) % (DAY_SECS as int)) as u32,
    }
}

/// Top of the readout panel: centred between the content top and the
/// action row.
pub open spec fn spec_readout_top(c: AppChrome) -> int {
    c.content_top + crate::layout::spec_trunc_div(
        c.spec_bottom_tile_y() - READOUT_BUTTON_GAP - c.content_top - READOUT_H,
        2,
    )
}

/// The readout panel.
pub open spec fn spec_readout_rect(c: AppChrome) -> Rect {
    Rect {
        x: VSTACK_SIDE_MARGIN,
        y: spec_readout_top(c) as i32,
        width: (crate::layout::SCREEN_W - VSTACK_SIDE_MARGIN * 2) as u32,
        height: READOUT_H as u32,
    }
}

/// The alert flash counter after one more motion update (wrapping).
pub open spec fn spec_next_tick(t: u8) -> u8 {
    if t == 255 { 0 } else { (t + 1) as u8 }
}

/// The main view's response to an event (not alerting, no clock resync).
pub open spec fn spec_main_event(s: TimerScreenView, d: SystemData, e: SystemEvent, now: u64, c: AppChrome) -> (TimerScreenView, SystemData, Action) {
    let running = d.timer is Running;
    let remaining = d.timer.spec_remaining_at(now);
    match e {
        SystemEvent::MotionUpdated { .. } => {
            if running {
                let sec = (remaining / 1000) as u64;
                if sec != s.last_rendered_sec {
                    (TimerScreenView { last_rendered_sec: sec, ..s }, d, Action::Redraw)
                } else {
                    (s, d, Action::Nothing)
                }
            } else {
                (s, d, Action::Nothing)
            }
        },
        SystemEvent::Tap { x, y } => {
            if c.back_zone.spec_contains(x as int, y as int) {
                (s, d, Action::Back)
            } else if !running && spec_readout_rect(c).spec_contains(x as int, y as int) {
                (
                    TimerScreenView {
                        digits: spec_prefilled(spec_duration_to_raw(remaining as u64), DURATION_DIGITS as int),
                        view: TimerView::Numpad,
                        ..s
                    },
                    d,
                    Action::Redraw,
                )
            } else if c.spec_bottom_left().spec_contains(x as int, y as int) {
                match d.timer {
                    TimerState::Idle { duration_ms } => {
                        if duration_ms > 0 {
                            let secs = (duration_ms / 1000) as u32;
                            (s, SystemData { timer: spec_started(secs, d.time, now), ..d }, Action::StartTimer { seconds: secs })
                        } else {
                            (s, d, Action::Nothing)
                        }
                    },
                    TimerState::Running { deadline_ms, .. } => {
                        let rem = if now >= deadline_ms { 0 } else { (deadline_ms - now) as u64 };
                        (s, SystemData { timer: TimerState::Paused { remaining_ms: rem }, ..d }, Action::CancelTimer)
                    },
                    TimerState::Paused { remaining_ms } => {
                        if remaining_ms > 0 {
                            let secs = (remaining_ms / 1000) as u32;
                            (s, SystemData { timer: spec_started(secs, d.time, now), ..d }, Action::StartTimer { seconds: secs })
                        } else {
                            (s, d, Action::Nothing)
                        }
                    },
                }
            } else if c.spec_bottom_right().spec_contains(x as int, y as int) {
                if remaining / 1000 == 0 {
                    (s, d, Action::Nothing)
                } else {
                    (
                        TimerScreenView { last_rendered_sec: 0, ..s },
                        SystemData { timer: TimerState::Idle { duration_ms: 0 }, ..d },
                        if running { Action::CancelTimer } else { Action::Redraw },
                    )
                }
            } else {
                (s, d, Action::Nothing)
            }
        },
        _ => (s, d, Action::Nothing),
    }
}

/// The duration-entry view's response to an event.
pub open spec fn spec_numpad_event(s: TimerScreenView, d: SystemData, e: SystemEvent, c: AppChrome) -> (TimerScreenView, SystemData, Action) {
    match e {
        SystemEvent::MotionUpdated { .. } => {
            if s.flash_ticks > 0 {
                let f = (s.flash_ticks - 1) as u8;
                (
                    TimerScreenView { flash_ticks: f, ..s },
                    d,
                    if f / FLASH_PHASE_TICKS != s.flash_ticks / FLASH_PHASE_TICKS { Action::Redraw } else { Action::Nothing },
                )
            } else {
                (s, d, Action::Nothing)
            }
        },
        SystemEvent::Tap { x, y } => {
            if c.back_zone.spec_contains(x as int, y as int) {
                (TimerScreenView { flash_ticks: 0, view: TimerView::Main, ..s }, d, Action::Redraw)
            } else {
                match spec_hit(DEFAULT_TOP as int, x as int, y as int) {
                    Some(NumpadAction::Confirm) => {
                        let dur = spec_digits_to_ms(s.digits);
                        if dur / 1000 > MAX_TIMER_SECS {
                            let capped = (MAX_TIMER_SECS * 1000) as u64;
                            (
                                TimerScreenView {
                                    digits: spec_prefilled(spec_duration_to_raw(capped), DURATION_DIGITS as int),
                                    flash_ticks: FLASH_TOTAL_TICKS,
                                    ..s
                                },
                                SystemData { timer: TimerState::Idle { duration_ms: capped }, ..d },
                                Action::Redraw,
                            )
                        } else {
                            (
                                TimerScreenView { view: TimerView::Main, ..s },
                                SystemData { timer: TimerState::Idle { duration_ms: dur as u64 }, ..d },
                                Action::Redraw,
                            )
                        }
                    },
                    Some(other) => {
                        let (digits, changed) = spec_apply(s.digits, DURATION_DIGITS as int, other);
                        (TimerScreenView { digits: digits, ..s }, d, if changed { Action::Redraw } else { Action::Nothing })
                    },
                    None => (s, d, Action::Nothing),
                }
            }
        },
        _ => (s, d, Action::Nothing),
    }
}

/// The timer screen's response to an event at boot time `now`.
pub open spec fn spec_timer_event(s: TimerScreenView, d: SystemData, e: SystemEvent, now: u64, c: AppChrome) -> (TimerScreenView, SystemData, Action) {
    if e is PowerButtonLong {
        (s, d, Action::Shutdown)
    } else if e is TimerExpired {
        (TimerScreenView { alerting: true, view: TimerView::Main, ..s }, d, Action::StartBuzz { on_ms: 200, off_ms: 100 })
    } else if s.alerting {
        match e {
            SystemEvent::Tap { .. } => (TimerScreenView { alerting: false, alert_ticks: 0, ..s }, d, Action::StopBuzz),
            SystemEvent::MotionUpdated { .. } => {
                let t = spec_next_tick(s.alert_ticks);
                (
                    TimerScreenView { alert_ticks: t, ..s },
                    d,
                    if t / FLASH_PHASE_TICKS != s.alert_ticks / FLASH_PHASE_TICKS { Action::Redraw } else { Action::Nothing },
                )
            },
            _ => (s, d, Action::Nothing),
        }
    } else if e is TimeUpdated && d.timer is Running {
        let t = e->TimeUpdated_data;
        let target = d.timer->target_secs;
        let r = spec_remaining_from_rtc(target, t);
        let timer = if r == 0 {
            TimerState::Idle { duration_ms: 0 }
        } else {
            TimerState::Running { deadline_ms: (now + r * 1000) as u64, target_secs: target }
        };
        (s, SystemData { timer: timer, ..d }, Action::Redraw)
    } else if s.view == TimerView::Main {
        spec_main_event(s, d, e, now, c)
    } else {
        spec_numpad_event(s, d, e, c)
    }
}

/// What an event needs for the timer arithmetic to stay in range: a
/// clock resync of a running countdown needs a time of day within a day
/// when wrapping past midnight.
pub open spec fn spec_timer_event_ok(s: TimerScreenView, d: SystemData, e: SystemEvent) -> bool {
    (!s.alerting && e is TimeUpdated && d.timer is Running) ==> spec_rtc_wrap_ok(
        d.timer->target_secs,
        e->TimeUpdated_data,
    )
}

/// Seconds from the RTC time of day `time` to `target_secs` since
/// midnight, wrapping over midnight.
pub fn remaining_from_rtc(target_secs: u32, time: &TimeData) -> (r: u32)
    requires
        spec_rtc_wrap_ok(target_secs, *time),
    ensures
        r == spec_remaining_from_rtc(target_secs, *time),
{
    let now_secs = time.hour as u32 * 3600 + time.minute as u32 * 60 + time.second as u32;
    if target_secs >= now_secs {
        target_secs - now_secs
    } else {
        (24 * 3600 - now_secs) + target_secs
    }
}

/// Milliseconds of the `HHMMSS` entry in `digits` (right-aligned, at most
/// six digits).
pub fn digits_to_duration(digits: &[u8]) -> (ms: u64)
    requires
        digits@.len() <= DURATION_DIGITS,
    ensures
        ms == spec_digits_to_ms(digits@),
{
    let mut padded = [0u8; 6];
    let offset = 6 - digits.len();
    let mut i: usize = 0;
    while i < digits.len()
        invariant
            0 <= i <= digits@.len(),
            digits@.len() <= 6,
            offset == 6 - digits@.len(),
            forall|j: int|
                0 <= j < 6 ==> #[trigger] padded[j] == (if offset <= j < offset + i { digits@[j - offset] } else { 0u8 }),
        decreases digits@.len() - i,
    {
        padded[offset + i] = digits[i];
        i = i + 1;
    }
    assert(forall|j: int| 0 <= j < 6 ==> padded[j] as int == #[trigger] spec_pad6(digits@, j));
    let h = padded[0] as u64 * 10 + padded[1] as u64;
    let m = padded[2] as u64 * 10 + padded[3] as u64;
    let s = padded[4] as u64 * 10 + padded[5] as u64;
    (h * 3600 + m * 60 + s) * 1000
}

/// The `HHMMSS` digits of a duration in milliseconds (whole seconds,
/// hours capped at 99).
pub fn duration_to_raw(ms: u64) -> (raw: [u8; 6])
    ensures
        raw@ == spec_duration_to_raw(ms),
{
    let total_secs = ms / 1000;
    let h = if total_secs / 3600 < 99 { total_secs / 3600 } else { 99 };
    let m = (total_secs / 60) % 60;
    let s = total_secs % 60;
    let raw = [(h / 10) as u8, (h % 10) as u8, (m / 10) as u8, (m % 10) as u8, (s / 10) as u8, (s % 10) as u8];
    assert(raw@ =~= spec_duration_to_raw(ms));
    raw
}

fn start_countdown(secs: u32, data: &mut SystemData, now: u64)
    requires
        now <= NOW_LIMIT_MS,
    ensures
        *final(data) == (SystemData { timer: spec_started(secs, old(data).time, now), ..*old(data) }),
{
    let now_secs = data.time.hour as u64 * 3600 + data.time.minute as u64 * 60 + data.time.second as u64;
    let target_secs = ((now_secs + secs as u64) % DAY_SECS) as u32;
    data.timer = TimerState::Running { deadline_ms: now + secs as u64 * 1000, target_secs };
}

impl TimerScreen {
    /// The screen's state as a value.
    pub closed spec fn spec_view(&self) -> TimerScreenView {
        TimerScreenView {
            view: self.view,
            last_rendered_sec: self.last_rendered_sec,
            digits: self.numpad.spec_digits(),
            flash_ticks: self.flash_ticks,
            alerting: self.alerting,
            alert_ticks: self.alert_ticks,
        }
    }

    pub closed spec fn spec_chrome(&self) -> AppChrome {
        self.chrome
    }

    /// The keypad is the six-digit duration keypad at its default place,
    /// and the chrome lies on the panel.
    pub closed spec fn wf(&self) -> bool {
        &&& self.numpad.wf()
        &&& self.numpad.spec_max_digits() == DURATION_DIGITS
        &&& self.numpad.spec_top_y() == DEFAULT_TOP
        &&& self.numpad.spec_digits().len() <= DURATION_DIGITS
        &&& self.flash_ticks <= FLASH_TOTAL_TICKS
        &&& self.chrome.wf()
    }

    /// The screen in its main view, not alerting, with an empty keypad.
    pub fn new(chrome: AppChrome) -> (s: Self)
        requires
            chrome.wf(),
        ensures
            s.wf(),
            s.spec_chrome() == chrome,
            s.spec_view() == (TimerScreenView {
                view: TimerView::Main,
                last_rendered_sec: 0,
                digits: Seq::<u8>::empty(),
                flash_ticks: 0,
                alerting: false,
                alert_ticks: 0,
            }),
    {
        TimerScreen {
            view: TimerView::Main,
            last_rendered_sec: 0,
            numpad: Numpad::new(6),
            flash_ticks: 0,
            alerting: false,
            alert_ticks: 0,
            chrome,
        }
    }

    /// Fold an event into the screen at the current time.
    pub fn on_event(&mut self, event: &SystemEvent, data: &mut SystemData) -> (a: Action)
        requires
            old(self).wf(),
            spec_timer_event_ok(old(self).spec_view(), *old(data), *event),
        ensures
            final(self).wf(),
            final(self).spec_chrome() == old(self).spec_chrome(),
            exists|now: u64|
                now <= NOW_LIMIT_MS && (final(self).spec_view(), *final(data), a) == spec_timer_event(
                    old(self).spec_view(),
                    *old(data),
                    *event,
                    now,
                    old(self).spec_chrome(),
                ),
    {
        let now = now_ms();
        let now = if now > NOW_LIMIT_MS { NOW_LIMIT_MS } else { now };
        let ghost s0 = self.spec_view();
        let ghost d0 = *data;
        let a = self.on_event_at(event, data, now);
        assert(now <= NOW_LIMIT_MS && (self.spec_view(), *data, a) == spec_timer_event(s0, d0, *event, now, self.chrome));
        a
    }

    /// Fold an event into the screen at boot time `now`.
    pub fn on_event_at(&mut self, event: &SystemEvent, data: &mut SystemData, now: u64) -> (a: Action)
        requires
            old(self).wf(),
            now <= NOW_LIMIT_MS,
            spec_timer_event_ok(old(self).spec_view(), *old(data), *event),
        ensures
            final(self).wf(),
            final(self).spec_chrome() == old(self).spec_chrome(),
            (final(self).spec_view(), *final(data), a) == spec_timer_event(
                old(self).spec_view(),
                *old(data),
                *event,
                now,
                old(self).spec_chrome(),
            ),
    {
        if let SystemEvent::PowerButtonLong = event {
            return Action::Shutdown;
        }
        if let SystemEvent::TimerExpired = event {
            self.alerting = true;
            self.view = TimerView::Main;
            return Action::StartBuzz { on_ms: 200, off_ms: 100 };
        }
        if self.alerting {
            match event {
                SystemEvent::Tap { .. } => {
                    self.alerting = false;
                    self.alert_ticks = 0;
                    return Action::StopBuzz;
                },
                SystemEvent::MotionUpdated { .. } => {
                    let old_phase = self.alert_ticks / FLASH_PHASE_TICKS;
                    self.alert_ticks = if self.alert_ticks == 255 { 0 } else { self.alert_ticks + 1 };
                    let new_phase = self.alert_ticks / FLASH_PHASE_TICKS;
                    if new_phase != old_phase {
                        return Action::Redraw;
                    }
                    return Action::Nothing;
                },
                _ => {
                    return Action::Nothing;
                },
            }
        }
        if let SystemEvent::TimeUpdated { data: time } = event {
            if let TimerState::Running { target_secs, .. } = data.timer {
                let remaining = remaining_from_rtc(target_secs, time);
                if remaining == 0 {
                    data.timer = TimerState::Idle { duration_ms: 0 };
                } else {
                    data.timer = TimerState::Running { deadline_ms: now + remaining as u64 * 1000, target_secs };
                }
                return Action::Redraw;
            }
        }
        match self.view {
            TimerView::Main => self.main_event(event, data, now),
            TimerView::Numpad => self.numpad_event(event, data),
        }
    }

    fn main_event(&mut self, event: &SystemEvent, data: &mut SystemData, now: u64) -> (a: Action)
        requires
            old(self).wf(),
            now <= NOW_LIMIT_MS,
        ensures
            final(self).wf(),
            final(self).chrome == old(self).chrome,
            (final(self).spec_view(), *final(data), a) == spec_main_event(
                old(self).spec_view(),
                *old(data),
                *event,
                now,
                old(self).chrome,
            ),
    {
        match event {
            SystemEvent::MotionUpdated { .. } => {
                if data.timer.is_running() {
                    let sec = data.timer.remaining_at(now) / 1000;
                    if sec != self.last_rendered_sec {
                        self.last_rendered_sec = sec;
                        Action::Redraw
                    } else {
                        Action::Nothing
                    }
                } else {
                    Action::Nothing
                }
            },
            SystemEvent::Tap { x, y } => {
                if self.chrome.back_hit(*x, *y) {
                    return Action::Back;
                }
                if !data.timer.is_running() && rect_hit(self.readout_rect(), *x, *y) {
                    let raw = duration_to_raw(data.timer.remaining_at(now));
                    self.numpad.prefill(&raw);
                    self.view = TimerView::Numpad;
                    return Action::Redraw;
                }
                let (left, right) = self.chrome.bottom_tiles();
                if rect_hit(left, *x, *y) {
                    match data.timer {
                        TimerState::Idle { duration_ms } => {
                            if duration_ms > 0 {
                                let secs = (duration_ms / 1000) as u32;
                                start_countdown(secs, data, now);
                                Action::StartTimer { seconds: secs }
                            } else {
                                Action::Nothing
                            }
                        },
                        TimerState::Running { deadline_ms, .. } => {
                            let remaining = if now >= deadline_ms { 0 } else { deadline_ms - now };
                            data.timer = TimerState::Paused { remaining_ms: remaining };
                            Action::CancelTimer
                        },
                        TimerState::Paused { remaining_ms } => {
                            if remaining_ms > 0 {
                                let secs = (remaining_ms / 1000) as u32;
                                start_countdown(secs, data, now);
                                Action::StartTimer { seconds: secs }
                            } else {
                                Action::Nothing
                            }
                        },
                    }
                } else if rect_hit(right, *x, *y) {
                    if data.timer.remaining_at(now) / 1000 == 0 {
                        Action::Nothing
                    } else {
                        let was_running = data.timer.is_running();
                        data.timer = TimerState::Idle { duration_ms: 0 };
                        self.last_rendered_sec = 0;
                        if was_running {
                            Action::CancelTimer
                        } else {
                            Action::Redraw
                        }
                    }
                } else {
                    Action::Nothing
                }
            },
            _ => Action::Nothing,
        }
    }

    fn numpad_event(&mut self, event: &SystemEvent, data: &mut SystemData) -> (a: Action)
        requires
            old(self).wf(),
        ensures
            final(self).wf(),
            final(self).chrome == old(self).chrome,
            (final(self).spec_view(), *final(data), a) == spec_numpad_event(
                old(self).spec_view(),
                *old(data),
                *event,
                old(self).chrome,
            ),
    {
        match event {
            SystemEvent::MotionUpdated { .. } => {
                if self.flash_ticks > 0 {
                    let old_phase = self.flash_ticks / FLASH_PHASE_TICKS;
                    self.flash_ticks = self.flash_ticks - 1;
                    let new_phase = self.flash_ticks / FLASH_PHASE_TICKS;
                    if new_phase != old_phase {
                        Action::Redraw
                    } else {
                        Action::Nothing
                    }
                } else {
                    Action::Nothing
                }
            },
            SystemEvent::Tap { x, y } => {
                if self.chrome.back_hit(*x, *y) {
                    self.flash_ticks = 0;
                    self.view = TimerView::Main;
                    return Action::Redraw;
                }
                match self.numpad.hit_test(*x, *y) {
                    Some(NumpadAction::Confirm) => {
                        let dur = digits_to_duration(self.numpad.digit_slice());
                        if dur / 1000 > MAX_TIMER_SECS {
                            let capped = MAX_TIMER_SECS * 1000;
                            data.timer = TimerState::Idle { duration_ms: capped };
                            let raw = duration_to_raw(capped);
                            self.numpad.prefill(&raw);
                            self.flash_ticks = FLASH_TOTAL_TICKS;
                            return Action::Redraw;
                        }
                        data.timer = TimerState::Idle { duration_ms: dur };
                        self.view = TimerView::Main;
                        Action::Redraw
                    },
                    Some(other) => {
                        if self.numpad.apply(other) {
                            Action::Redraw
                        } else {
                            Action::Nothing
                        }
                    },
                    None => Action::Nothing,
                }
            },
            _ => Action::Nothing,
        }
    }

    fn readout_rect(&self) -> (r: Rect)
        requires
            self.chrome.wf(),
        ensures
            r == spec_readout_rect(self.chrome),
    {
        let bottom_tile_y = crate::layout::SCREEN_H - self.chrome.bottom_safe_margin - 38;
        let top = self.chrome.content_top + (bottom_tile_y - READOUT_BUTTON_GAP - self.chrome.content_top - READOUT_H)
            / 2;
        Rect { x: VSTACK_SIDE_MARGIN, y: top, width: 354, height: 130 }
    }
}

/// Text of a duration as `HH:MM:SS` (whole seconds; hours capped at 99).
pub open spec fn spec_format_duration(ms: u64) -> Seq<u8> {
    let secs = ms / 1000;
    let h = if secs / 3600 < 99 { secs / 3600 } else { 99 };
    spec_pad2(h as int) + seq![58u8] + spec_pad2(((secs / 60) % 60) as int) + seq![58u8] + spec_pad2(
        (secs % 60) as int,
    )
}

/// The readout text of a duration of `ms` milliseconds: `HH:MM:SS`, the
/// hours capped at 99.
pub fn format_duration(ms: u64) -> (t: Vec<u8>)
    ensures
        t@ == spec_format_duration(ms),
{
    let secs = ms / 1000;
    let h = if secs / 3600 < 99 { secs / 3600 } else { 99 };
    let mut t: Vec<u8> = Vec::new();
    push_pad2(&mut t, h);
    t.push(58u8);
    push_pad2(&mut t, (secs / 60) % 60);
    t.push(58u8);
    push_pad2(&mut t, secs % 60);
    proof {
        assert(t@ =~= spec_format_duration(ms));
    }
    t
}

/// Label of the run button: PAUSE while counting down, RESUME when paused
/// with time left, START otherwise.
pub open spec fn spec_run_label(timer: TimerState) -> Seq<char> {
    match timer {
        TimerState::Running { .. } => "PAUSE"@,
        TimerState::Paused { remaining_ms } => if remaining_ms > 0 { "RESUME"@ } else { "START"@ },
        _ => "START"@,
    }
}

/// The run button's label for the timer state.
pub fn run_label(timer: &TimerState) -> (l: &'static str)
    ensures
        l@ == spec_run_label(*timer),
{
    match timer {
        TimerState::Running { .. } => "PAUSE",
        TimerState::Paused { remaining_ms } => if *remaining_ms > 0 { "RESUME" } else { "START" },
        _ => "START",
    }
}

impl TimerScreen {
    /// Whether [`Self::on_event_at`] is defined for `event`: a clock
    /// update while counting down comes from a time of day the countdown
    /// can wrap from.
    pub fn accepts(&self, event: &SystemEvent, data: &SystemData) -> (r: bool)
        ensures
            r == spec_timer_event_ok(self.spec_view(), *data, *event),
    {
        match (event, data.timer) {
            (SystemEvent::TimeUpdated { data: t }, TimerState::Running { target_secs, .. }) => {
                if self.alerting {
                    true
                } else {
                    let secs = t.hour as u64 * 3600 + t.minute as u64 * 60 + t.second as u64;
                    !((target_secs as u64) < secs) || secs <= DAY_SECS
                }
            },
            _ => true,
        }
    }

    /// Colour phase of the expired readout: accent and danger alternate
    /// every [`FLASH_PHASE_TICKS`] motion updates.
    pub fn alert_color(&self) -> (t: FlashTone)
        ensures
            t == (if (self.spec_view().alert_ticks / FLASH_PHASE_TICKS) % 2 == 0 {
                FlashTone::Accent
            } else {
                FlashTone::Danger
            }),
    {
        let phase = self.alert_ticks / FLASH_PHASE_TICKS;
        if phase % 2 == 0 { FlashTone::Accent } else { FlashTone::Danger }
    }

    /// Colour of the keypad's time label: accent, except during the
    /// clamp warning, which starts on danger and alternates every
    /// [`FLASH_PHASE_TICKS`] motion updates.
    pub fn time_label_color(&self) -> (t: FlashTone)
        requires
            self.wf(),
        ensures
            t == (if self.spec_view().flash_ticks == 0 {
                FlashTone::Accent
            } else if ((FLASH_TOTAL_TICKS - self.spec_view().flash_ticks) / FLASH_PHASE_TICKS as int) % 2 == 0 {
                FlashTone::Danger
            } else {
                FlashTone::Accent
            }),
    {
        if self.flash_ticks == 0 {
            return FlashTone::Accent;
        }
        let phase = (FLASH_TOTAL_TICKS - self.flash_ticks) / FLASH_PHASE_TICKS;
        if phase % 2 == 0 { FlashTone::Danger } else { FlashTone::Accent }
    }
}

/// A duration entered, capped and shown again is within the hardware
/// limit: confirming the capped entry sets exactly the maximum.
pub proof fn lemma_cap_round_trip()
    ensures
        spec_digits_to_ms(spec_prefilled(spec_duration_to_raw((MAX_TIMER_SECS * 1000) as u64), DURATION_DIGITS as int))
            == MAX_TIMER_SECS * 1000,
{
    let raw = spec_duration_to_raw((MAX_TIMER_SECS * 1000) as u64);
    assert(raw =~= seq![0u8, 4u8, 1u8, 5u8, 0u8, 0u8]);
    reveal_with_fuel(crate::numpad::spec_first_nonzero, 3);
    assert(crate::numpad::spec_first_nonzero(raw) == 1) by {
        assert(raw.drop_first() =~= seq![4u8, 1u8, 5u8, 0u8, 0u8]);
    }
    let p = spec_prefilled(raw, 6);
    assert(p =~= seq![4u8, 1u8, 5u8, 0u8, 0u8]);
}

/// RESET (the right tile of the main view, outside the back zone; and
/// outside the readout while the timer is not running, where a tap opens
/// the keypad) clears any timer with a whole second or more left, running,
/// paused or set, to an idle zero duration and leaves the rest of the data
/// alone: a running countdown is also cancelled on the RTC, otherwise the
/// screen is redrawn. With less than a second left the tap does nothing.
pub proof fn lemma_reset_clears_timer(s: TimerScreenView, d: SystemData, x: u16, y: u16, now: u64, c: AppChrome)
    requires
        !s.alerting,
        s.view == TimerView::Main,
        c.spec_bottom_right().spec_contains(x as int, y as int),
        !c.back_zone.spec_contains(x as int, y as int),
        d.timer is Running || !spec_readout_rect(c).spec_contains(x as int, y as int),
    ensures
        ({
            let (s1, d1, a) = spec_timer_event(s, d, SystemEvent::Tap { x, y }, now, c);
            if d.timer.spec_remaining_at(now) >= 1000 {
                &&& d1 == (SystemData { timer: TimerState::Idle { duration_ms: 0 }, ..d })
                &&& a == (if d.timer is Running { Action::CancelTimer } else { Action::Redraw })
            } else {
                &&& d1 == d
                &&& s1 == s
                &&& a == Action::Nothing
            }
        }),
{
    assert(!c.spec_bottom_left().spec_contains(x as int, y as int));
}

/// The run button (the left tile of the main view, outside the back
/// zone, and outside the readout while not running): a set duration of
/// `n` ms starts a countdown of `n / 1000` whole seconds (as a 32-bit
/// count), requested from
/// the RTC; a running countdown pauses with what is left and is cancelled
/// on the RTC; a paused one resumes with its whole seconds left. An empty
/// duration or an exhausted pause does nothing. The rest of the data is
/// left alone.
pub proof fn lemma_run_button(s: TimerScreenView, d: SystemData, x: u16, y: u16, now: u64, c: AppChrome)
    requires
        !s.alerting,
        s.view == TimerView::Main,
        now <= NOW_LIMIT_MS,
        c.spec_bottom_left().spec_contains(x as int, y as int),
        !c.back_zone.spec_contains(x as int, y as int),
        d.timer is Running || !spec_readout_rect(c).spec_contains(x as int, y as int),
    ensures
        ({
            let (s1, d1, a) = spec_timer_event(s, d, SystemEvent::Tap { x, y }, now, c);
            let started = |ms: int| {
                &&& d1.timer is Running
                &&& d1.timer.spec_remaining_at(now) == ((ms / 1000) as u32) * 1000
                &&& a == Action::StartTimer { seconds: (ms / 1000) as u32 }
                &&& d1 == (SystemData { timer: d1.timer, ..d })
            };
            match d.timer {
                TimerState::Idle { duration_ms } => if duration_ms > 0 {
                    started(duration_ms as int)
                } else {
                    d1 == d && a == Action::Nothing
                },
                TimerState::Running { .. } => {
                    &&& d1 == (SystemData {
                        timer: TimerState::Paused { remaining_ms: d.timer.spec_remaining_at(now) as u64 },
                        ..d
                    })
                    &&& a == Action::CancelTimer
                },
                TimerState::Paused { remaining_ms } => if remaining_ms > 0 {
                    started(remaining_ms as int)
                } else {
                    d1 == d && a == Action::Nothing
                },
            }
        }),
{
    assert(!c.spec_bottom_right().spec_contains(x as int, y as int));
}

} // verus!
