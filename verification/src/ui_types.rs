//! Core UI types: display power state, screen ids, the actions screens
//! return, the persistent stopwatch/timer state and the system snapshot
//! screens read.

use vstd::prelude::*;

use crate::alarm::AlarmState;
use crate::config::Config;
use crate::data::{MotionData, NvsUsage, PowerData, TimeData, TouchData};
use crate::events::{SelfTestId, SelfTestResult, NUM_SELF_TESTS};

verus! {

/// Display power-management state.
#[derive(Debug, Clone, Copy, PartialEq, Eq, Structural)]
pub enum DisplayState {
    /// Normal running state at full brightness.
    Active,
    /// Brightness dropped, rendering continues.
    Dim,
    /// Panel blanked, render path skipped.
    Off,
}

/// Identifies which screen to switch to.
#[derive(Debug, Clone, Copy, PartialEq, Eq, Structural)]
pub enum ScreenId {
    Clock,
    Status,
    Stopwatch,
    Timer,
    Alarm,
    Settings,
    /// Pull-down Quick Access overlay (swipe down from the top edge).
    QuickAccess,
    /// Pull-up app drawer.
    AppDrawer,
}

/// What a screen wants the system to do after processing an event.
#[derive(Debug, Clone, Copy, PartialEq, Eq, Structural)]
#[allow(inconsistent_fields)]
pub enum Action {
    /// Nothing to do.
    Nothing,
    /// Screen content changed, request a display refresh.
    Redraw,
    /// Switch to a specific target screen.
    SwitchScreen(ScreenId),
    /// Pop the navigation stack and return to the previous screen.
    Back,
    /// Request system shutdown.
    Shutdown,
    /// Run a hardware self-test.
    RunSelfTest(SelfTestId),
    /// Start the RTC hardware countdown timer.
    StartTimer { seconds: u32 },
    /// Cancel a running RTC countdown timer.
    CancelTimer,
    /// Set an RTC alarm, optionally restricted to one weekday.
    SetAlarm { hour: u8, minute: u8, weekday: Option<u8> },
    /// Cancel a set RTC alarm.
    CancelAlarm,
    /// Set the RTC date and time.
    SetTime { year: u16, month: u8, day: u8, hour: u8, minute: u8, second: u8 },
    /// Start a repeating haptic buzz pattern.
    StartBuzz { on_ms: u16, off_ms: u16 },
    /// Stop an active buzz pattern.
    StopBuzz,
    /// Snooze the active alarm.
    SnoozeAlarm,
    /// Dismiss the active alarm.
    DismissAlarm,
    /// Wipe user-visible persistent data back to defaults.
    FactoryReset,
    /// (Re-)probe the SD card.
    InitSd,
    /// Restore the in-flash config from the SD mirror.
    RestoreFromSd,
    /// Persist the current alarm list; also requests a redraw.
    PersistAlarms,
    /// Persist the current config; also requests a redraw.
    PersistConfig,
    /// Set the display brightness to `percent`.
    SetBrightness { percent: u8 },
    /// Flip night mode.
    ToggleNightMode,
}

/// Stopwatch run state, persisted across screen switches. Times are
/// milliseconds since boot.
#[derive(Debug, Clone, Copy)]
pub enum StopwatchState {
    Idle,
    Running { start_ms: u64, accumulated_ms: u64 },
    Paused { accumulated_ms: u64 },
}

impl Default for StopwatchState {
    fn default() -> (s: Self)
        ensures
            s is Idle,
    {
        StopwatchState::Idle
    }
}

/// Milliseconds since boot: `embassy_time::Instant::now()` taken as
/// `as_millis()`. Nothing is stated of the reading: it depends on when
/// the call is made, so two calls may return different values.
#[verifier::external_body]
pub(crate) fn now_ms() -> (t: u64)
{
    embassy_time::Instant::now().as_millis()
}

impl StopwatchState {
    /// Total elapsed time at `now_ms`: a running stopwatch adds the time
    /// since it started.
    pub open spec fn spec_elapsed_at(self, now_ms: u64) -> int {
        match self {
            StopwatchState::Idle => 0,
            StopwatchState::Running { start_ms, accumulated_ms } => accumulated_ms + (now_ms - start_ms),
            StopwatchState::Paused { accumulated_ms } => accumulated_ms as int,
        }
    }

    /// Whether the elapsed time at `now_ms` is representable: a running
    /// stopwatch needs the clock at or after its start and the total to
    /// fit in 64 bits.
    pub open spec fn spec_elapsed_ok(self, now_ms: u64) -> bool {
        self matches StopwatchState::Running { start_ms, accumulated_ms }
            ==> start_ms <= now_ms && accumulated_ms + (now_ms - start_ms) <= u64::MAX
    }

    /// Total elapsed time at `now_ms` regardless of state: a running
    /// stopwatch adds the time since it started.
    pub fn elapsed_at(&self, now_ms: u64) -> (e: u64)
        requires
            self.spec_elapsed_ok(now_ms),
        ensures
            e == self.spec_elapsed_at(now_ms),
    {
        match self {
            StopwatchState::Idle => 0,
            StopwatchState::Running { start_ms, accumulated_ms } => *accumulated_ms + (now_ms - *start_ms),
            StopwatchState::Paused { accumulated_ms } => *accumulated_ms,
        }
    }

    /// Total elapsed time now, read from the system clock. `None` when
    /// the clock reads earlier than a running stopwatch's start or the
    /// total would not fit in 64 bits; otherwise the elapsed time at the
    /// instant read.
    pub fn elapsed(&self) -> (e: Option<u64>)
        ensures
            !(self is Running) ==> e == Some(self.spec_elapsed_at(0) as u64),
            e matches Some(v) ==> exists|now: u64| self.spec_elapsed_ok(now) && v == self.spec_elapsed_at(now),
            e is None ==> exists|now: u64| !self.spec_elapsed_ok(now),
    {
        let now = now_ms();
        match self {
            StopwatchState::Running { start_ms, accumulated_ms } => {
                if now < *start_ms || now - *start_ms > u64::MAX - *accumulated_ms {
                    assert(!self.spec_elapsed_ok(now));
                    return None;
                }
            },
            _ => {},
        }
        let v = self.elapsed_at(now);
        assert(self.spec_elapsed_ok(now) && v == self.spec_elapsed_at(now));
        Some(v)
    }

    /// True if the stopwatch is actively counting.
    pub fn is_running(&self) -> (r: bool)
        ensures
            r == (self is Running),
    {
        match self {
            StopwatchState::Running { .. } => true,
            _ => false,
        }
    }
}

/// Timer run state, persisted across screen switches. Times are
/// milliseconds; the deadline is milliseconds since boot.
#[derive(Debug, Clone, Copy)]
pub enum TimerState {
    /// Idle with a set duration (may be zero).
    Idle { duration_ms: u64 },
    /// Counting down toward a deadline; `target_secs` is the absolute
    /// target in seconds since midnight.
    Running { deadline_ms: u64, target_secs: u32 },
    /// Paused with time remaining.
    Paused { remaining_ms: u64 },
}

impl Default for TimerState {
    fn default() -> (s: Self)
        ensures
            s == (TimerState::Idle { duration_ms: 0 }),
    {
        TimerState::Idle { duration_ms: 0 }
    }
}

impl TimerState {
    /// Remaining time at `now_ms`, clamped to zero.
    pub open spec fn spec_remaining_at(self, now_ms: u64) -> int {
        match self {
            TimerState::Idle { duration_ms } => duration_ms as int,
            TimerState::Running { deadline_ms, .. } => {
                if now_ms >= deadline_ms { 0 } else { deadline_ms - now_ms }
            },
            TimerState::Paused { remaining_ms } => remaining_ms as int,
        }
    }

    /// Remaining time at `now_ms`, clamped to zero.
    pub fn remaining_at(&self, now_ms: u64) -> (r: u64)
        ensures
            r == self.spec_remaining_at(now_ms),
    {
        match self {
            TimerState::Idle { duration_ms } => *duration_ms,
            TimerState::Running { deadline_ms, .. } => {
                if now_ms >= *deadline_ms {
                    0
                } else {
                    *deadline_ms - now_ms
                }
            },
            TimerState::Paused { remaining_ms } => *remaining_ms,
        }
    }

    /// Remaining time now (read from the system clock), clamped to zero:
    /// the remaining time at the instant read.
    pub fn remaining(&self) -> (r: u64)
        ensures
            !(self is Running) ==> r == self.spec_remaining_at(0),
            exists|now: u64| r == self.spec_remaining_at(now),
    {
        let now = now_ms();
        let r = self.remaining_at(now);
        assert(r == self.spec_remaining_at(now));
        r
    }

    /// True if the timer is actively counting down.
    pub fn is_running(&self) -> (r: bool)
        ensures
            r == (self is Running),
    {
        match self {
            TimerState::Running { .. } => true,
            _ => false,
        }
    }
}

/// System state passed to screens on render and events.
#[derive(Debug, Clone, Copy)]
pub struct SystemData {
    pub time: TimeData,
    pub power: PowerData,
    pub motion: MotionData,
    pub touch: TouchData,
    /// Flash-storage occupancy.
    pub storage: NvsUsage,
    pub tick_count: u32,
    pub stopwatch: StopwatchState,
    pub timer: TimerState,
    pub alarms: AlarmState,
    /// Latest result per self-test, indexed by [`SelfTestId`].
    pub self_tests: [SelfTestResult; NUM_SELF_TESTS],
    /// Read-only snapshot of the runtime config.
    pub config: Config,
}

impl Default for SystemData {
    fn default() -> (d: Self)
        ensures
            d.tick_count == 0,
            d.alarms == AlarmState::spec_default(),
            d.timer == (TimerState::Idle { duration_ms: 0 }),
            d.stopwatch is Idle,
            d.touch.x is None && d.touch.y is None,
            d.time.hour == 0 && d.time.minute == 0 && d.time.second == 0,
            d.time.year == 2026 && d.time.month == 1 && d.time.day == 1,
            d.self_tests[0] == SelfTestResult::NotRun,
            d.self_tests[1] == SelfTestResult::NotRun,
            d.config.display.dim_timeout_s == 20,
            d.config.display.off_timeout_s == 30,
    {
        SystemData {
            time: TimeData::default(),
            power: PowerData::default(),
            motion: MotionData::default(),
            touch: TouchData::default(),
            storage: NvsUsage::default(),
            tick_count: 0,
            stopwatch: StopwatchState::default(),
            timer: TimerState::default(),
            alarms: AlarmState::default(),
            self_tests: [SelfTestResult::NotRun, SelfTestResult::NotRun],
            config: Config::default(),
        }
    }
}

} // verus!
