//! System-level events produced by polling subsystems, plus the
//! classifiers the main loop uses to route them.

use vstd::prelude::*;

use crate::data::{MotionData, NvsUsage, PowerData, TimeData};
use crate::pmu::{ChargerPhase, CurrentDirection};

verus! {

/// All system-level events produced by polling subsystems.
#[derive(Debug, Clone, Copy)]
#[allow(inconsistent_fields)]
pub enum SystemEvent {
    /// BOOT button pressed (falling edge).
    BootButtonPressed,
    /// Power button short press.
    PowerButtonShort,
    /// Power button long press.
    PowerButtonLong,
    /// Touch screen pressed (or dragged) at coordinates.
    TouchPressed { x: u16, y: u16 },
    /// Touch screen released.
    TouchReleased,
    /// Tap gesture: press and release with minimal movement.
    Tap { x: u16, y: u16 },
    /// Swipe gesture completed on release.
    Swipe { dir: SwipeDir, region: SwipeRegion },
    /// Half-minute clock tick.
    HalfMinuteChanged,
    /// RTC alarm fired.
    AlarmFired,
    /// RTC countdown timer expired.
    TimerExpired,
    /// Battery state-of-charge changed.
    BatteryChanged { percent: u8 },
    /// VBUS (USB power) was just plugged in.
    VbusInserted,
    /// VBUS (USB power) was just removed.
    VbusRemoved,
    /// Charger phase changed.
    ChargerPhaseChanged { phase: ChargerPhase },
    /// Battery current direction changed.
    CurrentDirectionChanged { direction: CurrentDirection },
    /// IMU Wake-on-Motion fired while the system was sleeping.
    WakeOnMotion,
    /// Fresh IMU snapshot.
    MotionUpdated { data: MotionData },
    /// Fresh RTC snapshot.
    TimeUpdated { data: TimeData },
    /// Fresh PMU snapshot.
    PowerUpdated { data: PowerData },
    /// A self-test's state changed.
    SelfTestUpdated { id: SelfTestId, result: SelfTestResult },
    /// Fresh flash-storage usage snapshot.
    StorageUsageUpdated { usage: NvsUsage },
}

/// Identifier for one hardware self-test; also the index into the
/// per-test result array.
#[derive(Debug, Clone, Copy, PartialEq, Eq, Structural)]
pub enum SelfTestId {
    /// Accelerometer electrostatic self-test.
    ImuAccel,
    /// Gyroscope electrostatic self-test.
    ImuGyro,
}

/// Number of self-test slots, one per [`SelfTestId`] variant.
pub const NUM_SELF_TESTS: usize = 2;

impl SelfTestId {
    /// Slot index of this test (`ImuAccel` = 0, `ImuGyro` = 1).
    pub open spec fn spec_index(self) -> int {
        match self {
            SelfTestId::ImuAccel => 0,
            SelfTestId::ImuGyro => 1,
        }
    }

    /// Slot index of this test in the per-test result array.
    pub fn index(self) -> (i: usize)
        ensures
            i == self.spec_index(),
            i < NUM_SELF_TESTS,
    {
        match self {
            SelfTestId::ImuAccel => 0,
            SelfTestId::ImuGyro => 1,
        }
    }
}

/// Current state / last result of a hardware self-test.
#[derive(Debug, Clone, Copy, PartialEq, Eq)]
pub enum SelfTestResult {
    /// Test has never been attempted this session.
    NotRun,
    /// Test is currently in progress.
    Running,
    /// Test passed, carrying a 3-axis result vector.
    PassAxes3([i32; 3]),
    /// Test failed, same 3-axis result shape as Pass.
    FailAxes3([i32; 3]),
    /// Test could not be completed.
    Error(SelfTestError),
}

impl Default for SelfTestResult {
    fn default() -> (r: Self)
        ensures
            r == SelfTestResult::NotRun,
    {
        SelfTestResult::NotRun
    }
}

/// Failure modes for a self-test that couldn't complete.
#[derive(Debug, Clone, Copy, PartialEq, Eq, Structural)]
pub enum SelfTestError {
    /// Test did not signal completion within the retry budget.
    Timeout,
    /// An I2C transaction failed during the test.
    I2cFailure,
}

/// Direction of a swipe gesture.
#[derive(Debug, Clone, Copy, PartialEq, Eq, Structural)]
pub enum SwipeDir {
    Left,
    Right,
    Up,
    Down,
}

/// Screen region where a swipe gesture started.
#[derive(Debug, Clone, Copy, PartialEq, Eq, Structural)]
pub enum SwipeRegion {
    Top,
    Bottom,
    Left,
    Right,
    Content,
}

/// Events produced by direct human interaction (touch, buttons).
pub open spec fn spec_is_user_activity(event: SystemEvent) -> bool {
    ||| event is TouchPressed
    ||| event is TouchReleased
    ||| event is Tap
    ||| event is Swipe
    ||| event is BootButtonPressed
    ||| event is PowerButtonShort
}

/// Non-user wake sources: motion, alarm and countdown expiry.
pub open spec fn spec_is_wake_source(event: SystemEvent) -> bool {
    ||| event is WakeOnMotion
    ||| event is AlarmFired
    ||| event is TimerExpired
}

/// Returns `true` if the event should count as user activity: it resets
/// the idle timer and, if the system is sleeping, wakes it.
pub fn is_user_activity(event: &SystemEvent) -> (r: bool)
    ensures
        r == spec_is_user_activity(*event),
{
    match event {
        SystemEvent::TouchPressed { .. } => true,
        SystemEvent::TouchReleased => true,
        SystemEvent::Tap { .. } => true,
        SystemEvent::Swipe { .. } => true,
        SystemEvent::BootButtonPressed => true,
        SystemEvent::PowerButtonShort => true,
        _ => false,
    }
}

/// Returns `true` if the event is a non-user wake source.
pub fn is_wake_source(event: &SystemEvent) -> (r: bool)
    ensures
        r == spec_is_wake_source(*event),
{
    match event {
        SystemEvent::WakeOnMotion => true,
        SystemEvent::AlarmFired => true,
        SystemEvent::TimerExpired => true,
        _ => false,
    }
}

/// One loggable event: a short static tag plus an optional integer
/// detail.
#[derive(Debug, Clone, Copy, PartialEq, Eq)]
pub struct LoggedEvent {
    pub tag: &'static str,
    pub detail: Option<u32>,
}

/// The log tag of an event, or `None` if the event is not logged.
pub open spec fn spec_log_tag(event: SystemEvent) -> Option<Seq<char>> {
    match event {
        SystemEvent::AlarmFired => Some("alarm"@),
        SystemEvent::TimerExpired => Some("timer_expired"@),
        SystemEvent::VbusInserted => Some("vbus_in"@),
        SystemEvent::VbusRemoved => Some("vbus_out"@),
        SystemEvent::PowerButtonLong => Some("shutdown_req"@),
        SystemEvent::BatteryChanged { .. } => Some("battery"@),
        _ => None,
    }
}

/// Classify an event for the event log, or return `None` if the event
/// is too chatty or too low-signal to record. Only a battery change
/// carries a detail: the new percentage.
pub fn classify_for_log(event: &SystemEvent) -> (r: Option<LoggedEvent>)
    ensures
        r is Some <==> spec_log_tag(*event) is Some,
        r matches Some(l) ==> l.tag@ == spec_log_tag(*event).unwrap(),
        r matches Some(l) ==> l.detail == (match *event {
            SystemEvent::BatteryChanged { percent } => Some(percent as u32),
            _ => None,
        }),
{
    match event {
        SystemEvent::AlarmFired => Some(LoggedEvent { tag: "alarm", detail: None }),
        SystemEvent::TimerExpired => Some(LoggedEvent { tag: "timer_expired", detail: None }),
        SystemEvent::VbusInserted => Some(LoggedEvent { tag: "vbus_in", detail: None }),
        SystemEvent::VbusRemoved => Some(LoggedEvent { tag: "vbus_out", detail: None }),
        SystemEvent::PowerButtonLong => Some(LoggedEvent { tag: "shutdown_req", detail: None }),
        SystemEvent::BatteryChanged { percent } => {
            Some(LoggedEvent { tag: "battery", detail: Some(*percent as u32) })
        },
        _ => None,
    }
}

/// No event is both direct user activity and a non-user wake source:
/// a wake-on-motion, alarm or timer never resets the idle timer as a
/// touch would.
pub proof fn lemma_activity_and_wake_are_disjoint(event: SystemEvent)
    ensures
        !(spec_is_user_activity(event) && spec_is_wake_source(event)),
{
}

/// Nothing a user does directly by touch or button press other than the
/// long power press is written to the event log.
pub proof fn lemma_logged_events_are_not_user_activity(event: SystemEvent)
    ensures
        spec_log_tag(event) is Some ==> !spec_is_user_activity(event),
{
}

} // verus!
