//! Command and broadcast payload types carried between the main loop
//! and the peripheral tasks.

use vstd::prelude::*;

use crate::events::SelfTestId;

verus! {

/// Broadcast so subscribers (IMU, touch and power tasks) can flip
/// between awake and low-power modes in step with the main loop.
#[derive(Debug, Clone, Copy, PartialEq, Eq, Structural)]
pub enum SleepState {
    /// System is awake - full sensor polling, display active.
    Awake,
    /// System is sleeping - peripherals switch to their lowest-power modes.
    Sleeping,
}

/// Main-loop -> audio task commands.
#[derive(Debug, Clone, Copy, PartialEq, Eq, Structural)]
pub enum AudioCommand {
    /// Start the repeating alarm / timer alert tone.
    PlayAlarm,
    /// Silence the alert tone.
    Stop,
}

/// Main-loop -> IMU task commands.
#[derive(Debug, Clone, Copy, PartialEq, Eq, Structural)]
pub enum ImuCommand {
    /// Run one specific hardware self-test.
    RunSelfTest(SelfTestId),
}

/// Main-loop -> RTC task commands.
#[derive(Debug, Clone, Copy, PartialEq, Eq, Structural)]
#[allow(inconsistent_fields)]
pub enum RtcCommand {
    /// Start the hardware countdown timer.
    StartTimer { seconds: u32 },
    /// Cancel a running hardware countdown timer.
    CancelTimer,
    /// Set an alarm at the given hour and minute, optionally restricted
    /// to one weekday (0=Sunday..6=Saturday); `None` fires every day.
    SetAlarm { hour: u8, minute: u8, weekday: Option<u8> },
    /// Cancel a set alarm.
    CancelAlarm,
    /// Set the RTC date and time.
    SetTime { year: u16, month: u8, day: u8, hour: u8, minute: u8, second: u8 },
    /// Change the time poll interval (in seconds).
    SetTimePollInterval { seconds: u8 },
    /// Check the RTC for a latched alarm / timer flag right now.
    Poll,
}

} // verus!
