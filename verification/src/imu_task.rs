//! The decisions of the IMU task. Awake, the task publishes a motion
//! snapshot on every poll and runs self-test commands; sleeping, it keeps
//! the accelerometer in wake-on-motion mode, polls the latched WoM bit and
//! reports a wake. The task loop waits for the next event, hands it to
//! [`imu_step`] and performs the step that comes back.

use vstd::prelude::*;

use crate::commands::{ImuCommand, SleepState};
use crate::data::MotionData;
use crate::imu::ImuData;

verus! {

/// Poll cadence while awake (20 Hz snapshots).
pub const AWAKE_POLL_MS: u64 = 50;

/// Poll cadence of the wake-on-motion latch while sleeping (2 Hz).
pub const WOM_POLL_MS: u64 = 500;

/// What wakes the IMU task.
#[derive(Debug, Clone, Copy, PartialEq, Eq, Structural)]
pub enum ImuEvent {
    /// The poll timer of the current mode ran out.
    PollDue,
    /// The main loop broadcast a sleep state.
    SleepChanged(SleepState),
    /// A command arrived from the main loop.
    Command(ImuCommand),
    /// A read of STATUS1 found the wake-on-motion bit set.
    WomFired,
}

/// What the IMU task does in answer to an event.
#[derive(Debug, Clone, Copy, PartialEq, Eq, Structural)]
pub enum ImuStep {
    /// Read one sample and publish it as a motion update.
    Snapshot,
    /// Read STATUS1 for the latched wake-on-motion bit.
    CheckWom,
    /// Switch the chip to accelerometer-only wake-on-motion mode.
    EnterWom,
    /// Leave wake-on-motion mode and restore the normal configuration.
    ExitWom,
    /// Carry out a command (announce it running, run it, report it).
    RunCommand(ImuCommand),
    /// The command is not taken while sleeping: it stays pending until
    /// the task is awake again.
    Hold(ImuCommand),
    /// Report a wake-on-motion event to the main loop.
    EmitWakeOnMotion,
    /// Nothing to do.
    Nothing,
}

/// The task's mode and step after `ev` arrives in `mode`.
pub open spec fn spec_imu_step(mode: SleepState, ev: ImuEvent) -> (SleepState, ImuStep) {
    match mode {
        SleepState::Awake => match ev {
            ImuEvent::PollDue => (SleepState::Awake, ImuStep::Snapshot),
            ImuEvent::SleepChanged(new) => (
                new,
                if new == SleepState::Sleeping { ImuStep::EnterWom } else { ImuStep::Nothing },
            ),
            ImuEvent::Command(c) => (SleepState::Awake, ImuStep::RunCommand(c)),
            ImuEvent::WomFired => (SleepState::Awake, ImuStep::Nothing),
        },
        SleepState::Sleeping => match ev {
            ImuEvent::PollDue => (SleepState::Sleeping, ImuStep::CheckWom),
            ImuEvent::SleepChanged(new) => (
                new,
                if new == SleepState::Awake { ImuStep::ExitWom } else { ImuStep::Nothing },
            ),
            ImuEvent::Command(c) => (SleepState::Sleeping, ImuStep::Hold(c)),
            ImuEvent::WomFired => (SleepState::Sleeping, ImuStep::EmitWakeOnMotion),
        },
    }
}

/// One decision of the IMU task: the mode it is in next and what it does.
/// A sleep broadcast sets the mode; wake-on-motion is armed exactly on the
/// change from awake to sleeping and left exactly on the change back;
/// snapshots and commands run only while awake, wake reports only while
/// sleeping.
pub fn imu_step(mode: SleepState, ev: ImuEvent) -> (r: (SleepState, ImuStep))
    ensures
        r == spec_imu_step(mode, ev),
        r.0 == (match ev {
            ImuEvent::SleepChanged(new) => new,
            _ => mode,
        }),
        (r.1 == ImuStep::EnterWom) <==> (mode == SleepState::Awake && ev == ImuEvent::SleepChanged(SleepState::Sleeping)),
        (r.1 == ImuStep::ExitWom) <==> (mode == SleepState::Sleeping && ev == ImuEvent::SleepChanged(SleepState::Awake)),
        (r.1 is Snapshot || r.1 is RunCommand) ==> mode == SleepState::Awake,
        (r.1 is EmitWakeOnMotion || r.1 is CheckWom || r.1 is Hold) ==> mode == SleepState::Sleeping,
{
    match mode {
        SleepState::Awake => match ev {
            ImuEvent::PollDue => (SleepState::Awake, ImuStep::Snapshot),
            ImuEvent::SleepChanged(new) => match new {
                SleepState::Sleeping => (new, ImuStep::EnterWom),
                SleepState::Awake => (new, ImuStep::Nothing),
            },
            ImuEvent::Command(c) => (SleepState::Awake, ImuStep::RunCommand(c)),
            ImuEvent::WomFired => (SleepState::Awake, ImuStep::Nothing),
        },
        SleepState::Sleeping => match ev {
            ImuEvent::PollDue => (SleepState::Sleeping, ImuStep::CheckWom),
            ImuEvent::SleepChanged(new) => match new {
                SleepState::Awake => (new, ImuStep::ExitWom),
                SleepState::Sleeping => (new, ImuStep::Nothing),
            },
            ImuEvent::Command(c) => (SleepState::Sleeping, ImuStep::Hold(c)),
            ImuEvent::WomFired => (SleepState::Sleeping, ImuStep::EmitWakeOnMotion),
        },
    }
}

/// How long the task waits for its poll timer in `mode`.
pub fn poll_interval_ms(mode: SleepState) -> (ms: u64)
    ensures
        ms == (if mode == SleepState::Awake { AWAKE_POLL_MS } else { WOM_POLL_MS }),
{
    match mode {
        SleepState::Awake => AWAKE_POLL_MS,
        SleepState::Sleeping => WOM_POLL_MS,
    }
}

/// The motion snapshot of a sample read: its axes and temperature, or all
/// zeros when the read failed.
pub fn motion_snapshot(read: Option<ImuData>) -> (m: MotionData)
    ensures
        match read {
            Some(d) => m.accel_x == d.accel_x && m.accel_y == d.accel_y && m.accel_z == d.accel_z
                && m.gyro_x == d.gyro_x && m.gyro_y == d.gyro_y && m.gyro_z == d.gyro_z
                && m.temp_raw == d.temp_raw,
            None => m.accel_x == 0 && m.accel_y == 0 && m.accel_z == 0
                && m.gyro_x == 0 && m.gyro_y == 0 && m.gyro_z == 0 && m.temp_raw == 0,
        },
{
    match read {
        Some(d) => MotionData {
            accel_x: d.accel_x,
            accel_y: d.accel_y,
            accel_z: d.accel_z,
            gyro_x: d.gyro_x,
            gyro_y: d.gyro_y,
            gyro_z: d.gyro_z,
            temp_raw: d.temp_raw,
        },
        None => MotionData::default(),
    }
}

} // verus!
