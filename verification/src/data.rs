//! Snapshot data types produced by peripheral tasks and consumed by the UI.

use vstd::prelude::*;

use crate::pmu::{ChargeVoltage, ChargerPhase, CurrentDirection, InputCurrentLimit};
use crate::rtc::DateTime;

verus! {

/// Calendar time of day.
#[derive(Debug, Clone, Copy)]
pub struct TimeData {
    pub hour: u8,
    pub minute: u8,
    pub second: u8,
    pub year: u16,
    pub month: u8,
    pub day: u8,
}

impl Default for TimeData {
    /// Midnight on 2026-01-01, so screens have something to show before
    /// the first RTC read.
    fn default() -> (t: Self)
        ensures
            t.hour == 0 && t.minute == 0 && t.second == 0,
            t.year == 2026 && t.month == 1 && t.day == 1,
    {
        TimeData { hour: 0, minute: 0, second: 0, year: 2026, month: 1, day: 1 }
    }
}

impl TimeData {
    /// The calendar fields of an RTC reading (the weekday is dropped).
    pub fn from_datetime(dt: &DateTime) -> (t: Self)
        ensures
            t.hour == dt.hour,
            t.minute == dt.minute,
            t.second == dt.second,
            t.year == dt.year,
            t.month == dt.month,
            t.day == dt.day,
    {
        TimeData {
            hour: dt.hour,
            minute: dt.minute,
            second: dt.second,
            year: dt.year,
            month: dt.month,
            day: dt.day,
        }
    }
}

/// Flat snapshot of everything the UI wants from the PMU.
#[derive(Debug, Clone, Copy)]
pub struct PowerData {
    pub battery_percent: Option<u8>,
    pub battery_voltage_mv: Option<u16>,
    /// VBUS is present and above the VBUS good threshold.
    pub vbus_good: bool,
    /// BATFET is on.
    pub batfet_active: bool,
    /// Battery is detected by the charger.
    pub battery_present: bool,
    /// Battery is in active (non-sleep) mode.
    pub battery_active: bool,
    /// Die is in thermal regulation.
    pub thermal_active: bool,
    /// Input current limit regulation is active.
    pub current_limit_active: bool,
    pub current_direction: CurrentDirection,
    pub charger_phase: ChargerPhase,
    pub system_on: bool,
    pub vindpm_active: bool,
    pub vbus_voltage_mv: Option<u16>,
    pub system_voltage_mv: Option<u16>,
    pub die_temperature_raw: Option<u16>,
    pub charge_current_ma: Option<u16>,
    pub charge_voltage: Option<ChargeVoltage>,
    pub input_current_limit: Option<InputCurrentLimit>,
    pub input_voltage_limit_mv: Option<u16>,
}

impl Default for PowerData {
    /// Nothing read yet: every reading absent, every flag inactive.
    fn default() -> (p: Self)
        ensures
            p.battery_percent is None,
            p.battery_voltage_mv is None,
            !p.vbus_good && !p.batfet_active && !p.battery_present,
            !p.battery_active && !p.thermal_active && !p.current_limit_active,
            p.current_direction == CurrentDirection::Standby,
            p.charger_phase == ChargerPhase::NotCharging,
            !p.system_on && !p.vindpm_active,
            p.vbus_voltage_mv is None,
            p.system_voltage_mv is None,
            p.die_temperature_raw is None,
            p.charge_current_ma is None,
            p.charge_voltage is None,
            p.input_current_limit is None,
            p.input_voltage_limit_mv is None,
    {
        PowerData {
            battery_percent: None,
            battery_voltage_mv: None,
            vbus_good: false,
            batfet_active: false,
            battery_present: false,
            battery_active: false,
            thermal_active: false,
            current_limit_active: false,
            current_direction: CurrentDirection::Standby,
            charger_phase: ChargerPhase::NotCharging,
            system_on: false,
            vindpm_active: false,
            vbus_voltage_mv: None,
            system_voltage_mv: None,
            die_temperature_raw: None,
            charge_current_ma: None,
            charge_voltage: None,
            input_current_limit: None,
            input_voltage_limit_mv: None,
        }
    }
}

/// Snapshot of raw IMU axes and die temperature.
#[derive(Debug, Clone, Copy)]
pub struct MotionData {
    pub accel_x: i16,
    pub accel_y: i16,
    pub accel_z: i16,
    pub gyro_x: i16,
    pub gyro_y: i16,
    pub gyro_z: i16,
    pub temp_raw: i16,
}

impl Default for MotionData {
    fn default() -> (m: Self)
        ensures
            m.accel_x == 0 && m.accel_y == 0 && m.accel_z == 0,
            m.gyro_x == 0 && m.gyro_y == 0 && m.gyro_z == 0,
            m.temp_raw == 0,
    {
        MotionData { accel_x: 0, accel_y: 0, accel_z: 0, gyro_x: 0, gyro_y: 0, gyro_z: 0, temp_raw: 0 }
    }
}

/// Current touch point; both fields are `None` when no finger is down.
#[derive(Debug, Clone, Copy)]
pub struct TouchData {
    pub x: Option<u16>,
    pub y: Option<u16>,
}

impl Default for TouchData {
    fn default() -> (t: Self)
        ensures
            t.x is None && t.y is None,
    {
        TouchData { x: None, y: None }
    }
}

/// Summary of the flash-backed config store.
#[derive(Debug, Clone, Copy, PartialEq, Eq, Structural)]
pub struct NvsUsage {
    pub records: u32,
    pub total_bytes: u32,
}

impl Default for NvsUsage {
    fn default() -> (u: Self)
        ensures
            u.records == 0 && u.total_bytes == 0,
    {
        NvsUsage { records: 0, total_bytes: 0 }
    }
}

} // verus!
