//! AXP2101 power-management unit: register map, interrupt bit layout,
//! power-state types and the register arithmetic the driver performs.
//!
//! The I2C transactions themselves live with the caller; everything here
//! is the pure computation of what to write and how to read what came
//! back.

use vstd::prelude::*;
use vstd::arithmetic::power2::pow2;

verus! {

/// Default I2C address for the AXP2101.
pub const DEFAULT_ADDRESS: u8 = 0x34;

/// Chip ID register (REG 03h).
pub const CHIP_ID: u8 = 0x03;
/// Mask for bits 7:6 (chip_id_h), the stable part of the chip identity.
pub const CHIP_ID_MASK: u8 = 0b1100_0000;
/// Expected value of `raw & CHIP_ID_MASK` for any AXP2101.
pub const CHIP_ID_VALUE: u8 = 0b0100_0000;

/// IRQ enable registers (REG 40h-42h).
pub const REG_IRQ_EN0: u8 = 0x40;
pub const REG_IRQ_EN1: u8 = 0x41;
pub const REG_IRQ_EN2: u8 = 0x42;
/// IRQ status registers (REG 48h-4Ah), write 1 to clear.
pub const REG_IRQ_STATUS0: u8 = 0x48;
pub const REG_IRQ_STATUS1: u8 = 0x49;
pub const REG_IRQ_STATUS2: u8 = 0x4A;
/// LDO on/off control registers.
pub const REG_LDO_EN0: u8 = 0x90;
pub const REG_LDO_EN1: u8 = 0x91;
/// LDO voltage registers: bits 4:0 = (mV - 500) / 100.
pub const REG_ALDO1_VOLT: u8 = 0x92;
pub const REG_ALDO2_VOLT: u8 = 0x93;
pub const REG_ALDO3_VOLT: u8 = 0x94;
pub const REG_ALDO4_VOLT: u8 = 0x95;
pub const REG_BLDO1_VOLT: u8 = 0x96;
pub const REG_BLDO2_VOLT: u8 = 0x97;

/// LDO enable bits in REG 90h.
pub const LDO_EN_ALDO1: u8 = 0x01;
pub const LDO_EN_ALDO2: u8 = 0x02;
pub const LDO_EN_ALDO3: u8 = 0x04;
pub const LDO_EN_ALDO4: u8 = 0x08;
pub const LDO_EN_BLDO1: u8 = 0x10;
pub const LDO_EN_BLDO2: u8 = 0x20;

// ---- Charger status value types ---------------------------------------------

/// Battery current direction reported by PMU status register 2.
#[derive(Debug, Clone, Copy, PartialEq, Eq, Structural)]
pub enum CurrentDirection {
    Standby,
    Charging,
    Discharging,
}

impl Default for CurrentDirection {
    fn default() -> (r: Self)
        ensures
            r == CurrentDirection::Standby,
    {
        CurrentDirection::Standby
    }
}

/// Charger phase reported by PMU status register 2.
#[derive(Debug, Clone, Copy, PartialEq, Eq, Structural)]
pub enum ChargerPhase {
    TriCharge,
    PreCharge,
    ConstantCurrent,
    ConstantVoltage,
    ChargeDone,
    NotCharging,
}

impl Default for ChargerPhase {
    fn default() -> (r: Self)
        ensures
            r == ChargerPhase::NotCharging,
    {
        ChargerPhase::NotCharging
    }
}

/// Constant-voltage charge target (REG 64h bits 2:0).
#[derive(Debug, Clone, Copy, PartialEq, Eq, Structural)]
pub enum ChargeVoltage {
    V4_00,
    V4_10,
    V4_20,
    V4_35,
    V4_40,
}

/// Input current limit (REG 16h bits 2:0).
#[derive(Debug, Clone, Copy, PartialEq, Eq, Structural)]
pub enum InputCurrentLimit {
    Ma100,
    Ma500,
    Ma900,
    Ma1000,
    Ma1500,
    Ma2000,
}

// ---- Error / driver ----------------------------------------------------------

/// Error type for PMU operations, generic over the bus error `E`.
#[derive(Debug)]
pub enum Error<E> {
    /// An I2C transaction failed; the inner value is the HAL's own error.
    I2c(E),
    /// The device did not respond with the expected chip ID.
    DeviceNotFound,
    /// A voltage value outside the 500-3500 mV range was requested.
    InvalidValue,
}

/// AXP2101 PMU driver state: only the I2C address.
pub struct Pmu {
    addr: u8,
}

/// PMU configuration.
pub struct Config {
    /// I2C device address.
    pub address: u8,
}

impl Default for Config {
    fn default() -> (c: Self)
        ensures
            c.address == DEFAULT_ADDRESS,
    {
        Config { address: DEFAULT_ADDRESS }
    }
}

/// The register value that selects `millivolts` on an AXP2101 LDO,
/// or `None` when the voltage is outside 500..=3500 mV.
pub open spec fn spec_mv_register(millivolts: u16) -> Option<u8> {
    if 500 <= millivolts <= 3500 {
        Some(((millivolts - 500) / 100) as u8)
    } else {
        None
    }
}

impl Pmu {
    /// The configured I2C address.
    pub closed spec fn spec_address(&self) -> u8 {
        self.addr
    }

    /// Create a new PMU driver instance.
    pub fn new(config: Config) -> (p: Self)
        ensures
            p.spec_address() == config.address,
    {
        Pmu { addr: config.address }
    }

    /// The I2C address every transaction goes to.
    pub fn address(&self) -> (a: u8)
        ensures
            a == self.spec_address(),
    {
        self.addr
    }

    /// Check the raw chip-ID byte: only bits 7:6 identify an AXP2101.
    /// Returns the raw byte on a match so the caller can read the
    /// version from bits 5:4.
    pub fn check_chip_id<E>(raw: u8) -> (r: Result<u8, Error<E>>)
        ensures
            r is Ok <==> (raw & CHIP_ID_MASK) == CHIP_ID_VALUE,
            r matches Ok(v) ==> v == raw,
            r is Err ==> r matches Err(Error::DeviceNotFound),
    {
        if (raw & CHIP_ID_MASK) != CHIP_ID_VALUE {
            return Err(Error::DeviceNotFound);
        }
        Ok(raw)
    }

    /// Convert millivolts to the 5-bit LDO register value:
    /// `(mV - 500) / 100`, valid for 500..=3500 mV.
    pub fn mv_to_register<E>(millivolts: u16) -> (r: Result<u8, Error<E>>)
        ensures
            r is Ok <==> spec_mv_register(millivolts) is Some,
            r matches Ok(v) ==> v == spec_mv_register(millivolts).unwrap() && v <= 30,
            r is Err ==> r matches Err(Error::InvalidValue),
    {
        if millivolts < 500 || millivolts > 3500 {
            return Err(Error::InvalidValue);
        }
        Ok(((millivolts - 500) / 100) as u8)
    }

    /// The REG 90h value that enables ALDO1-4 and BLDO1-2 (CPUSLDO and
    /// DLDO1 stay off).
    pub fn enable_all_rails_mask() -> (m: u8)
        ensures
            m == 0x3F,
    {
        let m = LDO_EN_ALDO1 | LDO_EN_ALDO2 | LDO_EN_ALDO3 | LDO_EN_ALDO4 | LDO_EN_BLDO1 | LDO_EN_BLDO2;
        assert(0x01u8 | 0x02u8 | 0x04u8 | 0x08u8 | 0x10u8 | 0x20u8 == 0x3Fu8) by (bit_vector);
        m
    }
}

/// The rail voltages the board powers up with, in write order:
/// ALDO1-3 at 3.3 V, ALDO4 at 1.8 V, BLDO1 at 1.2 V, BLDO2 at 2.8 V.
pub open spec fn spec_boot_rails() -> Seq<(u8, u16)> {
    seq![
        (REG_ALDO1_VOLT, 3300u16),
        (REG_ALDO2_VOLT, 3300u16),
        (REG_ALDO3_VOLT, 3300u16),
        (REG_ALDO4_VOLT, 1800u16),
        (REG_BLDO1_VOLT, 1200u16),
        (REG_BLDO2_VOLT, 2800u16),
    ]
}

/// The (register, millivolts) pairs `init` programs before enabling the
/// rails.
pub fn boot_rails() -> (v: Vec<(u8, u16)>)
    ensures
        v@ == spec_boot_rails(),
{
    let v = vec![
        (REG_ALDO1_VOLT, 3300u16),
        (REG_ALDO2_VOLT, 3300u16),
        (REG_ALDO3_VOLT, 3300u16),
        (REG_ALDO4_VOLT, 1800u16),
        (REG_BLDO1_VOLT, 1200u16),
        (REG_BLDO2_VOLT, 2800u16),
    ];
    assert(v@ =~= spec_boot_rails());
    v
}

// ---- Interrupts ---------------------------------------------------------------

/// Every interrupt source the AXP2101 can generate.
#[derive(Debug, Clone, Copy, PartialEq, Eq, Structural)]
pub enum InterruptSource {
    BatteryUnderTempWork,
    BatteryOverTempWork,
    BatteryUnderTempCharge,
    BatteryOverTempCharge,
    GaugeNewSoc,
    GaugeWatchdogTimeout,
    SocWarningLevel1,
    SocWarningLevel2,
    PowerOnPositiveEdge,
    PowerOnNegativeEdge,
    PowerOnLongPress,
    PowerOnShortPress,
    BatteryRemove,
    BatteryInsert,
    VbusRemove,
    VbusInsert,
    BatteryOverVoltage,
    ChargerSafetyTimerExpire,
    DieOverTempLevel1,
    ChargerStart,
    BatteryChargeDone,
    LdoOverCurrent,
    WatchdogExpire,
}

impl InterruptSource {
    /// Bit position of this source in the combined 24-bit word
    /// (REG48 = bits 0-7, REG49 = 8-15, REG4A = 16-23; bit 21 reserved).
    pub open spec fn spec_bit(self) -> u32 {
        match self {
            InterruptSource::BatteryUnderTempWork => 0,
            InterruptSource::BatteryOverTempWork => 1,
            InterruptSource::BatteryUnderTempCharge => 2,
            InterruptSource::BatteryOverTempCharge => 3,
            InterruptSource::GaugeNewSoc => 4,
            InterruptSource::GaugeWatchdogTimeout => 5,
            InterruptSource::SocWarningLevel1 => 6,
            InterruptSource::SocWarningLevel2 => 7,
            InterruptSource::PowerOnPositiveEdge => 8,
            InterruptSource::PowerOnNegativeEdge => 9,
            InterruptSource::PowerOnLongPress => 10,
            InterruptSource::PowerOnShortPress => 11,
            InterruptSource::BatteryRemove => 12,
            InterruptSource::BatteryInsert => 13,
            InterruptSource::VbusRemove => 14,
            InterruptSource::VbusInsert => 15,
            InterruptSource::BatteryOverVoltage => 16,
            InterruptSource::ChargerSafetyTimerExpire => 17,
            InterruptSource::DieOverTempLevel1 => 18,
            InterruptSource::ChargerStart => 19,
            InterruptSource::BatteryChargeDone => 20,
            InterruptSource::LdoOverCurrent => 22,
            InterruptSource::WatchdogExpire => 23,
        }
    }

    /// The single-bit mask of this source.
    pub open spec fn spec_mask(self) -> u32 {
        1u32 << self.spec_bit()
    }

    /// Returns the bitmask for this source within the combined 24-bit
    /// status word.
    pub fn mask(self) -> (m: u32)
        ensures
            m == self.spec_mask(),
    {
        match self {
            InterruptSource::BatteryUnderTempWork => 1u32 << 0u32,
            InterruptSource::BatteryOverTempWork => 1u32 << 1u32,
            InterruptSource::BatteryUnderTempCharge => 1u32 << 2u32,
            InterruptSource::BatteryOverTempCharge => 1u32 << 3u32,
            InterruptSource::GaugeNewSoc => 1u32 << 4u32,
            InterruptSource::GaugeWatchdogTimeout => 1u32 << 5u32,
            InterruptSource::SocWarningLevel1 => 1u32 << 6u32,
            InterruptSource::SocWarningLevel2 => 1u32 << 7u32,
            InterruptSource::PowerOnPositiveEdge => 1u32 << 8u32,
            InterruptSource::PowerOnNegativeEdge => 1u32 << 9u32,
            InterruptSource::PowerOnLongPress => 1u32 << 10u32,
            InterruptSource::PowerOnShortPress => 1u32 << 11u32,
            InterruptSource::BatteryRemove => 1u32 << 12u32,
            InterruptSource::BatteryInsert => 1u32 << 13u32,
            InterruptSource::VbusRemove => 1u32 << 14u32,
            InterruptSource::VbusInsert => 1u32 << 15u32,
            InterruptSource::BatteryOverVoltage => 1u32 << 16u32,
            InterruptSource::ChargerSafetyTimerExpire => 1u32 << 17u32,
            InterruptSource::DieOverTempLevel1 => 1u32 << 18u32,
            InterruptSource::ChargerStart => 1u32 << 19u32,
            InterruptSource::BatteryChargeDone => 1u32 << 20u32,
            InterruptSource::LdoOverCurrent => 1u32 << 22u32,
            InterruptSource::WatchdogExpire => 1u32 << 23u32,
        }
    }
}

/// Every source's mask is a single bit within the 24-bit word (and never
/// the reserved bit 21): as a number it is `2^bit` with `bit < 24`.
pub proof fn lemma_mask_is_single_bit(s: InterruptSource)
    ensures
        s.spec_bit() < 24,
        s.spec_bit() != 21,
        s.spec_mask() as nat == pow2(s.spec_bit() as nat),
        s.spec_mask() < 0x100_0000,
{
    let b = s.spec_bit();
    vstd::bits::lemma_u32_pow2_no_overflow(b as nat);
    vstd::bits::lemma_u32_shl_is_mul(1u32, b);
    assert(b < 24 ==> (1u32 << b) < 0x100_0000u32) by (bit_vector);
}

/// Distinct sources occupy distinct bits.
pub proof fn lemma_masks_disjoint(a: InterruptSource, b: InterruptSource)
    requires
        a != b,
    ensures
        a.spec_mask() & b.spec_mask() == 0,
{
    let i = a.spec_bit();
    let j = b.spec_bit();
    assert(i != j);
    assert(i < 32 && j < 32 && i != j ==> (1u32 << i) & (1u32 << j) == 0u32) by (bit_vector);
}

/// Snapshot of all three IRQ status registers combined into one value.
#[derive(Debug, Clone, Copy)]
pub struct InterruptStatus {
    /// Combined 24-bit status: bits 0-7 = REG48, 8-15 = REG49, 16-23 = REG4A.
    pub raw: u32,
}

impl Default for InterruptStatus {
    fn default() -> (s: Self)
        ensures
            s.raw == 0,
    {
        InterruptStatus { raw: 0 }
    }
}

impl InterruptStatus {
    /// Build a status snapshot from the three raw register bytes.
    pub fn new(reg48: u8, reg49: u8, reg4a: u8) -> (s: Self)
        ensures
            s.raw == reg48 as u32 + (reg49 as u32) * 0x100 + (reg4a as u32) * 0x1_0000,
    {
        let raw = (reg48 as u32) | ((reg49 as u32) << 8u32) | ((reg4a as u32) << 16u32);
        assert((reg48 as u32) | ((reg49 as u32) << 8u32) | ((reg4a as u32) << 16u32)
            == reg48 as u32 + (reg49 as u32) * 0x100 + (reg4a as u32) * 0x1_0000) by (bit_vector);
        InterruptStatus { raw }
    }

    /// Returns `true` if the given interrupt source is active.
    pub fn is_active(self, source: InterruptSource) -> (r: bool)
        ensures
            r == ((self.raw & source.spec_mask()) != 0),
    {
        (self.raw & source.mask()) != 0
    }

    /// Returns `true` if no interrupts are currently active.
    pub fn is_empty(self) -> (r: bool)
        ensures
            r == (self.raw == 0),
    {
        self.raw == 0
    }

    /// The raw byte for REG 48h, for writing back to clear those bits.
    pub fn reg48_byte(self) -> (b: u8)
        ensures
            b == self.raw % 0x100,
    {
        let r = self.raw;
        assert(r & 0xFF == r % 0x100) by (bit_vector);
        (r & 0xFF) as u8
    }

    /// The raw byte for REG 49h.
    pub fn reg49_byte(self) -> (b: u8)
        ensures
            b == (self.raw / 0x100) % 0x100,
    {
        let r = self.raw;
        assert((r >> 8u32) & 0xFF == (r / 0x100) % 0x100) by (bit_vector);
        ((r >> 8u32) & 0xFF) as u8
    }

    /// The raw byte for REG 4Ah.
    pub fn reg4a_byte(self) -> (b: u8)
        ensures
            b == (self.raw / 0x1_0000) % 0x100,
    {
        let r = self.raw;
        assert((r >> 16u32) & 0xFF == (r / 0x1_0000) % 0x100) by (bit_vector);
        ((r >> 16u32) & 0xFF) as u8
    }
}

/// Reading the three status bytes back out of a snapshot gives exactly
/// the bytes it was built from, so clearing writes back what was read.
pub proof fn lemma_status_bytes_round_trip(reg48: u8, reg49: u8, reg4a: u8)
    ensures
        ({
            let raw = reg48 as u32 + (reg49 as u32) * 0x100 + (reg4a as u32) * 0x1_0000;
            &&& raw % 0x100 == reg48
            &&& (raw / 0x100) % 0x100 == reg49
            &&& (raw / 0x1_0000) % 0x100 == reg4a
        }),
{
}

/// Interrupt enable configuration - which sources drive the IRQ pin.
#[derive(Debug, Clone, Copy)]
pub struct InterruptConfig {
    /// Combined 24-bit enable mask (same layout as `InterruptStatus::raw`).
    pub mask: u32,
}

impl Default for InterruptConfig {
    fn default() -> (c: Self)
        ensures
            c.mask == 0,
    {
        InterruptConfig { mask: 0 }
    }
}

impl InterruptConfig {
    /// A config with all interrupts disabled.
    pub fn none() -> (c: Self)
        ensures
            c.mask == 0,
    {
        InterruptConfig { mask: 0 }
    }

    /// Enable one interrupt source (builder style).
    pub fn enable(self, source: InterruptSource) -> (c: Self)
        ensures
            c.mask == self.mask | source.spec_mask(),
    {
        InterruptConfig { mask: self.mask | source.mask() }
    }

    /// Disable one interrupt source.
    pub fn disable(self, source: InterruptSource) -> (c: Self)
        ensures
            c.mask == self.mask & !source.spec_mask(),
    {
        InterruptConfig { mask: self.mask & !source.mask() }
    }

    /// Raw byte for REG 40h (IRQ Enable 0).
    pub fn reg40_byte(self) -> (b: u8)
        ensures
            b == self.mask % 0x100,
    {
        let m = self.mask;
        assert(m & 0xFF == m % 0x100) by (bit_vector);
        (m & 0xFF) as u8
    }

    /// Raw byte for REG 41h (IRQ Enable 1).
    pub fn reg41_byte(self) -> (b: u8)
        ensures
            b == (self.mask / 0x100) % 0x100,
    {
        let m = self.mask;
        assert((m >> 8u32) & 0xFF == (m / 0x100) % 0x100) by (bit_vector);
        ((m >> 8u32) & 0xFF) as u8
    }

    /// Raw byte for REG 42h (IRQ Enable 2).
    pub fn reg42_byte(self) -> (b: u8)
        ensures
            b == (self.mask / 0x1_0000) % 0x100,
    {
        let m = self.mask;
        assert((m >> 16u32) & 0xFF == (m / 0x1_0000) % 0x100) by (bit_vector);
        ((m >> 16u32) & 0xFF) as u8
    }
}

/// Enabling a source turns its bit on and leaves every other source's
/// bit as it was; disabling turns it off, again touching nothing else.
pub proof fn lemma_enable_disable_touch_one_source(
    mask: u32,
    source: InterruptSource,
    other: InterruptSource,
)
    requires
        source != other,
    ensures
        (mask | source.spec_mask()) & source.spec_mask() != 0,
        (mask & !source.spec_mask()) & source.spec_mask() == 0,
        (mask | source.spec_mask()) & other.spec_mask() == mask & other.spec_mask(),
        (mask & !source.spec_mask()) & other.spec_mask() == mask & other.spec_mask(),
{
    let i = source.spec_bit();
    let j = other.spec_bit();
    assert(i != j);
    assert(i < 32 ==> (mask | (1u32 << i)) & (1u32 << i) != 0u32) by (bit_vector);
    assert((mask & !(1u32 << i)) & (1u32 << i) == 0u32) by (bit_vector);
    assert(i < 32 && j < 32 && i != j ==> (mask | (1u32 << i)) & (1u32 << j) == mask & (1u32 << j))
        by (bit_vector);
    assert(i < 32 && j < 32 && i != j ==> (mask & !(1u32 << i)) & (1u32 << j) == mask & (1u32 << j))
        by (bit_vector);
}

// ---- Power states ---------------------------------------------------------------

/// Current or target power state of the system.
#[derive(Debug, Clone, Copy, PartialEq, Eq, Structural)]
pub enum PowerState {
    Normal,
    Sleep,
    DeepSleep,
    Off,
}

/// Configuration for a power state transition.
#[derive(Debug, Clone)]
pub struct PowerConfig {
    /// Target power state.
    pub state: PowerState,
    /// AXP2101 IRQ enable bitmask - which events assert the IRQ pin.
    pub irq_sources: u32,
}

impl Default for PowerConfig {
    /// Normal state with the most useful runtime events enabled: power
    /// button short and long press, VBUS insert and remove, charge done
    /// and charger start.
    fn default() -> (c: Self)
        ensures
            c.state == PowerState::Normal,
            c.irq_sources == InterruptSource::PowerOnShortPress.spec_mask()
                | InterruptSource::PowerOnLongPress.spec_mask()
                | InterruptSource::VbusInsert.spec_mask()
                | InterruptSource::VbusRemove.spec_mask()
                | InterruptSource::BatteryChargeDone.spec_mask()
                | InterruptSource::ChargerStart.spec_mask(),
    {
        PowerConfig {
            state: PowerState::Normal,
            irq_sources: InterruptSource::PowerOnShortPress.mask()
                | InterruptSource::PowerOnLongPress.mask()
                | InterruptSource::VbusInsert.mask()
                | InterruptSource::VbusRemove.mask()
                | InterruptSource::BatteryChargeDone.mask()
                | InterruptSource::ChargerStart.mask(),
        }
    }
}

/// Snapshot of power-related runtime information.
#[derive(Debug, Clone)]
pub struct PowerInfo {
    pub state: PowerState,
    pub battery_voltage_mv: Option<u16>,
    pub battery_percent: Option<u8>,
    pub system_voltage_mv: Option<u16>,
    pub die_temp_raw: Option<u16>,
}

impl PowerInfo {
    /// A snapshot in `state` with no readings yet.
    pub fn new(state: PowerState) -> (p: Self)
        ensures
            p.state == state,
            p.battery_voltage_mv is None,
            p.battery_percent is None,
            p.system_voltage_mv is None,
            p.die_temp_raw is None,
    {
        PowerInfo {
            state,
            battery_voltage_mv: None,
            battery_percent: None,
            system_voltage_mv: None,
            die_temp_raw: None,
        }
    }
}

/// Battery readings at one point in time, as the board's power task
/// reports them.
#[derive(Debug, Clone, Copy)]
pub struct PowerSnapshot {
    /// Battery state of charge (0-100%).
    pub battery_percent: Option<u8>,
    /// Battery terminal voltage in millivolts.
    pub battery_voltage_mv: Option<u16>,
}

impl Default for PowerSnapshot {
    fn default() -> (s: Self)
        ensures
            s.battery_percent is None,
            s.battery_voltage_mv is None,
    {
        PowerSnapshot { battery_percent: None, battery_voltage_mv: None }
    }
}

} // verus!
