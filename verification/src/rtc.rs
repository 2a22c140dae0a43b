//! PCF85063A real-time clock: date/time, alarm, countdown timer, CLKOUT
//! and offset register encodings, and the BCD arithmetic behind them.
//!
//! Register map (PCF85063A datasheet):
//!
//! | reg  | content                                              |
//! |------|------------------------------------------------------|
//! | 0x00 | Control_1: [5]=STOP [4]=SR [1]=12_24 [0]=CAP_SEL     |
//! | 0x01 | Control_2: [7]=AIE [6]=AF [5]=MI [4]=HMI [3]=TF [2:0]=COF |
//! | 0x02 | Offset: [7]=MODE [6:0]=OFFSET                        |
//! | 0x03 | RAM byte                                             |
//! | 0x04-0x0A | seconds (bit 7 = OS), minutes, hours, days, weekday, months, years (BCD) |
//! | 0x0B-0x0F | alarm second..weekday, bit 7 = AEN (field not compared) |
//! | 0x10 | Timer_value                                          |
//! | 0x11 | Timer_mode: [4:3]=TCF [2]=TE [1]=TIE [0]=TI_TP       |
//!
//! The I2C transactions themselves are the caller's; this module computes
//! what is written and decodes what is read.

use vstd::prelude::*;

verus! {

/// Default I2C address for the PCF85063A.
pub const DEFAULT_ADDRESS: u8 = 0x51;

pub const REG_CTRL1: u8 = 0x00;
pub const REG_CTRL2: u8 = 0x01;
pub const REG_OFFSET: u8 = 0x02;
pub const REG_RAM: u8 = 0x03;
/// Burst-read start for time: 0x04-0x0A (7 bytes).
pub const REG_SECONDS: u8 = 0x04;
/// Burst-write start for the alarm: 0x0B-0x0F (5 bytes).
pub const REG_ALARM_SECOND: u8 = 0x0B;
pub const REG_TIMER_VALUE: u8 = 0x10;
pub const REG_TIMER_MODE: u8 = 0x11;

/// Control_1 value that requests a software reset.
pub const CTRL1_SOFT_RESET: u8 = 0x58;
/// Control_1 STOP bit.
pub const CTRL1_STOP: u8 = 0x20;
/// Control_2 bits.
pub const CTRL2_AIE: u8 = 0x80;
pub const CTRL2_AF: u8 = 0x40;
/// Control_2 minute-interrupt bit.
pub const CTRL2_MI: u8 = 0x20;
/// Control_2 half-minute-interrupt bit.
pub const CTRL2_HMI: u8 = 0x10;
pub const CTRL2_TF: u8 = 0x08;
pub const CTRL2_COF: u8 = 0x07;
/// Timer_mode bits.
pub const TIMER_TE: u8 = 0x04;
pub const TIMER_TIE: u8 = 0x02;
pub const TIMER_TI_TP: u8 = 0x01;
/// Set in an alarm register to disable (not compare) that field.
pub const AEN: u8 = 0x80;

/// Error type for RTC operations, generic over the bus error `E`.
#[derive(Debug)]
pub enum Error<E> {
    /// An I2C transaction failed.
    I2c(E),
    /// The operation requires a different offset calibration mode.
    InvalidMode,
    /// A parameter value is outside the valid range.
    InvalidValue,
}

/// A calendar date and time.
#[derive(Debug, Clone, Copy, PartialEq, Eq, Structural)]
pub struct DateTime {
    pub year: u16,
    pub month: u8,
    pub day: u8,
    /// 0=Sunday ... 6=Saturday
    pub weekday: u8,
    pub hour: u8,
    pub minute: u8,
    pub second: u8,
}

impl Default for DateTime {
    fn default() -> (d: Self)
        ensures
            d.year == 0 && d.month == 0 && d.day == 0 && d.weekday == 0,
            d.hour == 0 && d.minute == 0 && d.second == 0,
    {
        DateTime { year: 0, month: 0, day: 0, weekday: 0, hour: 0, minute: 0, second: 0 }
    }
}

/// All fields within legal ranges (years 2024..=2099).
pub open spec fn spec_datetime_valid(d: DateTime) -> bool {
    &&& 2024 <= d.year <= 2099
    &&& 1 <= d.month <= 12
    &&& 1 <= d.day <= 31
    &&& d.weekday <= 6
    &&& d.hour <= 23
    &&& d.minute <= 59
    &&& d.second <= 59
}

impl DateTime {
    pub fn new(year: u16, month: u8, day: u8, weekday: u8, hour: u8, minute: u8, second: u8) -> (d: Self)
        ensures
            d == (DateTime { year, month, day, weekday, hour, minute, second }),
    {
        DateTime { year, month, day, weekday, hour, minute, second }
    }

    /// Returns true if all fields are within legal ranges.
    pub fn is_valid(&self) -> (r: bool)
        ensures
            r == spec_datetime_valid(*self),
    {
        self.year >= 2024 && self.year <= 2099
            && self.month >= 1 && self.month <= 12
            && self.day >= 1 && self.day <= 31
            && self.weekday <= 6
            && self.hour <= 23
            && self.minute <= 59
            && self.second <= 59
    }
}

/// Alarm match condition: `Some(v)` compares that field, `None` ignores it.
#[derive(Debug, Clone, Copy)]
pub struct Alarm {
    pub second: Option<u8>,
    pub minute: Option<u8>,
    pub hour: Option<u8>,
    pub day: Option<u8>,
    pub weekday: Option<u8>,
}

impl Default for Alarm {
    fn default() -> (a: Self)
        ensures
            a.second is None && a.minute is None && a.hour is None,
            a.day is None && a.weekday is None,
    {
        Alarm { second: None, minute: None, hour: None, day: None, weekday: None }
    }
}

impl Alarm {
    /// All fields disabled - no match will ever fire.
    pub fn disabled() -> (a: Self)
        ensures
            a.second is None && a.minute is None && a.hour is None,
            a.day is None && a.weekday is None,
    {
        Alarm { second: None, minute: None, hour: None, day: None, weekday: None }
    }
}

/// Countdown timer clock source (TCF[1:0]).
#[derive(Debug, Clone, Copy, PartialEq, Eq, Structural)]
pub enum TimerClock {
    /// 4096 Hz
    Hz4096,
    /// 64 Hz
    Hz64,
    /// 1 Hz
    Hz1,
    /// 1/60 Hz, also the recommended idle clock.
    Per60,
}

impl TimerClock {
    pub open spec fn spec_bits(self) -> u8 {
        match self {
            TimerClock::Hz4096 => 0,
            TimerClock::Hz64 => 1,
            TimerClock::Hz1 => 2,
            TimerClock::Per60 => 3,
        }
    }

    /// TCF[1:0] field value.
    pub fn bits(self) -> (b: u8)
        ensures
            b == self.spec_bits(),
    {
        match self {
            TimerClock::Hz4096 => 0,
            TimerClock::Hz64 => 1,
            TimerClock::Hz1 => 2,
            TimerClock::Per60 => 3,
        }
    }
}

/// Timer interrupt output mode (TI_TP bit).
#[derive(Debug, Clone, Copy, PartialEq, Eq, Structural)]
pub enum TimerOutput {
    /// INT# is held low until the timer flag is cleared.
    Interrupt,
    /// INT# pulses when the timer expires.
    Pulse,
}

/// CLKOUT output frequency (COF[2:0]).
#[derive(Debug, Clone, Copy, PartialEq, Eq, Structural)]
pub enum ClkoutFreq {
    Hz32768,
    Hz16384,
    Hz8192,
    Hz4096,
    Hz2048,
    Hz1024,
    Hz1,
    /// CLKOUT pin disabled (high-impedance).
    Off,
}

impl ClkoutFreq {
    pub open spec fn spec_bits(self) -> u8 {
        match self {
            ClkoutFreq::Hz32768 => 0,
            ClkoutFreq::Hz16384 => 1,
            ClkoutFreq::Hz8192 => 2,
            ClkoutFreq::Hz4096 => 3,
            ClkoutFreq::Hz2048 => 4,
            ClkoutFreq::Hz1024 => 5,
            ClkoutFreq::Hz1 => 6,
            ClkoutFreq::Off => 7,
        }
    }

    /// COF[2:0] field value.
    pub fn bits(self) -> (b: u8)
        ensures
            b == self.spec_bits(),
    {
        match self {
            ClkoutFreq::Hz32768 => 0,
            ClkoutFreq::Hz16384 => 1,
            ClkoutFreq::Hz8192 => 2,
            ClkoutFreq::Hz4096 => 3,
            ClkoutFreq::Hz2048 => 4,
            ClkoutFreq::Hz1024 => 5,
            ClkoutFreq::Hz1 => 6,
            ClkoutFreq::Off => 7,
        }
    }
}

/// Snapshot of Control_2 interrupt and flag bits.
#[derive(Debug, Clone, Copy)]
pub struct RtcStatus {
    pub alarm_flag: bool,
    pub alarm_ie: bool,
    pub timer_flag: bool,
    pub minute_ie: bool,
    pub half_min_ie: bool,
}

impl Default for RtcStatus {
    fn default() -> (s: Self)
        ensures
            !s.alarm_flag && !s.alarm_ie && !s.timer_flag && !s.minute_ie && !s.half_min_ie,
    {
        RtcStatus { alarm_flag: false, alarm_ie: false, timer_flag: false, minute_ie: false, half_min_ie: false }
    }
}

/// Offset calibration mode (MODE bit in the Offset register).
#[derive(Debug, Clone, Copy, PartialEq, Eq, Structural)]
pub enum OffsetMode {
    /// Correction applied once every two hours (fine steps).
    Normal,
    /// Correction applied once every minute (coarse steps).
    Coarse,
}

/// RTC driver configuration.
pub struct Config {
    /// I2C device address.
    pub address: u8,
}

impl Default for Config {
    fn default() -> (c: Self)
        ensures
            c.address == DEFAULT_ADDRESS,
    {
        Config { address: DEFAULT_ADDRESS }
    }
}

/// PCF85063A driver state: only the I2C address.
pub struct Rtc {
    addr: u8,
}

impl Rtc {
    pub closed spec fn spec_address(&self) -> u8 {
        self.addr
    }

    /// Create a new RTC driver instance.
    pub fn new(config: Config) -> (r: Self)
        ensures
            r.spec_address() == config.address,
    {
        Rtc { addr: config.address }
    }

    /// The I2C address every transaction goes to.
    pub fn address(&self) -> (a: u8)
        ensures
            a == self.spec_address(),
    {
        self.addr
    }
}

// ---- BCD ------------------------------------------------------------------------

/// Value of a packed-BCD byte: high nibble tens, low nibble units.
pub open spec fn spec_bcd2bin(bcd: u8) -> int {
    (bcd / 16) * 10 + bcd % 16
}

/// Packed-BCD byte of `bin`; for `bin >= 100` the tens digit overflows
/// the high nibble and is truncated to 8 bits.
pub open spec fn spec_bin2bcd(bin: u8) -> int {
    ((bin / 10) * 16) % 256 + bin % 10
}

/// Decode a packed-BCD byte.
pub fn bcd2bin(bcd: u8) -> (r: u8)
    ensures
        r == spec_bcd2bin(bcd),
{
    assert(bcd >> 4u8 == bcd / 16 && bcd & 0x0F == bcd % 16) by (bit_vector);
    (bcd >> 4u8) * 10 + (bcd & 0x0F)
}

/// Encode a byte as packed BCD.
pub fn bin2bcd(bin: u8) -> (r: u8)
    ensures
        r == spec_bin2bcd(bin),
        bin < 100 ==> r == (bin / 10) * 16 + bin % 10,
{
    let q = bin / 10;
    let m = bin % 10;
    assert(m < 10 ==> ((q << 4u8) | m) == ((q as int * 16) % 256) + m) by (bit_vector);
    (q << 4u8) | m
}

/// BCD encoding is undone by decoding for every two-digit value.
pub proof fn lemma_bcd_round_trip(bin: u8)
    requires
        bin < 100,
    ensures
        spec_bin2bcd(bin) == (bin / 10) * 16 + bin % 10,
        spec_bcd2bin(((bin / 10) * 16 + bin % 10) as u8) == bin,
{
}

// ---- Time registers ---------------------------------------------------------------

/// Decode the seven time registers (0x04-0x0A), masking out the OS flag
/// and the unused high bits of each field.
pub open spec fn spec_decode_datetime(buf: [u8; 7]) -> DateTime {
    DateTime {
        second: spec_bcd2bin(buf[0] & 0x7F) as u8,
        minute: spec_bcd2bin(buf[1] & 0x7F) as u8,
        hour: spec_bcd2bin(buf[2] & 0x3F) as u8,
        day: spec_bcd2bin(buf[3] & 0x3F) as u8,
        weekday: spec_bcd2bin(buf[4] & 0x07) as u8,
        month: spec_bcd2bin(buf[5] & 0x1F) as u8,
        year: (2000 + spec_bcd2bin(buf[6])) as u16,
    }
}

/// Decode a burst read of the time registers into a [`DateTime`].
pub fn decode_datetime(buf: [u8; 7]) -> (d: DateTime)
    ensures
        d == spec_decode_datetime(buf),
{
    DateTime {
        second: bcd2bin(buf[0] & 0x7F),
        minute: bcd2bin(buf[1] & 0x7F),
        hour: bcd2bin(buf[2] & 0x3F),
        day: bcd2bin(buf[3] & 0x3F),
        weekday: bcd2bin(buf[4] & 0x07),
        month: bcd2bin(buf[5] & 0x1F),
        year: 2000 + bcd2bin(buf[6]) as u16,
    }
}

/// The seven time-register bytes written by `set`; bit 7 of the seconds
/// byte is 0, which clears the oscillator-stop flag.
pub open spec fn spec_encode_datetime(dt: DateTime) -> [u8; 7] {
    [
        spec_bin2bcd(dt.second) as u8,
        spec_bin2bcd(dt.minute) as u8,
        spec_bin2bcd(dt.hour) as u8,
        spec_bin2bcd(dt.day) as u8,
        dt.weekday & 0x07,
        spec_bin2bcd(dt.month) as u8,
        spec_bin2bcd((dt.year - 2000) as u8) as u8,
    ]
}

/// Encode a date and time for a burst write starting at 0x04.
pub fn encode_datetime(dt: &DateTime) -> (buf: [u8; 7])
    requires
        dt.year >= 2000,
    ensures
        buf == spec_encode_datetime(*dt),
{
    [
        bin2bcd(dt.second),
        bin2bcd(dt.minute),
        bin2bcd(dt.hour),
        bin2bcd(dt.day),
        dt.weekday & 0x07,
        bin2bcd(dt.month),
        bin2bcd((dt.year - 2000) as u8),
    ]
}

proof fn lemma_mask_small(x: u8)
    ensures
        x < 0x08 ==> x & 0x07 == x,
        x < 0x20 ==> x & 0x1F == x,
        x < 0x40 ==> x & 0x3F == x,
        x < 0x80 ==> x & 0x7F == x,
{
    assert(x < 0x08 ==> x & 0x07 == x) by (bit_vector);
    assert(x < 0x20 ==> x & 0x1F == x) by (bit_vector);
    assert(x < 0x40 ==> x & 0x3F == x) by (bit_vector);
    assert(x < 0x80 ==> x & 0x7F == x) by (bit_vector);
}

/// What is written is what is read back: for any date and time in
/// 2000..=2099 with fields in range, decoding the encoded registers gives
/// the same date and time.
pub proof fn lemma_datetime_round_trip(dt: DateTime)
    requires
        2000 <= dt.year <= 2099,
        1 <= dt.month <= 12,
        1 <= dt.day <= 31,
        dt.weekday <= 6,
        dt.hour <= 23,
        dt.minute <= 59,
        dt.second <= 59,
    ensures
        spec_decode_datetime(spec_encode_datetime(dt)) == dt,
{
    let buf = spec_encode_datetime(dt);
    lemma_mask_small(buf[0]);
    lemma_mask_small(buf[1]);
    lemma_mask_small(buf[2]);
    lemma_mask_small(buf[3]);
    lemma_mask_small(buf[4]);
    lemma_mask_small(buf[5]);
    lemma_mask_small(dt.weekday);
    lemma_bcd_round_trip(dt.second);
    lemma_bcd_round_trip(dt.minute);
    lemma_bcd_round_trip(dt.hour);
    lemma_bcd_round_trip(dt.day);
    lemma_bcd_round_trip(dt.month);
    lemma_bcd_round_trip((dt.year - 2000) as u8);
}

// ---- Control registers --------------------------------------------------------------

/// Control_1 after init: 24 h mode (bit 1 clear), clock running (bit 5
/// clear), 7 pF capacitor (bit 0 set); other bits preserved. `init`
/// writes it only when it differs from what was read.
pub fn ctrl1_configured(ctrl1: u8) -> (r: u8)
    ensures
        r == (ctrl1 & !0x20u8 & !0x02u8) | 0x01u8,
{
    (ctrl1 & !0x20u8 & !0x02u8) | 0x01u8
}

/// The oscillator-stop flag: bit 7 of the seconds register. When set the
/// stored time is invalid.
pub fn oscillator_stopped(seconds_raw: u8) -> (r: bool)
    ensures
        r == (seconds_raw & 0x80 != 0),
{
    (seconds_raw & 0x80) != 0
}

/// Control_1 with the clock stopped (STOP set), written before a time set.
pub fn ctrl1_stopped(ctrl1: u8) -> (r: u8)
    ensures
        r == ctrl1 | CTRL1_STOP,
{
    ctrl1 | CTRL1_STOP
}

/// Control_1 with the clock restarted (STOP cleared).
pub fn ctrl1_running(ctrl1: u8) -> (r: u8)
    ensures
        r == ctrl1 & !CTRL1_STOP,
{
    ctrl1 & !CTRL1_STOP
}

/// One alarm register: AEN (field ignored) or the compared value.
pub open spec fn spec_alarm_field(v: Option<u8>) -> u8 {
    match v {
        Some(x) => spec_bin2bcd(x) as u8,
        None => AEN,
    }
}

/// The five alarm-register bytes (0x0B-0x0F).
pub open spec fn spec_encode_alarm(alarm: Alarm) -> [u8; 5] {
    [
        spec_alarm_field(alarm.second),
        spec_alarm_field(alarm.minute),
        spec_alarm_field(alarm.hour),
        spec_alarm_field(alarm.day),
        match alarm.weekday {
            Some(w) => w & 0x07,
            None => AEN,
        },
    ]
}

fn alarm_field(v: Option<u8>) -> (r: u8)
    ensures
        r == spec_alarm_field(v),
{
    match v {
        Some(x) => bin2bcd(x),
        None => AEN,
    }
}

/// Encode an alarm for a burst write starting at 0x0B.
pub fn encode_alarm(alarm: &Alarm) -> (buf: [u8; 5])
    ensures
        buf == spec_encode_alarm(*alarm),
{
    let w = match alarm.weekday {
        Some(v) => v & 0x07,
        None => AEN,
    };
    [
        alarm_field(alarm.second),
        alarm_field(alarm.minute),
        alarm_field(alarm.hour),
        alarm_field(alarm.day),
        w,
    ]
}

/// The alarm registers of a disabled alarm: every field ignored.
pub fn disabled_alarm_registers() -> (buf: [u8; 5])
    ensures
        buf == [AEN, AEN, AEN, AEN, AEN],
{
    [AEN, AEN, AEN, AEN, AEN]
}

/// Control_2 when arming an alarm: stale AF cleared, AIE set, TF and COF
/// preserved.
pub fn ctrl2_arm_alarm(ctrl2: u8) -> (r: u8)
    ensures
        r == (ctrl2 & !CTRL2_AF) | CTRL2_AIE,
{
    (ctrl2 & !CTRL2_AF) | CTRL2_AIE
}

/// Control_2 when disabling the alarm: AIE and AF cleared.
pub fn ctrl2_disable_alarm(ctrl2: u8) -> (r: u8)
    ensures
        r == ctrl2 & !(CTRL2_AIE | CTRL2_AF),
{
    ctrl2 & !(CTRL2_AIE | CTRL2_AF)
}

/// Control_2 with the alarm flag cleared.
pub fn ctrl2_clear_alarm_flag(ctrl2: u8) -> (r: u8)
    ensures
        r == ctrl2 & !CTRL2_AF,
{
    ctrl2 & !CTRL2_AF
}

/// Control_2 with the timer flag cleared.
pub fn ctrl2_clear_timer_flag(ctrl2: u8) -> (r: u8)
    ensures
        r == ctrl2 & !CTRL2_TF,
{
    ctrl2 & !CTRL2_TF
}

/// The alarm flag (AF) of a Control_2 value.
pub fn alarm_flag(ctrl2: u8) -> (r: bool)
    ensures
        r == (ctrl2 & CTRL2_AF != 0),
{
    (ctrl2 & CTRL2_AF) != 0
}

/// The timer flag (TF) of a Control_2 value.
pub fn timer_flag(ctrl2: u8) -> (r: bool)
    ensures
        r == (ctrl2 & CTRL2_TF != 0),
{
    (ctrl2 & CTRL2_TF) != 0
}

/// Decode every interrupt flag and enable bit of Control_2.
pub fn decode_status(ctrl2: u8) -> (s: RtcStatus)
    ensures
        s.alarm_ie == (ctrl2 & 0x80 != 0),
        s.alarm_flag == (ctrl2 & 0x40 != 0),
        s.minute_ie == (ctrl2 & 0x20 != 0),
        s.half_min_ie == (ctrl2 & 0x10 != 0),
        s.timer_flag == (ctrl2 & 0x08 != 0),
{
    RtcStatus {
        alarm_flag: (ctrl2 & 0x40) != 0,
        alarm_ie: (ctrl2 & 0x80) != 0,
        timer_flag: (ctrl2 & 0x08) != 0,
        minute_ie: (ctrl2 & 0x20) != 0,
        half_min_ie: (ctrl2 & 0x10) != 0,
    }
}

/// Timer_mode value that starts the timer: TCF from `clock`, TE and TIE
/// set, TI_TP set only for pulse output.
pub fn timer_mode(clock: TimerClock, output: TimerOutput) -> (r: u8)
    ensures
        r == (clock.spec_bits() << 3u8) | TIMER_TE | TIMER_TIE
            | (if output == TimerOutput::Pulse { TIMER_TI_TP } else { 0u8 }),
{
    let ti_tp = match output {
        TimerOutput::Interrupt => 0u8,
        TimerOutput::Pulse => TIMER_TI_TP,
    };
    (clock.bits() << 3u8) | TIMER_TE | TIMER_TIE | ti_tp
}

/// Timer_mode with the timer stopped: TE and TIE cleared, TCF and TI_TP
/// preserved.
pub fn timer_mode_stopped(mode: u8) -> (r: u8)
    ensures
        r == mode & !(TIMER_TE | TIMER_TIE),
{
    mode & !(TIMER_TE | TIMER_TIE)
}

/// Control_2 with COF replaced by `freq`; all other bits preserved.
pub fn ctrl2_with_clkout(ctrl2: u8, freq: ClkoutFreq) -> (r: u8)
    ensures
        r == (ctrl2 & !CTRL2_COF) | freq.spec_bits(),
{
    (ctrl2 & !CTRL2_COF) | freq.bits()
}

/// The 7-bit two's-complement field of a clamped offset.
pub open spec fn spec_offset_bits(offset: i8) -> u8 {
    let c: int = if offset < -64 { -64 } else if offset > 63 { 63 } else { offset as int };
    (if c < 0 { c + 128 } else { c }) as u8
}

/// Offset register value: MODE in bit 7, the offset clamped to -64..=63
/// as a 7-bit two's complement number in bits 6:0.
pub fn offset_register(mode: OffsetMode, offset: i8) -> (r: u8)
    ensures
        r == (if mode == OffsetMode::Coarse { 0x80u8 } else { 0u8 }) | spec_offset_bits(offset),
        r & 0x7F == spec_offset_bits(offset),
{
    let mode_bit: u8 = match mode {
        OffsetMode::Normal => 0,
        OffsetMode::Coarse => 0x80,
    };
    let clamped: i8 = if offset < -64 { -64 } else if offset > 63 { 63 } else { offset };
    let bits: u8 = if clamped < 0 { (clamped as i16 + 128) as u8 } else { clamped as u8 };
    assert(bits < 0x80);
    assert(bits < 0x80u8 ==> (mode_bit | bits) & 0x7F == bits) by (bit_vector)
        requires mode_bit == 0 || mode_bit == 0x80;
    mode_bit | bits
}

/// The countdown start value, checked: 0 would stop the hardware timer
/// instead of starting it, so it is refused as an invalid value.
pub fn timer_value<E>(value: u8) -> (r: Result<u8, Error<E>>)
    ensures
        value != 0 ==> r == Ok::<u8, Error<E>>(value),
        value == 0 ==> r matches Err(Error::InvalidValue),
{
    if value == 0 {
        Err(Error::InvalidValue)
    } else {
        Ok(value)
    }
}

/// Whether a mode can be written to the offset register with Control_2
/// as read: coarse mode is refused (invalid mode) while the minute or
/// half-minute interrupt is enabled.
pub fn offset_mode_allowed<E>(mode: OffsetMode, ctrl2: u8) -> (r: Result<(), Error<E>>)
    ensures
        (mode == OffsetMode::Coarse && ctrl2 & (CTRL2_MI | CTRL2_HMI) != 0) ==> r matches Err(Error::InvalidMode),
        !(mode == OffsetMode::Coarse && ctrl2 & (CTRL2_MI | CTRL2_HMI) != 0) ==> r is Ok,
{
    match mode {
        OffsetMode::Coarse => {
            if ctrl2 & (CTRL2_MI | CTRL2_HMI) != 0 {
                Err(Error::InvalidMode)
            } else {
                Ok(())
            }
        },
        OffsetMode::Normal => Ok(()),
    }
}

} // verus!
