//! TI DRV2605 haptic driver: register map, the values its operations
//! write, and the decoding of what it reads back. The I2C transactions
//! are made by the caller with these values (register and field names
//! follow the datasheet's register table).

use vstd::prelude::*;

verus! {

/// Fixed I2C address (the DRV2605 has no address straps).
pub const DEFAULT_ADDRESS: u8 = 0x5A;

/// Full-scale RTP amplitude in the power-on signed data format.
pub const RTP_MAX: u8 = 0x7F;

/// STATUS: DEVICE_ID[7:5], DIAG_RESULT[3], FB_STS[2], OVER_TEMP[1], OC_DETECT[0].
pub const REG_STATUS: u8 = 0x00;
/// MODE: DEV_RESET[7], STANDBY[6], MODE[2:0].
pub const REG_MODE: u8 = 0x01;
/// Real-time playback amplitude.
pub const REG_RTP_INPUT: u8 = 0x02;
/// LIBRARY_SEL: HI_Z[4], LIBRARY_SEL[2:0].
pub const REG_LIBRARY_SEL: u8 = 0x03;
/// First waveform sequencer slot; the eight slots are consecutive.
pub const REG_WAV_FRM_SEQ1: u8 = 0x04;
/// GO: starts (and, cleared, aborts) playback.
pub const REG_GO: u8 = 0x0C;
/// Overdrive time offset.
pub const REG_ODT: u8 = 0x0D;
/// Sustain time offset, positive.
pub const REG_SPT: u8 = 0x0E;
/// Sustain time offset, negative.
pub const REG_SNT: u8 = 0x0F;
/// Brake time offset.
pub const REG_BRT: u8 = 0x10;
/// Audio-to-vibe control: ATH_PEAK_TIME[3:2], ATH_FILTER[1:0].
pub const REG_ATH_CTRL: u8 = 0x11;
/// Audio-to-vibe full-scale input.
pub const REG_ATH_MAX_INPUT: u8 = 0x13;
/// Closed-loop full-scale reference.
pub const REG_RATED_VOLTAGE: u8 = 0x16;
/// Overdrive clamp.
pub const REG_OD_CLAMP: u8 = 0x17;
/// Auto-calibration compensation result.
pub const REG_A_CAL_COMP: u8 = 0x18;
/// Auto-calibration back-EMF result.
pub const REG_A_CAL_BEMF: u8 = 0x19;
/// FEEDBACK_CTRL: N_ERM_LRA[7], FB_BRAKE_FACTOR[6:4], LOOP_GAIN[3:2], BEMF_GAIN[1:0].
pub const REG_FEEDBACK_CTRL: u8 = 0x1A;
/// CONTROL1: STARTUP_BOOST[7], AC_COUPLE[5], DRIVE_TIME[4:0].
pub const REG_CONTROL1: u8 = 0x1B;
/// CONTROL2: BIDIR_INPUT[7], BRAKE_STABILIZER[6], SAMPLE_TIME[5:4], BLANKING_TIME[3:2], IDISS_TIME[1:0].
pub const REG_CONTROL2: u8 = 0x1C;
/// CONTROL3: NG_THRESH[7:6], ERM_OPEN_LOOP[5], SUPPLY_COMP_DIS[4], DATA_FORMAT_RTP[3],
/// LRA_DRIVE_MODE[2], N_PWM_ANALOG[1], LRA_OPEN_LOOP[0].
pub const REG_CONTROL3: u8 = 0x1D;
/// CONTROL4: AUTO_CAL_TIME[5:4], OTP_STATUS[2], OTP_PROGRAM[0].
pub const REG_CONTROL4: u8 = 0x1E;
/// Supply voltage reading.
pub const REG_VBAT: u8 = 0x21;
/// LRA resonance period reading.
pub const REG_LRA_PERIOD: u8 = 0x22;

/// MODE: internal trigger (STANDBY clear).
pub const MODE_INTERNAL_TRIGGER: u8 = 0x00;
/// MODE: real-time playback.
pub const MODE_RTP: u8 = 0x05;
/// MODE: diagnostics.
pub const MODE_DIAGNOSTICS: u8 = 0x06;
/// MODE: auto-calibration.
pub const MODE_AUTO_CAL: u8 = 0x07;
/// MODE: STANDBY bit set, MODE[2:0] = 0.
pub const MODE_STANDBY: u8 = 0x40;
/// MODE: DEV_RESET bit.
pub const MODE_DEV_RESET: u8 = 0x80;

/// STATUS DIAG_RESULT bit (set: calibration or diagnostic failed).
pub const STATUS_DIAG_RESULT: u8 = 0x08;

/// Driver error, generic over the bus error `E`.
#[derive(Debug)]
pub enum Error<E> {
    /// An I2C transaction failed; the inner value is the HAL's own error.
    I2c(E),
    /// The STATUS DEVICE_ID field is not a DRV260x family member.
    DeviceNotFound,
}

/// Motor type behind the driver output.
#[derive(Debug, Clone, Copy, PartialEq, Eq, Structural)]
pub enum Actuator {
    /// Eccentric rotating mass, open loop (this watch's motor).
    ErmOpenLoop,
    /// ERM with back-EMF closed-loop control.
    ErmClosedLoop,
    /// Linear resonant actuator, auto-resonance closed loop.
    Lra,
    /// LRA driven open loop.
    LraOpenLoop,
}

/// One slot of the 8-deep waveform sequencer.
#[derive(Debug, Clone, Copy, PartialEq, Eq, Structural)]
pub enum SequenceStep {
    /// Play a ROM library effect (IDs 1-123).
    Effect(u8),
    /// Pause for `n * 10 ms` (n clamped to 127).
    WaitMs10(u8),
}

/// Inputs of the auto-calibration engine.
#[derive(Debug, Clone, Copy, PartialEq, Eq, Structural)]
pub struct AutoCalInputs {
    /// RATED_VOLTAGE register value.
    pub rated_voltage: u8,
    /// OD_CLAMP register value.
    pub od_clamp: u8,
    /// DRIVE_TIME[4:0]; `None` keeps the current register value.
    pub drive_time: Option<u8>,
}

/// Auto-calibration results, to persist and restore on later boots.
#[derive(Debug, Clone, Copy, PartialEq, Eq, Structural)]
pub struct Calibration {
    /// A_CAL_COMP.
    pub compensation: u8,
    /// A_CAL_BEMF.
    pub back_emf: u8,
    /// BEMF_GAIN field chosen by the engine.
    pub bemf_gain: u8,
}

/// DRV2605 driver state: only the I2C address.
pub struct Drv2605 {
    addr: u8,
}

/// Driver configuration.
pub struct Config {
    /// I2C device address (default: [`DEFAULT_ADDRESS`]).
    pub address: u8,
}

impl Default for Config {
    fn default() -> (c: Self)
        ensures
            c.address == DEFAULT_ADDRESS,
    {
        Config { address: DEFAULT_ADDRESS }
    }
}

impl Drv2605 {
    pub closed spec fn spec_address(&self) -> u8 {
        self.addr
    }

    /// A driver talking to `config.address`.
    pub fn new(config: Config) -> (d: Self)
        ensures
            d.spec_address() == config.address,
    {
        Drv2605 { addr: config.address }
    }

    /// The I2C address the driver talks to.
    pub fn address(&self) -> (a: u8)
        ensures
            a == self.spec_address(),
    {
        self.addr
    }
}

/// Whether a DEVICE_ID names a DRV260x part (3 = DRV2605, 4 = DRV2604,
/// 6 = DRV2604L, 7 = DRV2605L).
pub open spec fn spec_known_device(id: u8) -> bool {
    id == 3 || id == 4 || id == 6 || id == 7
}

/// The DEVICE_ID field of a STATUS byte, or `DeviceNotFound` when it is
/// not a DRV260x part.
pub fn device_id<E>(status: u8) -> (r: Result<u8, Error<E>>)
    ensures
        r is Ok <==> spec_known_device(status >> 5),
        r matches Ok(id) ==> id == status >> 5,
        r matches Err(e) ==> e is DeviceNotFound,
{
    let id = status >> 5;
    if id == 3 || id == 4 || id == 6 || id == 7 {
        Ok(id)
    } else {
        Err(Error::DeviceNotFound)
    }
}

/// The fixed register writes of start-up, in order, before the actuator
/// and library are selected: leave standby, zero the RTP input, put a
/// strong click in slot 1 and end the sequence after it, zero the four
/// time offsets, and set the audio-to-vibe full-scale input.
pub fn init_writes() -> (w: Vec<(u8, u8)>)
    ensures
        w@ == seq![
            (REG_MODE, MODE_INTERNAL_TRIGGER),
            (REG_RTP_INPUT, 0u8),
            (REG_WAV_FRM_SEQ1, 1u8),
            ((REG_WAV_FRM_SEQ1 + 1) as u8, 0u8),
            (REG_ODT, 0u8),
            (REG_SPT, 0u8),
            (REG_SNT, 0u8),
            (REG_BRT, 0u8),
            (REG_ATH_MAX_INPUT, 0x64u8),
        ],
{
    let w = vec![
        (REG_MODE, MODE_INTERNAL_TRIGGER),
        (REG_RTP_INPUT, 0u8),
        (REG_WAV_FRM_SEQ1, 1u8),
        (0x05u8, 0u8),
        (REG_ODT, 0u8),
        (REG_SPT, 0u8),
        (REG_SNT, 0u8),
        (REG_BRT, 0u8),
        (REG_ATH_MAX_INPUT, 0x64u8),
    ];
    assert(w@ =~= seq![
        (REG_MODE, MODE_INTERNAL_TRIGGER),
        (REG_RTP_INPUT, 0u8),
        (REG_WAV_FRM_SEQ1, 1u8),
        ((REG_WAV_FRM_SEQ1 + 1) as u8, 0u8),
        (REG_ODT, 0u8),
        (REG_SPT, 0u8),
        (REG_SNT, 0u8),
        (REG_BRT, 0u8),
        (REG_ATH_MAX_INPUT, 0x64u8),
    ]);
    w
}

/// RTP amplitude written for a requested one: clamped to [`RTP_MAX`].
pub fn rtp_amplitude(amplitude: u8) -> (v: u8)
    ensures
        v == (if amplitude < RTP_MAX { amplitude } else { RTP_MAX }),
{
    if amplitude < RTP_MAX { amplitude } else { RTP_MAX }
}

impl SequenceStep {
    /// The slot byte of a step: an effect ID in bits 6:0, or the WAIT
    /// bit with the pause length, clamped to 127, in bits 6:0.
    pub open spec fn spec_encode(self) -> u8 {
        match self {
            SequenceStep::Effect(id) => id & 0x7F,
            SequenceStep::WaitMs10(n) => 0x80 | (if n < 127 { n } else { 127u8 }),
        }
    }

    /// The slot byte of a step.
    pub fn encode(self) -> (b: u8)
        ensures
            b == self.spec_encode(),
    {
        match self {
            SequenceStep::Effect(id) => id & 0x7F,
            SequenceStep::WaitMs10(n) => 0x80 | (if n < 127 { n } else { 127u8 }),
        }
    }
}

/// The sequencer writes that program `steps`: the first eight steps into
/// slots 1..8 in order, then a terminating zero in the next slot if
/// one is left.
pub open spec fn spec_sequence_writes(steps: Seq<SequenceStep>) -> Seq<(u8, u8)> {
    let n = if steps.len() < 8 { steps.len() as int } else { 8 };
    let slots = Seq::new(n as nat, |i: int| ((REG_WAV_FRM_SEQ1 + i) as u8, steps[i].spec_encode()));
    if n < 8 { slots.push(((REG_WAV_FRM_SEQ1 + n) as u8, 0u8)) } else { slots }
}

/// Register writes programming the waveform sequencer with `steps`
/// (longer inputs are truncated to the eight slots). The caller then
/// selects internal-trigger mode before and sets GO after.
pub fn sequence_writes(steps: &[SequenceStep]) -> (w: Vec<(u8, u8)>)
    ensures
        w@ == spec_sequence_writes(steps@),
{
    let n = if steps.len() < 8 { steps.len() } else { 8 };
    let mut w: Vec<(u8, u8)> = Vec::new();
    let mut slot: usize = 0;
    while slot < n
        invariant
            0 <= slot <= n,
            n == (if steps@.len() < 8 { steps@.len() as int } else { 8 }),
            w@ =~= Seq::new(slot as nat, |i: int| ((REG_WAV_FRM_SEQ1 + i) as u8, steps@[i].spec_encode())),
        decreases n - slot,
    {
        let b = steps[slot].encode();
        w.push((REG_WAV_FRM_SEQ1 + slot as u8, b));
        slot = slot + 1;
    }
    if slot < 8 {
        w.push((REG_WAV_FRM_SEQ1 + slot as u8, 0));
    }
    w
}

/// Whether playback is still running, from the GO register.
pub fn is_playing(go: u8) -> (r: bool)
    ensures
        r == (go & 0x01 != 0),
{
    go & 0x01 != 0
}

/// FEEDBACK_CTRL and CONTROL3 after selecting `actuator`: N_ERM_LRA
/// picks ERM or LRA, and the type's open-loop bit (ERM_OPEN_LOOP or
/// LRA_OPEN_LOOP) selects the loop.
pub fn actuator_bits(actuator: Actuator, feedback: u8, control3: u8) -> (r: (u8, u8))
    ensures
        r == (match actuator {
            Actuator::ErmOpenLoop => (feedback & 0x7F, control3 | 0x20),
            Actuator::ErmClosedLoop => (feedback & 0x7F, control3 & !0x20u8),
            Actuator::Lra => (feedback | 0x80, control3 & !0x01u8),
            Actuator::LraOpenLoop => (feedback | 0x80, control3 | 0x01),
        }),
{
    match actuator {
        Actuator::ErmOpenLoop => (feedback & 0x7F, control3 | 0x20),
        Actuator::ErmClosedLoop => (feedback & 0x7F, control3 & !0x20u8),
        Actuator::Lra => (feedback | 0x80, control3 & !0x01u8),
        Actuator::LraOpenLoop => (feedback | 0x80, control3 | 0x01),
    }
}

/// LIBRARY_SEL after selecting `library` (low three bits), keeping HI_Z.
pub fn library_bits(cur: u8, library: u8) -> (v: u8)
    ensures
        v == (cur & !0x07u8) | (library & 0x07),
{
    (cur & !0x07u8) | (library & 0x07)
}

/// `cur` with the bits of `bit` set when `on`, cleared otherwise (the
/// single-flag settings: HI_Z, DATA_FORMAT_RTP, STARTUP_BOOST,
/// BIDIR_INPUT, BRAKE_STABILIZER, LRA_DRIVE_MODE).
pub fn flag_bits(cur: u8, bit: u8, on: bool) -> (v: u8)
    ensures
        v == (if on { cur | bit } else { cur & !bit }),
{
    if on { cur | bit } else { cur & !bit }
}

/// `cur` with the field `width_mask << shift` replaced by `value`
/// (truncated to the field), the multi-bit settings.
pub fn field_bits(cur: u8, shift: u8, width_mask: u8, value: u8) -> (v: u8)
    requires
        shift < 8,
    ensures
        v == (cur & !((width_mask << shift) as u8)) | (((value & width_mask) << shift) as u8),
{
    (cur & !(width_mask << shift)) | ((value & width_mask) << shift)
}

/// MODE value of the explicit standby control.
pub fn standby_mode(standby: bool) -> (v: u8)
    ensures
        v == (if standby { MODE_STANDBY } else { MODE_INTERNAL_TRIGGER }),
{
    if standby { MODE_STANDBY } else { MODE_INTERNAL_TRIGGER }
}

/// Whether a software reset has completed (DEV_RESET self-cleared).
pub fn reset_done(mode: u8) -> (r: bool)
    ensures
        r == (mode & MODE_DEV_RESET == 0),
{
    mode & MODE_DEV_RESET == 0
}

/// Register byte of a time offset: the offset in two's complement.
pub fn offset_byte(value: i8) -> (b: u8)
    ensures
        b == (if value >= 0 { value as int } else { value + 256 }),
{
    let b = value as u8;
    assert(b == (if value >= 0 { value as int } else { value + 256 })) by (bit_vector)
        requires b == value as u8;
    b
}

/// MODE value of the external trigger: level-follow (2) or edge (1).
pub fn external_trigger_mode(level: bool) -> (v: u8)
    ensures
        v == (if level { 2u8 } else { 1u8 }),
{
    if level { 0x02 } else { 0x01 }
}

/// ATH_CTRL from the peak-detect time and low-pass filter settings.
pub fn ath_ctrl(peak_time: u8, filter: u8) -> (v: u8)
    ensures
        v == (((peak_time & 0x03) << 2) as u8) | (filter & 0x03),
{
    ((peak_time & 0x03) << 2) | (filter & 0x03)
}

/// FEEDBACK_CTRL for calibration: FB_BRAKE_FACTOR = 2 and LOOP_GAIN = 2,
/// keeping N_ERM_LRA and BEMF_GAIN.
pub fn autocal_feedback(feedback: u8) -> (v: u8)
    ensures
        v == (feedback & 0x83) | 0x20 | 0x08,
{
    (feedback & 0x83) | 0x20 | 0x08
}

/// CONTROL4 for calibration: AUTO_CAL_TIME = 3, keeping the OTP bits.
pub fn autocal_control4(control4: u8) -> (v: u8)
    ensures
        v == (control4 & !0x30u8) | 0x30,
{
    (control4 & !0x30u8) | 0x30
}

/// Whether the last calibration or diagnostic succeeded (DIAG_RESULT
/// clear in STATUS).
pub fn diag_passed(status: u8) -> (r: bool)
    ensures
        r == (status & STATUS_DIAG_RESULT == 0),
{
    status & STATUS_DIAG_RESULT == 0
}

/// Calibration results from the registers read after a calibration run:
/// `None` if it did not converge.
pub fn calibration_result(status: u8, compensation: u8, back_emf: u8, feedback: u8) -> (r: Option<Calibration>)
    ensures
        r is Some <==> status & STATUS_DIAG_RESULT == 0,
        r matches Some(c) ==> c == (Calibration { compensation, back_emf, bemf_gain: feedback & 0x03 }),
{
    if diag_passed(status) {
        Some(Calibration { compensation, back_emf, bemf_gain: feedback & 0x03 })
    } else {
        None
    }
}

/// FEEDBACK_CTRL with a saved BEMF_GAIN restored.
pub fn restore_feedback(feedback: u8, cal: &Calibration) -> (v: u8)
    ensures
        v == (feedback & !0x03u8) | (cal.bemf_gain & 0x03),
{
    (feedback & !0x03u8) | (cal.bemf_gain & 0x03)
}

/// Supply voltage in millivolts from the VBAT reading (VDD = VBAT x
/// 5.6 V / 255, rounded down).
pub fn vbat_mv(raw: u8) -> (mv: u16)
    ensures
        mv == raw * 5600 / 255,
{
    let r = raw as u32;
    assert(r * 5600 / 255 <= 5600) by (nonlinear_arith)
        requires r <= 255;
    (r * 5600 / 255) as u16
}

/// LRA resonance in hertz from the LRA_PERIOD reading (period = value x
/// 98.46 us); 0 when unmeasured.
pub fn lra_resonance_hz(period: u8) -> (hz: u16)
    ensures
        period == 0 ==> hz == 0,
        period != 0 ==> hz == 10157int / (period as int),
{
    if period == 0 {
        return 0;
    }
    let p = period as u32;
    assert(10157u32 / p <= 10157) by (nonlinear_arith)
        requires p >= 1;
    (10157 / p) as u16
}

/// Restoring a calibration keeps every FEEDBACK_CTRL bit except
/// BEMF_GAIN, and a calibration read back after restoring it carries
/// the same BEMF_GAIN.
pub proof fn lemma_restore_round_trip(feedback: u8, gain: u8)
    ensures
        ((feedback & !0x03u8) | (gain & 0x03)) & 0x03 == gain & 0x03,
        ((feedback & !0x03u8) | (gain & 0x03)) & !0x03u8 == feedback & !0x03u8,
{
    assert(((feedback & !0x03u8) | (gain & 0x03)) & 0x03 == gain & 0x03) by (bit_vector);
    assert(((feedback & !0x03u8) | (gain & 0x03)) & !0x03u8 == feedback & !0x03u8) by (bit_vector);
}

/// A programmed sequence never uses more than the eight slots plus
/// nothing beyond them, and always ends in a zero slot when shorter.
pub proof fn lemma_sequence_fits(steps: Seq<SequenceStep>)
    ensures
        spec_sequence_writes(steps).len() <= 8,
        steps.len() < 8 ==> spec_sequence_writes(steps).len() == steps.len() + 1
            && spec_sequence_writes(steps).last().1 == 0,
{
}

} // verus!
