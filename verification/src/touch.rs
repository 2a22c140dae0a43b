//! Capacitive touch controllers: the FT3168 and the CST9217. The bus
//! transactions are made by the caller, which hands the bytes it read
//! (or `None` when a transaction failed) to the drivers here; they
//! decode the report and track whether a finger is down so that a
//! lift-off is reported exactly once.

use vstd::prelude::*;

verus! {

// ---- Shared ----------------------------------------------------------------------

/// A touch reading.
#[derive(Debug, Clone, Copy, PartialEq, Eq, Structural)]
pub enum TouchEvent {
    /// Finger down or dragging, at panel coordinates (x, y).
    Pressed { x: u16, y: u16 },
    /// All fingers lifted (first reading without contact after a press).
    Released,
    /// No touch and no recent lift: nothing to report.
    Nothing,
}

// ---- FT3168 ------------------------------------------------------------------------

/// Default I2C address of the FT3168.
pub const ADDR: u8 = 0x38;

/// Touch point count register (count in bits 3:0).
pub const REG_TD_STATUS: u8 = 0x02;

/// First point's X high byte; X low, Y high and Y low follow.
pub const REG_P1_XH: u8 = 0x03;

/// Chip ID register (0x54 for the FT3168).
pub const REG_CHIP_ID: u8 = 0xA3;

/// Power-mode register.
pub const REG_POWER_MODE: u8 = 0xA5;

/// Firmware version register.
pub const REG_FW_VER: u8 = 0xA6;

/// Operating mode of the FT3168, written to [`REG_POWER_MODE`].
#[derive(Debug, Clone, Copy, PartialEq, Eq, Structural)]
pub enum PowerMode {
    /// Full scanning with coordinates.
    Active,
    /// Slow scan for presence only; wakes to Active on touch.
    Monitor,
    /// Not scanning.
    Standby,
    /// Deepest sleep; only a reset wakes it.
    Hibernate,
}

impl PowerMode {
    /// The register value of the mode.
    pub open spec fn spec_bits(self) -> u8 {
        match self {
            PowerMode::Active => 0x00,
            PowerMode::Monitor => 0x01,
            PowerMode::Standby => 0x02,
            PowerMode::Hibernate => 0x03,
        }
    }

    /// The register value of the mode.
    pub fn bits(self) -> (b: u8)
        ensures
            b == self.spec_bits(),
    {
        match self {
            PowerMode::Active => 0x00,
            PowerMode::Monitor => 0x01,
            PowerMode::Standby => 0x02,
            PowerMode::Hibernate => 0x03,
        }
    }
}

/// Panel coordinate from a high byte (bits 3:0 used) and a low byte.
pub open spec fn spec_coord12(hi: u8, lo: u8) -> u16 {
    ((hi & 0x0F) as int * 256 + lo) as u16
}

fn coord12(hi: u8, lo: u8) -> (c: u16)
    ensures
        c == spec_coord12(hi, lo),
{
    let c = (((hi & 0x0F) as u16) << 8) | (lo as u16);
    assert(c == ((hi & 0x0F) as int * 256 + lo) as u16) by (bit_vector)
        requires c == (((hi & 0x0F) as u16) << 8) | (lo as u16);
    c
}

/// The FT3168's reading and pressed state after a poll: `td_status` is
/// the count register (or `None` if that read failed) and `point` the
/// four coordinate bytes (or `None` if that read failed or was not made).
pub open spec fn spec_ft3168_read(was_pressed: bool, td_status: Option<u8>, point: Option<[u8; 4]>) -> (bool, TouchEvent) {
    match td_status {
        None => (was_pressed, TouchEvent::Nothing),
        Some(s) => {
            if s & 0x0F == 0 {
                if was_pressed { (false, TouchEvent::Released) } else { (false, TouchEvent::Nothing) }
            } else {
                match point {
                    None => (was_pressed, TouchEvent::Nothing),
                    Some(b) => (true, TouchEvent::Pressed { x: spec_coord12(b[0], b[1]), y: spec_coord12(b[2], b[3]) }),
                }
            }
        },
    }
}

/// FT3168 driver: owns the reset line and remembers whether a finger was
/// down at the last reading.
pub struct FT3168<RST> {
    reset: RST,
    was_pressed: bool,
}

impl<RST> FT3168<RST> {
    pub closed spec fn spec_pressed(&self) -> bool {
        self.was_pressed
    }

    /// A driver owning the reset pin, with no finger down.
    pub fn new(reset: RST) -> (d: Self)
        ensures
            !d.spec_pressed(),
            d.spec_reset() == reset,
    {
        FT3168 { reset, was_pressed: false }
    }

    /// Whether the last reading saw a finger on the screen.
    pub fn is_pressed(&self) -> (r: bool)
        ensures
            r == self.spec_pressed(),
    {
        self.was_pressed
    }

    /// Whether the count register reports any touch point, i.e. whether
    /// the coordinate bytes should be read next.
    pub fn has_points(td_status: u8) -> (r: bool)
        ensures
            r == (td_status & 0x0F != 0),
    {
        td_status & 0x0F != 0
    }

    /// Decode one poll: the count register and, when the count is not
    /// zero, the first point's four coordinate bytes. A lift-off is
    /// reported once, on the first empty count after a press; a failed
    /// read reports nothing and keeps the state.
    pub fn read_from(&mut self, td_status: Option<u8>, point: Option<[u8; 4]>) -> (ev: TouchEvent)
        ensures
            (final(self).spec_pressed(), ev) == spec_ft3168_read(old(self).spec_pressed(), td_status, point),
    {
        let count = match td_status {
            Some(v) => v & 0x0F,
            None => return TouchEvent::Nothing,
        };
        if count == 0 {
            if self.was_pressed {
                self.was_pressed = false;
                return TouchEvent::Released;
            }
            return TouchEvent::Nothing;
        }
        match point {
            None => TouchEvent::Nothing,
            Some(buf) => {
                let x = coord12(buf[0], buf[1]);
                let y = coord12(buf[2], buf[3]);
                self.was_pressed = true;
                TouchEvent::Pressed { x, y }
            },
        }
    }
}

impl<RST> FT3168<RST> {
    pub closed spec fn spec_reset(&self) -> RST {
        self.reset
    }

    /// The reset line, for the caller to drive: high is inactive, low
    /// resets the controller.
    pub fn reset_mut(&mut self) -> (r: &mut RST)
        ensures
            *r == old(self).spec_reset(),
            final(self).spec_pressed() == old(self).spec_pressed(),
            final(self).spec_reset() == *final(r),
    {
        &mut self.reset
    }
}

/// A lift-off is reported exactly once: after a press, an empty count
/// gives `Released`, and a second empty count gives nothing.
pub proof fn lemma_ft3168_release_once(s1: u8, s2: u8)
    requires
        s1 & 0x0F == 0,
        s2 & 0x0F == 0,
    ensures
        ({
            let (p1, e1) = spec_ft3168_read(true, Some(s1), None);
            let (p2, e2) = spec_ft3168_read(p1, Some(s2), None);
            &&& e1 == TouchEvent::Released
            &&& !p1
            &&& e2 == TouchEvent::Nothing
            &&& !p2
        }),
{
}

/// Only a driver that had a finger down reports a release, and a
/// release always clears the pressed state.
pub proof fn lemma_ft3168_release_needs_press(was: bool, s: Option<u8>, p: Option<[u8; 4]>)
    ensures
        spec_ft3168_read(was, s, p).1 == TouchEvent::Released ==> was && !spec_ft3168_read(was, s, p).0,
        spec_ft3168_read(was, s, p).1 is Pressed ==> spec_ft3168_read(was, s, p).0,
{
}

// ---- CST9217 -----------------------------------------------------------------------

/// Runtime I2C address of the CST9217.
pub const CST9217_ADDR: u8 = 0x1A;

/// Chip ID of the CST9217.
pub const CHIP_ID_CST9217: u16 = 0x9217;

/// Chip ID of the CST9220.
pub const CHIP_ID_CST9220: u16 = 0x9220;

/// Byte that acknowledges (and marks as consumed) a report window.
pub const ACK: u8 = 0xAB;

/// Length of the report window read.
pub const REPORT_LEN: usize = 15;

/// Consecutive empty windows while pressed after which a lift-off is
/// assumed lost and a release is synthesized.
pub const EMPTY_READS_RELEASE: u8 = 25;

/// Start of the touch report window (16-bit register address).
pub const REG_READ: u16 = 0xD000;

/// Command mode (identity registers readable).
pub const REG_CMD_MODE: u16 = 0xD101;

/// Deep-sleep command.
pub const REG_SLEEP: u16 = 0xD105;

/// Normal reporting mode command.
pub const REG_NORMAL: u16 = 0xD109;

/// Pre-mode-switch handshake command.
pub const REG_MODE_LATCH: u16 = 0xD11E;

/// Identity check code.
pub const REG_CHECKCODE: u16 = 0xD1FC;

/// Configured touch resolution.
pub const REG_RESOLUTION: u16 = 0xD1F8;

/// Chip type and project id.
pub const REG_CHIP_TYPE: u16 = 0xD204;

/// Firmware version.
pub const REG_FW_VERSION: u16 = 0xD208;

/// Read-back of the last mode command, used by the handshake.
pub const REG_MODE_ECHO: u16 = 0x0002;

/// Firmware version value of a chip without firmware.
pub const NO_FIRMWARE: u32 = 0xA5A5_A5A5;

/// Whether the mode read-back shows that `cmd` took effect: its second
/// byte echoes the command's low byte.
pub fn mode_echoed(echo1: u8, cmd: u16) -> (r: bool)
    ensures
        r == (echo1 == (cmd % 256) as u8),
{
    echo1 == (cmd % 256) as u8
}

/// Identity read out of the chip at start-up.
#[derive(Debug, Clone, Copy, PartialEq, Eq, Structural)]
pub struct Info {
    pub chip_id: u16,
    pub project_id: u16,
    pub fw_version: u32,
    /// Touch matrix resolution configured in the chip's firmware.
    pub res_x: u16,
    pub res_y: u16,
}

/// Little-endian 16-bit value of two bytes.
pub open spec fn spec_le16(b0: u8, b1: u8) -> u16 {
    (b0 + b1 * 256) as u16
}

/// Little-endian 32-bit value of four bytes.
pub open spec fn spec_le32(b0: u8, b1: u8, b2: u8, b3: u8) -> u32 {
    (b0 + b1 * 256 + b2 * 65536 + b3 * 16777216) as u32
}

fn le16(b0: u8, b1: u8) -> (v: u16)
    ensures
        v == spec_le16(b0, b1),
{
    let v = (b0 as u16) | ((b1 as u16) << 8);
    assert(v == b0 + b1 * 256) by (bit_vector)
        requires v == (b0 as u16) | ((b1 as u16) << 8);
    v
}

fn le32(b0: u8, b1: u8, b2: u8, b3: u8) -> (v: u32)
    ensures
        v == spec_le32(b0, b1, b2, b3),
{
    let v = (b0 as u32) | ((b1 as u32) << 8) | ((b2 as u32) << 16) | ((b3 as u32) << 24);
    assert(v == b0 + b1 * 256 + b2 * 65536 + b3 * 16777216) by (bit_vector)
        requires v == (b0 as u32) | ((b1 as u32) << 8) | ((b2 as u32) << 16) | ((b3 as u32) << 24);
    v
}

/// Validate the identity registers read after entering command mode
/// (checkcode, resolution, chip type, firmware version): the chip must
/// have firmware, a checkcode with the 0xCACA signature in its upper
/// half, and a CST9217 or CST9220 chip ID.
pub fn identify(checkcode: [u8; 4], resolution: [u8; 4], chip_type: [u8; 4], firmware: [u8; 8]) -> (r: Result<Info, ()>)
    ensures
        ({
            let code = spec_le32(checkcode[0], checkcode[1], checkcode[2], checkcode[3]);
            let fw = spec_le32(firmware[0], firmware[1], firmware[2], firmware[3]);
            let chip = spec_le16(chip_type[2], chip_type[3]);
            &&& r is Ok <==> (fw != NO_FIRMWARE && code & 0xFFFF_0000 == 0xCACA_0000 && (chip == CHIP_ID_CST9217
                || chip == CHIP_ID_CST9220))
            &&& r matches Ok(info) ==> info == (Info {
                chip_id: chip,
                project_id: spec_le16(chip_type[0], chip_type[1]),
                fw_version: fw,
                res_x: spec_le16(resolution[0], resolution[1]),
                res_y: spec_le16(resolution[2], resolution[3]),
            })
        }),
{
    let code = le32(checkcode[0], checkcode[1], checkcode[2], checkcode[3]);
    let res_x = le16(resolution[0], resolution[1]);
    let res_y = le16(resolution[2], resolution[3]);
    let project_id = le16(chip_type[0], chip_type[1]);
    let chip_id = le16(chip_type[2], chip_type[3]);
    let fw_version = le32(firmware[0], firmware[1], firmware[2], firmware[3]);
    if fw_version == NO_FIRMWARE {
        return Err(());
    }
    if (code & 0xFFFF_0000) != 0xCACA_0000 {
        return Err(());
    }
    if chip_id != CHIP_ID_CST9217 && chip_id != CHIP_ID_CST9220 {
        return Err(());
    }
    Ok(Info { chip_id, project_id, fw_version, res_x, res_y })
}

/// Whether a report window holds no new report since the last
/// acknowledgement.
pub open spec fn spec_window_empty(b: [u8; 15]) -> bool {
    b[0] == ACK || b[6] != ACK || b[0] == 0
}

/// Whether a fresh report describes a finger in contact: no cover
/// gesture flag, one or two points, and the contact event (6).
pub open spec fn spec_report_contact(b: [u8; 15]) -> bool {
    &&& b[4] & 0x80 == 0
    &&& 1 <= b[5] & 0x7F <= 2
    &&& b[0] & 0x0F == 0x06
}

/// X of the first point: high byte and the upper nibble of the packed byte.
pub open spec fn spec_report_x(b: [u8; 15]) -> u16 {
    (b[1] * 16 + b[3] / 16) as u16
}

/// Y of the first point: high byte and the lower nibble of the packed byte.
pub open spec fn spec_report_y(b: [u8; 15]) -> u16 {
    (b[2] * 16 + b[3] % 16) as u16
}

/// The CST9217's pressed state, empty-window count and reading after a
/// poll of the report window (`None` when the read or its
/// acknowledgement failed).
pub open spec fn spec_cst9217_read(was_pressed: bool, empty_reads: u8, report: Option<[u8; 15]>) -> (bool, u8, TouchEvent) {
    match report {
        None => (was_pressed, empty_reads, TouchEvent::Nothing),
        Some(b) => {
            if spec_window_empty(b) {
                if was_pressed {
                    if empty_reads + 1 >= EMPTY_READS_RELEASE {
                        (false, 0, TouchEvent::Released)
                    } else {
                        (true, (empty_reads + 1) as u8, TouchEvent::Nothing)
                    }
                } else {
                    (false, empty_reads, TouchEvent::Nothing)
                }
            } else if spec_report_contact(b) {
                (true, 0, TouchEvent::Pressed { x: spec_report_x(b), y: spec_report_y(b) })
            } else if was_pressed {
                (false, 0, TouchEvent::Released)
            } else {
                (false, 0, TouchEvent::Nothing)
            }
        },
    }
}

/// CST9217 driver state.
pub struct Cst9217 {
    was_pressed: bool,
    /// Consecutive polls that found no new report while pressed.
    empty_reads: u8,
}

impl Default for Cst9217 {
    fn default() -> (d: Self)
        ensures
            d.wf(),
            !d.spec_pressed(),
            d.spec_empty_reads() == 0,
    {
        Cst9217::new()
    }
}

impl Cst9217 {
    pub closed spec fn spec_pressed(&self) -> bool {
        self.was_pressed
    }

    pub closed spec fn spec_empty_reads(&self) -> u8 {
        self.empty_reads
    }

    /// The empty-window count stays below the release threshold.
    pub closed spec fn wf(&self) -> bool {
        self.empty_reads < EMPTY_READS_RELEASE
    }

    /// A driver with no finger down.
    pub fn new() -> (d: Self)
        ensures
            d.wf(),
            !d.spec_pressed(),
            d.spec_empty_reads() == 0,
    {
        Cst9217 { was_pressed: false, empty_reads: 0 }
    }

    /// Whether the last reading saw a finger on the screen.
    pub fn is_pressed(&self) -> (r: bool)
        ensures
            r == self.spec_pressed(),
    {
        self.was_pressed
    }

    /// Decode one poll of the report window. An empty window is not a
    /// lift-off (polling can outpace the chip's report rate); only after
    /// [`EMPTY_READS_RELEASE`] empty windows in a row while pressed is a
    /// release synthesized. A fresh report either shows the first
    /// finger's position or ends the touch.
    pub fn read_from(&mut self, report: Option<[u8; 15]>) -> (ev: TouchEvent)
        requires
            old(self).wf(),
        ensures
            final(self).wf(),
            (final(self).spec_pressed(), final(self).spec_empty_reads(), ev) == spec_cst9217_read(
                old(self).spec_pressed(),
                old(self).spec_empty_reads(),
                report,
            ),
    {
        let buf = match report {
            Some(b) => b,
            None => return TouchEvent::Nothing,
        };
        if buf[0] == ACK || buf[6] != ACK || buf[0] == 0x00 {
            if self.was_pressed {
                self.empty_reads = self.empty_reads + 1;
                if self.empty_reads >= EMPTY_READS_RELEASE {
                    self.was_pressed = false;
                    self.empty_reads = 0;
                    return TouchEvent::Released;
                }
            }
            return TouchEvent::Nothing;
        }
        self.empty_reads = 0;
        let count = buf[5] & 0x7F;
        let event = buf[0] & 0x0F;
        let x = ((buf[1] as u16) << 4) | ((buf[3] as u16) >> 4);
        let y = ((buf[2] as u16) << 4) | ((buf[3] as u16) & 0x0F);
        let (b1, b2, b3) = (buf[1], buf[2], buf[3]);
        assert(x == b1 * 16 + b3 / 16 && y == b2 * 16 + b3 % 16) by (bit_vector)
            requires
                x == ((b1 as u16) << 4) | ((b3 as u16) >> 4),
                y == ((b2 as u16) << 4) | ((b3 as u16) & 0x0F),
        ;
        if (buf[4] & 0x80) != 0 || count == 0 || count > 2 || event != 0x06 {
            if self.was_pressed {
                self.was_pressed = false;
                return TouchEvent::Released;
            }
            return TouchEvent::Nothing;
        }
        self.was_pressed = true;
        TouchEvent::Pressed { x, y }
    }
}

/// The acknowledgement written after reading a report window: the
/// window's 16-bit address, high byte first, then [`ACK`].
pub fn report_ack() -> (b: [u8; 3])
    ensures
        b@ == seq![0xD0u8, 0x00u8, ACK],
{
    let b = [0xD0u8, 0x00u8, ACK];
    assert(b@ =~= seq![0xD0u8, 0x00u8, ACK]);
    b
}

/// Only a driver with a finger down reports a release, and a release
/// always clears the pressed state and the empty-window count.
pub proof fn lemma_cst9217_release_needs_press(was: bool, empty: u8, report: Option<[u8; 15]>)
    requires
        empty < EMPTY_READS_RELEASE,
    ensures
        spec_cst9217_read(was, empty, report).2 == TouchEvent::Released ==> was
            && !spec_cst9217_read(was, empty, report).0 && spec_cst9217_read(was, empty, report).1 == 0,
        spec_cst9217_read(was, empty, report).1 < EMPTY_READS_RELEASE,
{
}

/// A pressed driver that keeps seeing empty windows stays pressed for
/// the first 24 of them and releases on the 25th.
pub proof fn lemma_cst9217_empty_windows_release(empty: u8, b: [u8; 15])
    requires
        empty < EMPTY_READS_RELEASE,
        spec_window_empty(b),
    ensures
        empty + 1 < EMPTY_READS_RELEASE ==> spec_cst9217_read(true, empty, Some(b)) == (true, (empty + 1) as u8, TouchEvent::Nothing),
        empty + 1 == EMPTY_READS_RELEASE ==> spec_cst9217_read(true, empty, Some(b)) == (false, 0u8, TouchEvent::Released),
{
}

} // verus!
