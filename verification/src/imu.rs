//! QMI8658 six-axis IMU: the driver's state, decoding a sample burst with
//! the software gyro bias, averaging still samples into a bias, and the
//! fixed-point offsets the chip's host-delta calibration takes.

use vstd::prelude::*;

use crate::layout::spec_trunc_div;

verus! {

/// One sample: temperature, accelerometer and gyroscope, raw counts.
#[derive(Debug, Clone, Copy, PartialEq, Eq, Structural)]
pub struct ImuData {
    pub temp_raw: i16,
    pub accel_x: i16,
    pub accel_y: i16,
    pub accel_z: i16,
    pub gyro_x: i16,
    pub gyro_y: i16,
    pub gyro_z: i16,
}

/// The little-endian two's-complement 16-bit value of `(lo, hi)`.
pub open spec fn spec_le_i16(lo: u8, hi: u8) -> int {
    if hi < 128 { hi * 256 + lo } else { hi * 256 + lo - 65536 }
}

/// A little-endian 16-bit register pair as a signed count.
pub fn le_i16(lo: u8, hi: u8) -> (v: i16)
    ensures
        v == spec_le_i16(lo, hi),
{
    if hi < 128 {
        (hi as i16) * 256 + lo as i16
    } else {
        ((hi as i32) * 256 + lo as i32 - 65536) as i16
    }
}

/// `a - b` held to the 16-bit range.
pub open spec fn spec_sat_sub(a: i16, b: i16) -> int {
    let d = a - b;
    if d < i16::MIN { i16::MIN as int } else if d > i16::MAX { i16::MAX as int } else { d }
}

/// `a - b`, saturating at the 16-bit range.
pub fn sat_sub(a: i16, b: i16) -> (r: i16)
    ensures
        r == spec_sat_sub(a, b),
{
    let d = a as i32 - b as i32;
    if d < -32768 {
        -32768
    } else if d > 32767 {
        32767
    } else {
        d as i16
    }
}

/// A sample from the 14-byte burst starting at the temperature register
/// (temperature, accel X/Y/Z, gyro X/Y/Z, each little-endian), with the
/// gyro bias subtracted (saturating).
pub open spec fn spec_decode_sample(buf: [u8; 14], bias: (i16, i16, i16)) -> ImuData {
    ImuData {
        temp_raw: spec_le_i16(buf[0], buf[1]) as i16,
        accel_x: spec_le_i16(buf[2], buf[3]) as i16,
        accel_y: spec_le_i16(buf[4], buf[5]) as i16,
        accel_z: spec_le_i16(buf[6], buf[7]) as i16,
        gyro_x: spec_sat_sub(spec_le_i16(buf[8], buf[9]) as i16, bias.0) as i16,
        gyro_y: spec_sat_sub(spec_le_i16(buf[10], buf[11]) as i16, bias.1) as i16,
        gyro_z: spec_sat_sub(spec_le_i16(buf[12], buf[13]) as i16, bias.2) as i16,
    }
}

/// Decode a sample burst.
pub fn decode_sample(buf: [u8; 14], bias: (i16, i16, i16)) -> (d: ImuData)
    ensures
        d == spec_decode_sample(buf, bias),
{
    ImuData {
        temp_raw: le_i16(buf[0], buf[1]),
        accel_x: le_i16(buf[2], buf[3]),
        accel_y: le_i16(buf[4], buf[5]),
        accel_z: le_i16(buf[6], buf[7]),
        gyro_x: sat_sub(le_i16(buf[8], buf[9]), bias.0),
        gyro_y: sat_sub(le_i16(buf[10], buf[11]), bias.1),
        gyro_z: sat_sub(le_i16(buf[12], buf[13]), bias.2),
    }
}

/// Sum of axis `axis` (0 = X, 1 = Y, 2 = Z) over the first `k` gyro
/// bursts (six bytes each, X/Y/Z little-endian).
pub open spec fn spec_axis_sum(samples: Seq<[u8; 6]>, axis: int, k: int) -> int
    decreases k,
{
    if k <= 0 {
        0
    } else {
        spec_axis_sum(samples, axis, k - 1) + spec_le_i16(samples[k - 1][2 * axis], samples[k - 1][2 * axis + 1])
    }
}

proof fn lemma_axis_sum_bounds(samples: Seq<[u8; 6]>, axis: int, k: int)
    requires
        0 <= axis < 3,
        0 <= k <= samples.len(),
    ensures
        -32768 * k <= spec_axis_sum(samples, axis, k) <= 32767 * k,
    decreases k,
{
    if k > 0 {
        lemma_axis_sum_bounds(samples, axis, k - 1);
    }
}

/// The gyro bias of still samples: each axis's mean, rounded toward zero.
pub open spec fn spec_gyro_bias(samples: Seq<[u8; 6]>) -> (i16, i16, i16) {
    let n = samples.len() as int;
    (
        spec_trunc_div(spec_axis_sum(samples, 0, n), n) as i16,
        spec_trunc_div(spec_axis_sum(samples, 1, n), n) as i16,
        spec_trunc_div(spec_axis_sum(samples, 2, n), n) as i16,
    )
}

/// Average gyro bursts taken while the board is still into a bias.
pub fn gyro_bias(samples: &[[u8; 6]]) -> (b: (i16, i16, i16))
    requires
        0 < samples@.len() <= 255,
    ensures
        b == spec_gyro_bias(samples@),
{
    let n = samples.len();
    let mut sx: i32 = 0;
    let mut sy: i32 = 0;
    let mut sz: i32 = 0;
    let mut i: usize = 0;
    while i < n
        invariant
            0 <= i <= n,
            n == samples@.len(),
            n <= 255,
            sx == spec_axis_sum(samples@, 0, i as int),
            sy == spec_axis_sum(samples@, 1, i as int),
            sz == spec_axis_sum(samples@, 2, i as int),
        decreases n - i,
    {
        proof {
            lemma_axis_sum_bounds(samples@, 0, i as int);
            lemma_axis_sum_bounds(samples@, 1, i as int);
            lemma_axis_sum_bounds(samples@, 2, i as int);
        }
        let s = samples[i];
        sx = sx + le_i16(s[0], s[1]) as i32;
        sy = sy + le_i16(s[2], s[3]) as i32;
        sz = sz + le_i16(s[4], s[5]) as i32;
        i = i + 1;
    }
    let d = n as i32;
    ((sx / d) as i16, (sy / d) as i16, (sz / d) as i16)
}

/// The host-delta calibration value of a raw gyro bias: 11.5 fixed point
/// in degrees per second, `bias * 32 / lsb_per_dps` rounded toward zero,
/// kept to 16 bits.
pub open spec fn spec_delta_offset(bias: i16, lsb_per_dps: u16) -> i16 {
    spec_trunc_div(bias * 32, lsb_per_dps as int) as i16
}

/// Convert a raw gyro bias to the host-delta calibration value.
pub fn delta_offset(bias: i16, lsb_per_dps: u16) -> (d: i16)
    requires
        lsb_per_dps > 0,
    ensures
        d == spec_delta_offset(bias, lsb_per_dps),
{
    ((bias as i32 * 32) / lsb_per_dps as i32) as i16
}

/// The six calibration register bytes (X, Y, Z; low byte first) of a
/// delta offset triple.
pub open spec fn spec_cal_bytes(dx: i16, dy: i16, dz: i16) -> Seq<u8> {
    seq![
        (dx as u16 % 256) as u8,
        (dx as u16 / 256) as u8,
        (dy as u16 % 256) as u8,
        (dy as u16 / 256) as u8,
        (dz as u16 % 256) as u8,
        (dz as u16 / 256) as u8,
    ]
}

/// Bytes to write to CAL1_L..CAL3_H.
pub fn cal_bytes(dx: i16, dy: i16, dz: i16) -> (b: [u8; 6])
    ensures
        b@ == spec_cal_bytes(dx, dy, dz),
{
    let x = dx as u16;
    let y = dy as u16;
    let z = dz as u16;
    let b = [(x % 256) as u8, (x / 256) as u8, (y % 256) as u8, (y / 256) as u8, (z % 256) as u8, (z / 256) as u8];
    proof {
        assert(b@ =~= spec_cal_bytes(dx, dy, dz));
    }
    b
}

/// Default I2C address (SDO/SA0 tied low).
pub const ADDR: u8 = 0x6B;

/// QMI8658 driver state: the I2C address and the software gyro bias
/// subtracted from every sample.
pub struct Qmi8658 {
    addr: u8,
    gyro_bias: (i16, i16, i16),
}

impl Qmi8658 {
    pub closed spec fn spec_address(&self) -> u8 {
        self.addr
    }

    pub closed spec fn spec_gyro_bias(&self) -> (i16, i16, i16) {
        self.gyro_bias
    }

    /// A driver at `address` with no gyro bias.
    pub fn new(address: u8) -> (d: Self)
        ensures
            d.spec_address() == address,
            d.spec_gyro_bias() == (0i16, 0i16, 0i16),
    {
        Qmi8658 { addr: address, gyro_bias: (0, 0, 0) }
    }

    /// The I2C address every transaction goes to.
    pub fn address(&self) -> (a: u8)
        ensures
            a == self.spec_address(),
    {
        self.addr
    }

    /// Store the gyro bias subtracted from every later sample.
    pub fn set_gyro_bias(&mut self, bias_x: i16, bias_y: i16, bias_z: i16)
        ensures
            final(self).spec_gyro_bias() == (bias_x, bias_y, bias_z),
            final(self).spec_address() == old(self).spec_address(),
    {
        self.gyro_bias = (bias_x, bias_y, bias_z);
    }

    /// The stored gyro bias.
    pub fn gyro_bias(&self) -> (b: (i16, i16, i16))
        ensures
            b == self.spec_gyro_bias(),
    {
        self.gyro_bias
    }

    /// A sample from its 14-byte burst, with the stored bias subtracted.
    pub fn decode(&self, buf: [u8; 14]) -> (d: ImuData)
        ensures
            d == spec_decode_sample(buf, self.spec_gyro_bias()),
    {
        decode_sample(buf, self.gyro_bias)
    }
}

} // verus!
