//! XL9555 16-bit I2C GPIO expander: pin-to-register mapping and the
//! read-modify-write and 16-bit pair arithmetic of its driver. The bus
//! transactions themselves are made by the caller.
//!
//! Register map: 0x00/0x01 input, 0x02/0x03 output, 0x04/0x05 polarity
//! inversion, 0x06/0x07 direction (1 = input). Pins 0-7 live in the
//! low register of each pair, pins 8-15 in the high one.

use vstd::prelude::*;

verus! {

/// Default I2C address (A2..A0 strapped low).
pub const DEFAULT_ADDRESS: u8 = 0x20;

/// Input port 0.
pub const INPUT0: u8 = 0x00;

/// Output port 0.
pub const OUTPUT0: u8 = 0x02;

/// Output port 1.
pub const OUTPUT1: u8 = 0x03;

/// Polarity inversion port 0.
pub const POLARITY0: u8 = 0x04;

/// Configuration (direction) port 0.
pub const CONFIG0: u8 = 0x06;

/// Configuration (direction) port 1.
pub const CONFIG1: u8 = 0x07;

/// Driver error, generic over the bus error `E`.
#[derive(Debug)]
pub enum Error<E> {
    /// An I2C transaction failed; the inner value is the HAL's own error.
    I2c(E),
    /// A pin number outside 0-15 was given.
    InvalidPin,
}

/// XL9555 driver state: only the I2C address.
pub struct Xl9555 {
    addr: u8,
}

/// Driver configuration.
pub struct Config {
    /// I2C device address (default: [`DEFAULT_ADDRESS`]).
    pub address: u8,
}

impl Default for Config {
    fn default() -> (c: Self)
        ensures
            c.address == DEFAULT_ADDRESS,
    {
        Config { address: DEFAULT_ADDRESS }
    }
}

/// The output register, configuration register and bit mask of `pin`.
pub open spec fn spec_pin_regs(pin: u8) -> (u8, u8, u8) {
    if pin < 8 {
        (OUTPUT0, CONFIG0, (1u8 << pin) as u8)
    } else {
        (OUTPUT1, CONFIG1, (1u8 << ((pin - 8) as u8)) as u8)
    }
}

impl Xl9555 {
    /// A driver talking to `config.address`.
    pub fn new(config: Config) -> (x: Self)
        ensures
            x.spec_address() == config.address,
    {
        Xl9555 { addr: config.address }
    }

    pub closed spec fn spec_address(&self) -> u8 {
        self.addr
    }

    /// The I2C address the driver talks to.
    pub fn address(&self) -> (a: u8)
        ensures
            a == self.spec_address(),
    {
        self.addr
    }

    /// Output register, configuration register and bit mask of `pin`;
    /// `InvalidPin` above 15.
    pub fn pin_regs<E>(pin: u8) -> (r: Result<(u8, u8, u8), Error<E>>)
        ensures
            pin < 16 <==> r is Ok,
            r matches Ok(v) ==> v == spec_pin_regs(pin),
            r matches Err(e) ==> e is InvalidPin,
    {
        if pin < 8 {
            Ok((OUTPUT0, CONFIG0, 1u8 << pin))
        } else if pin < 16 {
            Ok((OUTPUT1, CONFIG1, 1u8 << (pin - 8)))
        } else {
            Err(Error::InvalidPin)
        }
    }
}

/// The register value after setting (or clearing) the bits of `mask`
/// in `cur`, and whether it differs (only then is it written back).
pub fn update_bits(cur: u8, mask: u8, set: bool) -> (r: (u8, bool))
    ensures
        r.0 == (if set { cur | mask } else { cur & !mask }),
        r.1 == (r.0 != cur),
{
    let new = if set { cur | mask } else { cur & !mask };
    (new, new != cur)
}

/// The input register matching an output register (two below it).
pub fn input_register(out_reg: u8) -> (r: u8)
    requires
        out_reg >= 2,
    ensures
        r == out_reg - 2,
{
    out_reg - 2
}

/// The polarity register matching an output register (two above it).
pub fn polarity_register(out_reg: u8) -> (r: u8)
    requires
        out_reg <= 253,
    ensures
        r == out_reg + 2,
{
    out_reg + 2
}

/// A 16-bit port value from its two registers, low register first.
pub fn pair_from_bytes(lo: u8, hi: u8) -> (v: u16)
    ensures
        v == lo + hi * 256,
{
    let v = (lo as u16) | ((hi as u16) << 8);
    assert(v == lo + hi * 256) by (bit_vector)
        requires v == (lo as u16) | ((hi as u16) << 8);
    v
}

/// The two register bytes of a 16-bit port value, low register first.
pub fn pair_to_bytes(v: u16) -> (b: (u8, u8))
    ensures
        b.0 == v % 256,
        b.1 == v / 256,
{
    let lo = (v & 0xFF) as u8;
    let hi = (v >> 8) as u8;
    assert(lo == v % 256 && hi == v / 256) by (bit_vector)
        requires lo == (v & 0xFF) as u8, hi == (v >> 8) as u8;
    (lo, hi)
}

/// Splitting a port value into its register bytes and joining them
/// again gives the value back.
pub proof fn lemma_pair_round_trip(v: u16)
    ensures
        (v % 256) + (v / 256) * 256 == v,
{
}

/// Setting a bit and clearing it again restores any register value
/// whose bit was clear; setting is idempotent.
pub proof fn lemma_update_bits(cur: u8, mask: u8)
    ensures
        (cur | mask) | mask == cur | mask,
        cur & mask == 0 ==> (cur | mask) & !mask == cur,
{
    assert((cur | mask) | mask == cur | mask) by (bit_vector);
    assert(cur & mask == 0 ==> (cur | mask) & !mask == cur) by (bit_vector);
}

} // verus!
