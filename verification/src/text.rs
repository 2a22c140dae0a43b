//! ASCII text of the numeric readouts: numbers as `{}` and `{:02}`
//! print them.

use vstd::prelude::*;

verus! {

/// ASCII code of the decimal digit `d`.
pub open spec fn spec_digit(d: int) -> u8 {
    (48 + d) as u8
}

/// `v` (non-negative) in decimal, without padding, as `{}` prints it.
pub open spec fn spec_dec(v: int) -> Seq<u8>
    decreases v,
{
    if v < 10 {
        seq![spec_digit(v)]
    } else {
        spec_dec(v / 10).push(spec_digit(v % 10))
    }
}

/// `v` (non-negative) in decimal, zero-padded to at least two digits, as
/// `{:02}` prints it.
pub open spec fn spec_pad2(v: int) -> Seq<u8> {
    if v < 10 {
        seq![48u8, spec_digit(v)]
    } else {
        spec_dec(v)
    }
}

/// Append `v` in decimal, without padding.
pub fn push_dec(out: &mut Vec<u8>, v: u64)
    ensures
        final(out)@ == old(out)@ + spec_dec(v as int),
    decreases v,
{
    if v >= 10 {
        push_dec(out, v / 10);
    }
    out.push((48 + v % 10) as u8);
    proof {
        if v < 10 {
            assert(v % 10 == v);
        }
        assert(out@ =~= old(out)@ + spec_dec(v as int));
    }
}

/// Append `v` in decimal, zero-padded to at least two digits.
pub fn push_pad2(out: &mut Vec<u8>, v: u64)
    ensures
        final(out)@ == old(out)@ + spec_pad2(v as int),
{
    if v < 10 {
        out.push(48u8);
        out.push((48 + v) as u8);
        proof {
            assert(out@ =~= old(out)@ + spec_pad2(v as int));
        }
    } else {
        push_dec(out, v);
    }
}

/// The text of `hour:minute`, each zero-padded to two digits.
pub open spec fn spec_hhmm(hour: u8, minute: u8) -> Seq<u8> {
    spec_pad2(hour as int) + seq![58u8] + spec_pad2(minute as int)
}

/// `HH:MM` text of a time of day.
pub fn hhmm(hour: u8, minute: u8) -> (t: Vec<u8>)
    ensures
        t@ == spec_hhmm(hour, minute),
{
    let mut t: Vec<u8> = Vec::new();
    push_pad2(&mut t, hour as u64);
    t.push(58u8);
    push_pad2(&mut t, minute as u64);
    proof {
        assert(t@ =~= spec_hhmm(hour, minute));
    }
    t
}

} // verus!
