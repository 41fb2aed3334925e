//! Bit fields of a byte, set through the `bitfield` crate.

use vstd::prelude::*;
use vstd::arithmetic::power2::pow2;

verus! {

/// `byte` with its bits `lsb..=msb` replaced by the low bits of `value`.
pub open spec fn with_bits(byte: u8, msb: usize, lsb: usize, value: u8) -> int {
    let width = pow2((msb - lsb + 1) as nat) as int;
    let unit = pow2(lsb as nat) as int;
    byte as int - (byte as int / unit % width) * unit + (value as int % width) * unit
}

/// `bitfield::BitRange::<u8>::set_bit_range` on a `u8`. The contract
/// claims that the call replaces bits `lsb..=msb` of the byte with the low
/// `msb - lsb + 1` bits of `value` and leaves every other bit as it was.
/// Outside `lsb <= msb < 8` the amounts it shifts by overflow.
#[verifier::external_body]
pub(crate) fn set_bit_range(byte: &mut u8, msb: usize, lsb: usize, value: u8)
    requires
        lsb <= msb < 8,
    ensures
        *final(byte) == with_bits(*old(byte), msb, lsb, value),
{
    bitfield::BitRange::<u8>::set_bit_range(byte, msb, lsb, value)
}

/// `bitfield::Bit::set_bit` on a `u8`. The contract claims that the call
/// makes bit `bit` of the byte one if `value` holds and zero if not, and
/// leaves every other bit as it was.
#[verifier::external_body]
pub(crate) fn set_bit(byte: &mut u8, bit: usize, value: bool)
    requires
        bit < 8,
    ensures
        *final(byte) == with_bits(*old(byte), bit, bit, if value { 1u8 } else { 0u8 }),
{
    bitfield::Bit::set_bit(byte, bit, value)
}

} // verus!
