use vstd::prelude::*;
use crate::register_pair::RegisterPair;

verus! {

/// Whether bit `bit` of `byte` is set.
pub open spec fn bit_of(byte: u8, bit: u8) -> bool {
    byte & (1u8 << bit) != 0
}

/// Returns whether bit `bit` (0..=7) of `byte` is set.
pub fn test_bit(byte: u8, bit: u8) -> (r: bool)
    requires
        bit < 8,
    ensures
        r == bit_of(byte, bit),
{
    byte & (1u8 << bit) != 0
}

/// Copies the value of `src` into `dest`.
pub fn ld_reg_pair_reg_pair(src: &RegisterPair, dest: &mut RegisterPair)
    ensures
        final(dest).value() == src.value(),
{
    dest.set_pair(src.get_pair());
}

/// Adds one to the pair, wrapping from 0xFFFF to 0.
pub fn inc_reg_pair(dest: &mut RegisterPair)
    ensures
        final(dest).value() == (old(dest).value() + 1) % 0x10000,
{
    let prev_pair = dest.get_pair();
    dest.set_pair(prev_pair.wrapping_add(1));
}

/// Subtracts one from the pair, wrapping from 0 to 0xFFFF.
pub fn dec_reg_pair(dest: &mut RegisterPair)
    ensures
        final(dest).value() == (old(dest).value() + 0xFFFF) % 0x10000,
{
    let prev_pair = dest.get_pair();
    dest.set_pair(prev_pair.wrapping_sub(1));
}

/// Loads the 16-bit value `src` into the pair.
pub fn ld_u16_reg_pair(src: u16, dest: &mut RegisterPair)
    ensures
        final(dest).value() == src,
{
    dest.set_pair(src);
}

/// Loads the byte `src` into `dest`.
pub fn ld_u8_reg(src: u8, dest: &mut u8)
    ensures
        *final(dest) == src,
{
    *dest = src;
}

} // verus!
