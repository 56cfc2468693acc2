use vstd::prelude::*;

verus! {

/// Two 8-bit registers that can also be read and written as one
/// 16-bit value, `hi * 256 + lo`.
pub struct RegisterPair {
    pub lo: u8,
    pub hi: u8,
}

/// The 16-bit value formed by a high and a low byte.
pub open spec fn word_of(hi: u8, lo: u8) -> u16 {
    (hi as int * 256 + lo as int) as u16
}

impl RegisterPair {
    /// The 16-bit value of the pair.
    pub open spec fn value(&self) -> u16 {
        word_of(self.hi, self.lo)
    }

    /// Creates a pair holding the 16-bit value `pair`.
    pub fn new(pair: u16) -> (r: RegisterPair)
        ensures
            r.lo == pair % 256,
            r.hi == pair / 256,
            r.value() == pair,
    {
        RegisterPair { lo: (pair % 256) as u8, hi: (pair / 256) as u8 }
    }

    /// Stores the 16-bit value `pair`: its high byte in `hi`, its low byte in `lo`.
    pub fn set_pair(&mut self, pair: u16)
        ensures
            final(self).lo == pair % 256,
            final(self).hi == pair / 256,
            final(self).value() == pair,
    {
        self.lo = (pair % 256) as u8;
        self.hi = (pair / 256) as u8;
    }

    /// Returns the 16-bit value of the pair.
    pub fn get_pair(&self) -> (r: u16)
        ensures
            r == self.value(),
            r as int == self.hi as int * 256 + self.lo as int,
    {
        (self.hi as u16) * 256 + self.lo as u16
    }
}

} // verus!
