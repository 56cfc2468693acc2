use vstd::prelude::*;

verus! {

/// A single 8-bit register.
pub struct Register {
    pub val: u8,
}

impl Register {
    /// Creates a register holding `val`.
    pub fn new(val: u8) -> (r: Register)
        ensures
            r.val == val,
    {
        Register { val }
    }

    /// Stores `val` in the register.
    pub fn set_val(&mut self, val: u8)
        ensures
            final(self).val == val,
    {
        self.val = val;
    }

    /// Returns the value held by the register.
    pub fn get_val(&self) -> (r: u8)
        ensures
            r == self.val,
    {
        self.val
    }
}

} // verus!
