//! The leaf abstraction: a write to a memory-mapped register, as a value.

use vstd::prelude::*;

verus! {

/// One 32-bit write to the register at physical address `addr`.
#[derive(Clone, Copy, PartialEq, Eq, Structural, Debug)]
pub struct RegWrite {
    pub addr: u32,
    pub value: u32,
}

/// The value a register holds after the bits of `clear` were cleared and
/// then the bits of `set` were set in `value`.
pub open spec fn modified(value: u32, clear: u32, set: u32) -> u32 {
    (value & !clear) | set
}

/// A read-modify-write of one register: clear some bits, then set others.
#[derive(Clone, Copy, PartialEq, Eq, Structural, Debug)]
pub struct RegModify {
    pub addr: u32,
    pub clear: u32,
    pub set: u32,
}

impl RegModify {
    /// The write that completes this modification, given what the register
    /// held when it was read.
    pub fn apply(&self, value: u32) -> (w: RegWrite)
        ensures
            w.addr == self.addr,
            w.value == modified(value, self.clear, self.set),
    {
        RegWrite { addr: self.addr, value: (value & !self.clear) | self.set }
    }
}

} // verus!
