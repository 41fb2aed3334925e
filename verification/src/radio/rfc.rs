//! What this core needs to know of the radio co-processor.

use vstd::prelude::*;
use vstd::arithmetic::power2::{lemma2_to64, pow2};
use crate::bits::set_bit_range;

verus! {

/// The protocol the co-processor is set up for.
#[derive(Clone, Copy, PartialEq, Eq, Structural, Debug)]
pub enum RfcMode {
    /// Bluetooth Low Energy.
    BLE,
    /// Any other protocol.
    NonBLE,
}

/// The interrupts the co-processor raises.
#[derive(Clone, Copy, PartialEq, Eq, Structural, Debug)]
pub enum RfcInterrupt {
    CmdAck,
    Cpe0,
    Cpe1,
}

/// Rule of a condition byte: never run a following command.
pub const COND_NEVER: u8 = 1;

/// The condition byte of a radio command: the rule in bits 0..3, the number
/// of commands to skip in bits 4..7.
#[derive(Clone, Copy, PartialEq, Eq, Structural, Debug)]
pub struct RfcCondition(pub u8);

impl RfcCondition {
    /// The rule held in the low four bits.
    pub open spec fn rule(&self) -> int {
        self.0 as int % 16
    }

    /// The skip count held in the high four bits.
    pub open spec fn skip(&self) -> int {
        self.0 as int / 16
    }

    /// Replaces the rule by the low four bits of `rule` and keeps the skip
    /// count.
    pub fn set_rule(&mut self, rule: u8)
        ensures
            final(self).rule() == rule % 16,
            final(self).skip() == old(self).skip(),
    {
        let ghost before = self.0 as int;
        proof {
            lemma2_to64();
        }
        set_bit_range(&mut self.0, 3, 0, rule);
        assert(pow2(4) == 16 && pow2(0) == 1);
        assert(self.0 as int == before - (before / 1 % 16) * 1 + (rule as int % 16) * 1);
    }
}

} // verus!
