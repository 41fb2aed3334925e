//! The advertising command and its parameters, as the co-processor reads
//! them from memory: every field in order, low byte first.

use vstd::prelude::*;
use vstd::arithmetic::power2::{lemma2_to64, pow2};
use crate::bits::{set_bit, set_bit_range};
use crate::radio::rfc::RfcCondition;

verus! {

/// The whitening byte of a command: bit 0 overrides the default
/// whitening, bits 1..7 hold the seed.
#[derive(Clone, Copy, PartialEq, Eq, Structural, Debug)]
pub struct BleWhitening(pub u8);

impl BleWhitening {
    /// The seed.
    pub open spec fn init(&self) -> int {
        self.0 as int / 2
    }

    /// Whether the seed overrides the default whitening.
    pub open spec fn overrides(&self) -> bool {
        self.0 as int % 2 == 1
    }

    /// Replaces the seed by the low seven bits of `init` and keeps the
    /// override bit.
    pub fn set_init(&mut self, init: u8)
        ensures
            final(self).init() == init % 128,
            final(self).overrides() == old(self).overrides(),
    {
        let ghost before = self.0 as int;
        proof {
            lemma2_to64();
        }
        set_bit_range(&mut self.0, 7, 1, init);
        assert(pow2(7) == 128 && pow2(1) == 2);
        assert(self.0 as int == before - (before / 2 % 128) * 2 + (init as int % 128) * 2);
    }

    /// Sets or clears the override bit and keeps the seed.
    pub fn set_override(&mut self, on: bool)
        ensures
            final(self).overrides() == on,
            final(self).init() == old(self).init(),
    {
        let ghost before = self.0 as int;
        proof {
            lemma2_to64();
        }
        set_bit(&mut self.0, 0, on);
        assert(pow2(1) == 2 && pow2(0) == 1);
        assert(self.0 as int == before - (before / 1 % 2) * 1 + if on { 1int } else { 0int });
    }
}

/// The two bytes of `x`, low byte first.
pub open spec fn le16(x: u16) -> Seq<u8> {
    seq![(x as int % 256) as u8, (x as int / 256) as u8]
}

/// The four bytes of `x`, low byte first.
pub open spec fn le32(x: u32) -> Seq<u8> {
    seq![
        (x as int % 256) as u8,
        (x as int / 256 % 256) as u8,
        (x as int / 65536 % 256) as u8,
        (x as int / 16777216) as u8,
    ]
}

/// The word whose four bytes are `b0` to `b3`, low byte first.
pub open spec fn word_of(b0: u8, b1: u8, b2: u8, b3: u8) -> u32 {
    (b0 as int + b1 as int * 256 + b2 as int * 65536 + b3 as int * 16777216) as u32
}

/// The bytes of a word, put together again low byte first, are the word.
pub proof fn lemma_le32_round_trip(x: u32)
    ensures
        le32(x).len() == 4,
        word_of(le32(x)[0], le32(x)[1], le32(x)[2], le32(x)[3]) == x,
{
}

/// `n` copies of `zero`.
pub open spec fn zeros<T>(n: int, zero: T) -> Seq<T> {
    Seq::new(n as nat, |i: int| zero)
}

/// The command that makes the co-processor send an advertisement.
#[derive(Clone, Copy, PartialEq, Eq, Structural, Debug)]
pub struct BleAdvertise {
    pub command_no: u16,
    pub status: u16,
    pub p_nextop: u32,
    pub ratmr: u32,
    pub start_trigger: u8,
    pub condition: RfcCondition,
    pub channel: u8,
    pub whitening: BleWhitening,
    pub params: u32,
    pub output: u32,
}

impl BleAdvertise {
    /// The command as it lies in memory: 24 bytes, every field in order,
    /// low byte first.
    pub open spec fn bytes(&self) -> Seq<u8> {
        le16(self.command_no) + le16(self.status) + le32(self.p_nextop) + le32(self.ratmr) + seq![
            self.start_trigger,
            self.condition.0,
            self.channel,
            self.whitening.0,
        ] + le32(self.params) + le32(self.output)
    }

    /// Lays the command out as the co-processor reads it.
    pub fn to_bytes(&self) -> (image: [u8; 24])
        ensures
            image@ == self.bytes(),
    {
        let no = self.command_no;
        let st = self.status;
        let nx = self.p_nextop;
        let rt = self.ratmr;
        let pa = self.params;
        let ou = self.output;
        let image: [u8; 24] = [
            (no % 256) as u8,
            (no / 256) as u8,
            (st % 256) as u8,
            (st / 256) as u8,
            (nx % 256) as u8,
            (nx / 256 % 256) as u8,
            (nx / 65536 % 256) as u8,
            (nx / 16777216) as u8,
            (rt % 256) as u8,
            (rt / 256 % 256) as u8,
            (rt / 65536 % 256) as u8,
            (rt / 16777216) as u8,
            self.start_trigger,
            self.condition.0,
            self.channel,
            self.whitening.0,
            (pa % 256) as u8,
            (pa / 256 % 256) as u8,
            (pa / 65536 % 256) as u8,
            (pa / 16777216) as u8,
            (ou % 256) as u8,
            (ou / 256 % 256) as u8,
            (ou / 65536 % 256) as u8,
            (ou / 16777216) as u8,
        ];
        assert(image@ =~= self.bytes());
        image
    }
}

/// The parameters of an advertising command.
#[derive(Clone, Copy, PartialEq, Eq, Structural, Debug)]
pub struct BleAdvertiseParams {
    /// Address of the receive queue.
    pub rx_queue: u32,
    pub rx_config: u8,
    pub adv_config: u8,
    pub adv_len: u8,
    pub scan_rsp_len: u8,
    pub adv_data: u32,
    pub scan_rsp_data: u32,
    pub device_address: u32,
    pub white_list: u32,
    pub __dummy0: u16,
    pub __dummy1: u8,
    pub end_trigger: u8,
    pub end_time: u32,
}

impl BleAdvertiseParams {
    /// The parameters as they lie in memory: eight words, every field in
    /// order, low byte first.
    pub open spec fn words(&self) -> Seq<u32> {
        seq![
            self.rx_queue,
            word_of(self.rx_config, self.adv_config, self.adv_len, self.scan_rsp_len),
            self.adv_data,
            self.scan_rsp_data,
            self.device_address,
            self.white_list,
            word_of(
                le16(self.__dummy0)[0],
                le16(self.__dummy0)[1],
                self.__dummy1,
                self.end_trigger,
            ),
            self.end_time,
        ]
    }

    /// Lays the parameters out as the co-processor reads them.
    pub fn to_words(&self) -> (image: [u32; 8])
        ensures
            image@ == self.words(),
    {
        let lengths: u32 = self.rx_config as u32 + self.adv_config as u32 * 256 + self.adv_len as u32
            * 65536 + self.scan_rsp_len as u32 * 16777216;
        let trigger: u32 = self.__dummy0 as u32 + self.__dummy1 as u32 * 65536
            + self.end_trigger as u32 * 16777216;
        let image: [u32; 8] = [
            self.rx_queue,
            lengths,
            self.adv_data,
            self.scan_rsp_data,
            self.device_address,
            self.white_list,
            trigger,
            self.end_time,
        ];
        assert(image@ =~= self.words());
        image
    }
}

} // verus!
