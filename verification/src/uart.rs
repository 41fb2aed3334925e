//! UART of the CC26xx family.
//!
//! The driver's part here is what to write where, and how to read the flag
//! and data registers. Waiting for room in the FIFO and moving the bytes is
//! the caller's loop.

use vstd::prelude::*;
use crate::chip::PowerDomain;
use crate::regs::{RegModify, RegWrite};

verus! {

/// Base of the UART's registers.
pub const UART_BASE: u32 = 0x4000_1000;
/// Frequency of the clock that drives the UART, in hertz.
pub const MCU_CLOCK: u32 = 48_000_000;

/// Data register.
pub const UART_DR: u32 = 0x4000_1000;
/// Flag register.
pub const UART_FR: u32 = 0x4000_1018;
/// Integer part of the baud-rate divisor.
pub const UART_IBRD: u32 = 0x4000_1024;
/// Fractional part of the baud-rate divisor.
pub const UART_FBRD: u32 = 0x4000_1028;
/// Line control.
pub const UART_LCRH: u32 = 0x4000_102C;
/// Control.
pub const UART_CTL: u32 = 0x4000_1030;
/// Interrupt mask.
pub const UART_IMSC: u32 = 0x4000_1038;
/// Interrupt clear.
pub const UART_ICR: u32 = 0x4000_1044;

/// Control: UART, receiver and transmitter enabled.
pub const CTL_ENABLE_ALL: u32 = 0x301;
/// Line control: FIFOs enabled.
pub const LCRH_FIFO_ENABLE: u32 = 0x10;
/// Line control: words of eight bits.
pub const LCRH_WORD_LENGTH_8: u32 = 0x60;
/// Flags: the receive FIFO is empty.
pub const FR_RX_FIFO_EMPTY: u32 = 0x10;
/// Flags: the transmit FIFO is full.
pub const FR_TX_FIFO_FULL: u32 = 0x20;
/// Every interrupt of the UART.
pub const ALL_INTERRUPTS: u32 = 0xFFF;

/// One step of driving the UART: a register access or a call to the GPIO
/// block, the pin multiplexer or the power and clock manager.
#[derive(Clone, Copy, PartialEq, Eq, Structural, Debug)]
pub enum UartStep {
    /// Make a pin an output.
    MakeOutput(u8),
    /// Drive a pin high.
    SetPin(u8),
    /// Route the transmit signal to a pin.
    EnableUartTx(u8),
    /// Route the receive signal to a pin.
    EnableUartRx(u8),
    /// Switch a power domain on.
    EnableDomain(PowerDomain),
    /// Wait until a power domain reports that it is on.
    AwaitDomain(PowerDomain),
    /// Let the UART's clock run.
    EnableUartRun,
    /// Read a register and drop the value.
    Read(u32),
    /// Write a register.
    Write(RegWrite),
    /// Clear and set bits of a register.
    Modify(RegModify),
}

/// The divisor for `baud_rate` in 64ths, rounded to the nearest.
pub open spec fn baud_divisor(baud_rate: u32) -> int
    recommends
        baud_rate > 0,
{
    ((MCU_CLOCK * 8) / (baud_rate as int) + 1) / 2
}

/// The two writes that set the baud rate: the whole part of the divisor,
/// cut to the sixteen bits of its field, and the 64ths.
pub open spec fn baud_rate_steps(baud_rate: u32) -> Seq<UartStep> {
    seq![
        UartStep::Write(
            RegWrite { addr: UART_IBRD, value: (baud_divisor(baud_rate) / 64 % 65536) as u32 },
        ),
        UartStep::Write(RegWrite { addr: UART_FBRD, value: (baud_divisor(baud_rate) % 64) as u32 }),
    ]
}

/// Switching the UART off: the FIFOs first, then UART, transmitter and
/// receiver.
pub open spec fn disable_steps() -> Seq<UartStep> {
    seq![
        UartStep::Modify(RegModify { addr: UART_LCRH, clear: LCRH_FIFO_ENABLE, set: 0 }),
        UartStep::Modify(RegModify { addr: UART_CTL, clear: CTL_ENABLE_ALL, set: 0 }),
    ]
}

/// Masking every interrupt and clearing those that are raised.
pub open spec fn disable_interrupts_steps() -> Seq<UartStep> {
    seq![
        UartStep::Modify(RegModify { addr: UART_IMSC, clear: ALL_INTERRUPTS, set: 0 }),
        UartStep::Write(RegWrite { addr: UART_ICR, value: ALL_INTERRUPTS }),
    ]
}

/// Powering the serial domain and starting the UART's clock.
pub open spec fn power_and_clock_steps() -> Seq<UartStep> {
    seq![
        UartStep::EnableDomain(PowerDomain::Serial),
        UartStep::AwaitDomain(PowerDomain::Serial),
        UartStep::EnableUartRun,
    ]
}

/// Setting the UART up on its pins at `baud_rate`, eight bits a word.
pub open spec fn configure_steps(tx_pin: u8, rx_pin: u8, baud_rate: u32) -> Seq<UartStep> {
    seq![
        UartStep::MakeOutput(tx_pin),
        UartStep::SetPin(tx_pin),
        UartStep::EnableUartTx(tx_pin),
        UartStep::EnableUartRx(rx_pin),
    ] + disable_steps() + baud_rate_steps(baud_rate) + seq![
        UartStep::Write(RegWrite { addr: UART_LCRH, value: LCRH_WORD_LENGTH_8 }),
        UartStep::Modify(RegModify { addr: UART_LCRH, clear: 0, set: LCRH_FIFO_ENABLE }),
        UartStep::Write(RegWrite { addr: UART_CTL, value: CTL_ENABLE_ALL }),
    ]
}

/// The UART: the base of its registers and the pins it is wired to.
pub struct UART {
    regs: u32,
    tx_pin: Option<u8>,
    rx_pin: Option<u8>,
}

impl UART {
    #[verifier::type_invariant]
    spec fn bank_fixed(&self) -> bool {
        self.regs == UART_BASE
    }

    /// The pin that transmits, once set.
    pub closed spec fn tx(&self) -> Option<u8> {
        self.tx_pin
    }

    /// The pin that receives, once set.
    pub closed spec fn rx(&self) -> Option<u8> {
        self.rx_pin
    }

    /// A UART with no pins set.
    pub fn new() -> (uart: UART)
        ensures
            uart.tx() is None,
            uart.rx() is None,
    {
        UART { regs: 0x4000_1000, tx_pin: None, rx_pin: None }
    }

    /// Says which pins the UART transmits and receives on.
    pub fn set_pins(&mut self, tx_pin: u8, rx_pin: u8)
        ensures
            final(self).tx() == Some(tx_pin),
            final(self).rx() == Some(rx_pin),
    {
        proof {
            use_type_invariant(&*self);
        }
        self.tx_pin = Some(tx_pin);
        self.rx_pin = Some(rx_pin);
    }

    /// Whether both pins are set.
    pub fn has_pins(&self) -> (set: bool)
        ensures
            set == (self.tx() is Some && self.rx() is Some),
    {
        self.tx_pin.is_some() && self.rx_pin.is_some()
    }

    /// Everything to do, in order, to set the UART up at `baud_rate`.
    pub fn configure(&self, baud_rate: u32) -> (steps: Vec<UartStep>)
        requires
            self.tx() is Some,
            self.rx() is Some,
            baud_rate > 0,
        ensures
            steps@ == configure_steps(self.tx()->0, self.rx()->0, baud_rate),
    {
        proof {
            use_type_invariant(self);
        }
        let tx_pin: u8 = match self.tx_pin {
            Some(pin) => pin,
            None => 0,
        };
        let rx_pin: u8 = match self.rx_pin {
            Some(pin) => pin,
            None => 0,
        };

        let mut steps: Vec<UartStep> = Vec::new();
        // The transmit pin is made a high output before the UART takes it
        // over, so that no falling edge glitches onto the line.
        steps.push(UartStep::MakeOutput(tx_pin));
        steps.push(UartStep::SetPin(tx_pin));

        // Map UART signals to IO pins
        steps.push(UartStep::EnableUartTx(tx_pin));
        steps.push(UartStep::EnableUartRx(rx_pin));

        // Disable the UART before configuring
        let mut off = self.disable();
        steps.append(&mut off);

        let mut rate = self.set_baud_rate(baud_rate);
        steps.append(&mut rate);

        // Set word length
        steps.push(UartStep::Write(RegWrite { addr: self.regs + 0x2C, value: 0x60 }));

        steps.push(self.fifo_enable());

        // Enable UART, RX and TX
        steps.push(UartStep::Write(RegWrite { addr: self.regs + 0x30, value: 0x301 }));
        assert(steps@ =~= configure_steps(tx_pin, rx_pin, baud_rate));
        steps
    }

    /// Powers the serial domain and starts the UART's clock.
    pub fn power_and_clock(&self) -> (steps: Vec<UartStep>)
        ensures
            steps@ == power_and_clock_steps(),
    {
        let mut steps: Vec<UartStep> = Vec::new();
        steps.push(UartStep::EnableDomain(PowerDomain::Serial));
        steps.push(UartStep::AwaitDomain(PowerDomain::Serial));
        steps.push(UartStep::EnableUartRun);
        assert(steps@ =~= power_and_clock_steps());
        steps
    }

    /// The writes that set the baud rate.
    pub fn set_baud_rate(&self, baud_rate: u32) -> (steps: Vec<UartStep>)
        requires
            baud_rate > 0,
        ensures
            steps@ == baud_rate_steps(baud_rate),
    {
        proof {
            use_type_invariant(self);
        }
        // Fractional baud rate divider
        let whole: u32 = 384_000_000 / baud_rate;
        assert(whole <= 384_000_000) by (nonlinear_arith)
            requires
                whole == 384_000_000int / (baud_rate as int),
                baud_rate > 0,
        ;
        let div: u32 = (whole + 1) / 2;
        let mut steps: Vec<UartStep> = Vec::new();
        steps.push(
            UartStep::Write(RegWrite { addr: self.regs + 0x24, value: div / 64 % 65536 }),
        );
        steps.push(UartStep::Write(RegWrite { addr: self.regs + 0x28, value: div % 64 }));
        assert(steps@ =~= baud_rate_steps(baud_rate));
        steps
    }

    /// Switches the FIFOs on.
    pub fn fifo_enable(&self) -> (step: UartStep)
        ensures
            step == UartStep::Modify(
                RegModify { addr: UART_LCRH, clear: 0, set: LCRH_FIFO_ENABLE },
            ),
    {
        proof {
            use_type_invariant(self);
        }
        UartStep::Modify(RegModify { addr: self.regs + 0x2C, clear: 0, set: 0x10 })
    }

    /// Switches the FIFOs off.
    pub fn fifo_disable(&self) -> (step: UartStep)
        ensures
            step == UartStep::Modify(
                RegModify { addr: UART_LCRH, clear: LCRH_FIFO_ENABLE, set: 0 },
            ),
    {
        proof {
            use_type_invariant(self);
        }
        UartStep::Modify(RegModify { addr: self.regs + 0x2C, clear: 0x10, set: 0 })
    }

    /// Switches the UART off.
    pub fn disable(&self) -> (steps: Vec<UartStep>)
        ensures
            steps@ == disable_steps(),
    {
        proof {
            use_type_invariant(self);
        }
        let mut steps: Vec<UartStep> = Vec::new();
        steps.push(self.fifo_disable());
        steps.push(UartStep::Modify(RegModify { addr: self.regs + 0x30, clear: 0x301, set: 0 }));
        assert(steps@ =~= disable_steps());
        steps
    }

    /// Masks every interrupt of the UART and clears those raised.
    pub fn disable_interrupts(&self) -> (steps: Vec<UartStep>)
        ensures
            steps@ == disable_interrupts_steps(),
    {
        proof {
            use_type_invariant(self);
        }
        let mut steps: Vec<UartStep> = Vec::new();
        // Disable all UART interrupts
        steps.push(UartStep::Modify(RegModify { addr: self.regs + 0x38, clear: 0xFFF, set: 0 }));
        // Clear all UART interrupts
        steps.push(UartStep::Write(RegWrite { addr: self.regs + 0x44, value: 0xFFF }));
        assert(steps@ =~= disable_interrupts_steps());
        steps
    }

    /// Handles an interrupt: the flags are read and every interrupt is
    /// cleared.
    pub fn handle_interrupt(&self) -> (steps: Vec<UartStep>)
        ensures
            steps@ == seq![
                UartStep::Read(UART_FR),
                UartStep::Write(RegWrite { addr: UART_ICR, value: ALL_INTERRUPTS }),
            ],
    {
        proof {
            use_type_invariant(self);
        }
        let mut steps: Vec<UartStep> = Vec::new();
        // Get status bits
        steps.push(UartStep::Read(self.regs + 0x18));
        // Clear interrupts
        steps.push(UartStep::Write(RegWrite { addr: self.regs + 0x44, value: 0xFFF }));
        steps
    }

    /// The write that sends `c`, to be issued once the FIFO has room.
    pub fn send_byte(&self, c: u8) -> (w: RegWrite)
        ensures
            w == (RegWrite { addr: UART_DR, value: c as u32 }),
    {
        proof {
            use_type_invariant(self);
        }
        RegWrite { addr: self.regs, value: c as u32 }
    }

    /// The byte received, given the value of the data register once the
    /// FIFO holds one.
    pub fn read_byte(&self, dr: u32) -> (c: u8)
        ensures
            c == dr % 256,
    {
        (dr % 256) as u8
    }

    /// Whether the transmit FIFO has room, given the flags.
    pub fn tx_ready(&self, fr: u32) -> (ready: bool)
        ensures
            ready == (fr & FR_TX_FIFO_FULL == 0),
    {
        fr & 0x20 == 0
    }

    /// Whether the receive FIFO holds a byte, given the flags.
    pub fn rx_ready(&self, fr: u32) -> (ready: bool)
        ensures
            ready == (fr & FR_RX_FIFO_EMPTY == 0),
    {
        fr & 0x10 == 0
    }

    /// Everything to do, in order, to bring the UART up at `baud_rate`:
    /// power and clock, interrupts off, then the configuration.
    pub fn init(&self, baud_rate: u32) -> (steps: Vec<UartStep>)
        requires
            self.tx() is Some,
            self.rx() is Some,
            baud_rate > 0,
        ensures
            steps@ == power_and_clock_steps() + disable_interrupts_steps() + configure_steps(
                self.tx()->0,
                self.rx()->0,
                baud_rate,
            ),
    {
        let mut steps = self.power_and_clock();
        let mut quiet = self.disable_interrupts();
        steps.append(&mut quiet);
        let mut setup = self.configure(baud_rate);
        steps.append(&mut setup);
        steps
    }

    /// The writes that send the first `tx_len` bytes of `tx_data`, in
    /// order, each to be issued once the FIFO has room. `None` when there
    /// is nothing to send; then no completion is reported either.
    pub fn transmit(&self, tx_data: &[u8], tx_len: usize) -> (writes: Option<Vec<RegWrite>>)
        requires
            tx_len <= tx_data@.len(),
        ensures
            tx_len == 0 <==> writes is None,
            tx_len > 0 ==> writes->0@ == Seq::new(
                tx_len as nat,
                |i: int| RegWrite { addr: UART_DR, value: tx_data@[i] as u32 },
            ),
    {
        if tx_len == 0 {
            return None;
        }
        let mut writes: Vec<RegWrite> = Vec::new();
        let mut i: usize = 0;
        while i < tx_len
            invariant
                i <= tx_len <= tx_data@.len(),
                writes@.len() == i,
                forall|k: int|
                    0 <= k < i ==> writes@[k] == (RegWrite {
                        addr: UART_DR,
                        value: tx_data@[k] as u32,
                    }),
            decreases tx_len - i,
        {
            writes.push(self.send_byte(tx_data[i]));
            i = i + 1;
        }
        assert(writes@ =~= Seq::new(
            tx_len as nat,
            |i: int| RegWrite { addr: UART_DR, value: tx_data@[i] as u32 },
        ));
        Some(writes)
    }

    /// Stores the bytes received into the front of `rx_buffer`: `data`
    /// holds the values of the data register, one per byte, in the order
    /// read. Returns whether anything was received; if not, no completion
    /// is reported.
    pub fn receive(&self, rx_buffer: &mut Vec<u8>, data: &Vec<u32>) -> (done: bool)
        requires
            data@.len() <= old(rx_buffer)@.len(),
        ensures
            done == (data@.len() > 0),
            final(rx_buffer)@.len() == old(rx_buffer)@.len(),
            forall|k: int| 0 <= k < data@.len() ==> final(rx_buffer)@[k] == data@[k] % 256,
            forall|k: int|
                data@.len() <= k < old(rx_buffer)@.len() ==> final(rx_buffer)@[k] == old(
                    rx_buffer,
                )@[k],
    {
        let rx_len = data.len();
        if rx_len == 0 {
            return false;
        }
        let mut i: usize = 0;
        while i < rx_len
            invariant
                i <= rx_len,
                rx_len == data@.len(),
                rx_buffer@.len() == old(rx_buffer)@.len(),
                rx_len <= rx_buffer@.len(),
                forall|k: int| 0 <= k < i ==> rx_buffer@[k] == data@[k] % 256,
                forall|k: int| i <= k < rx_buffer@.len() ==> rx_buffer@[k] == old(rx_buffer)@[k],
            decreases rx_len - i,
        {
            rx_buffer.set(i, self.read_byte(data[i]));
            i = i + 1;
        }
        true
    }
}

/// The two parts written to the divisor registers make up the divisor
/// again, as long as the whole part fits its sixteen bits; that is so for
/// every baud rate of 46 and above.
pub proof fn lemma_baud_divisor_parts(baud_rate: u32)
    requires
        baud_rate >= 46,
    ensures
        baud_divisor(baud_rate) / 64 < 65536,
        (baud_divisor(baud_rate) / 64 % 65536) * 64 + baud_divisor(baud_rate) % 64 == baud_divisor(
            baud_rate,
        ),
{
    let whole = 384_000_000int / (baud_rate as int);
    vstd::arithmetic::div_mod::lemma_div_is_ordered_by_denominator(
        384_000_000,
        46,
        baud_rate as int,
    );
    assert(whole <= 8_347_826);
}

} // verus!
