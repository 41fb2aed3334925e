//! The chip: sleep orchestration and interrupt routing.
//!
//! Going to sleep is a fixed list of steps around the wait-for-interrupt;
//! the order is the contract, since a step out of place leaves a chip that
//! does not wake or that corrupts its pads. Routing an interrupt is a
//! lookup from the line to the driver that owns it.

use vstd::prelude::*;
use crate::aux::{wake_request, Aux, WakeupMode, AON_AUX_CTL};
use crate::radio::rfc::RfcInterrupt;
use crate::regs::{modified, RegModify, RegWrite};

verus! {

/// Base of the Cortex-M system control block; the system control register
/// is its first word.
pub const SYS_CTRL_BASE: u32 = 0xE000_ED10;
/// Base of the always-on IO controller.
pub const AON_IOC: u32 = 0x4009_4000;
/// Latch that freezes (0) or releases (1) the IO pads.
pub const AON_IOC_IOLATCH: u32 = 0x4009_400C;

/// System control register: go back to sleep when an ISR returns.
pub const SLEEP_ON_EXIT: u32 = 0x02;
/// System control register: the next sleep is a deep sleep.
pub const SLEEP_DEEP: u32 = 0x04;
/// System control register: any pending interrupt is a wake-up event.
pub const SEVONPEND: u32 = 0x10;

/// Line of the radio's second command-and-packet-engine interrupt.
pub const X0_RF_CPE1: u32 = 2;
/// Line of the radio's first command-and-packet-engine interrupt.
pub const X0_RF_CPE0: u32 = 9;
/// Line of the radio's command acknowledgement.
pub const X0_RF_CMD_ACK: u32 = 11;

/// How deep the chip may sleep.
#[derive(Clone, Copy, PartialEq, Eq, Structural, Debug)]
pub enum SleepMode {
    DeepSleep,
    Sleep,
    Active,
}

impl SleepMode {
    /// The number the power manager knows this mode by.
    pub open spec fn number(self) -> u32 {
        match self {
            SleepMode::DeepSleep => 0,
            SleepMode::Sleep => 1,
            SleepMode::Active => 2,
        }
    }

    /// The mode whose number is `n`; numbers above 2 name no mode.
    pub open spec fn of_number(n: u32) -> SleepMode {
        if n == 0 {
            SleepMode::DeepSleep
        } else if n == 1 {
            SleepMode::Sleep
        } else {
            SleepMode::Active
        }
    }

    /// The mode the power manager means by `n`.
    pub fn from(n: u32) -> (mode: SleepMode)
        requires
            n <= 2,
        ensures
            mode == SleepMode::of_number(n),
            mode.number() == n,
    {
        if n == 0 {
            SleepMode::DeepSleep
        } else if n == 1 {
            SleepMode::Sleep
        } else {
            SleepMode::Active
        }
    }

    /// The number the power manager knows this mode by.
    pub fn code(self) -> (n: u32)
        ensures
            n == self.number(),
    {
        match self {
            SleepMode::DeepSleep => 0,
            SleepMode::Sleep => 1,
            SleepMode::Active => 2,
        }
    }
}

/// The system control block, as read.
#[derive(Clone, Copy, PartialEq, Eq, Structural, Debug)]
pub struct SystemControlRegisters {
    pub scr: u32,
}

impl SystemControlRegisters {
    /// Whether the chip goes back to sleep when an ISR returns.
    pub fn sleep_on_exit(&self) -> (on: bool)
        ensures
            on == (self.scr & SLEEP_ON_EXIT != 0),
    {
        self.scr & 0x02 != 0
    }

    /// Whether the next sleep is a deep sleep.
    pub fn sleep_deep(&self) -> (on: bool)
        ensures
            on == (self.scr & SLEEP_DEEP != 0),
    {
        self.scr & 0x04 != 0
    }

    /// Whether any pending interrupt wakes the chip.
    pub fn sev_on_pend(&self) -> (on: bool)
        ensures
            on == (self.scr & SEVONPEND != 0),
    {
        self.scr & 0x10 != 0
    }
}

/// The power domains of the chip.
#[derive(Clone, Copy, PartialEq, Eq, Structural, Debug)]
pub enum PowerDomain {
    VIMS,
    RFC,
    CPU,
    Serial,
    Peripherals,
}

/// One step of going to sleep or waking up. Each is a single register
/// access or a single call to a collaborator.
#[derive(Clone, Copy, PartialEq, Eq, Structural, Debug)]
pub enum SleepStep {
    /// Tell the power manager that sleep at the given depth is about to begin.
    BeforeSleep(u32),
    /// Write a register.
    Write(RegWrite),
    /// Switch retention of the MCU's SRAM on or off.
    SetRamRetention(bool),
    /// Force the DMA and crypto clocks off.
    ForceDisableDmaAndCrypto,
    /// Switch a power domain off.
    DisableDomain(PowerDomain),
    /// Switch a power domain on.
    EnableDomain(PowerDomain),
    /// Open or close the JTAG gate.
    SetJtagEnabled(bool),
    /// Request power-down of the MCU.
    McuPowerDown,
    /// Wait until the always-on domain has seen every earlier write.
    RtcSync,
    /// Switch the flash cache off.
    DisableVims,
    /// Clear and set bits of a register.
    Modify(RegModify),
    /// Wait for an interrupt.
    Wfi,
    /// Release the micro low-dropout regulator.
    ReleaseUldo,
    /// Tell the power manager that the chip woke from sleep at the given depth.
    AfterWakeup(u32),
}

/// The write that freezes (0) or releases (1) the IO pads.
pub open spec fn io_latch(value: u32) -> SleepStep {
    SleepStep::Write(RegWrite { addr: AON_IOC_IOLATCH, value })
}

/// What is done, in order, before a deep sleep.
pub open spec fn deep_sleep_entry() -> Seq<SleepStep> {
    seq![
        SleepStep::BeforeSleep(0),
        io_latch(0),
        SleepStep::Write(wake_request(WakeupMode::AllowSleep)),
        SleepStep::SetRamRetention(true),
        SleepStep::ForceDisableDmaAndCrypto,
        SleepStep::DisableDomain(PowerDomain::VIMS),
        SleepStep::DisableDomain(PowerDomain::RFC),
        SleepStep::DisableDomain(PowerDomain::CPU),
        SleepStep::SetJtagEnabled(false),
        SleepStep::McuPowerDown,
        SleepStep::RtcSync,
        SleepStep::DisableVims,
        SleepStep::Modify(RegModify { addr: SYS_CTRL_BASE, clear: 0, set: 0x14 }),
    ]
}

/// What is done, in order, after waking from a deep sleep.
pub open spec fn deep_sleep_exit() -> Seq<SleepStep> {
    seq![
        SleepStep::RtcSync,
        SleepStep::Write(wake_request(WakeupMode::WakeUp)),
        SleepStep::ReleaseUldo,
        SleepStep::EnableDomain(PowerDomain::VIMS),
        SleepStep::EnableDomain(PowerDomain::CPU),
        SleepStep::RtcSync,
        io_latch(1),
        SleepStep::RtcSync,
        SleepStep::Modify(RegModify { addr: SYS_CTRL_BASE, clear: 0x04, set: 0 }),
        SleepStep::AfterWakeup(0),
    ]
}

/// Everything a sleep at depth `mode` does, in order. Only a deep sleep
/// does more than wait for an interrupt.
pub open spec fn sleep_plan(mode: SleepMode) -> Seq<SleepStep> {
    if mode == SleepMode::DeepSleep {
        deep_sleep_entry() + seq![SleepStep::Wfi] + deep_sleep_exit()
    } else {
        seq![SleepStep::Wfi]
    }
}

/// The interrupt lines of the chip family's peripherals.
#[derive(Clone, Copy, PartialEq, Eq, Structural, Debug)]
pub struct PeripheralInterrupts {
    pub gpio: u32,
    pub aon_rtc: u32,
    pub uart0: u32,
    pub gpt0a: u32,
    pub gpt0b: u32,
    pub gpt1a: u32,
    pub gpt1b: u32,
    pub gpt2a: u32,
    pub gpt2b: u32,
    pub gpt3a: u32,
    pub gpt3b: u32,
    pub aon_prog: u32,
}

impl PeripheralInterrupts {
    /// The lines in the order in which they are looked up, the three lines
    /// of the radio included.
    #[verifier::opaque]
    pub open spec fn lookup_order(&self) -> Seq<u32> {
        seq![
            self.gpio,
            self.aon_rtc,
            self.uart0,
            self.gpt0a,
            self.gpt0b,
            self.gpt1a,
            self.gpt1b,
            self.gpt2a,
            self.gpt2b,
            self.gpt3a,
            self.gpt3b,
            X0_RF_CMD_ACK,
            X0_RF_CPE0,
            X0_RF_CPE1,
            self.aon_prog,
        ]
    }

    /// No two lines share a number.
    pub open spec fn distinct(&self) -> bool {
        self.lookup_order().no_duplicates()
    }
}

/// The drivers an interrupt can belong to.
#[derive(Clone, Copy, PartialEq, Eq, Structural, Debug)]
pub enum Handler {
    Gpio,
    Rtc,
    Uart0,
    Gpt0,
    Gpt1,
    Gpt2,
    Gpt3,
    Rfc(RfcInterrupt),
}

/// What an interrupt line is bound to.
#[derive(Clone, Copy, PartialEq, Eq, Structural, Debug)]
pub enum Binding {
    /// A driver handles the line.
    Handled(Handler),
    /// The line is acknowledged and nothing else is done.
    Ignored,
    /// Nothing is bound to the line.
    Unbound,
}

/// One step of servicing an interrupt.
#[derive(Clone, Copy, PartialEq, Eq, Structural, Debug)]
pub enum InterruptStep {
    /// Call the handler of a driver.
    Handle(Handler),
    /// Clear the pending bit of a line.
    ClearPending(u32),
    /// Enable a line again.
    Enable(u32),
}

/// The binding of line `interrupt`: the first line in lookup order with
/// that number decides.
pub open spec fn binding_of(lines: PeripheralInterrupts, interrupt: u32) -> Binding {
    if interrupt == lines.gpio {
        Binding::Handled(Handler::Gpio)
    } else if interrupt == lines.aon_rtc {
        Binding::Handled(Handler::Rtc)
    } else if interrupt == lines.uart0 {
        Binding::Handled(Handler::Uart0)
    } else if interrupt == lines.gpt0a || interrupt == lines.gpt0b {
        Binding::Handled(Handler::Gpt0)
    } else if interrupt == lines.gpt1a || interrupt == lines.gpt1b {
        Binding::Handled(Handler::Gpt1)
    } else if interrupt == lines.gpt2a || interrupt == lines.gpt2b {
        Binding::Handled(Handler::Gpt2)
    } else if interrupt == lines.gpt3a || interrupt == lines.gpt3b {
        Binding::Handled(Handler::Gpt3)
    } else if interrupt == X0_RF_CMD_ACK {
        Binding::Handled(Handler::Rfc(RfcInterrupt::CmdAck))
    } else if interrupt == X0_RF_CPE0 {
        Binding::Handled(Handler::Rfc(RfcInterrupt::Cpe0))
    } else if interrupt == X0_RF_CPE1 {
        Binding::Handled(Handler::Rfc(RfcInterrupt::Cpe1))
    } else if interrupt == lines.aon_prog {
        Binding::Ignored
    } else {
        Binding::Unbound
    }
}

/// What servicing line `interrupt` does, in order: the handler, if a driver
/// owns the line, then the pending bit is cleared and the line enabled.
pub open spec fn service_of(lines: PeripheralInterrupts, interrupt: u32) -> Seq<InterruptStep> {
    let ack = seq![InterruptStep::ClearPending(interrupt), InterruptStep::Enable(interrupt)];
    match binding_of(lines, interrupt) {
        Binding::Handled(h) => seq![InterruptStep::Handle(h)] + ack,
        _ => ack,
    }
}

/// The chip.
pub struct Cc26x0 {
    sys_ctrl_regs: u32,
    lines: PeripheralInterrupts,
}

impl Cc26x0 {
    #[verifier::type_invariant]
    spec fn block_fixed(&self) -> bool {
        self.sys_ctrl_regs == SYS_CTRL_BASE
    }

    /// The interrupt lines this chip routes.
    pub closed spec fn lines(&self) -> PeripheralInterrupts {
        self.lines
    }

    /// The chip, routing the interrupts of `lines`.
    pub fn new(lines: PeripheralInterrupts) -> (chip: Cc26x0)
        ensures
            chip.lines() == lines,
    {
        Cc26x0 { sys_ctrl_regs: 0xE000_ED10, lines }
    }

    /// What line `interrupt` is bound to.
    pub fn binding(&self, interrupt: u32) -> (b: Binding)
        ensures
            b == binding_of(self.lines(), interrupt),
    {
        let l = &self.lines;
        if interrupt == l.gpio {
            Binding::Handled(Handler::Gpio)
        } else if interrupt == l.aon_rtc {
            Binding::Handled(Handler::Rtc)
        } else if interrupt == l.uart0 {
            Binding::Handled(Handler::Uart0)
        } else if interrupt == l.gpt0a || interrupt == l.gpt0b {
            Binding::Handled(Handler::Gpt0)
        } else if interrupt == l.gpt1a || interrupt == l.gpt1b {
            Binding::Handled(Handler::Gpt1)
        } else if interrupt == l.gpt2a || interrupt == l.gpt2b {
            Binding::Handled(Handler::Gpt2)
        } else if interrupt == l.gpt3a || interrupt == l.gpt3b {
            Binding::Handled(Handler::Gpt3)
        } else if interrupt == 11 {
            Binding::Handled(Handler::Rfc(RfcInterrupt::CmdAck))
        } else if interrupt == 9 {
            Binding::Handled(Handler::Rfc(RfcInterrupt::Cpe0))
        } else if interrupt == 2 {
            Binding::Handled(Handler::Rfc(RfcInterrupt::Cpe1))
        } else if interrupt == l.aon_prog {
            // Some debuggers raise this line over JTAG.
            Binding::Ignored
        } else {
            Binding::Unbound
        }
    }

    /// Services one pending interrupt: what to do, in order, for the line
    /// that the interrupt controller reported as pending. The caller asks
    /// the controller for the next pending line until there is none.
    pub fn service_pending_interrupts(&self, interrupt: u32) -> (steps: Vec<InterruptStep>)
        requires
            binding_of(self.lines(), interrupt) != Binding::Unbound,
        ensures
            steps@ == service_of(self.lines(), interrupt),
    {
        let mut steps: Vec<InterruptStep> = Vec::new();
        match self.binding(interrupt) {
            Binding::Handled(h) => {
                steps.push(InterruptStep::Handle(h));
            },
            _ => {},
        }
        steps.push(InterruptStep::ClearPending(interrupt));
        steps.push(InterruptStep::Enable(interrupt));
        assert(steps@ =~= service_of(self.lines(), interrupt));
        steps
    }

    /// Everything to do, in order, to sleep as deeply as the power manager
    /// allows: `lowest_sleep_mode` is its answer.
    pub fn sleep(&self, aux: &Aux, lowest_sleep_mode: u32) -> (steps: Vec<SleepStep>)
        requires
            lowest_sleep_mode <= 2,
        ensures
            steps@ == sleep_plan(SleepMode::of_number(lowest_sleep_mode)),
    {
        proof {
            use_type_invariant(self);
        }
        let sleep_mode = SleepMode::from(lowest_sleep_mode);
        let mut steps: Vec<SleepStep> = Vec::new();
        let deep = match sleep_mode {
            SleepMode::DeepSleep => true,
            _ => false,
        };

        if deep {
            steps.push(SleepStep::BeforeSleep(sleep_mode.code()));

            // Freeze the pads
            steps.push(SleepStep::Write(RegWrite { addr: AON_IOC + 0xC, value: 0x00 }));

            // Power down the AUX
            steps.push(SleepStep::Write(aux.wakeup_event(WakeupMode::AllowSleep)));

            // Retain the SRAM
            steps.push(SleepStep::SetRamRetention(true));

            steps.push(SleepStep::ForceDisableDmaAndCrypto);

            // Disable all domains except Peripherals and Serial
            steps.push(SleepStep::DisableDomain(PowerDomain::VIMS));
            steps.push(SleepStep::DisableDomain(PowerDomain::RFC));
            steps.push(SleepStep::DisableDomain(PowerDomain::CPU));

            steps.push(SleepStep::SetJtagEnabled(false));
            steps.push(SleepStep::McuPowerDown);
            steps.push(SleepStep::RtcSync);
            steps.push(SleepStep::DisableVims);

            // Set the deep sleep bit
            steps.push(
                SleepStep::Modify(
                    RegModify { addr: self.sys_ctrl_regs, clear: 0, set: 0x04 | 0x10 },
                ),
            );
            assert(0x04u32 | 0x10u32 == 0x14u32) by (bit_vector);
            assert(steps@ =~= deep_sleep_entry());
        }

        steps.push(SleepStep::Wfi);

        if deep {
            steps.push(SleepStep::RtcSync);
            steps.push(SleepStep::Write(aux.wakeup_event(WakeupMode::WakeUp)));
            steps.push(SleepStep::ReleaseUldo);
            steps.push(SleepStep::EnableDomain(PowerDomain::VIMS));
            steps.push(SleepStep::EnableDomain(PowerDomain::CPU));
            steps.push(SleepStep::RtcSync);

            // Release the pads
            steps.push(SleepStep::Write(RegWrite { addr: AON_IOC + 0xC, value: 0x01 }));
            steps.push(SleepStep::RtcSync);

            // Clear the deep sleep bit
            steps.push(
                SleepStep::Modify(RegModify { addr: self.sys_ctrl_regs, clear: 0x04, set: 0 }),
            );
            steps.push(SleepStep::AfterWakeup(sleep_mode.code()));
        }
        assert(steps@ =~= sleep_plan(sleep_mode));
        steps
    }
}

/// Whether `step` switches a power domain off.
pub open spec fn is_domain_disable(step: SleepStep) -> bool {
    step is DisableDomain
}

/// Whether `step` switches a power domain on.
pub open spec fn is_domain_enable(step: SleepStep) -> bool {
    step is EnableDomain
}

/// Before the wait, a deep sleep tells the power manager and then, in
/// this order: freezes the pads, lets the AUX domain sleep,
/// retains the SRAM, forces the DMA and crypto clocks off, switches the
/// flash-cache, radio and CPU domains off, closes the JTAG gate, requests
/// the MCU's power-down, syncs with the always-on domain, switches the
/// flash cache off and arms the deep sleep in the system control register.
pub proof fn lemma_sleep_ordering()
    ensures
        ({
            let plan = sleep_plan(SleepMode::DeepSleep);
            &&& plan[0] == SleepStep::BeforeSleep(0)
            &&& plan.subrange(1, 13) == seq![
                SleepStep::Write(RegWrite { addr: AON_IOC_IOLATCH, value: 0 }),
                SleepStep::Write(RegWrite { addr: AON_AUX_CTL, value: 0 }),
                SleepStep::SetRamRetention(true),
                SleepStep::ForceDisableDmaAndCrypto,
                SleepStep::DisableDomain(PowerDomain::VIMS),
                SleepStep::DisableDomain(PowerDomain::RFC),
                SleepStep::DisableDomain(PowerDomain::CPU),
                SleepStep::SetJtagEnabled(false),
                SleepStep::McuPowerDown,
                SleepStep::RtcSync,
                SleepStep::DisableVims,
                SleepStep::Modify(
                    RegModify { addr: SYS_CTRL_BASE, clear: 0, set: SLEEP_DEEP | SEVONPEND },
                ),
            ]
            &&& plan[13] == SleepStep::Wfi
        }),
{
    let plan = sleep_plan(SleepMode::DeepSleep);
    assert(0x04u32 | 0x10u32 == 0x14u32) by (bit_vector);
    assert(plan.subrange(1, 13) =~= seq![
        SleepStep::Write(RegWrite { addr: AON_IOC_IOLATCH, value: 0 }),
        SleepStep::Write(RegWrite { addr: AON_AUX_CTL, value: 0 }),
        SleepStep::SetRamRetention(true),
        SleepStep::ForceDisableDmaAndCrypto,
        SleepStep::DisableDomain(PowerDomain::VIMS),
        SleepStep::DisableDomain(PowerDomain::RFC),
        SleepStep::DisableDomain(PowerDomain::CPU),
        SleepStep::SetJtagEnabled(false),
        SleepStep::McuPowerDown,
        SleepStep::RtcSync,
        SleepStep::DisableVims,
        SleepStep::Modify(RegModify { addr: SYS_CTRL_BASE, clear: 0, set: SLEEP_DEEP | SEVONPEND }),
    ]);
}

/// After the wait, a deep sleep undoes what it did, in this order: syncs
/// with the always-on domain, wakes the AUX domain, releases the uLDO,
/// switches the flash-cache and CPU domains on, syncs, releases the pads,
/// syncs, and clears the deep-sleep bit; then it tells the power manager,
/// and that is the end.
pub proof fn lemma_wake_mirror()
    ensures
        ({
            let plan = sleep_plan(SleepMode::DeepSleep);
            &&& plan[13] == SleepStep::Wfi
            &&& plan.subrange(14, 23) == seq![
                SleepStep::RtcSync,
                SleepStep::Write(RegWrite { addr: AON_AUX_CTL, value: 1 }),
                SleepStep::ReleaseUldo,
                SleepStep::EnableDomain(PowerDomain::VIMS),
                SleepStep::EnableDomain(PowerDomain::CPU),
                SleepStep::RtcSync,
                SleepStep::Write(RegWrite { addr: AON_IOC_IOLATCH, value: 1 }),
                SleepStep::RtcSync,
                SleepStep::Modify(RegModify { addr: SYS_CTRL_BASE, clear: SLEEP_DEEP, set: 0 }),
            ]
            &&& plan[23] == SleepStep::AfterWakeup(0)
            &&& plan.len() == 24
        }),
{
    let plan = sleep_plan(SleepMode::DeepSleep);
    assert(plan.subrange(14, 23) =~= seq![
        SleepStep::RtcSync,
        SleepStep::Write(RegWrite { addr: AON_AUX_CTL, value: 1 }),
        SleepStep::ReleaseUldo,
        SleepStep::EnableDomain(PowerDomain::VIMS),
        SleepStep::EnableDomain(PowerDomain::CPU),
        SleepStep::RtcSync,
        SleepStep::Write(RegWrite { addr: AON_IOC_IOLATCH, value: 1 }),
        SleepStep::RtcSync,
        SleepStep::Modify(RegModify { addr: SYS_CTRL_BASE, clear: SLEEP_DEEP, set: 0 }),
    ]);
}

/// A sleep that is not deep waits for an interrupt and does nothing else:
/// no register is written and no collaborator is called.
pub proof fn lemma_shallow_sleep_only_waits(mode: SleepMode)
    requires
        mode != SleepMode::DeepSleep,
    ensures
        sleep_plan(mode) == seq![SleepStep::Wfi],
{
}

/// A deep sleep waits for an interrupt exactly once. The flash cache,
/// radio and CPU domains are switched off before that wait and no domain
/// after it; domains are switched on only after it.
pub proof fn lemma_domains_off_across_wait()
    ensures
        ({
            let plan = sleep_plan(SleepMode::DeepSleep);
            &&& plan.len() == 24
            &&& forall|i: int| 0 <= i < plan.len() ==> (plan[i] == SleepStep::Wfi <==> i == 13)
            &&& forall|i: int|
                0 <= i < plan.len() && is_domain_disable(#[trigger] plan[i]) ==> i < 13
            &&& forall|i: int|
                0 <= i < plan.len() && is_domain_enable(#[trigger] plan[i]) ==> i > 13
            &&& plan.subrange(5, 8) == seq![
                SleepStep::DisableDomain(PowerDomain::VIMS),
                SleepStep::DisableDomain(PowerDomain::RFC),
                SleepStep::DisableDomain(PowerDomain::CPU),
            ]
        }),
{
    let plan = sleep_plan(SleepMode::DeepSleep);
    assert(plan.len() == 24);
    assert(plan.subrange(5, 8) =~= seq![
        SleepStep::DisableDomain(PowerDomain::VIMS),
        SleepStep::DisableDomain(PowerDomain::RFC),
        SleepStep::DisableDomain(PowerDomain::CPU),
    ]);
}

/// On the way out of a deep sleep the pads are released exactly once, and
/// only after the AUX domain was asked to wake and the flash-cache and CPU
/// domains were switched on again; the pads are frozen exactly once, before
/// the wait.
pub proof fn lemma_io_latch_released_once()
    ensures
        ({
            let plan = sleep_plan(SleepMode::DeepSleep);
            &&& forall|i: int| 0 <= i < plan.len() ==> (plan[i] == io_latch(1) <==> i == 20)
            &&& forall|i: int| 0 <= i < plan.len() ==> (plan[i] == io_latch(0) <==> i == 1)
            &&& plan[13] == SleepStep::Wfi
            &&& plan[15] == SleepStep::Write(wake_request(WakeupMode::WakeUp))
            &&& plan[17] == SleepStep::EnableDomain(PowerDomain::VIMS)
            &&& plan[18] == SleepStep::EnableDomain(PowerDomain::CPU)
        }),
{
}

/// The two changes a deep sleep makes to the system control register leave
/// it with the deep-sleep bit clear and the wake-on-pending bit set, and
/// touch no other bit.
pub proof fn lemma_scr_after_wake(scr: u32)
    ensures
        modified(modified(scr, 0, 0x14), 0x04, 0) == (scr | SEVONPEND) & !SLEEP_DEEP,
        modified(scr, 0, 0x14) & SLEEP_DEEP != 0,
        modified(scr, 0, 0x14) & SEVONPEND != 0,
        modified(modified(scr, 0, 0x14), 0x04, 0) & SLEEP_DEEP == 0,
{
    assert(((((scr & !0u32) | 0x14u32) & !0x04u32) | 0u32) == (scr | 0x10u32) & !0x04u32)
        by (bit_vector);
    assert(((scr & !0u32) | 0x14u32) & 0x04u32 != 0) by (bit_vector);
    assert(((scr & !0u32) | 0x14u32) & 0x10u32 != 0) by (bit_vector);
    assert(((((scr & !0u32) | 0x14u32) & !0x04u32) | 0u32) & 0x04u32 == 0) by (bit_vector);
}

/// The lookup order, line by line.
pub proof fn lemma_lookup_order(lines: PeripheralInterrupts)
    ensures
        ({
            let order = lines.lookup_order();
            &&& order.len() == 15
            &&& order[0] == lines.gpio
            &&& order[1] == lines.aon_rtc
            &&& order[2] == lines.uart0
            &&& order[3] == lines.gpt0a
            &&& order[4] == lines.gpt0b
            &&& order[5] == lines.gpt1a
            &&& order[6] == lines.gpt1b
            &&& order[7] == lines.gpt2a
            &&& order[8] == lines.gpt2b
            &&& order[9] == lines.gpt3a
            &&& order[10] == lines.gpt3b
            &&& order[11] == X0_RF_CMD_ACK
            &&& order[12] == X0_RF_CPE0
            &&& order[13] == X0_RF_CPE1
            &&& order[14] == lines.aon_prog
        }),
{
    reveal(PeripheralInterrupts::lookup_order);
}

/// When no two lines share a number, every line is bound to its own
/// driver: each timer half to its timer, each radio line to its kind, and
/// the programmable always-on line to nothing.
pub proof fn lemma_bindings(lines: PeripheralInterrupts)
    requires
        lines.distinct(),
    ensures
        binding_of(lines, lines.gpio) == Binding::Handled(Handler::Gpio),
        binding_of(lines, lines.aon_rtc) == Binding::Handled(Handler::Rtc),
        binding_of(lines, lines.uart0) == Binding::Handled(Handler::Uart0),
        binding_of(lines, lines.gpt0a) == Binding::Handled(Handler::Gpt0),
        binding_of(lines, lines.gpt0b) == Binding::Handled(Handler::Gpt0),
        binding_of(lines, lines.gpt1a) == Binding::Handled(Handler::Gpt1),
        binding_of(lines, lines.gpt1b) == Binding::Handled(Handler::Gpt1),
        binding_of(lines, lines.gpt2a) == Binding::Handled(Handler::Gpt2),
        binding_of(lines, lines.gpt2b) == Binding::Handled(Handler::Gpt2),
        binding_of(lines, lines.gpt3a) == Binding::Handled(Handler::Gpt3),
        binding_of(lines, lines.gpt3b) == Binding::Handled(Handler::Gpt3),
        binding_of(lines, X0_RF_CMD_ACK) == Binding::Handled(Handler::Rfc(RfcInterrupt::CmdAck)),
        binding_of(lines, X0_RF_CPE0) == Binding::Handled(Handler::Rfc(RfcInterrupt::Cpe0)),
        binding_of(lines, X0_RF_CPE1) == Binding::Handled(Handler::Rfc(RfcInterrupt::Cpe1)),
        binding_of(lines, lines.aon_prog) == Binding::Ignored,
{
    lemma_lookup_order(lines);
}


/// Servicing a line that a driver owns calls that driver's handler exactly
/// once, first, and then clears and enables that very line; servicing an
/// acknowledged-only line calls no handler.
pub proof fn lemma_interrupt_fan_out(lines: PeripheralInterrupts, interrupt: u32)
    requires
        binding_of(lines, interrupt) != Binding::Unbound,
    ensures
        ({
            let steps = service_of(lines, interrupt);
            let n = steps.len();
            &&& steps[n - 2] == InterruptStep::ClearPending(interrupt)
            &&& steps[n - 1] == InterruptStep::Enable(interrupt)
            &&& match binding_of(lines, interrupt) {
                Binding::Handled(h) => n == 3 && steps[0] == InterruptStep::Handle(h),
                _ => n == 2,
            }
        }),
{
}

} // verus!
