use cc26x0::aux::Aux;
use cc26x0::chip::{
    Binding, Cc26x0, Handler, InterruptStep, PeripheralInterrupts, PowerDomain, SleepMode,
    SleepStep, SystemControlRegisters,
};
use cc26x0::radio::rfc::RfcInterrupt;
use cc26x0::regs::{RegModify, RegWrite};

const IOLATCH: u32 = 0x4009_400C;
const AUX_CTL: u32 = 0x4009_1010;
const SCR: u32 = 0xE000_ED10;

fn lines() -> PeripheralInterrupts {
    PeripheralInterrupts {
        gpio: 0,
        aon_rtc: 4,
        uart0: 5,
        gpt0a: 15,
        gpt0b: 16,
        gpt1a: 17,
        gpt1b: 18,
        gpt2a: 19,
        gpt2b: 20,
        gpt3a: 21,
        gpt3b: 22,
        aon_prog: 28,
    }
}

fn write(addr: u32, value: u32) -> SleepStep {
    SleepStep::Write(RegWrite { addr, value })
}

fn entry() -> Vec<SleepStep> {
    vec![
        SleepStep::BeforeSleep(0),
        write(IOLATCH, 0),
        write(AUX_CTL, 0),
        SleepStep::SetRamRetention(true),
        SleepStep::ForceDisableDmaAndCrypto,
        SleepStep::DisableDomain(PowerDomain::VIMS),
        SleepStep::DisableDomain(PowerDomain::RFC),
        SleepStep::DisableDomain(PowerDomain::CPU),
        SleepStep::SetJtagEnabled(false),
        SleepStep::McuPowerDown,
        SleepStep::RtcSync,
        SleepStep::DisableVims,
        SleepStep::Modify(RegModify { addr: SCR, clear: 0, set: 0x14 }),
    ]
}

fn exit() -> Vec<SleepStep> {
    vec![
        SleepStep::RtcSync,
        write(AUX_CTL, 1),
        SleepStep::ReleaseUldo,
        SleepStep::EnableDomain(PowerDomain::VIMS),
        SleepStep::EnableDomain(PowerDomain::CPU),
        SleepStep::RtcSync,
        write(IOLATCH, 1),
        SleepStep::RtcSync,
        SleepStep::Modify(RegModify { addr: SCR, clear: 0x04, set: 0 }),
        SleepStep::AfterWakeup(0),
    ]
}

#[test]
fn deep_sleep_and_wake() {
    let chip = Cc26x0::new(lines());
    let steps = chip.sleep(&Aux::new(), 0);
    let mut expected = entry();
    expected.push(SleepStep::Wfi);
    expected.extend(exit());
    assert_eq!(steps, expected);
    assert_eq!(steps.iter().filter(|s| **s == SleepStep::BeforeSleep(0)).count(), 1);
    assert_eq!(steps.iter().filter(|s| **s == SleepStep::AfterWakeup(0)).count(), 1);
    assert_eq!(steps.iter().filter(|s| **s == SleepStep::Wfi).count(), 1);
}

#[test]
fn sleep_ordering_before_the_wait() {
    let chip = Cc26x0::new(lines());
    let steps = chip.sleep(&Aux::new(), 0);
    let wfi = steps.iter().position(|s| *s == SleepStep::Wfi).unwrap();
    assert_eq!(&steps[..wfi], &entry()[..]);
}

#[test]
fn wake_mirror_after_the_wait() {
    let chip = Cc26x0::new(lines());
    let steps = chip.sleep(&Aux::new(), 0);
    let wfi = steps.iter().position(|s| *s == SleepStep::Wfi).unwrap();
    assert_eq!(&steps[wfi + 1..], &exit()[..]);
}

#[test]
fn io_latch_is_released_once_after_the_domains_are_back() {
    let chip = Cc26x0::new(lines());
    let steps = chip.sleep(&Aux::new(), 0);
    let at = |step: SleepStep| -> Vec<usize> {
        steps.iter().enumerate().filter(|(_, s)| **s == step).map(|(i, _)| i).collect()
    };
    let release = at(write(IOLATCH, 1));
    assert_eq!(release.len(), 1);
    assert!(at(write(AUX_CTL, 1))[0] < release[0]);
    assert!(at(SleepStep::EnableDomain(PowerDomain::VIMS))[0] < release[0]);
    assert!(at(SleepStep::EnableDomain(PowerDomain::CPU))[0] < release[0]);
    assert!(at(SleepStep::Wfi)[0] < at(write(AUX_CTL, 1))[0]);
}

#[test]
fn active_sleep_short_circuit() {
    let chip = Cc26x0::new(lines());
    assert_eq!(chip.sleep(&Aux::new(), 2), vec![SleepStep::Wfi]);
}

#[test]
fn light_sleep_only_waits() {
    let chip = Cc26x0::new(lines());
    assert_eq!(chip.sleep(&Aux::new(), 1), vec![SleepStep::Wfi]);
}

#[test]
fn sleep_mode_numbers() {
    assert_eq!(SleepMode::from(0), SleepMode::DeepSleep);
    assert_eq!(SleepMode::from(1), SleepMode::Sleep);
    assert_eq!(SleepMode::from(2), SleepMode::Active);
    assert_eq!(SleepMode::DeepSleep.code(), 0);
    assert_eq!(SleepMode::Sleep.code(), 1);
    assert_eq!(SleepMode::Active.code(), 2);
}

#[test]
fn system_control_bits() {
    let entry = RegModify { addr: SCR, clear: 0, set: 0x14 };
    let exit = RegModify { addr: SCR, clear: 0x04, set: 0 };
    let asleep = entry.apply(0x0000_0002);
    assert_eq!(asleep, RegWrite { addr: SCR, value: 0x16 });
    let regs = SystemControlRegisters { scr: asleep.value };
    assert!(regs.sleep_deep());
    assert!(regs.sev_on_pend());
    assert!(regs.sleep_on_exit());
    let awake = exit.apply(asleep.value);
    assert_eq!(awake, RegWrite { addr: SCR, value: 0x12 });
    let regs = SystemControlRegisters { scr: awake.value };
    assert!(!regs.sleep_deep());
    assert!(regs.sev_on_pend());
}

#[test]
fn modify_clears_then_sets() {
    let m = RegModify { addr: 0x10, clear: 0xFF, set: 0x0F };
    assert_eq!(m.apply(0xABCD_12F0), RegWrite { addr: 0x10, value: 0xABCD_120F });
}

fn serviced(handler: Option<Handler>, line: u32) -> Vec<InterruptStep> {
    let mut steps: Vec<InterruptStep> = Vec::new();
    if let Some(h) = handler {
        steps.push(InterruptStep::Handle(h));
    }
    steps.push(InterruptStep::ClearPending(line));
    steps.push(InterruptStep::Enable(line));
    steps
}

#[test]
fn interrupt_fan_out() {
    let chip = Cc26x0::new(lines());
    let bound = [
        (0u32, Handler::Gpio),
        (4, Handler::Rtc),
        (5, Handler::Uart0),
        (15, Handler::Gpt0),
        (16, Handler::Gpt0),
        (17, Handler::Gpt1),
        (18, Handler::Gpt1),
        (19, Handler::Gpt2),
        (20, Handler::Gpt2),
        (21, Handler::Gpt3),
        (22, Handler::Gpt3),
        (11, Handler::Rfc(RfcInterrupt::CmdAck)),
        (9, Handler::Rfc(RfcInterrupt::Cpe0)),
        (2, Handler::Rfc(RfcInterrupt::Cpe1)),
    ];
    for (line, handler) in bound {
        assert_eq!(chip.binding(line), Binding::Handled(handler));
        assert_eq!(chip.service_pending_interrupts(line), serviced(Some(handler), line));
    }
    assert_eq!(chip.binding(28), Binding::Ignored);
    assert_eq!(chip.service_pending_interrupts(28), serviced(None, 28));
}

#[test]
fn interrupt_storm() {
    let chip = Cc26x0::new(lines());
    let mut log: Vec<InterruptStep> = Vec::new();
    for line in [5u32, 17, 28, 9] {
        log.extend(chip.service_pending_interrupts(line));
    }
    assert_eq!(
        log,
        vec![
            InterruptStep::Handle(Handler::Uart0),
            InterruptStep::ClearPending(5),
            InterruptStep::Enable(5),
            InterruptStep::Handle(Handler::Gpt1),
            InterruptStep::ClearPending(17),
            InterruptStep::Enable(17),
            InterruptStep::ClearPending(28),
            InterruptStep::Enable(28),
            InterruptStep::Handle(Handler::Rfc(RfcInterrupt::Cpe0)),
            InterruptStep::ClearPending(9),
            InterruptStep::Enable(9),
        ]
    );
}

#[test]
fn unknown_lines_are_unbound() {
    let chip = Cc26x0::new(lines());
    for line in [1u32, 3, 6, 10, 12, 23, 29, 255, 0xFFFF_FFFF] {
        assert_eq!(chip.binding(line), Binding::Unbound);
    }
}

#[test]
fn the_first_line_in_lookup_order_wins() {
    let mut shared = lines();
    shared.aon_prog = 9;
    shared.uart0 = 0;
    let chip = Cc26x0::new(shared);
    assert_eq!(chip.binding(9), Binding::Handled(Handler::Rfc(RfcInterrupt::Cpe0)));
    assert_eq!(chip.binding(0), Binding::Handled(Handler::Gpio));
}
