use cc26x0::aux::{Aux, AuxClock, AuxState, WakeupMode};
use cc26x0::regs::RegWrite;

const AUX_CLK: u32 = 0x4009_1004;
const AUX_CFG: u32 = 0x4009_100C;
const AUX_CTL: u32 = 0x4009_1010;
const PWR_STAT: u32 = 0x4009_1014;
const MOD_CLK_EN0: u32 = 0x400C_6000;
const PWR_OFF_REQ: u32 = 0x400C_6004;
const MCU_BUS_CTL: u32 = 0x400C_6034;

fn write(addr: u32, value: u32) -> RegWrite {
    RegWrite { addr, value }
}

#[test]
fn power_up_of_a_powered_domain_writes_nothing() {
    let aux = Aux::new();
    for stat in [0x02u32, 0x03, 0xFFFF_FFFF, 0x8000_0002] {
        let (state, writes) = aux.replay(aux.power_up(), &vec![stat]);
        assert_eq!(state, AuxState::Idle);
        assert_eq!(writes, vec![]);
    }
}

#[test]
fn power_up_requests_wake_once_and_polls() {
    let aux = Aux::new();
    let (state, writes) = aux.replay(aux.power_up(), &vec![0x00, 0x01, 0xFFFF_FFFD, 0x02]);
    assert_eq!(state, AuxState::Idle);
    assert_eq!(writes, vec![write(AUX_CTL, 1)]);
}

#[test]
fn power_up_keeps_waiting_while_unpowered() {
    let aux = Aux::new();
    let (state, writes) = aux.replay(aux.power_up(), &vec![0x00, 0x00, 0x00]);
    assert_eq!(state, AuxState::AwaitingPowerUp { clock: None });
    assert_eq!(writes, vec![write(AUX_CTL, 1)]);
    assert_eq!(aux.awaits(state), Some(PWR_STAT));
    let (state, writes) = aux.resume(state, 0x02);
    assert_eq!(state, AuxState::Idle);
    assert_eq!(writes, vec![]);
    assert_eq!(aux.awaits(state), None);
}

#[test]
fn power_up_step_by_step() {
    let aux = Aux::new();
    let start = aux.power_up();
    assert_eq!(start, AuxState::CheckingPower { clock: None });
    assert_eq!(aux.awaits(start), Some(PWR_STAT));
    let (waiting, writes) = aux.resume(start, 0x01);
    assert_eq!(waiting, AuxState::AwaitingPowerUp { clock: None });
    assert_eq!(writes, vec![write(AUX_CTL, 1)]);
    let (still, writes) = aux.resume(waiting, 0x01);
    assert_eq!(still, waiting);
    assert_eq!(writes, vec![]);
}

#[test]
fn activate_clock_on_a_powered_domain() {
    let aux = Aux::new();
    let start = aux.activate_clock(AuxClock::OscillatorControl);
    let (state, writes) = aux.replay(start, &vec![0x02, 0x01]);
    assert_eq!(state, AuxState::Idle);
    assert_eq!(writes, vec![write(MOD_CLK_EN0, 0x41)]);
}

#[test]
fn activate_clock_powers_up_first() {
    let aux = Aux::new();
    let start = aux.activate_clock(AuxClock::Semaphores);
    let (state, writes) = aux.replay(start, &vec![0x00, 0x00, 0x02, 0x40]);
    assert_eq!(state, AuxState::Idle);
    assert_eq!(writes, vec![write(AUX_CTL, 1), write(MOD_CLK_EN0, 0x41)]);
}

#[test]
fn activate_clock_reads_the_clock_enables_once_powered() {
    let aux = Aux::new();
    let start = aux.activate_clock(AuxClock::Semaphores);
    let (state, writes) = aux.replay(start, &vec![0x00, 0x02]);
    assert_eq!(state, AuxState::EnablingClock { clock: AuxClock::Semaphores });
    assert_eq!(writes, vec![write(AUX_CTL, 1)]);
    assert_eq!(aux.awaits(state), Some(MOD_CLK_EN0));
}

#[test]
fn activate_clock_is_idempotent() {
    let aux = Aux::new();
    let start = aux.activate_clock(AuxClock::OscillatorControl);
    let (_, writes) = aux.replay(start, &vec![0x02, 0x40]);
    assert_eq!(writes, vec![write(MOD_CLK_EN0, 0x40)]);
}

#[test]
fn clock_is_active_reads_the_clock_bit() {
    let aux = Aux::new();
    assert!(aux.clock_is_active(AuxClock::OscillatorControl, 0x40));
    assert!(!aux.clock_is_active(AuxClock::OscillatorControl, 0xFFFF_FFBF));
    assert!(aux.clock_is_active(AuxClock::Semaphores, 0x01));
    assert!(!aux.clock_is_active(AuxClock::Semaphores, 0x40));
}

#[test]
fn wakeup_event_writes_the_mode() {
    let aux = Aux::new();
    assert_eq!(aux.wakeup_event(WakeupMode::AllowSleep), write(AUX_CTL, 0));
    assert_eq!(aux.wakeup_event(WakeupMode::WakeUp), write(AUX_CTL, 1));
}

#[test]
fn power_status_is_bit_one() {
    let aux = Aux::new();
    assert_eq!(aux.power_status(0x02), WakeupMode::WakeUp);
    assert_eq!(aux.power_status(0xFFFF_FFFF), WakeupMode::WakeUp);
    assert_eq!(aux.power_status(0x00), WakeupMode::AllowSleep);
    assert_eq!(aux.power_status(0xFFFF_FFFD), WakeupMode::AllowSleep);
}

#[test]
fn power_down_sequence() {
    let aux = Aux::new();
    let start = aux.power_down();
    assert_eq!(aux.awaits(start), Some(AUX_CLK));
    let (state, writes) = aux.replay(start, &vec![0xFFFF_FFFF, 0x02, 0x02, 0x00]);
    assert_eq!(state, AuxState::Idle);
    assert_eq!(
        writes,
        vec![
            write(AUX_CLK, 0xFFFF_E7FF),
            write(AUX_CFG, 0),
            write(AUX_CTL, 0),
            write(PWR_OFF_REQ, 1),
            write(MCU_BUS_CTL, 1),
        ]
    );
}

#[test]
fn power_down_waits_for_the_domain() {
    let aux = Aux::new();
    let (state, writes) = aux.replay(aux.power_down(), &vec![0x1800, 0x02]);
    assert_eq!(state, AuxState::AwaitingPowerDown);
    assert_eq!(writes.len(), 5);
    assert_eq!(writes[0], write(AUX_CLK, 0));
    assert_eq!(aux.awaits(state), Some(PWR_STAT));
}

#[test]
fn an_idle_machine_ignores_values() {
    let aux = Aux::new();
    let (state, writes) = aux.resume(AuxState::Idle, 0x1234);
    assert_eq!(state, AuxState::Idle);
    assert_eq!(writes, vec![]);
    let (state, writes) = aux.replay(aux.power_up(), &vec![0x02, 0x00, 0x00]);
    assert_eq!(state, AuxState::Idle);
    assert_eq!(writes, vec![]);
}
