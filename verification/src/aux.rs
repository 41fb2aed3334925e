//! AUX domain controller.
//!
//! The controller owns two register banks: the always-on wake-up controller
//! and the AUX wake-up controller. It has no state of its own. An operation
//! that has to look at the hardware is a small machine: it says which
//! register it wants read, takes the value, and answers with the writes to
//! issue and the state to go on from. The caller keeps reading and resuming
//! until the machine is idle; a status register that has not settled yet
//! simply leaves the machine waiting.
//!
//! Only one client may drive the controller at a time.

use vstd::prelude::*;
use crate::regs::RegWrite;

verus! {

/// Base of the always-on wake-up controller.
pub const AON_WUC_BASE: u32 = 0x4009_1000;
/// Base of the AUX wake-up controller.
pub const AUX_WUC_BASE: u32 = 0x400C_6000;

/// AON bank: clock configuration of the AUX domain.
pub const AON_AUX_CLK: u32 = 0x4009_1004;
/// AON bank: retention configuration of the AUX domain.
pub const AON_AUX_CFG: u32 = 0x4009_100C;
/// AON bank: wake-up request for the AUX domain.
pub const AON_AUX_CTL: u32 = 0x4009_1010;
/// AON bank: power status.
pub const AON_PWR_STAT: u32 = 0x4009_1014;
/// AUX bank: clock enables of the AUX modules.
pub const AUX_MOD_CLK_EN0: u32 = 0x400C_6000;
/// AUX bank: power-off request.
pub const AUX_PWR_OFF_REQ: u32 = 0x400C_6004;
/// AUX bank: connection of the AUX domain to the MCU bus.
pub const AUX_MCU_BUS_CTL: u32 = 0x400C_6034;

/// Bit of PWR_STAT that is set while the AUX domain is powered.
pub const PWR_STAT_AUX_POWERED: u32 = 0x02;
/// Bits of AUX_CLK that select the clock source used in power-down.
pub const AUX_CLK_POWER_DOWN_SRC: u32 = 0x0000_1800;

/// The requested, or observed, state of the AUX domain.
#[derive(Clone, Copy, PartialEq, Eq, Structural, Debug)]
pub enum WakeupMode {
    AllowSleep,
    WakeUp,
}

/// The sub-clocks of the AUX domain that can be gated.
#[derive(Clone, Copy, PartialEq, Eq, Structural, Debug)]
pub enum AuxClock {
    OscillatorControl,
    Semaphores,
}

/// Where an operation of the controller stands. Every state but `Idle`
/// waits for the value of one register, named by [`awaited`].
#[derive(Clone, Copy, PartialEq, Eq, Structural, Debug)]
#[allow(inconsistent_fields)]
pub enum AuxState {
    /// Nothing is in progress.
    Idle,
    /// A power-up was asked for and the power status is not known yet.
    /// `clock` is the clock to switch on once the domain is powered.
    CheckingPower { clock: Option<AuxClock> },
    /// The wake-up request was written; the domain has not reported power.
    AwaitingPowerUp { clock: Option<AuxClock> },
    /// The domain is powered; the clock enables are being read.
    EnablingClock { clock: AuxClock },
    /// A power-down was asked for; the clock configuration is being read.
    ReleasingClockSource,
    /// The power-off request was written; the domain still reports power.
    AwaitingPowerDown,
}

/// The bit of MOD_CLK_EN0 that gates `clock`.
pub open spec fn clock_mask(clock: AuxClock) -> u32 {
    match clock {
        AuxClock::OscillatorControl => 0x40,
        AuxClock::Semaphores => 0x01,
    }
}

/// The power state that a value of PWR_STAT reports.
pub open spec fn status_of(pwr_stat: u32) -> WakeupMode {
    if pwr_stat & 0x02 != 0 {
        WakeupMode::WakeUp
    } else {
        WakeupMode::AllowSleep
    }
}

/// The write that requests `mode` from the AUX domain.
pub open spec fn wake_request(mode: WakeupMode) -> RegWrite {
    RegWrite {
        addr: AON_AUX_CTL,
        value: match mode {
            WakeupMode::AllowSleep => 0,
            WakeupMode::WakeUp => 1,
        },
    }
}

/// The register whose value `state` waits for, if it waits for one.
pub open spec fn awaited(state: AuxState) -> Option<u32> {
    match state {
        AuxState::Idle => None,
        AuxState::CheckingPower { .. } => Some(AON_PWR_STAT),
        AuxState::AwaitingPowerUp { .. } => Some(AON_PWR_STAT),
        AuxState::EnablingClock { .. } => Some(AUX_MOD_CLK_EN0),
        AuxState::ReleasingClockSource => Some(AON_AUX_CLK),
        AuxState::AwaitingPowerDown => Some(AON_PWR_STAT),
    }
}

/// The state that follows once the domain is known to be powered.
pub open spec fn once_powered(clock: Option<AuxClock>) -> AuxState {
    match clock {
        Some(c) => AuxState::EnablingClock { clock: c },
        None => AuxState::Idle,
    }
}

/// The writes that take the AUX domain down, given the value of AUX_CLK.
pub open spec fn power_down_writes(aux_clk: u32) -> Seq<RegWrite> {
    seq![
        RegWrite { addr: AON_AUX_CLK, value: aux_clk & !AUX_CLK_POWER_DOWN_SRC },
        RegWrite { addr: AON_AUX_CFG, value: 0 },
        wake_request(WakeupMode::AllowSleep),
        RegWrite { addr: AUX_PWR_OFF_REQ, value: 1 },
        RegWrite { addr: AUX_MCU_BUS_CTL, value: 1 },
    ]
}

/// One transition: from `state` and the value read from the register it
/// waited for, to the next state and the writes to issue, in order.
pub open spec fn step(state: AuxState, value: u32) -> (AuxState, Seq<RegWrite>) {
    match state {
        AuxState::Idle => (AuxState::Idle, Seq::empty()),
        AuxState::CheckingPower { clock } => {
            if status_of(value) == WakeupMode::WakeUp {
                (once_powered(clock), Seq::empty())
            } else {
                (AuxState::AwaitingPowerUp { clock }, seq![wake_request(WakeupMode::WakeUp)])
            }
        },
        AuxState::AwaitingPowerUp { clock } => {
            if status_of(value) == WakeupMode::WakeUp {
                (once_powered(clock), Seq::empty())
            } else {
                (state, Seq::empty())
            }
        },
        AuxState::EnablingClock { clock } => (
            AuxState::Idle,
            seq![RegWrite { addr: AUX_MOD_CLK_EN0, value: value | clock_mask(clock) }],
        ),
        AuxState::ReleasingClockSource => (AuxState::AwaitingPowerDown, power_down_writes(value)),
        AuxState::AwaitingPowerDown => {
            if status_of(value) == WakeupMode::AllowSleep {
                (AuxState::Idle, Seq::empty())
            } else {
                (state, Seq::empty())
            }
        },
    }
}

/// A whole exchange: the state reached and every write issued, in order,
/// when the registers answer with `reads`, one value per read. Values that
/// arrive after the machine has gone idle are not looked at.
pub open spec fn run(state: AuxState, reads: Seq<u32>) -> (AuxState, Seq<RegWrite>)
    decreases reads.len(),
{
    if reads.len() == 0 || state == AuxState::Idle {
        (state, Seq::empty())
    } else {
        let first = step(state, reads[0]);
        let rest = run(first.0, reads.drop_first());
        (rest.0, first.1 + rest.1)
    }
}

/// The writes that see to the domain's power, given the first value of
/// PWR_STAT: none if it reports power, the wake-up request if not.
pub open spec fn woken_by(pwr_stat: u32) -> Seq<RegWrite> {
    if status_of(pwr_stat) == WakeupMode::WakeUp {
        Seq::empty()
    } else {
        seq![wake_request(WakeupMode::WakeUp)]
    }
}

/// Whether `w` sets the bit of `clock` in MOD_CLK_EN0.
pub open spec fn enables_clock(w: RegWrite, clock: AuxClock) -> bool {
    w.addr == AUX_MOD_CLK_EN0 && w.value & clock_mask(clock) == clock_mask(clock)
}

/// Handle on the AUX domain: the base addresses of its two register banks.
pub struct Aux {
    aon_regs: u32,
    aux_regs: u32,
}

impl Aux {
    #[verifier::type_invariant]
    spec fn banks_fixed(&self) -> bool {
        self.aon_regs == AON_WUC_BASE && self.aux_regs == AUX_WUC_BASE
    }

    /// Base address of the always-on wake-up controller.
    pub closed spec fn aon_base(&self) -> u32 {
        self.aon_regs
    }

    /// Base address of the AUX wake-up controller.
    pub closed spec fn aux_base(&self) -> u32 {
        self.aux_regs
    }

    /// The controller of this chip's AUX domain.
    pub fn new() -> (aux: Aux)
        ensures
            aux.aon_base() == AON_WUC_BASE,
            aux.aux_base() == AUX_WUC_BASE,
    {
        Aux { aon_regs: 0x4009_1000, aux_regs: 0x400C_6000 }
    }

    /// The register that `state` wants read next; `None` when nothing is
    /// left to do.
    pub fn awaits(&self, state: AuxState) -> (addr: Option<u32>)
        ensures
            addr == awaited(state),
    {
        proof {
            use_type_invariant(self);
        }
        match state {
            AuxState::Idle => None,
            AuxState::CheckingPower { .. } => Some(self.aon_regs + 0x14),
            AuxState::AwaitingPowerUp { .. } => Some(self.aon_regs + 0x14),
            AuxState::EnablingClock { .. } => Some(self.aux_regs),
            AuxState::ReleasingClockSource => Some(self.aon_regs + 0x04),
            AuxState::AwaitingPowerDown => Some(self.aon_regs + 0x14),
        }
    }

    /// Begins switching `clock` on: the domain is powered up first if it is
    /// not already, then the clock's bit is set in MOD_CLK_EN0. Whatever
    /// the registers answer, the clock's bit is written exactly when the
    /// operation completes, as its last write, and the only write before
    /// it is the wake-up request, made if and only if the first value of
    /// PWR_STAT did not report power.
    pub fn activate_clock(&self, clock: AuxClock) -> (state: AuxState)
        ensures
            state == (AuxState::CheckingPower { clock: Some(clock) }),
            awaited(state) == Some(AON_PWR_STAT),
            forall|reads: Seq<u32>|
                reads.len() > 0 && (#[trigger] run(state, reads)).0 == AuxState::Idle ==> ({
                    let writes = run(state, reads).1;
                    &&& enables_clock(writes.last(), clock)
                    &&& writes.drop_last() == woken_by(reads[0])
                }),
            forall|reads: Seq<u32>|
                reads.len() > 0 && (#[trigger] run(state, reads)).0 != AuxState::Idle ==> run(
                    state,
                    reads,
                ).1 == woken_by(reads[0]),
    {
        let state = AuxState::CheckingPower { clock: Some(clock) };
        proof {
            assert forall|reads: Seq<u32>| reads.len() > 0 implies ({
                let end = #[trigger] run(state, reads);
                let woken = woken_by(reads[0]);
                if end.0 == AuxState::Idle {
                    end.1.drop_last() == woken && enables_clock(end.1.last(), clock)
                } else {
                    end.1 == woken
                }
            }) by {
                lemma_clock_activation_powers_up(clock, reads);
            }
        }
        state
    }

    /// Whether `clock` is switched on, given the value of MOD_CLK_EN0.
    pub fn clock_is_active(&self, clock: AuxClock, mod_clk_en0: u32) -> (active: bool)
        ensures
            active == (mod_clk_en0 & clock_mask(clock) != 0),
    {
        match clock {
            AuxClock::OscillatorControl => (mod_clk_en0 & 0x40) != 0,
            AuxClock::Semaphores => (mod_clk_en0 & 0x1) != 0,
        }
    }

    /// Begins powering the domain up. If the first value of PWR_STAT
    /// reports power, the operation ends there and writes nothing; if not,
    /// it writes the wake-up request, once, and nothing else, however long
    /// the domain takes.
    pub fn power_up(&self) -> (state: AuxState)
        ensures
            state == (AuxState::CheckingPower { clock: None }),
            awaited(state) == Some(AON_PWR_STAT),
            forall|reads: Seq<u32>|
                reads.len() > 0 ==> (#[trigger] run(state, reads)).1 == woken_by(reads[0]),
            forall|reads: Seq<u32>|
                reads.len() > 0 && status_of(reads[0]) == WakeupMode::WakeUp ==> (#[trigger] run(
                    state,
                    reads,
                )).0 == AuxState::Idle,
    {
        let state = AuxState::CheckingPower { clock: None };
        proof {
            assert forall|reads: Seq<u32>| reads.len() > 0 implies (#[trigger] run(state, reads)).1
                == woken_by(reads[0]) && (status_of(reads[0]) == WakeupMode::WakeUp ==> run(
                state,
                reads,
            ).0 == AuxState::Idle) by {
                lemma_power_up_idempotent(reads);
            }
        }
        state
    }

    /// Begins powering the domain down. Once AUX_CLK was read, the
    /// operation clears the power-down clock source, switches retention
    /// off, allows the domain to sleep, requests power-off and disconnects
    /// the bus, in this order, and writes nothing else while it waits.
    pub fn power_down(&self) -> (state: AuxState)
        ensures
            state == AuxState::ReleasingClockSource,
            awaited(state) == Some(AON_AUX_CLK),
            forall|reads: Seq<u32>|
                reads.len() > 0 ==> (#[trigger] run(state, reads)).1 == power_down_writes(reads[0]),
    {
        let state = AuxState::ReleasingClockSource;
        proof {
            assert forall|reads: Seq<u32>| reads.len() > 0 implies (#[trigger] run(state, reads)).1
                == power_down_writes(reads[0]) by {
                lemma_power_down_writes(reads);
            }
        }
        state
    }

    /// The write that asks the domain to wake up or allows it to sleep.
    pub fn wakeup_event(&self, mode: WakeupMode) -> (w: RegWrite)
        ensures
            w == wake_request(mode),
    {
        proof {
            use_type_invariant(self);
        }
        match mode {
            WakeupMode::AllowSleep => RegWrite { addr: self.aon_regs + 0x10, value: 0 },
            WakeupMode::WakeUp => RegWrite { addr: self.aon_regs + 0x10, value: 1 },
        }
    }

    /// The power state of the domain, given the value of PWR_STAT.
    pub fn power_status(&self, pwr_stat: u32) -> (mode: WakeupMode)
        ensures
            mode == status_of(pwr_stat),
            (mode == WakeupMode::WakeUp) <==> (pwr_stat & PWR_STAT_AUX_POWERED != 0),
    {
        if (pwr_stat & 0x02) != 0 {
            WakeupMode::WakeUp
        } else {
            WakeupMode::AllowSleep
        }
    }

    /// Takes the operation one step on: `value` is what the register named
    /// by `awaits(state)` held. Returns the state to go on from and the
    /// writes to issue now, in order.
    pub fn resume(&self, state: AuxState, value: u32) -> (next: (AuxState, Vec<RegWrite>))
        ensures
            next.0 == step(state, value).0,
            next.1@ == step(state, value).1,
    {
        proof {
            use_type_invariant(self);
        }
        let mut writes: Vec<RegWrite> = Vec::new();
        match state {
            AuxState::Idle => (AuxState::Idle, writes),
            AuxState::CheckingPower { clock } => {
                if self.power_status(value) == WakeupMode::WakeUp {
                    (Self::powered(clock), writes)
                } else {
                    writes.push(self.wakeup_event(WakeupMode::WakeUp));
                    assert(writes@ =~= seq![wake_request(WakeupMode::WakeUp)]);
                    (AuxState::AwaitingPowerUp { clock }, writes)
                }
            },
            AuxState::AwaitingPowerUp { clock } => {
                if self.power_status(value) == WakeupMode::WakeUp {
                    (Self::powered(clock), writes)
                } else {
                    (state, writes)
                }
            },
            AuxState::EnablingClock { clock } => {
                let bit: u32 = match clock {
                    AuxClock::OscillatorControl => 0x40,
                    AuxClock::Semaphores => 0x1,
                };
                writes.push(RegWrite { addr: self.aux_regs, value: value | bit });
                assert(writes@ =~= seq![
                    RegWrite { addr: AUX_MOD_CLK_EN0, value: value | clock_mask(clock) },
                ]);
                (AuxState::Idle, writes)
            },
            AuxState::ReleasingClockSource => {
                // Disable the clock
                writes.push(
                    RegWrite { addr: self.aon_regs + 0x04, value: value & !0x0000_1800u32 },
                );
                // Disable SRAM retention of the AUX
                writes.push(RegWrite { addr: self.aon_regs + 0x0C, value: 0 });
                writes.push(self.wakeup_event(WakeupMode::AllowSleep));
                // Make a power-off request and disconnect the bus
                writes.push(RegWrite { addr: self.aux_regs + 0x04, value: 1 });
                writes.push(RegWrite { addr: self.aux_regs + 0x34, value: 1 });
                assert(writes@ =~= power_down_writes(value));
                (AuxState::AwaitingPowerDown, writes)
            },
            AuxState::AwaitingPowerDown => {
                if self.power_status(value) == WakeupMode::AllowSleep {
                    (AuxState::Idle, writes)
                } else {
                    (state, writes)
                }
            },
        }
    }

    fn powered(clock: Option<AuxClock>) -> (state: AuxState)
        ensures
            state == once_powered(clock),
    {
        match clock {
            Some(c) => AuxState::EnablingClock { clock: c },
            None => AuxState::Idle,
        }
    }

    /// Drives an operation from `state` against a script of register
    /// values, one per read, and returns the state reached with every write
    /// issued on the way.
    pub fn replay(&self, state: AuxState, reads: &Vec<u32>) -> (end: (AuxState, Vec<RegWrite>))
        ensures
            end.0 == run(state, reads@).0,
            end.1@ == run(state, reads@).1,
    {
        let mut current: AuxState = state;
        let mut log: Vec<RegWrite> = Vec::new();
        let mut i: usize = 0;
        assert(reads@.skip(0) =~= reads@);
        while i < reads.len() && current != AuxState::Idle
            invariant
                i <= reads.len(),
                run(state, reads@).0 == run(current, reads@.skip(i as int)).0,
                run(state, reads@).1 =~= log@ + run(current, reads@.skip(i as int)).1,
            decreases reads.len() - i,
        {
            let (next, mut writes) = self.resume(current, reads[i]);
            proof {
                let tail = reads@.skip(i as int);
                assert(tail[0] == reads@[i as int]);
                assert(tail.drop_first() =~= reads@.skip(i as int + 1));
            }
            log.append(&mut writes);
            current = next;
            i = i + 1;
        }
        (current, log)
    }
}

/// A machine that waits for power-up writes nothing while it waits, and
/// leaves the waiting state exactly when some value reports power.
proof fn lemma_waiting_for_power(reads: Seq<u32>)
    ensures
        run(AuxState::AwaitingPowerUp { clock: None }, reads).1 =~= Seq::<RegWrite>::empty(),
        run(AuxState::AwaitingPowerUp { clock: None }, reads).0 == AuxState::Idle <==> exists|
            i: int,
        |
            0 <= i < reads.len() && status_of(#[trigger] reads[i]) == WakeupMode::WakeUp,
    decreases reads.len(),
{
    let waiting = AuxState::AwaitingPowerUp { clock: None };
    if reads.len() > 0 {
        let tail = reads.drop_first();
        if status_of(reads[0]) == WakeupMode::WakeUp {
            assert(run(AuxState::Idle, tail) == (AuxState::Idle, Seq::<RegWrite>::empty()));
        } else {
            lemma_waiting_for_power(tail);
            if run(waiting, tail).0 == AuxState::Idle {
                let i = choose|i: int|
                    0 <= i < tail.len() && status_of(#[trigger] tail[i]) == WakeupMode::WakeUp;
                assert(reads[i + 1] == tail[i]);
            }
            if exists|i: int|
                0 <= i < reads.len() && status_of(#[trigger] reads[i]) == WakeupMode::WakeUp {
                let i = choose|i: int|
                    0 <= i < reads.len() && status_of(#[trigger] reads[i]) == WakeupMode::WakeUp;
                assert(tail[i - 1] == reads[i]);
            }
        }
    }
}

/// Power-up is idempotent. If the first value of PWR_STAT reports power, the
/// operation ends at once and writes nothing. If it does not, the operation
/// writes the wake-up request exactly once, whatever follows, and ends
/// exactly when a later value of PWR_STAT reports power.
pub proof fn lemma_power_up_idempotent(reads: Seq<u32>)
    requires
        reads.len() > 0,
    ensures
        status_of(reads[0]) == WakeupMode::WakeUp ==> run(
            AuxState::CheckingPower { clock: None },
            reads,
        ) == (AuxState::Idle, Seq::<RegWrite>::empty()),
        status_of(reads[0]) != WakeupMode::WakeUp ==> run(
            AuxState::CheckingPower { clock: None },
            reads,
        ).1 == seq![wake_request(WakeupMode::WakeUp)],
        status_of(reads[0]) != WakeupMode::WakeUp ==> (run(
            AuxState::CheckingPower { clock: None },
            reads,
        ).0 == AuxState::Idle <==> exists|i: int|
            1 <= i < reads.len() && status_of(#[trigger] reads[i]) == WakeupMode::WakeUp),
{
    let start = AuxState::CheckingPower { clock: None };
    let tail = reads.drop_first();
    if status_of(reads[0]) == WakeupMode::WakeUp {
        assert(run(AuxState::Idle, tail) == (AuxState::Idle, Seq::<RegWrite>::empty()));
        assert(run(start, reads).1 =~= Seq::<RegWrite>::empty());
    } else {
        let waiting = AuxState::AwaitingPowerUp { clock: None };
        lemma_waiting_for_power(tail);
        assert(run(start, reads).1 =~= seq![wake_request(WakeupMode::WakeUp)]);
        if run(waiting, tail).0 == AuxState::Idle {
            let i = choose|i: int|
                0 <= i < tail.len() && status_of(#[trigger] tail[i]) == WakeupMode::WakeUp;
            assert(reads[i + 1] == tail[i]);
        }
        if exists|i: int|
            1 <= i < reads.len() && status_of(#[trigger] reads[i]) == WakeupMode::WakeUp {
            let i = choose|i: int|
                1 <= i < reads.len() && status_of(#[trigger] reads[i]) == WakeupMode::WakeUp;
            assert(tail[i - 1] == reads[i]);
        }
    }
}

/// From the moment the domain is known to be powered, or is awaited, a
/// clock activation writes nothing but the clock enable, and that at most
/// once, as its last act.
proof fn lemma_clock_after_power(state: AuxState, clock: AuxClock, reads: Seq<u32>)
    requires
        state == (AuxState::AwaitingPowerUp { clock: Some(clock) }) || state == (
        AuxState::EnablingClock { clock }),
    ensures
        run(state, reads).0 == AuxState::Idle ==> run(state, reads).1.len() == 1 && enables_clock(
            run(state, reads).1[0],
            clock,
        ),
        run(state, reads).0 != AuxState::Idle ==> run(state, reads).1.len() == 0,
    decreases reads.len(),
{
    if reads.len() > 0 {
        let tail = reads.drop_first();
        let first = step(state, reads[0]);
        if first.0 == AuxState::Idle {
            assert(run(AuxState::Idle, tail) == (AuxState::Idle, Seq::<RegWrite>::empty()));
            let v = reads[0];
            let m = clock_mask(clock);
            assert((v | m) & m == m) by (bit_vector);
            assert(run(state, reads).1 =~= first.1);
        } else {
            lemma_clock_after_power(first.0, clock, tail);
            assert(run(state, reads).1 =~= run(first.0, tail).1);
        }
    }
}

/// A clock gate is only opened on a powered domain. If the first value of
/// PWR_STAT reports power, a clock activation writes nothing but the
/// clock's bit; otherwise its first write is the wake-up request. Either
/// way the clock's bit is written exactly when the activation completes,
/// as its last write, and nothing else is written.
pub proof fn lemma_clock_activation_powers_up(clock: AuxClock, reads: Seq<u32>)
    requires
        reads.len() > 0,
    ensures
        ({
            let end = run(AuxState::CheckingPower { clock: Some(clock) }, reads);
            let woken = woken_by(reads[0]);
            if end.0 == AuxState::Idle {
                end.1.len() == woken.len() + 1 && end.1.drop_last() == woken && enables_clock(
                    end.1.last(),
                    clock,
                )
            } else {
                end.1 == woken
            }
        }),
{
    let start = AuxState::CheckingPower { clock: Some(clock) };
    let tail = reads.drop_first();
    let first = step(start, reads[0]);
    lemma_clock_after_power(first.0, clock, tail);
    let end = run(start, reads);
    assert(end.1 =~= first.1 + run(first.0, tail).1);
    if end.0 == AuxState::Idle {
        assert(end.1.drop_last() =~= first.1);
    } else {
        assert(end.1 =~= first.1);
    }
}

/// Activating a clock twice is the same as activating it once: the value
/// written has the clock's bit set, so the clock reads as active; every
/// other bit is as it was read; and an activation that reads this value
/// writes it again unchanged.
pub proof fn lemma_clock_enable_idempotent(clock: AuxClock, value: u32)
    ensures
        ({
            let w = step(AuxState::EnablingClock { clock }, value).1[0];
            &&& w.value & clock_mask(clock) != 0
            &&& w.value & !clock_mask(clock) == value & !clock_mask(clock)
            &&& step(AuxState::EnablingClock { clock }, w.value).1[0] == w
        }),
{
    let m = clock_mask(clock);
    assert((value | m) & m != 0 && (value | m) & !m == value & !m && (value | m) | m == value
        | m) by (bit_vector)
        requires
            m == 0x40 || m == 0x01,
    ;
}

/// A power-down issues its five writes once, after reading AUX_CLK, and
/// nothing else; it ends exactly when a later value of PWR_STAT reports
/// that the domain is off.
pub proof fn lemma_power_down_writes(reads: Seq<u32>)
    requires
        reads.len() > 0,
    ensures
        run(AuxState::ReleasingClockSource, reads).1 == power_down_writes(reads[0]),
        run(AuxState::ReleasingClockSource, reads).0 == AuxState::Idle <==> exists|i: int|
            1 <= i < reads.len() && status_of(#[trigger] reads[i]) == WakeupMode::AllowSleep,
{
    let tail = reads.drop_first();
    lemma_waiting_for_power_off(tail);
    assert(run(AuxState::ReleasingClockSource, reads).1 =~= power_down_writes(reads[0]));
    if run(AuxState::AwaitingPowerDown, tail).0 == AuxState::Idle {
        let i = choose|i: int|
            0 <= i < tail.len() && status_of(#[trigger] tail[i]) == WakeupMode::AllowSleep;
        assert(reads[i + 1] == tail[i]);
    }
    if exists|i: int|
        1 <= i < reads.len() && status_of(#[trigger] reads[i]) == WakeupMode::AllowSleep {
        let i = choose|i: int|
            1 <= i < reads.len() && status_of(#[trigger] reads[i]) == WakeupMode::AllowSleep;
        assert(tail[i - 1] == reads[i]);
    }
}

proof fn lemma_waiting_for_power_off(reads: Seq<u32>)
    ensures
        run(AuxState::AwaitingPowerDown, reads).1 =~= Seq::<RegWrite>::empty(),
        run(AuxState::AwaitingPowerDown, reads).0 == AuxState::Idle <==> exists|i: int|
            0 <= i < reads.len() && status_of(#[trigger] reads[i]) == WakeupMode::AllowSleep,
    decreases reads.len(),
{
    if reads.len() > 0 {
        let tail = reads.drop_first();
        if status_of(reads[0]) == WakeupMode::AllowSleep {
            assert(run(AuxState::Idle, tail) == (AuxState::Idle, Seq::<RegWrite>::empty()));
        } else {
            lemma_waiting_for_power_off(tail);
            if run(AuxState::AwaitingPowerDown, tail).0 == AuxState::Idle {
                let i = choose|i: int|
                    0 <= i < tail.len() && status_of(#[trigger] tail[i]) == WakeupMode::AllowSleep;
                assert(reads[i + 1] == tail[i]);
            }
            if exists|i: int|
                0 <= i < reads.len() && status_of(#[trigger] reads[i]) == WakeupMode::AllowSleep {
                let i = choose|i: int|
                    0 <= i < reads.len() && status_of(#[trigger] reads[i])
                        == WakeupMode::AllowSleep;
                assert(tail[i - 1] == reads[i]);
            }
        }
    }
}

} // verus!
