//! The watchdog timer's register block and its unlock-and-disable protocol.

use vstd::prelude::*;

use crate::bits::{bit16_is_set, clear_bit16, filled};

verus! {

/// Base address of the watchdog's register block.
pub const WATCHDOG_BASE: u32 = 0x4005_2000;

/// First value of the unlock sequence.
pub const UNLOCK_KEY_FIRST: u16 = 0xC520;

/// Second value of the unlock sequence.
pub const UNLOCK_KEY_SECOND: u16 = 0xD928;

/// Bit of the high status-and-control register that enables the watchdog.
pub const ENABLE_BIT: u16 = 0;

/// Number of 16-bit registers in the block.
pub const WATCHDOG_REGISTER_COUNT: usize = 12;

/// The watchdog's registers, in address order.
#[derive(Clone, Copy, Debug, PartialEq, Eq, Structural)]
pub enum WatchdogRegister {
    Stctrlh,
    Stctrll,
    Tovalh,
    Tovall,
    Winh,
    Winl,
    Refresh,
    Unlock,
    Tmrouth,
    Tmroutl,
    Rstcnt,
    Presc,
}

/// Position of a register within the block.
pub open spec fn watchdog_rank(reg: WatchdogRegister) -> nat {
    match reg {
        WatchdogRegister::Stctrlh => 0,
        WatchdogRegister::Stctrll => 1,
        WatchdogRegister::Tovalh => 2,
        WatchdogRegister::Tovall => 3,
        WatchdogRegister::Winh => 4,
        WatchdogRegister::Winl => 5,
        WatchdogRegister::Refresh => 6,
        WatchdogRegister::Unlock => 7,
        WatchdogRegister::Tmrouth => 8,
        WatchdogRegister::Tmroutl => 9,
        WatchdogRegister::Rstcnt => 10,
        WatchdogRegister::Presc => 11,
    }
}

impl WatchdogRegister {
    /// Position of this register within the block.
    pub fn rank(&self) -> (r: usize)
        ensures
            r == watchdog_rank(*self),
    {
        match self {
            WatchdogRegister::Stctrlh => 0,
            WatchdogRegister::Stctrll => 1,
            WatchdogRegister::Tovalh => 2,
            WatchdogRegister::Tovall => 3,
            WatchdogRegister::Winh => 4,
            WatchdogRegister::Winl => 5,
            WatchdogRegister::Refresh => 6,
            WatchdogRegister::Unlock => 7,
            WatchdogRegister::Tmrouth => 8,
            WatchdogRegister::Tmroutl => 9,
            WatchdogRegister::Rstcnt => 10,
            WatchdogRegister::Presc => 11,
        }
    }

    /// Address of this register: the registers are contiguous 16-bit words.
    pub fn address(&self) -> (r: u32)
        ensures
            r == WATCHDOG_BASE + 2 * watchdog_rank(*self),
    {
        WATCHDOG_BASE + 2 * (self.rank() as u32)
    }
}

/// One step that the block observes: a register write, or a clock cycle
/// in which nothing is written.
#[derive(Clone, Copy, Debug, PartialEq, Eq, Structural)]
pub enum WatchdogOp {
    Write(WatchdogRegister, u16),
    Wait,
}

/// The control register value that disables the watchdog: `ctrl` with its
/// enable bit cleared.
pub open spec fn disabled_control(ctrl: u16) -> u16 {
    ctrl & !1u16
}

/// The steps that unlock the block: the two unlock values, then two idle
/// cycles before its registers take writes.
pub open spec fn unlock_steps() -> Seq<WatchdogOp> {
    seq![
        WatchdogOp::Write(WatchdogRegister::Unlock, UNLOCK_KEY_FIRST),
        WatchdogOp::Write(WatchdogRegister::Unlock, UNLOCK_KEY_SECOND),
        WatchdogOp::Wait,
        WatchdogOp::Wait,
    ]
}

/// The steps of the disable protocol, given the control register's value
/// once the block is unlocked.
pub open spec fn disable_steps(ctrl: u16) -> Seq<WatchdogOp> {
    unlock_steps().push(WatchdogOp::Write(WatchdogRegister::Stctrlh, disabled_control(ctrl)))
}

/// The registers after `op`.
pub open spec fn regs_after(regs: Seq<u16>, op: WatchdogOp) -> Seq<u16> {
    match op {
        WatchdogOp::Write(reg, value) => regs.update(watchdog_rank(reg) as int, value),
        WatchdogOp::Wait => regs,
    }
}

/// The steps that unlock the block, in the order they must happen.
pub fn unlock_sequence() -> (r: Vec<WatchdogOp>)
    ensures
        r@ == unlock_steps(),
{
    let mut r: Vec<WatchdogOp> = Vec::new();
    r.push(WatchdogOp::Write(WatchdogRegister::Unlock, UNLOCK_KEY_FIRST));
    r.push(WatchdogOp::Write(WatchdogRegister::Unlock, UNLOCK_KEY_SECOND));
    r.push(WatchdogOp::Wait);
    r.push(WatchdogOp::Wait);
    assert(r@ =~= unlock_steps());
    r
}

/// The last step of the disable protocol: the control register `ctrl`, as
/// read once the block is unlocked, written back with only its enable bit
/// cleared.
pub fn disable_write(ctrl: u16) -> (r: WatchdogOp)
    ensures
        r == WatchdogOp::Write(WatchdogRegister::Stctrlh, disabled_control(ctrl)),
        !bit16_is_set(disabled_control(ctrl), 0),
        forall|i: u16|
            0 < i < 16 ==> #[trigger] bit16_is_set(disabled_control(ctrl), i) == bit16_is_set(ctrl, i),
{
    assert(!(1u16 << 0u16) == !1u16) by (bit_vector);
    WatchdogOp::Write(WatchdogRegister::Stctrlh, clear_bit16(ctrl, ENABLE_BIT))
}

/// The contents of the watchdog block, where it lies, and the steps it has
/// observed.
pub struct WatchdogView {
    pub base: u32,
    pub regs: Seq<u16>,
    pub trace: Seq<WatchdogOp>,
}

/// The watchdog's register block.
pub struct Watchdog {
    base: u32,
    regs: Vec<u16>,
    trace: Vec<WatchdogOp>,
}

impl View for Watchdog {
    type V = WatchdogView;

    closed spec fn view(&self) -> WatchdogView {
        WatchdogView { base: self.base, regs: self.regs@, trace: self.trace@ }
    }
}

impl Watchdog {
    /// The block lies at the watchdog's base and holds its twelve registers.
    pub open spec fn wf(&self) -> bool {
        &&& self@.base == WATCHDOG_BASE
        &&& self@.regs.len() == WATCHDOG_REGISTER_COUNT
    }

    /// The block at the watchdog's base, with every register zero and no
    /// step observed.
    pub fn new() -> (r: Watchdog)
        ensures
            r.wf(),
            r@.base == WATCHDOG_BASE,
            r@.regs == Seq::new(WATCHDOG_REGISTER_COUNT as nat, |i: int| 0u16),
            r@.trace == Seq::<WatchdogOp>::empty(),
    {
        Watchdog { base: WATCHDOG_BASE, regs: filled(WATCHDOG_REGISTER_COUNT, 0u16), trace: Vec::new() }
    }

    /// Address at which the block starts.
    pub fn base(&self) -> (r: u32)
        ensures
            r == self@.base,
    {
        self.base
    }

    /// Address of a register of this block.
    pub fn register_address(&self, reg: WatchdogRegister) -> (r: u32)
        requires
            self.wf(),
        ensures
            r == self@.base + 2 * watchdog_rank(reg),
    {
        reg.address()
    }

    /// Reads a register.
    pub fn read(&self, reg: WatchdogRegister) -> (r: u16)
        requires
            self.wf(),
        ensures
            r == self@.regs[watchdog_rank(reg) as int],
    {
        self.regs[reg.rank()]
    }

    /// The steps the block has observed, oldest first.
    pub fn trace(&self) -> (r: &Vec<WatchdogOp>)
        ensures
            r@ == self@.trace,
    {
        &self.trace
    }

    /// Writes `value` to a register.
    pub fn write(&mut self, reg: WatchdogRegister, value: u16)
        requires
            old(self).wf(),
        ensures
            final(self).wf(),
            final(self)@.regs == old(self)@.regs.update(watchdog_rank(reg) as int, value),
            final(self)@.trace == old(self)@.trace.push(WatchdogOp::Write(reg, value)),
    {
        self.regs.set(reg.rank(), value);
        self.trace.push(WatchdogOp::Write(reg, value));
    }

    /// Lets one clock cycle pass without touching the block.
    pub fn wait_cycle(&mut self)
        ensures
            final(self)@.base == old(self)@.base,
            final(self)@.regs == old(self)@.regs,
            final(self)@.trace == old(self)@.trace.push(WatchdogOp::Wait),
    {
        self.trace.push(WatchdogOp::Wait);
    }

    /// Carries out one step.
    pub fn apply(&mut self, op: WatchdogOp)
        requires
            old(self).wf(),
        ensures
            final(self).wf(),
            final(self)@.regs == regs_after(old(self)@.regs, op),
            final(self)@.trace == old(self)@.trace.push(op),
    {
        match op {
            WatchdogOp::Write(reg, value) => self.write(reg, value),
            WatchdogOp::Wait => self.wait_cycle(),
        }
    }

    /// Unlocks and disables the watchdog: writes the two unlock values, waits
    /// two cycles, then writes back the control register with only its
    /// enable bit cleared.
    pub fn disable(&mut self)
        requires
            old(self).wf(),
        ensures
            final(self).wf(),
            final(self)@.trace == old(self)@.trace + disable_steps(
                old(self)@.regs[watchdog_rank(WatchdogRegister::Stctrlh) as int],
            ),
            final(self)@.regs == old(self)@.regs.update(
                watchdog_rank(WatchdogRegister::Unlock) as int,
                UNLOCK_KEY_SECOND,
            ).update(
                watchdog_rank(WatchdogRegister::Stctrlh) as int,
                disabled_control(old(self)@.regs[watchdog_rank(WatchdogRegister::Stctrlh) as int]),
            ),
            !bit16_is_set(final(self)@.regs[watchdog_rank(WatchdogRegister::Stctrlh) as int], 0),
            forall|i: u16|
                0 < i < 16 ==> #[trigger] bit16_is_set(
                    final(self)@.regs[watchdog_rank(WatchdogRegister::Stctrlh) as int],
                    i,
                ) == bit16_is_set(old(self)@.regs[watchdog_rank(WatchdogRegister::Stctrlh) as int], i),
    {
        let steps = unlock_sequence();
        let mut k: usize = 0;
        while k < steps.len()
            invariant
                steps@ == unlock_steps(),
                k <= steps@.len(),
                self.wf(),
                self@.trace == old(self)@.trace + unlock_steps().take(k as int),
                forall|j: int|
                    0 <= j < WATCHDOG_REGISTER_COUNT && j != watchdog_rank(WatchdogRegister::Unlock)
                        ==> self@.regs[j] == old(self)@.regs[j],
                k >= 2 ==> self@.regs[watchdog_rank(WatchdogRegister::Unlock) as int] == UNLOCK_KEY_SECOND,
            decreases steps@.len() - k,
        {
            self.apply(steps[k]);
            k = k + 1;
            assert(unlock_steps().take(k as int) =~= unlock_steps().take(k - 1).push(unlock_steps()[k - 1]));
            assert(self@.trace =~= old(self)@.trace + unlock_steps().take(k as int));
        }
        let ctrl = self.read(WatchdogRegister::Stctrlh);
        let last = disable_write(ctrl);
        self.apply(last);
        assert(unlock_steps().take(4) =~= unlock_steps());
        assert(self@.trace =~= old(self)@.trace + disable_steps(ctrl));
        assert(self@.regs =~= old(self)@.regs.update(7, UNLOCK_KEY_SECOND).update(0, disabled_control(ctrl)));
    }
}

} // verus!
