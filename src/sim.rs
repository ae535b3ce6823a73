//! The system integration module's register block and the clock gates in it.

use vstd::prelude::*;

use crate::bits::{bit_is_set, filled, set_bit};

verus! {

/// Base address of the system integration module's register block.
pub const SIM_BASE: u32 = 0x4004_7000;

/// Number of named 32-bit registers in the block.
pub const SIM_REGISTER_COUNT: usize = 22;

/// The block's named registers, in address order. Reserved words lie
/// between some of them; see `sim_offset`.
#[derive(Clone, Copy, Debug, PartialEq, Eq, Structural)]
pub enum SimRegister {
    Sopt1,
    Sopt1cfg,
    Sopt2,
    Sopt4,
    Sopt5,
    Sopt7,
    Sdid,
    Scgc1,
    Scgc2,
    Scgc3,
    Scgc4,
    Scgc5,
    Scgc6,
    Scgc7,
    Clkdiv1,
    Clkdiv2,
    Fcfg1,
    Fcfg2,
    Uidh,
    Uidmh,
    Uidml,
    Uidl,
}

/// Position of a register among the named registers.
pub open spec fn sim_rank(reg: SimRegister) -> nat {
    match reg {
        SimRegister::Sopt1 => 0,
        SimRegister::Sopt1cfg => 1,
        SimRegister::Sopt2 => 2,
        SimRegister::Sopt4 => 3,
        SimRegister::Sopt5 => 4,
        SimRegister::Sopt7 => 5,
        SimRegister::Sdid => 6,
        SimRegister::Scgc1 => 7,
        SimRegister::Scgc2 => 8,
        SimRegister::Scgc3 => 9,
        SimRegister::Scgc4 => 10,
        SimRegister::Scgc5 => 11,
        SimRegister::Scgc6 => 12,
        SimRegister::Scgc7 => 13,
        SimRegister::Clkdiv1 => 14,
        SimRegister::Clkdiv2 => 15,
        SimRegister::Fcfg1 => 16,
        SimRegister::Fcfg2 => 17,
        SimRegister::Uidh => 18,
        SimRegister::Uidmh => 19,
        SimRegister::Uidml => 20,
        SimRegister::Uidl => 21,
    }
}

/// Byte offset of a register from the block's base. Four reserved regions
/// separate the registers: 1023 words after `Sopt1cfg`, one word after
/// `Sopt2`, one after `Sopt5` and two after `Sopt7`.
pub open spec fn sim_offset(reg: SimRegister) -> u32 {
    match reg {
        SimRegister::Sopt1 => 0x0000,
        SimRegister::Sopt1cfg => 0x0004,
        SimRegister::Sopt2 => 0x1004,
        SimRegister::Sopt4 => 0x100C,
        SimRegister::Sopt5 => 0x1010,
        SimRegister::Sopt7 => 0x1018,
        SimRegister::Sdid => 0x1024,
        SimRegister::Scgc1 => 0x1028,
        SimRegister::Scgc2 => 0x102C,
        SimRegister::Scgc3 => 0x1030,
        SimRegister::Scgc4 => 0x1034,
        SimRegister::Scgc5 => 0x1038,
        SimRegister::Scgc6 => 0x103C,
        SimRegister::Scgc7 => 0x1040,
        SimRegister::Clkdiv1 => 0x1044,
        SimRegister::Clkdiv2 => 0x1048,
        SimRegister::Fcfg1 => 0x104C,
        SimRegister::Fcfg2 => 0x1050,
        SimRegister::Uidh => 0x1054,
        SimRegister::Uidmh => 0x1058,
        SimRegister::Uidml => 0x105C,
        SimRegister::Uidl => 0x1060,
    }
}

/// The register map is sound: every register is word-aligned and a
/// register earlier in address order ends before a later one starts, so no
/// two registers overlap.
pub proof fn sim_layout_is_sound(a: SimRegister, b: SimRegister)
    ensures
        sim_offset(a) % 4 == 0,
        sim_rank(a) < SIM_REGISTER_COUNT,
        sim_rank(a) < sim_rank(b) ==> sim_offset(a) + 4 <= sim_offset(b),
        sim_rank(a) == sim_rank(b) ==> a == b,
{
}

impl SimRegister {
    /// Position of this register among the named registers.
    pub fn rank(&self) -> (r: usize)
        ensures
            r == sim_rank(*self),
    {
        match self {
            SimRegister::Sopt1 => 0,
            SimRegister::Sopt1cfg => 1,
            SimRegister::Sopt2 => 2,
            SimRegister::Sopt4 => 3,
            SimRegister::Sopt5 => 4,
            SimRegister::Sopt7 => 5,
            SimRegister::Sdid => 6,
            SimRegister::Scgc1 => 7,
            SimRegister::Scgc2 => 8,
            SimRegister::Scgc3 => 9,
            SimRegister::Scgc4 => 10,
            SimRegister::Scgc5 => 11,
            SimRegister::Scgc6 => 12,
            SimRegister::Scgc7 => 13,
            SimRegister::Clkdiv1 => 14,
            SimRegister::Clkdiv2 => 15,
            SimRegister::Fcfg1 => 16,
            SimRegister::Fcfg2 => 17,
            SimRegister::Uidh => 18,
            SimRegister::Uidmh => 19,
            SimRegister::Uidml => 20,
            SimRegister::Uidl => 21,
        }
    }

    /// Byte offset of this register from the block's base.
    pub fn offset(&self) -> (r: u32)
        ensures
            r == sim_offset(*self),
    {
        match self {
            SimRegister::Sopt1 => 0x0000,
            SimRegister::Sopt1cfg => 0x0004,
            SimRegister::Sopt2 => 0x1004,
            SimRegister::Sopt4 => 0x100C,
            SimRegister::Sopt5 => 0x1010,
            SimRegister::Sopt7 => 0x1018,
            SimRegister::Sdid => 0x1024,
            SimRegister::Scgc1 => 0x1028,
            SimRegister::Scgc2 => 0x102C,
            SimRegister::Scgc3 => 0x1030,
            SimRegister::Scgc4 => 0x1034,
            SimRegister::Scgc5 => 0x1038,
            SimRegister::Scgc6 => 0x103C,
            SimRegister::Scgc7 => 0x1040,
            SimRegister::Clkdiv1 => 0x1044,
            SimRegister::Clkdiv2 => 0x1048,
            SimRegister::Fcfg1 => 0x104C,
            SimRegister::Fcfg2 => 0x1050,
            SimRegister::Uidh => 0x1054,
            SimRegister::Uidmh => 0x1058,
            SimRegister::Uidml => 0x105C,
            SimRegister::Uidl => 0x1060,
        }
    }

    /// Address of this register.
    pub fn address(&self) -> (r: u32)
        ensures
            r == SIM_BASE + sim_offset(*self),
    {
        SIM_BASE + self.offset()
    }
}

/// The peripheral clocks that can be gated on.
#[derive(Clone, Copy, Debug, PartialEq, Eq, Structural)]
pub enum Clock {
    PortC,
}

/// The gating register that holds a clock's gate.
pub open spec fn gate_register(clock: Clock) -> SimRegister {
    match clock {
        Clock::PortC => SimRegister::Scgc5,
    }
}

/// The bit of its gating register that turns a clock on.
pub open spec fn gate_bit(clock: Clock) -> u32 {
    match clock {
        Clock::PortC => 11,
    }
}

impl Clock {
    /// The gating register that holds this clock's gate.
    pub fn register(&self) -> (r: SimRegister)
        ensures
            r == gate_register(*self),
    {
        match self {
            Clock::PortC => SimRegister::Scgc5,
        }
    }

    /// The bit of its gating register that turns this clock on.
    pub fn bit(&self) -> (r: u32)
        ensures
            r == gate_bit(*self),
            r < 32,
    {
        match self {
            Clock::PortC => 11,
        }
    }
}

/// Where the block lies, and the contents of its named registers in
/// address order.
pub struct SimView {
    pub base: u32,
    pub regs: Seq<u32>,
}

/// The system integration module's register block.
pub struct Sim {
    base: u32,
    regs: Vec<u32>,
}

impl View for Sim {
    type V = SimView;

    closed spec fn view(&self) -> SimView {
        SimView { base: self.base, regs: self.regs@ }
    }
}

impl Sim {
    /// The block lies at the module's base and holds its named registers.
    pub open spec fn wf(&self) -> bool {
        &&& self@.base == SIM_BASE
        &&& self@.regs.len() == SIM_REGISTER_COUNT
    }

    /// The block at the module's base, with every register zero.
    pub fn new() -> (r: Sim)
        ensures
            r.wf(),
            r@.base == SIM_BASE,
            r@.regs == Seq::new(SIM_REGISTER_COUNT as nat, |i: int| 0u32),
    {
        Sim { base: SIM_BASE, regs: filled(SIM_REGISTER_COUNT, 0u32) }
    }

    /// Address at which the block starts.
    pub fn base(&self) -> (r: u32)
        ensures
            r == self@.base,
    {
        self.base
    }

    /// Address of a register of this block.
    pub fn register_address(&self, reg: SimRegister) -> (r: u32)
        requires
            self.wf(),
        ensures
            r == self@.base + sim_offset(reg),
    {
        reg.address()
    }

    /// Reads a register.
    pub fn read(&self, reg: SimRegister) -> (r: u32)
        requires
            self.wf(),
        ensures
            r == self@.regs[sim_rank(reg) as int],
    {
        proof {
            sim_layout_is_sound(reg, reg);
        }
        self.regs[reg.rank()]
    }

    /// Writes `value` to a register.
    pub fn write(&mut self, reg: SimRegister, value: u32)
        requires
            old(self).wf(),
        ensures
            final(self).wf(),
            final(self)@.base == old(self)@.base,
            final(self)@.regs == old(self)@.regs.update(sim_rank(reg) as int, value),
    {
        proof {
            sim_layout_is_sound(reg, reg);
        }
        self.regs.set(reg.rank(), value);
    }

    /// Turns `clock` on: sets its one gate bit and leaves the other 31 bits
    /// of the gating register, and every other register, as they were.
    pub fn enable_clock(&mut self, clock: Clock)
        requires
            old(self).wf(),
        ensures
            final(self).wf(),
            final(self)@.regs == old(self)@.regs.update(
                sim_rank(gate_register(clock)) as int,
                old(self)@.regs[sim_rank(gate_register(clock)) as int] | (1u32 << gate_bit(clock)),
            ),
            bit_is_set(final(self)@.regs[sim_rank(gate_register(clock)) as int], gate_bit(clock)),
            forall|i: u32|
                i < 32 && i != gate_bit(clock) ==> #[trigger] bit_is_set(
                    final(self)@.regs[sim_rank(gate_register(clock)) as int],
                    i,
                ) == bit_is_set(old(self)@.regs[sim_rank(gate_register(clock)) as int], i),
    {
        let reg = clock.register();
        let gated = set_bit(self.read(reg), clock.bit());
        self.write(reg, gated);
    }
}

} // verus!
