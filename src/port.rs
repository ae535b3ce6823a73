//! Ports, their pin multiplexers, and the bit-banded GPIO lines that a
//! multiplexed pin becomes.

use vstd::prelude::*;

use crate::bits::{bit_is_set, field_of, filled, in_field, write_field};

verus! {

/// Base address of port C's pin-control block.
pub const PORTC_BASE: u32 = 0x4004_B000;

/// Base address of the bit-banded alias of port C's GPIO registers.
pub const GPIOC_BITBAND_BASE: u32 = 0x43FE_1000;

/// Number of pins, and of pin-control registers, in one port.
pub const PIN_COUNT: usize = 32;

/// Lowest bit of the multiplexer field in a pin-control register.
pub const MUX_OFFSET: u32 = 8;

/// Width in bits of the multiplexer field.
pub const MUX_WIDTH: u32 = 3;

/// Largest legal multiplexer mode.
pub const MUX_MODE_MAX: u32 = 7;

/// Multiplexer mode that routes a pin to GPIO.
pub const GPIO_MODE: u32 = 1;

/// Byte offset of the global pin-control low register.
pub const GPCLR_OFFSET: u32 = 0x80;

/// Byte offset of the global pin-control high register.
pub const GPCHR_OFFSET: u32 = 0x84;

/// Byte offset of the interrupt status flag register, after six reserved words.
pub const ISFR_OFFSET: u32 = 0xA0;

/// The ports that this chip's map knows.
#[derive(Clone, Copy, Debug, PartialEq, Eq, Structural)]
pub enum PortName {
    C,
}

/// Base address of a port's pin-control block.
pub open spec fn port_base(name: PortName) -> u32 {
    match name {
        PortName::C => PORTC_BASE,
    }
}

/// Base address of a port's bit-banded GPIO block.
pub open spec fn bitband_base(name: PortName) -> u32 {
    match name {
        PortName::C => GPIOC_BITBAND_BASE,
    }
}

/// The port whose pin-control block starts at `addr`, if any.
pub open spec fn port_at(addr: u32) -> Option<PortName> {
    if exists|n: PortName| port_base(n) == addr {
        Some(choose|n: PortName| port_base(n) == addr)
    } else {
        None
    }
}

/// Resolving the port at each known base address gives back that port; an
/// address that is no port's base resolves to no port; and whatever port an
/// address resolves to starts exactly there, so no address falls back on a
/// default port. `PortName::from_address`, `Port::at_address` and
/// `Port::name` all resolve through `port_at`.
pub proof fn port_identity_round_trip(name: PortName, addr: u32)
    ensures
        port_at(port_base(name)) == Some(name),
        (forall|n: PortName| port_base(n) != addr) ==> port_at(addr) is None,
        port_at(addr) matches Some(n) ==> port_base(n) == addr,
{
    assert(port_base(name) == port_base(name));
    let n = choose|n: PortName| port_base(n) == port_base(name);
    assert(n == name);
}

impl PortName {
    /// Base address of this port's pin-control block.
    pub fn base_address(&self) -> (r: u32)
        ensures
            r == port_base(*self),
    {
        match self {
            PortName::C => PORTC_BASE,
        }
    }

    /// Base address of this port's bit-banded GPIO block.
    pub fn bitband_address(&self) -> (r: u32)
        ensures
            r == bitband_base(*self),
    {
        match self {
            PortName::C => GPIOC_BITBAND_BASE,
        }
    }

    /// Address of pin `p`'s control register in this port's block.
    pub fn pcr_address(&self, p: usize) -> (r: u32)
        requires
            p < PIN_COUNT,
        ensures
            r == port_base(*self) + 4 * p,
    {
        self.base_address() + 4 * (p as u32)
    }

    /// Address of pin `p`'s word in array `reg` of this port's bit-banded
    /// block.
    pub fn bitband_word_address(&self, reg: GpioRegister, p: usize) -> (r: u32)
        requires
            p < PIN_COUNT,
        ensures
            r == bitband_base(*self) + 4 * word_index(reg, p as nat),
    {
        self.bitband_address() + 4 * ((reg.rank() * PIN_COUNT + p) as u32)
    }

    /// The port whose pin-control block starts at `addr`; `None` for any
    /// other address.
    pub fn from_address(addr: u32) -> (r: Option<PortName>)
        ensures
            r == port_at(addr),
    {
        proof {
            port_identity_round_trip(PortName::C, addr);
        }
        if addr == PORTC_BASE {
            Some(PortName::C)
        } else {
            None
        }
    }
}

/// Ways in which a pin configuration request is rejected.
#[derive(Clone, Copy, Debug, PartialEq, Eq, Structural)]
pub enum PinConfigError {
    /// The pin index is not below the number of pins of a port.
    PinOutOfRange,
    /// The multiplexer mode does not fit in its three-bit field.
    ModeOutOfRange,
}

/// A pin-control register after its multiplexer field is set to `mode`.
pub open spec fn with_mux(pcr: u32, mode: u32) -> u32 {
    (pcr & !0x700u32) | (mode << 8u32)
}

/// The multiplexer mode held by a pin-control register.
pub open spec fn mux_of(pcr: u32) -> u32 {
    field_of(pcr, MUX_OFFSET, MUX_WIDTH)
}

/// The new value of pin `p`'s control register `pcr` once its multiplexer
/// field selects `mode`: only bits 8 to 10 change. A pin index or mode out of
/// range is an error, checked in that order.
pub fn mux_update(pcr: u32, p: usize, mode: u32) -> (r: Result<u32, PinConfigError>)
    ensures
        p >= PIN_COUNT ==> r == Err::<u32, PinConfigError>(PinConfigError::PinOutOfRange),
        p < PIN_COUNT && mode > MUX_MODE_MAX ==> r == Err::<u32, PinConfigError>(
            PinConfigError::ModeOutOfRange,
        ),
        p < PIN_COUNT && mode <= MUX_MODE_MAX ==> {
            &&& r == Ok::<u32, PinConfigError>(with_mux(pcr, mode))
            &&& mux_of(with_mux(pcr, mode)) == mode
            &&& forall|i: u32|
                i < 32 && !in_field(i, MUX_OFFSET, MUX_WIDTH) ==> #[trigger] bit_is_set(
                    with_mux(pcr, mode),
                    i,
                ) == bit_is_set(pcr, i)
        },
{
    if p >= PIN_COUNT {
        return Err(PinConfigError::PinOutOfRange);
    }
    if mode > MUX_MODE_MAX {
        return Err(PinConfigError::ModeOutOfRange);
    }
    assert(mode < (1u32 << 3u32)) by (bit_vector)
        requires
            mode <= 7,
    ;
    assert(!((((1u32 << 3u32) - 1u32) as u32) << 8u32) == !0x700u32) by (bit_vector);
    Ok(write_field(pcr, MUX_OFFSET, MUX_WIDTH, mode))
}

/// The contents of a port's register block.
pub struct PortView {
    pub base: u32,
    pub pcr: Seq<u32>,
    pub gpclr: u32,
    pub gpchr: u32,
    pub isfr: u32,
}

/// A view of one port's pin-control register block.
pub struct Port {
    base: u32,
    pcr: Vec<u32>,
    gpclr: u32,
    gpchr: u32,
    isfr: u32,
}

impl View for Port {
    type V = PortView;

    closed spec fn view(&self) -> PortView {
        PortView {
            base: self.base,
            pcr: self.pcr@,
            gpclr: self.gpclr,
            gpchr: self.gpchr,
            isfr: self.isfr,
        }
    }
}

impl Port {
    /// The view sits at a known port's base and holds one register per pin.
    pub open spec fn wf(&self) -> bool {
        &&& self@.pcr.len() == PIN_COUNT
        &&& port_at(self@.base) is Some
    }

    /// The view of the named port's block, with every register zero.
    pub fn new(name: PortName) -> (r: Port)
        ensures
            r.wf(),
            r@.base == port_base(name),
            r@.pcr == Seq::new(PIN_COUNT as nat, |i: int| 0u32),
            r@.gpclr == 0 && r@.gpchr == 0 && r@.isfr == 0,
    {
        proof {
            port_identity_round_trip(name, 0);
        }
        Port { base: name.base_address(), pcr: filled(PIN_COUNT, 0u32), gpclr: 0, gpchr: 0, isfr: 0 }
    }

    /// The view of the block at `addr`; `None` where no port starts there.
    pub fn at_address(addr: u32) -> (r: Option<Port>)
        ensures
            r is Some <==> port_at(addr) is Some,
            r matches Some(p) ==> {
                &&& p.wf()
                &&& p@.base == addr
                &&& p@.pcr == Seq::new(PIN_COUNT as nat, |i: int| 0u32)
            },
    {
        match PortName::from_address(addr) {
            Some(name) => Some(Port::new(name)),
            None => None,
        }
    }

    /// The port that this view belongs to, found from its base address.
    pub fn name(&self) -> (r: PortName)
        requires
            self.wf(),
        ensures
            port_at(self@.base) == Some(r),
            port_base(r) == self@.base,
    {
        match PortName::from_address(self.base) {
            Some(n) => n,
            None => vstd::pervasive::unreached(),
        }
    }

    /// Address of pin `p`'s control register.
    pub fn pcr_address(&self, p: usize) -> (r: u32)
        requires
            self.wf(),
            p < PIN_COUNT,
        ensures
            r == self@.base + 4 * p,
    {
        self.name().pcr_address(p)
    }

    /// Reads pin `p`'s control register.
    pub fn pcr(&self, p: usize) -> (r: u32)
        requires
            self.wf(),
            p < PIN_COUNT,
        ensures
            r == self@.pcr[p as int],
    {
        self.pcr[p]
    }

    /// Writes `value` to pin `p`'s control register as it stands.
    pub fn write_pcr(&mut self, p: usize, value: u32)
        requires
            old(self).wf(),
            p < PIN_COUNT,
        ensures
            final(self).wf(),
            final(self)@ == (PortView { pcr: old(self)@.pcr.update(p as int, value), ..old(self)@ }),
    {
        self.pcr.set(p, value);
    }

    /// Selects multiplexer mode `mode` for pin `p`. Only bits 8 to 10 of the
    /// pin's control register change; a pin index or mode out of range is
    /// rejected before anything is written.
    pub fn set_pin_mode(&mut self, p: usize, mode: u32) -> (r: Result<(), PinConfigError>)
        requires
            old(self).wf(),
        ensures
            final(self).wf(),
            p >= PIN_COUNT ==> r == Err::<(), PinConfigError>(PinConfigError::PinOutOfRange),
            p < PIN_COUNT && mode > MUX_MODE_MAX ==> r == Err::<(), PinConfigError>(
                PinConfigError::ModeOutOfRange,
            ),
            r is Err ==> *final(self) == *old(self),
            p < PIN_COUNT && mode <= MUX_MODE_MAX ==> {
                &&& r is Ok
                &&& final(self)@ == (PortView {
                    pcr: old(self)@.pcr.update(p as int, with_mux(old(self)@.pcr[p as int], mode)),
                    ..old(self)@
                })
                &&& mux_of(final(self)@.pcr[p as int]) == mode
                &&& forall|i: u32|
                    i < 32 && !in_field(i, MUX_OFFSET, MUX_WIDTH) ==> #[trigger] bit_is_set(
                        final(self)@.pcr[p as int],
                        i,
                    ) == bit_is_set(old(self)@.pcr[p as int], i)
            },
    {
        if p >= PIN_COUNT {
            return Err(PinConfigError::PinOutOfRange);
        }
        match mux_update(self.pcr[p], p, mode) {
            Ok(pcr) => {
                self.pcr.set(p, pcr);
                Ok(())
            },
            Err(e) => Err(e),
        }
    }

    /// A handle on pin `p` of this port; `None` where `p` is not a pin index.
    pub fn pin(&self, p: usize) -> (r: Option<Pin>)
        requires
            self.wf(),
        ensures
            r is Some <==> p < PIN_COUNT,
            r matches Some(pin) ==> pin@ == (PinId { port: port_at(self@.base)->Some_0, index: p as nat }),
    {
        if p < PIN_COUNT {
            Some(Pin { port: self.name(), index: p })
        } else {
            None
        }
    }
}

/// Which pin of which port a handle stands for.
pub ghost struct PinId {
    pub port: PortName,
    pub index: nat,
}

/// A pin of a port before its function is selected.
pub struct Pin {
    port: PortName,
    index: usize,
}

impl View for Pin {
    type V = PinId;

    closed spec fn view(&self) -> PinId {
        PinId { port: self.port, index: self.index as nat }
    }
}

impl Pin {
    /// Routes this pin to GPIO on `port`, the block it belongs to, and turns
    /// the handle into a GPIO line on the same pin.
    pub fn make_gpio(self, port: &mut Port) -> (r: Gpio)
        requires
            old(port).wf(),
            port_at(old(port)@.base) == Some(self@.port),
            self@.index < PIN_COUNT,
        ensures
            final(port).wf(),
            final(port)@ == (PortView {
                pcr: old(port)@.pcr.update(
                    self@.index as int,
                    with_mux(old(port)@.pcr[self@.index as int], GPIO_MODE),
                ),
                ..old(port)@
            }),
            r@ == self@,
    {
        let _ = port.set_pin_mode(self.index, GPIO_MODE);
        Gpio::new(port.name(), self.index)
    }
}

/// The six parallel arrays of the bit-banded GPIO block, in address order.
#[derive(Clone, Copy, Debug, PartialEq, Eq, Structural)]
pub enum GpioRegister {
    /// Port data output.
    Pdor,
    /// Port set output: a one written sets the pin's output.
    Psor,
    /// Port clear output: a one written clears the pin's output.
    Pcor,
    /// Port toggle output: a one written flips the pin's output.
    Ptor,
    /// Port data input.
    Pdir,
    /// Port data direction: one for output.
    Pddr,
}

/// Position of a register array within the block.
pub open spec fn register_rank(reg: GpioRegister) -> nat {
    match reg {
        GpioRegister::Pdor => 0,
        GpioRegister::Psor => 1,
        GpioRegister::Pcor => 2,
        GpioRegister::Ptor => 3,
        GpioRegister::Pdir => 4,
        GpioRegister::Pddr => 5,
    }
}

/// Index of the word of pin `p` in array `reg`, counted from the block's start.
pub open spec fn word_index(reg: GpioRegister, p: nat) -> int {
    (register_rank(reg) * PIN_COUNT + p) as int
}

/// Number of words in the bit-banded block.
pub const BITBAND_WORDS: usize = 192;

impl GpioRegister {
    /// Position of this array within the block.
    pub fn rank(&self) -> (r: usize)
        ensures
            r == register_rank(*self),
    {
        match self {
            GpioRegister::Pdor => 0,
            GpioRegister::Psor => 1,
            GpioRegister::Pcor => 2,
            GpioRegister::Ptor => 3,
            GpioRegister::Pdir => 4,
            GpioRegister::Pddr => 5,
        }
    }
}

/// One write to the bit-banded block, as the bus carries it.
#[derive(Clone, Copy, Debug, PartialEq, Eq, Structural)]
pub struct GpioWrite {
    pub register: GpioRegister,
    pub pin: usize,
    pub value: u32,
}

/// The contents of a port's bit-banded GPIO block and the writes it has
/// received, oldest first.
pub struct GpioBitbandView {
    pub port: PortName,
    pub words: Seq<u32>,
    pub writes: Seq<GpioWrite>,
}

/// The block holds six arrays of one word per pin, and the set, clear and
/// toggle words, which act on a write and clear themselves, read zero.
pub open spec fn bitband_wf(v: GpioBitbandView) -> bool {
    &&& v.words.len() == BITBAND_WORDS
    &&& forall|p: nat|
        p < PIN_COUNT ==> {
            &&& v.words[#[trigger] word_index(GpioRegister::Psor, p)] == 0
            &&& v.words[word_index(GpioRegister::Pcor, p)] == 0
            &&& v.words[word_index(GpioRegister::Ptor, p)] == 0
        }
}

/// The data-output word after a toggle: zero becomes one, anything else zero.
pub open spec fn toggled(w: u32) -> u32 {
    if w == 0 {
        1
    } else {
        0
    }
}

/// The words of the block after `value` is written to pin `p`'s word of
/// array `reg`. Each word stands for one bit, so only bit 0 of `value`
/// counts. The data-output and direction words take that bit. A one written
/// to the set, clear or toggle word sets, clears or flips the pin's
/// data-output word instead, and the word itself stays zero; a zero written
/// there does nothing. The input word is read-only.
pub open spec fn words_after_write(words: Seq<u32>, reg: GpioRegister, p: nat, value: u32) -> Seq<u32> {
    let bit = (value % 2) as u32;
    let data = word_index(GpioRegister::Pdor, p);
    match reg {
        GpioRegister::Pdor => words.update(data, bit),
        GpioRegister::Pddr => words.update(word_index(GpioRegister::Pddr, p), bit),
        GpioRegister::Psor => if bit == 1 {
            words.update(data, 1u32)
        } else {
            words
        },
        GpioRegister::Pcor => if bit == 1 {
            words.update(data, 0u32)
        } else {
            words
        },
        GpioRegister::Ptor => if bit == 1 {
            words.update(data, toggled(words[data]))
        } else {
            words
        },
        GpioRegister::Pdir => words,
    }
}

/// The block after `value` is written to pin `p`'s word of array `reg`.
pub open spec fn after_write(v: GpioBitbandView, reg: GpioRegister, p: usize, value: u32) -> GpioBitbandView {
    GpioBitbandView {
        port: v.port,
        words: words_after_write(v.words, reg, p as nat, value),
        writes: v.writes.push(GpioWrite { register: reg, pin: p, value }),
    }
}

/// Words of distinct arrays, or of distinct pins, are distinct words.
proof fn word_index_injective(a: GpioRegister, i: nat, b: GpioRegister, j: nat)
    requires
        i < PIN_COUNT,
        j < PIN_COUNT,
    ensures
        word_index(a, i) == word_index(b, j) ==> a == b && i == j,
        0 <= word_index(a, i) < BITBAND_WORDS,
{
}

/// A write keeps the block well formed.
proof fn write_keeps_wf(v: GpioBitbandView, reg: GpioRegister, p: usize, value: u32)
    requires
        bitband_wf(v),
        p < PIN_COUNT,
    ensures
        bitband_wf(after_write(v, reg, p, value)),
{
    let w = after_write(v, reg, p, value);
    assert forall|q: nat| q < PIN_COUNT implies {
        &&& w.words[#[trigger] word_index(GpioRegister::Psor, q)] == 0
        &&& w.words[word_index(GpioRegister::Pcor, q)] == 0
        &&& w.words[word_index(GpioRegister::Ptor, q)] == 0
    } by {
        word_index_injective(GpioRegister::Psor, q, GpioRegister::Pdor, p as nat);
        word_index_injective(GpioRegister::Pcor, q, GpioRegister::Pdor, p as nat);
        word_index_injective(GpioRegister::Ptor, q, GpioRegister::Pdor, p as nat);
        word_index_injective(GpioRegister::Psor, q, GpioRegister::Pddr, p as nat);
        word_index_injective(GpioRegister::Pcor, q, GpioRegister::Pddr, p as nat);
        word_index_injective(GpioRegister::Ptor, q, GpioRegister::Pddr, p as nat);
        assert(v.words[word_index(GpioRegister::Psor, q)] == 0);
    }
}

/// A port's bit-banded GPIO block: one 32-bit word per pin in each of six
/// arrays.
pub struct GpioBitband {
    port: PortName,
    words: Vec<u32>,
    writes: Vec<GpioWrite>,
}

impl View for GpioBitband {
    type V = GpioBitbandView;

    closed spec fn view(&self) -> GpioBitbandView {
        GpioBitbandView { port: self.port, words: self.words@, writes: self.writes@ }
    }
}

impl GpioBitband {
    /// See `bitband_wf`.
    pub open spec fn wf(&self) -> bool {
        bitband_wf(self@)
    }

    /// The named port's block, with every word zero and no write received.
    pub fn new(port: PortName) -> (r: GpioBitband)
        ensures
            r.wf(),
            r@.port == port,
            r@.words == Seq::new(BITBAND_WORDS as nat, |i: int| 0u32),
            r@.writes == Seq::<GpioWrite>::empty(),
    {
        let r = GpioBitband { port, words: filled(BITBAND_WORDS, 0u32), writes: Vec::new() };
        assert forall|p: nat| p < PIN_COUNT implies {
            &&& r@.words[#[trigger] word_index(GpioRegister::Psor, p)] == 0
            &&& r@.words[word_index(GpioRegister::Pcor, p)] == 0
            &&& r@.words[word_index(GpioRegister::Ptor, p)] == 0
        } by {
            word_index_injective(GpioRegister::Psor, p, GpioRegister::Psor, p);
            word_index_injective(GpioRegister::Pcor, p, GpioRegister::Pcor, p);
            word_index_injective(GpioRegister::Ptor, p, GpioRegister::Ptor, p);
        }
        r
    }

    /// Address of pin `p`'s word in array `reg`.
    pub fn word_address(&self, reg: GpioRegister, p: usize) -> (r: u32)
        requires
            p < PIN_COUNT,
        ensures
            r == bitband_base(self@.port) + 4 * word_index(reg, p as nat),
    {
        self.port.bitband_word_address(reg, p)
    }

    /// Reads pin `p`'s word in array `reg`.
    pub fn read(&self, reg: GpioRegister, p: usize) -> (r: u32)
        requires
            self.wf(),
            p < PIN_COUNT,
        ensures
            r == self@.words[word_index(reg, p as nat)],
    {
        proof {
            word_index_injective(reg, p as nat, reg, p as nat);
        }
        self.words[reg.rank() * PIN_COUNT + p]
    }

    /// The writes the block has received, oldest first.
    pub fn writes(&self) -> (r: &Vec<GpioWrite>)
        ensures
            r@ == self@.writes,
    {
        &self.writes
    }

    /// Writes `value` to pin `p`'s word in array `reg`, with the effect the
    /// hardware gives it (see `words_after_write`).
    pub fn write(&mut self, reg: GpioRegister, p: usize, value: u32)
        requires
            old(self).wf(),
            p < PIN_COUNT,
        ensures
            final(self).wf(),
            final(self)@ == after_write(old(self)@, reg, p, value),
    {
        proof {
            write_keeps_wf(self@, reg, p, value);
            word_index_injective(reg, p as nat, reg, p as nat);
            word_index_injective(GpioRegister::Pdor, p as nat, GpioRegister::Pdor, p as nat);
        }
        let bit = value % 2;
        let data = GpioRegister::Pdor.rank() * PIN_COUNT + p;
        match reg {
            GpioRegister::Pdor | GpioRegister::Pddr => {
                self.words.set(reg.rank() * PIN_COUNT + p, bit);
            },
            GpioRegister::Psor => {
                if bit == 1 {
                    self.words.set(data, 1);
                }
            },
            GpioRegister::Pcor => {
                if bit == 1 {
                    self.words.set(data, 0);
                }
            },
            GpioRegister::Ptor => {
                if bit == 1 {
                    let flipped: u32 = if self.words[data] == 0 {
                        1
                    } else {
                        0
                    };
                    self.words.set(data, flipped);
                }
            },
            GpioRegister::Pdir => {},
        }
        self.writes.push(GpioWrite { register: reg, pin: p, value });
    }
}

/// Making pin `n` an output and then driving it high puts a one in pin `n`'s
/// direction word and its data-output word and changes no other word: the
/// set word reads zero again, and the neighbouring pins keep every word.
/// The level changes through exactly one write of a one to the set word;
/// the data-output word is never written.
pub proof fn output_then_high_touches_only_pin(v: GpioBitbandView, n: usize)
    requires
        bitband_wf(v),
        n < PIN_COUNT,
    ensures
        ({
            let w = after_write(after_write(v, GpioRegister::Pddr, n, 1), GpioRegister::Psor, n, 1);
            &&& bitband_wf(w)
            &&& w.port == v.port
            &&& w.words[word_index(GpioRegister::Pddr, n as nat)] == 1
            &&& w.words[word_index(GpioRegister::Pdor, n as nat)] == 1
            &&& w.words[word_index(GpioRegister::Psor, n as nat)] == 0
            &&& forall|reg: GpioRegister, i: nat|
                i < PIN_COUNT && !(i == n && (reg == GpioRegister::Pddr || reg == GpioRegister::Pdor))
                    ==> w.words[#[trigger] word_index(reg, i)] == v.words[word_index(reg, i)]
            &&& w.writes == v.writes + seq![
                GpioWrite { register: GpioRegister::Pddr, pin: n, value: 1 },
                GpioWrite { register: GpioRegister::Psor, pin: n, value: 1 },
            ]
        }),
{
    let u = after_write(v, GpioRegister::Pddr, n, 1);
    let w = after_write(u, GpioRegister::Psor, n, 1);
    write_keeps_wf(v, GpioRegister::Pddr, n, 1);
    write_keeps_wf(u, GpioRegister::Psor, n, 1);
    word_index_injective(GpioRegister::Pddr, n as nat, GpioRegister::Pdor, n as nat);
    assert(w.words[word_index(GpioRegister::Psor, n as nat)] == 0);
    assert forall|reg: GpioRegister, i: nat|
        i < PIN_COUNT && !(i == n && (reg == GpioRegister::Pddr || reg == GpioRegister::Pdor))
        implies w.words[#[trigger] word_index(reg, i)] == v.words[word_index(reg, i)] by {
        word_index_injective(reg, i, GpioRegister::Pddr, n as nat);
        word_index_injective(reg, i, GpioRegister::Pdor, n as nat);
    }
    assert(w.writes =~= v.writes + seq![
        GpioWrite { register: GpioRegister::Pddr, pin: n, value: 1 },
        GpioWrite { register: GpioRegister::Psor, pin: n, value: 1 },
    ]);
}

/// A pin that has been routed to GPIO.
pub struct Gpio {
    port: PortName,
    index: usize,
}

impl View for Gpio {
    type V = PinId;

    closed spec fn view(&self) -> PinId {
        PinId { port: self.port, index: self.index as nat }
    }
}

impl Gpio {
    /// The GPIO line for pin `pin` of `port`.
    pub fn new(port: PortName, pin: usize) -> (r: Gpio)
        requires
            pin < PIN_COUNT,
        ensures
            r@ == (PinId { port, index: pin as nat }),
    {
        Gpio { port, index: pin }
    }

    /// Makes the pin an output: a one written to its direction word, the
    /// other pins' direction words untouched.
    pub fn output(&self, bank: &mut GpioBitband)
        requires
            old(bank).wf(),
            old(bank)@.port == self@.port,
            self@.index < PIN_COUNT,
        ensures
            final(bank).wf(),
            final(bank)@ == after_write(old(bank)@, GpioRegister::Pddr, self@.index as usize, 1),
            final(bank)@.words == old(bank)@.words.update(
                word_index(GpioRegister::Pddr, self@.index),
                1u32,
            ),
            final(bank)@.writes == old(bank)@.writes.push(
                GpioWrite { register: GpioRegister::Pddr, pin: self@.index as usize, value: 1 },
            ),
    {
        bank.write(GpioRegister::Pddr, self.index, 1);
    }

    /// Drives the pin high through a one written to its set word: the pin's
    /// data-output word becomes one and no other word changes.
    pub fn high(&self, bank: &mut GpioBitband)
        requires
            old(bank).wf(),
            old(bank)@.port == self@.port,
            self@.index < PIN_COUNT,
        ensures
            final(bank).wf(),
            final(bank)@ == after_write(old(bank)@, GpioRegister::Psor, self@.index as usize, 1),
            final(bank)@.words == old(bank)@.words.update(
                word_index(GpioRegister::Pdor, self@.index),
                1u32,
            ),
            final(bank)@.writes == old(bank)@.writes.push(
                GpioWrite { register: GpioRegister::Psor, pin: self@.index as usize, value: 1 },
            ),
    {
        bank.write(GpioRegister::Psor, self.index, 1);
    }

    /// Drives the pin low through a one written to its clear word: the pin's
    /// data-output word becomes zero and no other word changes.
    pub fn low(&self, bank: &mut GpioBitband)
        requires
            old(bank).wf(),
            old(bank)@.port == self@.port,
            self@.index < PIN_COUNT,
        ensures
            final(bank).wf(),
            final(bank)@ == after_write(old(bank)@, GpioRegister::Pcor, self@.index as usize, 1),
            final(bank)@.words == old(bank)@.words.update(
                word_index(GpioRegister::Pdor, self@.index),
                0u32,
            ),
            final(bank)@.writes == old(bank)@.writes.push(
                GpioWrite { register: GpioRegister::Pcor, pin: self@.index as usize, value: 1 },
            ),
    {
        bank.write(GpioRegister::Pcor, self.index, 1);
    }
}

} // verus!
