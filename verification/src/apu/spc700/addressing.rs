use vstd::prelude::*;

use super::{AddressingMode, Cpu};
use crate::bus::{Bus, BusCycle};
use crate::w65c816::addressing::Address;
use crate::w65c816::trace::{d, rd, w16};

verus! {

/// The page of the direct page: 0, or 1 when P is set.
pub open spec fn dp_page(c: Cpu) -> int {
    if c.status.direct_page() { 1 } else { 0 }
}

/// The address of byte `off` (taken modulo 256) of the direct page.
pub open spec fn dp_addr(c: Cpu, off: int) -> int {
    0x100 * dp_page(c) + off % 256
}

/// The address `n` bytes after the program counter.
pub open spec fn pc_at(c: Cpu, n: int) -> int {
    (c.program_counter + n) % 0x1_0000
}

/// The CPU with its program counter `n` bytes on.
pub open spec fn advance(c: Cpu, n: int) -> Cpu {
    Cpu { program_counter: pc_at(c, n) as u16, ..c }
}

/// The modes whose operand lives in memory at an address that the mode computes.
pub open spec fn is_memory_mode(mode: AddressingMode) -> bool {
    match mode {
        AddressingMode::DirectPage | AddressingMode::Absolute | AddressingMode::IndirectX
        | AddressingMode::IndirectY | AddressingMode::XIndirect | AddressingMode::DirectX
        | AddressingMode::DirectY | AddressingMode::AbsoluteX | AddressingMode::AbsoluteY
        | AddressingMode::DirectPageIndirectY | AddressingMode::DirectXPostIncrement => true,
        _ => false,
    }
}

/// The bus cycles of computing the address of a memory mode, from cycle `k` of log `l` on.
#[verifier::opaque]
pub open spec fn mode_trace(mode: AddressingMode, c: Cpu, l: Seq<BusCycle>, k: int) -> Seq<BusCycle> {
    match mode {
        AddressingMode::DirectPage => seq![rd(pc_at(c, 0), d(l, k))],
        AddressingMode::Absolute => seq![rd(pc_at(c, 0), d(l, k)), rd(pc_at(c, 1), d(l, k + 1))],
        AddressingMode::IndirectX => seq![rd(pc_at(c, 0), d(l, k))],
        AddressingMode::XIndirect => seq![
            BusCycle::Io(1),
            rd(pc_at(c, 0), d(l, k + 1)),
            rd(dp_addr(c, d(l, k + 1) + c.index_x), d(l, k + 2)),
            rd(dp_addr(c, d(l, k + 1) + c.index_x + 1), d(l, k + 3)),
        ],
        AddressingMode::DirectX | AddressingMode::DirectY => seq![BusCycle::Io(1), rd(pc_at(c, 0), d(l, k + 1))],
        AddressingMode::AbsoluteX | AddressingMode::AbsoluteY => seq![
            BusCycle::Io(1),
            rd(pc_at(c, 0), d(l, k + 1)),
            rd(pc_at(c, 1), d(l, k + 2)),
        ],
        AddressingMode::DirectPageIndirectY => seq![
            BusCycle::Io(1),
            rd(pc_at(c, 0), d(l, k + 1)),
            rd(dp_addr(c, d(l, k + 1) as int), d(l, k + 2)),
            rd(dp_addr(c, d(l, k + 1) + 1), d(l, k + 3)),
        ],
        _ => seq![],
    }
}

/// The address that a memory mode computes.
#[verifier::opaque]
pub open spec fn mode_addr(mode: AddressingMode, c: Cpu, l: Seq<BusCycle>, k: int) -> int {
    match mode {
        AddressingMode::DirectPage => dp_addr(c, d(l, k) as int),
        AddressingMode::Absolute => w16(l, k),
        AddressingMode::IndirectX | AddressingMode::DirectXPostIncrement => dp_addr(c, c.index_x as int),
        AddressingMode::IndirectY => dp_addr(c, c.index_y as int),
        AddressingMode::XIndirect => w16(l, k + 2),
        AddressingMode::DirectX => dp_addr(c, d(l, k + 1) + c.index_x),
        AddressingMode::DirectY => dp_addr(c, d(l, k + 1) + c.index_y),
        AddressingMode::AbsoluteX => (w16(l, k + 1) + c.index_x) % 0x1_0000,
        AddressingMode::AbsoluteY => (w16(l, k + 1) + c.index_y) % 0x1_0000,
        AddressingMode::DirectPageIndirectY => (w16(l, k + 2) + c.index_y) % 0x1_0000,
        _ => 0,
    }
}

/// The number of operand bytes a memory mode takes after the opcode.
pub open spec fn mode_len(mode: AddressingMode) -> int {
    match mode {
        AddressingMode::Absolute | AddressingMode::AbsoluteX | AddressingMode::AbsoluteY => 2,
        AddressingMode::DirectPage | AddressingMode::XIndirect | AddressingMode::DirectX
        | AddressingMode::DirectY | AddressingMode::DirectPageIndirectY => 1,
        _ => 0,
    }
}

/// The CPU after computing the address of a memory mode: past the operand bytes, and
/// with X stepped on for `(X)+`.
pub open spec fn mode_cpu(mode: AddressingMode, c: Cpu) -> Cpu {
    let a = advance(c, mode_len(mode));
    if mode == AddressingMode::DirectXPostIncrement {
        Cpu { index_x: ((c.index_x + 1) % 256) as u8, ..a }
    } else {
        a
    }
}

/// The modes that give an 8-bit operand: the registers, an immediate byte, a memory bit
/// or a byte in memory.
pub open spec fn is_operand_mode(mode: AddressingMode) -> bool {
    is_memory_mode(mode) || is_register_mode(mode) || mode == AddressingMode::Immediate
        || mode == AddressingMode::AbsoluteBooleanBit
}

/// The register operands.
pub open spec fn is_register_mode(mode: AddressingMode) -> bool {
    mode == AddressingMode::Accumulator || mode == AddressingMode::X || mode == AddressingMode::Y
        || mode == AddressingMode::Sp || mode == AddressingMode::Psw
}

/// The value of a register operand.
pub open spec fn register(mode: AddressingMode, c: Cpu) -> u8 {
    match mode {
        AddressingMode::Accumulator => c.accumulator,
        AddressingMode::X => c.index_x,
        AddressingMode::Y => c.index_y,
        AddressingMode::Sp => c.stack_pointer,
        _ => c.status.0,
    }
}

/// The 13-bit address of a `mem.bit` operand word.
pub open spec fn bit_addr(w: int) -> int {
    w % 0x2000
}

/// The bit number of a `mem.bit` operand word.
pub open spec fn bit_index(w: int) -> int {
    w / 0x2000
}

/// The value of bit `i` (0 to 7).
pub open spec fn pow2(i: int) -> int {
    if i == 0 { 1 } else if i == 1 { 2 } else if i == 2 { 4 } else if i == 3 { 8 } else if i == 4 { 16 }
    else if i == 5 { 32 } else if i == 6 { 64 } else { 128 }
}

/// The bus cycles of fetching an operand.
pub open spec fn operand_trace(mode: AddressingMode, c: Cpu, l: Seq<BusCycle>, k: int) -> Seq<BusCycle> {
    if is_register_mode(mode) {
        seq![]
    } else if mode == AddressingMode::Immediate {
        seq![rd(pc_at(c, 0), d(l, k))]
    } else if mode == AddressingMode::AbsoluteBooleanBit {
        seq![rd(pc_at(c, 0), d(l, k)), rd(pc_at(c, 1), d(l, k + 1)), rd(bit_addr(w16(l, k)), d(l, k + 2))]
    } else {
        let t = mode_trace(mode, c, l, k);
        t.push(rd(mode_addr(mode, c, l, k), d(l, k + t.len())))
    }
}

/// The operand fetched.
pub open spec fn operand_value(mode: AddressingMode, c: Cpu, l: Seq<BusCycle>, k: int) -> u8 {
    if is_register_mode(mode) {
        register(mode, c)
    } else if mode == AddressingMode::Immediate {
        d(l, k)
    } else if mode == AddressingMode::AbsoluteBooleanBit {
        if (d(l, k + 2) as int / pow2(bit_index(w16(l, k)))) % 2 == 1 { pow2(bit_index(w16(l, k))) as u8 } else { 0 }
    } else {
        d(l, k + mode_trace(mode, c, l, k).len())
    }
}

/// The CPU after fetching an operand.
pub open spec fn operand_cpu(mode: AddressingMode, c: Cpu) -> Cpu {
    if is_register_mode(mode) {
        c
    } else if mode == AddressingMode::Immediate {
        advance(c, 1)
    } else if mode == AddressingMode::AbsoluteBooleanBit {
        advance(c, 2)
    } else {
        mode_cpu(mode, c)
    }
}

/// An operand fetch only looks at its own cycles: a longer log gives the same trace and value.
pub proof fn lemma_operand_frame(mode: AddressingMode, c: Cpu, l1: Seq<BusCycle>, l2: Seq<BusCycle>, k: int)
    requires
        0 <= k,
        k + operand_trace(mode, c, l1, k).len() <= l1.len(),
        l1.len() <= l2.len(),
        forall|i: int| 0 <= i < l1.len() ==> #[trigger] l2[i] == l1[i],
    ensures
        operand_trace(mode, c, l2, k) == operand_trace(mode, c, l1, k),
        operand_value(mode, c, l2, k) == operand_value(mode, c, l1, k),
        mode_trace(mode, c, l2, k) == mode_trace(mode, c, l1, k),
        mode_addr(mode, c, l2, k) == mode_addr(mode, c, l1, k),
{
    reveal(mode_trace);
    reveal(mode_addr);
    let n = operand_trace(mode, c, l1, k).len() as int;
    assert forall|i: int| k <= i < k + n implies l2[i] == l1[i] by {}
    if n > 0 { assert(l2[k] == l1[k]); }
    if n > 1 { assert(l2[k + 1] == l1[k + 1]); }
    if n > 2 { assert(l2[k + 2] == l1[k + 2]); }
    if n > 3 { assert(l2[k + 3] == l1[k + 3]); }
    if n > 4 { assert(l2[k + 4] == l1[k + 4]); }
    assert(mode_trace(mode, c, l2, k) =~= mode_trace(mode, c, l1, k));
    assert(operand_trace(mode, c, l2, k) =~= operand_trace(mode, c, l1, k));
}

impl Cpu {
    /// The page of the direct page: 0, or 1 when P is set.
    pub fn direct_page(&self) -> (r: u8)
        ensures
            r == dp_page(*self),
    {
        if self.status.direct_page() { 1 } else { 0 }
    }

    /// The address of byte `offset` of the direct page.
    pub fn direct_page_addr(&self, offset: u8) -> (r: u16)
        ensures
            r == dp_addr(*self, offset as int),
    {
        offset as u16 + self.direct_page() as u16 * 256
    }

    /// Reads the byte after the program counter and steps past it.
    pub fn get_imm<B: Bus>(&mut self, bus: &mut B) -> (r: u8)
        requires
            old(bus).inv(),
        ensures
            final(bus).inv(),
            final(bus).clock() >= old(bus).clock(),
            final(bus).agenda() == old(bus).agenda(),
            final(bus).cycles() == old(bus).cycles().push(rd(pc_at(*old(self), 0), r)),
            *final(self) == advance(*old(self), 1),
    {
        let addr = Address::new(self.program_counter, 0);
        self.program_counter = self.program_counter.wrapping_add(1);
        bus.read_and_tick(addr)
    }

    /// Reads a little-endian word after the program counter.
    pub fn abs<B: Bus>(&mut self, bus: &mut B) -> (r: u16)
        requires
            old(bus).inv(),
        ensures
            final(bus).inv(),
            final(bus).clock() >= old(bus).clock(),
            final(bus).agenda() == old(bus).agenda(),
            final(bus).cycles() == old(bus).cycles() + seq![
                rd(pc_at(*old(self), 0), d(final(bus).cycles(), old(bus).cycles().len() as int)),
                rd(pc_at(*old(self), 1), d(final(bus).cycles(), old(bus).cycles().len() as int + 1)),
            ],
            r == w16(final(bus).cycles(), old(bus).cycles().len() as int),
            *final(self) == advance(*old(self), 2),
    {
        let low = self.get_imm(bus);
        let high = self.get_imm(bus);
        proof {
            assert(bus.cycles() =~= old(bus).cycles() + seq![
                rd(pc_at(*old(self), 0), d(bus.cycles(), old(bus).cycles().len() as int)),
                rd(pc_at(*old(self), 1), d(bus.cycles(), old(bus).cycles().len() as int + 1)),
            ]);
        }
        low as u16 + high as u16 * 256
    }

    /// Reads the little-endian word at bytes `offset` and `offset + 1` (wrapping in the page)
    /// of the direct page.
    pub fn word_from_direct_page<B: Bus>(&mut self, bus: &mut B, offset: u8) -> (r: u16)
        requires
            old(bus).inv(),
        ensures
            final(bus).inv(),
            final(bus).clock() >= old(bus).clock(),
            final(bus).agenda() == old(bus).agenda(),
            final(bus).cycles() == old(bus).cycles() + seq![
                rd(dp_addr(*old(self), offset as int), d(final(bus).cycles(), old(bus).cycles().len() as int)),
                rd(dp_addr(*old(self), offset + 1), d(final(bus).cycles(), old(bus).cycles().len() as int + 1)),
            ],
            r == w16(final(bus).cycles(), old(bus).cycles().len() as int),
            *final(self) == *old(self),
    {
        let low_addr = self.direct_page_addr(offset);
        let high_addr = self.direct_page_addr(offset.wrapping_add(1));
        let low = bus.read_and_tick(Address::from(low_addr));
        let high = bus.read_and_tick(Address::from(high_addr));
        proof {
            assert(bus.cycles() =~= old(bus).cycles() + seq![
                rd(dp_addr(*old(self), offset as int), d(bus.cycles(), old(bus).cycles().len() as int)),
                rd(dp_addr(*old(self), offset + 1), d(bus.cycles(), old(bus).cycles().len() as int + 1)),
            ]);
        }
        low as u16 + high as u16 * 256
    }

    /// Reads the little-endian word at `addr` (the high byte at `addr + 1`, wrapping).
    pub fn read_16<B: Bus>(&mut self, bus: &mut B, addr: u16) -> (r: u16)
        requires
            old(bus).inv(),
        ensures
            final(bus).inv(),
            final(bus).clock() >= old(bus).clock(),
            final(bus).agenda() == old(bus).agenda(),
            final(bus).cycles() == old(bus).cycles() + seq![
                rd(addr as int, d(final(bus).cycles(), old(bus).cycles().len() as int)),
                rd((addr + 1) % 0x1_0000, d(final(bus).cycles(), old(bus).cycles().len() as int + 1)),
            ],
            r == w16(final(bus).cycles(), old(bus).cycles().len() as int),
            *final(self) == *old(self),
    {
        let low = bus.read_and_tick(Address::from(addr));
        let high = bus.read_and_tick(Address::from(addr.wrapping_add(1)));
        proof {
            assert(bus.cycles() =~= old(bus).cycles() + seq![
                rd(addr as int, d(bus.cycles(), old(bus).cycles().len() as int)),
                rd((addr + 1) % 0x1_0000, d(bus.cycles(), old(bus).cycles().len() as int + 1)),
            ]);
        }
        low as u16 + high as u16 * 256
    }

    /// Computes the address of a memory operand.
    pub fn decode_addressing_mode<B: Bus>(&mut self, bus: &mut B, mode: AddressingMode) -> (r: u16)
        requires
            old(bus).inv(),
            is_memory_mode(mode),
        ensures
            final(bus).inv(),
            final(bus).clock() >= old(bus).clock(),
            final(bus).agenda() == old(bus).agenda(),
            final(bus).cycles() == old(bus).cycles() + mode_trace(mode, *old(self), final(bus).cycles(), old(bus).cycles().len() as int),
            r == mode_addr(mode, *old(self), final(bus).cycles(), old(bus).cycles().len() as int),
            *final(self) == mode_cpu(mode, *old(self)),
    {
        match mode {
            AddressingMode::DirectPage => self.decode_dp(bus, mode),
            AddressingMode::Absolute => self.decode_abs(bus, mode),
            AddressingMode::IndirectX => self.decode_ind_x(bus, mode),
            AddressingMode::IndirectY => self.decode_ind_y(bus, mode),
            AddressingMode::XIndirect => self.decode_x_ind(bus, mode),
            AddressingMode::DirectX => self.decode_dp_x(bus, mode),
            AddressingMode::DirectY => self.decode_dp_y(bus, mode),
            AddressingMode::AbsoluteX => self.decode_abs_x(bus, mode),
            AddressingMode::AbsoluteY => self.decode_abs_y(bus, mode),
            AddressingMode::DirectPageIndirectY => self.decode_ind_dp_y(bus, mode),
            AddressingMode::DirectXPostIncrement => self.decode_ind_x_inc(bus, mode),
            _ => {
                proof { assert(false); }
                0
            },
        }
    }

    /// `dp`: a byte of the direct page.
    fn decode_dp<B: Bus>(&mut self, bus: &mut B, mode: AddressingMode) -> (r: u16)
        requires
            old(bus).inv(),
            mode == AddressingMode::DirectPage,
        ensures
            final(bus).inv(),
            final(bus).clock() >= old(bus).clock(),
            final(bus).agenda() == old(bus).agenda(),
            final(bus).cycles() == old(bus).cycles() + mode_trace(mode, *old(self), final(bus).cycles(), old(bus).cycles().len() as int),
            r == mode_addr(mode, *old(self), final(bus).cycles(), old(bus).cycles().len() as int),
            *final(self) == mode_cpu(mode, *old(self)),
    {
        proof { reveal(mode_trace); reveal(mode_addr); }
        let ghost n = old(bus).cycles().len() as int;
        let ghost c = *old(self);
        let offset = self.get_imm(bus);
        proof { assert(bus.cycles() =~= old(bus).cycles() + mode_trace(mode, c, bus.cycles(), n)); }
        self.direct_page_addr(offset)
    }

    /// `!abs`: an absolute address.
    fn decode_abs<B: Bus>(&mut self, bus: &mut B, mode: AddressingMode) -> (r: u16)
        requires
            old(bus).inv(),
            mode == AddressingMode::Absolute,
        ensures
            final(bus).inv(),
            final(bus).clock() >= old(bus).clock(),
            final(bus).agenda() == old(bus).agenda(),
            final(bus).cycles() == old(bus).cycles() + mode_trace(mode, *old(self), final(bus).cycles(), old(bus).cycles().len() as int),
            r == mode_addr(mode, *old(self), final(bus).cycles(), old(bus).cycles().len() as int),
            *final(self) == mode_cpu(mode, *old(self)),
    {
        proof { reveal(mode_trace); reveal(mode_addr); }
        let ghost n = old(bus).cycles().len() as int;
        let ghost c = *old(self);
        self.abs(bus)
    }

    /// `(X)`: the direct-page byte at X, after a discarded read.
    fn decode_ind_x<B: Bus>(&mut self, bus: &mut B, mode: AddressingMode) -> (r: u16)
        requires
            old(bus).inv(),
            mode == AddressingMode::IndirectX,
        ensures
            final(bus).inv(),
            final(bus).clock() >= old(bus).clock(),
            final(bus).agenda() == old(bus).agenda(),
            final(bus).cycles() == old(bus).cycles() + mode_trace(mode, *old(self), final(bus).cycles(), old(bus).cycles().len() as int),
            r == mode_addr(mode, *old(self), final(bus).cycles(), old(bus).cycles().len() as int),
            *final(self) == mode_cpu(mode, *old(self)),
    {
        proof { reveal(mode_trace); reveal(mode_addr); }
        let ghost n = old(bus).cycles().len() as int;
        let ghost c = *old(self);
        let _ = bus.read_and_tick(Address::new(self.program_counter, 0));
        proof { assert(bus.cycles() =~= old(bus).cycles() + mode_trace(mode, c, bus.cycles(), n)); }
        self.direct_page_addr(self.index_x)
    }

    /// `(Y)`: the direct-page byte at Y.
    fn decode_ind_y<B: Bus>(&mut self, bus: &mut B, mode: AddressingMode) -> (r: u16)
        requires
            old(bus).inv(),
            mode == AddressingMode::IndirectY,
        ensures
            final(bus).inv(),
            final(bus).clock() >= old(bus).clock(),
            final(bus).agenda() == old(bus).agenda(),
            final(bus).cycles() == old(bus).cycles() + mode_trace(mode, *old(self), final(bus).cycles(), old(bus).cycles().len() as int),
            r == mode_addr(mode, *old(self), final(bus).cycles(), old(bus).cycles().len() as int),
            *final(self) == mode_cpu(mode, *old(self)),
    {
        proof { reveal(mode_trace); reveal(mode_addr); }
        let ghost n = old(bus).cycles().len() as int;
        let ghost c = *old(self);
        proof { assert(bus.cycles() =~= old(bus).cycles() + mode_trace(mode, c, bus.cycles(), n)); }
        self.direct_page_addr(self.index_y)
    }

    /// `[dp+X]`: a word pointer in the direct page, indexed before.
    fn decode_x_ind<B: Bus>(&mut self, bus: &mut B, mode: AddressingMode) -> (r: u16)
        requires
            old(bus).inv(),
            mode == AddressingMode::XIndirect,
        ensures
            final(bus).inv(),
            final(bus).clock() >= old(bus).clock(),
            final(bus).agenda() == old(bus).agenda(),
            final(bus).cycles() == old(bus).cycles() + mode_trace(mode, *old(self), final(bus).cycles(), old(bus).cycles().len() as int),
            r == mode_addr(mode, *old(self), final(bus).cycles(), old(bus).cycles().len() as int),
            *final(self) == mode_cpu(mode, *old(self)),
    {
        proof { reveal(mode_trace); reveal(mode_addr); }
        let ghost n = old(bus).cycles().len() as int;
        let ghost c = *old(self);
        bus.add_io_cycles(1);
        let offset = self.get_imm(bus).wrapping_add(self.index_x);
        let r = self.word_from_direct_page(bus, offset);
        proof {
            assert((offset + 1) % 256 == (d(bus.cycles(), n + 1) + c.index_x + 1) % 256);
            assert(bus.cycles() =~= old(bus).cycles() + mode_trace(mode, c, bus.cycles(), n));
        }
        r
    }

    /// `dp+X`: a byte of the direct page, indexed (wrapping in the page).
    fn decode_dp_x<B: Bus>(&mut self, bus: &mut B, mode: AddressingMode) -> (r: u16)
        requires
            old(bus).inv(),
            mode == AddressingMode::DirectX,
        ensures
            final(bus).inv(),
            final(bus).clock() >= old(bus).clock(),
            final(bus).agenda() == old(bus).agenda(),
            final(bus).cycles() == old(bus).cycles() + mode_trace(mode, *old(self), final(bus).cycles(), old(bus).cycles().len() as int),
            r == mode_addr(mode, *old(self), final(bus).cycles(), old(bus).cycles().len() as int),
            *final(self) == mode_cpu(mode, *old(self)),
    {
        proof { reveal(mode_trace); reveal(mode_addr); }
        let ghost n = old(bus).cycles().len() as int;
        let ghost c = *old(self);
        bus.add_io_cycles(1);
        let offset = self.get_imm(bus).wrapping_add(self.index_x);
        proof { assert(bus.cycles() =~= old(bus).cycles() + mode_trace(mode, c, bus.cycles(), n)); }
        self.direct_page_addr(offset)
    }

    /// `dp+Y`: a byte of the direct page, indexed (wrapping in the page).
    fn decode_dp_y<B: Bus>(&mut self, bus: &mut B, mode: AddressingMode) -> (r: u16)
        requires
            old(bus).inv(),
            mode == AddressingMode::DirectY,
        ensures
            final(bus).inv(),
            final(bus).clock() >= old(bus).clock(),
            final(bus).agenda() == old(bus).agenda(),
            final(bus).cycles() == old(bus).cycles() + mode_trace(mode, *old(self), final(bus).cycles(), old(bus).cycles().len() as int),
            r == mode_addr(mode, *old(self), final(bus).cycles(), old(bus).cycles().len() as int),
            *final(self) == mode_cpu(mode, *old(self)),
    {
        proof { reveal(mode_trace); reveal(mode_addr); }
        let ghost n = old(bus).cycles().len() as int;
        let ghost c = *old(self);
        bus.add_io_cycles(1);
        let offset = self.get_imm(bus).wrapping_add(self.index_y);
        proof { assert(bus.cycles() =~= old(bus).cycles() + mode_trace(mode, c, bus.cycles(), n)); }
        self.direct_page_addr(offset)
    }

    /// `!abs+X`: an absolute address, indexed (wrapping).
    fn decode_abs_x<B: Bus>(&mut self, bus: &mut B, mode: AddressingMode) -> (r: u16)
        requires
            old(bus).inv(),
            mode == AddressingMode::AbsoluteX,
        ensures
            final(bus).inv(),
            final(bus).clock() >= old(bus).clock(),
            final(bus).agenda() == old(bus).agenda(),
            final(bus).cycles() == old(bus).cycles() + mode_trace(mode, *old(self), final(bus).cycles(), old(bus).cycles().len() as int),
            r == mode_addr(mode, *old(self), final(bus).cycles(), old(bus).cycles().len() as int),
            *final(self) == mode_cpu(mode, *old(self)),
    {
        proof { reveal(mode_trace); reveal(mode_addr); }
        let ghost n = old(bus).cycles().len() as int;
        let ghost c = *old(self);
        bus.add_io_cycles(1);
        let base = self.abs(bus);
        proof { assert(bus.cycles() =~= old(bus).cycles() + mode_trace(mode, c, bus.cycles(), n)); }
        base.wrapping_add(self.index_x as u16)
    }

    /// `!abs+Y`: an absolute address, indexed (wrapping).
    fn decode_abs_y<B: Bus>(&mut self, bus: &mut B, mode: AddressingMode) -> (r: u16)
        requires
            old(bus).inv(),
            mode == AddressingMode::AbsoluteY,
        ensures
            final(bus).inv(),
            final(bus).clock() >= old(bus).clock(),
            final(bus).agenda() == old(bus).agenda(),
            final(bus).cycles() == old(bus).cycles() + mode_trace(mode, *old(self), final(bus).cycles(), old(bus).cycles().len() as int),
            r == mode_addr(mode, *old(self), final(bus).cycles(), old(bus).cycles().len() as int),
            *final(self) == mode_cpu(mode, *old(self)),
    {
        proof { reveal(mode_trace); reveal(mode_addr); }
        let ghost n = old(bus).cycles().len() as int;
        let ghost c = *old(self);
        bus.add_io_cycles(1);
        let base = self.abs(bus);
        proof { assert(bus.cycles() =~= old(bus).cycles() + mode_trace(mode, c, bus.cycles(), n)); }
        base.wrapping_add(self.index_y as u16)
    }

    /// `[dp]+Y`: a word pointer in the direct page, indexed after.
    fn decode_ind_dp_y<B: Bus>(&mut self, bus: &mut B, mode: AddressingMode) -> (r: u16)
        requires
            old(bus).inv(),
            mode == AddressingMode::DirectPageIndirectY,
        ensures
            final(bus).inv(),
            final(bus).clock() >= old(bus).clock(),
            final(bus).agenda() == old(bus).agenda(),
            final(bus).cycles() == old(bus).cycles() + mode_trace(mode, *old(self), final(bus).cycles(), old(bus).cycles().len() as int),
            r == mode_addr(mode, *old(self), final(bus).cycles(), old(bus).cycles().len() as int),
            *final(self) == mode_cpu(mode, *old(self)),
    {
        proof { reveal(mode_trace); reveal(mode_addr); }
        let ghost n = old(bus).cycles().len() as int;
        let ghost c = *old(self);
        bus.add_io_cycles(1);
        let offset = self.get_imm(bus);
        let page = self.word_from_direct_page(bus, offset);
        proof { assert(bus.cycles() =~= old(bus).cycles() + mode_trace(mode, c, bus.cycles(), n)); }
        page.wrapping_add(self.index_y as u16)
    }

    /// `(X)+`: the direct-page byte at X; X steps on.
    fn decode_ind_x_inc<B: Bus>(&mut self, bus: &mut B, mode: AddressingMode) -> (r: u16)
        requires
            old(bus).inv(),
            mode == AddressingMode::DirectXPostIncrement,
        ensures
            final(bus).inv(),
            final(bus).clock() >= old(bus).clock(),
            final(bus).agenda() == old(bus).agenda(),
            final(bus).cycles() == old(bus).cycles() + mode_trace(mode, *old(self), final(bus).cycles(), old(bus).cycles().len() as int),
            r == mode_addr(mode, *old(self), final(bus).cycles(), old(bus).cycles().len() as int),
            *final(self) == mode_cpu(mode, *old(self)),
    {
        proof { reveal(mode_trace); reveal(mode_addr); }
        let ghost n = old(bus).cycles().len() as int;
        let ghost c = *old(self);
        let addr = self.direct_page_addr(self.index_x);
        self.index_x = self.index_x.wrapping_add(1);
        proof { assert(bus.cycles() =~= old(bus).cycles() + mode_trace(mode, c, bus.cycles(), n)); }
        addr
    }

    /// Fetches an 8-bit operand: a register, an immediate byte, a bit of memory (as its
    /// value in place) or a byte in memory.
    pub fn operand<B: Bus>(&mut self, bus: &mut B, mode: AddressingMode) -> (r: u8)
        requires
            old(bus).inv(),
            is_operand_mode(mode),
        ensures
            final(bus).inv(),
            final(bus).clock() >= old(bus).clock(),
            final(bus).agenda() == old(bus).agenda(),
            final(bus).cycles() == old(bus).cycles() + operand_trace(mode, *old(self), final(bus).cycles(), old(bus).cycles().len() as int),
            r == operand_value(mode, *old(self), final(bus).cycles(), old(bus).cycles().len() as int),
            *final(self) == operand_cpu(mode, *old(self)),
    {
        let ghost n = old(bus).cycles().len() as int;
        let ghost c = *old(self);
        match mode {
            AddressingMode::Accumulator => self.accumulator,
            AddressingMode::X => self.index_x,
            AddressingMode::Y => self.index_y,
            AddressingMode::Sp => self.stack_pointer,
            AddressingMode::Psw => self.status.0,
            AddressingMode::Immediate => {
                let r = self.get_imm(bus);
                proof { assert(bus.cycles() =~= old(bus).cycles() + operand_trace(mode, c, bus.cycles(), n)); }
                r
            },
            AddressingMode::AbsoluteBooleanBit => {
                let addr_bit = self.abs(bus);
                let val = bus.read_and_tick(Address::from(addr_bit % 0x2000));
                let mask = bit_mask((addr_bit / 0x2000) as u8);
                proof { assert(bus.cycles() =~= old(bus).cycles() + operand_trace(mode, c, bus.cycles(), n)); }
                if (val / mask) % 2 == 1 { mask } else { 0 }
            },
            _ => {
                let addr = self.decode_addressing_mode(bus, mode);
                let ghost l1 = bus.cycles();
                let r = bus.read_and_tick(Address::from(addr));
                proof {
                    lemma_mode_frame(mode, c, l1, bus.cycles(), n);
                    assert(bus.cycles() =~= old(bus).cycles() + operand_trace(mode, c, bus.cycles(), n));
                }
                r
            },
        }
    }
}

/// The byte with only bit `i` (0 to 7) set.
pub fn bit_mask(i: u8) -> (r: u8)
    requires
        i < 8,
    ensures
        r == pow2(i as int),
{
    if i == 0 { 1 } else if i == 1 { 2 } else if i == 2 { 4 } else if i == 3 { 8 } else if i == 4 { 16 }
    else if i == 5 { 32 } else if i == 6 { 64 } else { 128 }
}

/// An address computation only looks at its own cycles: a longer log gives the same trace and address.
pub proof fn lemma_mode_frame(mode: AddressingMode, c: Cpu, l1: Seq<BusCycle>, l2: Seq<BusCycle>, k: int)
    requires
        0 <= k,
        k + mode_trace(mode, c, l1, k).len() <= l1.len(),
        l1.len() <= l2.len(),
        forall|i: int| 0 <= i < l1.len() ==> #[trigger] l2[i] == l1[i],
    ensures
        mode_trace(mode, c, l2, k) == mode_trace(mode, c, l1, k),
        mode_addr(mode, c, l2, k) == mode_addr(mode, c, l1, k),
{
    reveal(mode_trace);
    reveal(mode_addr);
    let n = mode_trace(mode, c, l1, k).len() as int;
    if n > 0 { assert(l2[k] == l1[k]); }
    if n > 1 { assert(l2[k + 1] == l1[k + 1]); }
    if n > 2 { assert(l2[k + 2] == l1[k + 2]); }
    if n > 3 { assert(l2[k + 3] == l1[k + 3]); }
    assert(mode_trace(mode, c, l2, k) =~= mode_trace(mode, c, l1, k));
}

} // verus!
