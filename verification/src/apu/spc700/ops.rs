use vstd::prelude::*;

use super::addressing::{
    advance, bit_addr, bit_index, bit_mask, dp_addr, is_memory_mode, lemma_mode_frame, mode_addr, mode_cpu, mode_trace,
    pc_at, pow2,
};
use super::{adc_spec, nz8, AddressingMode, Cpu, Status};
use crate::bus::{Bus, BusCycle};
use crate::utils::bits::{bit, set_bit, with_bit};
use crate::w65c816::addressing::Address;
use crate::w65c816::trace::{d, rd, w16, wr};

verus! {

/// What a read-modify-write does to its operand.
#[derive(Clone, Copy, PartialEq, Eq, Structural)]
pub enum RmwOp {
    /// Add the byte with carry.
    Adc(u8),
    /// Subtract the byte with borrow (an add of its complement).
    Sbc(u8),
    /// AND with the byte.
    And(u8),
    /// OR with the byte.
    Or(u8),
    /// Exclusive OR with the byte.
    Eor(u8),
    Asl,
    Lsr,
    Rol,
    Ror,
    Dec,
    Inc,
    /// Decrement without touching the flags.
    DecQuiet,
    /// Clear the bit of the given number.
    Clr1(u8),
    /// Set the bit of the given number.
    Set1(u8),
    /// Complement every bit.
    Not1,
    /// Replace by the carry flag.
    Carry,
}

/// 1 for a set carry, 0 otherwise.
pub open spec fn cv(p: u8) -> int {
    if bit(p, 1) { 1 } else { 0 }
}

/// The byte after a read-modify-write of `v`, and the PSW after it.
#[verifier::opaque]
pub open spec fn rmw_apply(op: RmwOp, p: u8, v: u8) -> (u8, u8) {
    match op {
        RmwOp::Adc(b) => adc_spec(p, v, b),
        RmwOp::Sbc(b) => adc_spec(p, v, (255 - b) as u8),
        RmwOp::And(b) => (v & b, nz8(p, v & b)),
        RmwOp::Or(b) => (v | b, nz8(p, v | b)),
        RmwOp::Eor(b) => (v ^ b, nz8(p, v ^ b)),
        RmwOp::Asl => {
            let r = ((2 * v) % 256) as u8;
            (r, nz8(with_bit(p, 1, v >= 0x80), r))
        },
        RmwOp::Lsr => {
            let r = v / 2;
            (r, nz8(with_bit(p, 1, v % 2 == 1), r))
        },
        RmwOp::Rol => {
            let r = ((2 * v) % 256 + cv(p)) as u8;
            (r, nz8(with_bit(p, 1, v >= 0x80), r))
        },
        RmwOp::Ror => {
            let r = (v / 2 + 0x80 * cv(p)) as u8;
            (r, nz8(with_bit(p, 1, v % 2 == 1), r))
        },
        RmwOp::Dec => {
            let r = ((v + 255) % 256) as u8;
            (r, nz8(p, r))
        },
        RmwOp::Inc => {
            let r = ((v + 1) % 256) as u8;
            (r, nz8(p, r))
        },
        RmwOp::DecQuiet => (((v + 255) % 256) as u8, p),
        RmwOp::Clr1(i) => (with_bit(v, pow2(i as int), false), p),
        RmwOp::Set1(i) => (with_bit(v, pow2(i as int), true), p),
        RmwOp::Not1 => ((255 - v) as u8, p),
        RmwOp::Carry => (cv(p) as u8, p),
    }
}

/// The bit numbers that `Clr1` and `Set1` take.
pub open spec fn rmw_op_ok(op: RmwOp) -> bool {
    match op {
        RmwOp::Clr1(i) => i < 8,
        RmwOp::Set1(i) => i < 8,
        _ => true,
    }
}

/// The stack address of stack pointer `s`: page 1.
pub open spec fn stack_addr(s: u8) -> int {
    0x100 + s
}

/// An 8-bit displacement taken as signed.
pub open spec fn sext8(v: u8) -> int {
    if v >= 0x80 { v - 256 } else { v as int }
}

/// The CPU with a byte register (A, X or Y) set.
pub open spec fn with_register(mode: AddressingMode, c: Cpu, v: u8) -> Cpu {
    match mode {
        AddressingMode::Accumulator => Cpu { accumulator: v, ..c },
        AddressingMode::X => Cpu { index_x: v, ..c },
        _ => Cpu { index_y: v, ..c },
    }
}

/// The register byte of A, X or Y.
pub open spec fn byte_register(mode: AddressingMode, c: Cpu) -> u8 {
    match mode {
        AddressingMode::Accumulator => c.accumulator,
        AddressingMode::X => c.index_x,
        _ => c.index_y,
    }
}

/// The modes a read-modify-write works on: A, X, Y, a memory bit, or memory.
pub open spec fn is_rmw_mode(mode: AddressingMode) -> bool {
    mode == AddressingMode::Accumulator || mode == AddressingMode::X || mode == AddressingMode::Y
        || mode == AddressingMode::AbsoluteBooleanBit || is_memory_mode(mode)
}

/// The bus cycles of a read-modify-write.
pub open spec fn rmw_trace(mode: AddressingMode, void_read: bool, op: RmwOp, c: Cpu, l: Seq<BusCycle>, k: int) -> Seq<BusCycle> {
    if mode == AddressingMode::Accumulator || mode == AddressingMode::X || mode == AddressingMode::Y {
        if void_read { seq![rd(pc_at(c, 0), d(l, k))] } else { seq![] }
    } else if mode == AddressingMode::AbsoluteBooleanBit {
        let a = bit_addr(w16(l, k));
        let m = pow2(bit_index(w16(l, k)));
        let data = d(l, k + 2);
        let b = if bit(data, m) { 1u8 } else { 0u8 };
        let res = rmw_apply(op, c.status.0, b).0 % 2 == 1;
        seq![rd(pc_at(c, 0), d(l, k)), rd(pc_at(c, 1), d(l, k + 1)), rd(a, data), wr(a, with_bit(data, m, res))]
    } else {
        let t = mode_trace(mode, c, l, k);
        let a = mode_addr(mode, c, l, k);
        let data = d(l, k + t.len());
        t + seq![rd(a, data), wr(a, rmw_apply(op, c.status.0, data).0)]
    }
}

/// The byte a read-modify-write leaves in its register or writes to memory.
pub open spec fn rmw_result(mode: AddressingMode, op: RmwOp, c: Cpu, l: Seq<BusCycle>, k: int) -> u8 {
    if mode == AddressingMode::Accumulator || mode == AddressingMode::X || mode == AddressingMode::Y {
        rmw_apply(op, c.status.0, byte_register(mode, c)).0
    } else if mode == AddressingMode::AbsoluteBooleanBit {
        let m = pow2(bit_index(w16(l, k)));
        let data = d(l, k + 2);
        let b = if bit(data, m) { 1u8 } else { 0u8 };
        with_bit(data, m, rmw_apply(op, c.status.0, b).0 % 2 == 1)
    } else {
        rmw_apply(op, c.status.0, d(l, k + mode_trace(mode, c, l, k).len())).0
    }
}

/// The CPU after a read-modify-write.
pub open spec fn rmw_cpu(mode: AddressingMode, op: RmwOp, c: Cpu, l: Seq<BusCycle>, k: int) -> Cpu {
    if mode == AddressingMode::Accumulator || mode == AddressingMode::X || mode == AddressingMode::Y {
        let out = rmw_apply(op, c.status.0, byte_register(mode, c));
        with_register(mode, Cpu { status: Status(out.1), ..c }, out.0)
    } else if mode == AddressingMode::AbsoluteBooleanBit {
        let m = pow2(bit_index(w16(l, k)));
        let b = if bit(d(l, k + 2), m) { 1u8 } else { 0u8 };
        Cpu { status: Status(rmw_apply(op, c.status.0, b).1), ..advance(c, 2) }
    } else {
        let data = d(l, k + mode_trace(mode, c, l, k).len());
        Cpu { status: Status(rmw_apply(op, c.status.0, data).1), ..mode_cpu(mode, c) }
    }
}

/// A read-modify-write only looks at its own cycles: a longer log gives the same trace and CPU.
pub proof fn lemma_rmw_frame(mode: AddressingMode, void_read: bool, op: RmwOp, c: Cpu, l1: Seq<BusCycle>, l2: Seq<BusCycle>, k: int)
    requires
        0 <= k,
        k + rmw_trace(mode, void_read, op, c, l1, k).len() <= l1.len(),
        l1.len() <= l2.len(),
        forall|i: int| 0 <= i < l1.len() ==> #[trigger] l2[i] == l1[i],
    ensures
        rmw_trace(mode, void_read, op, c, l2, k) == rmw_trace(mode, void_read, op, c, l1, k),
        rmw_cpu(mode, op, c, l2, k) == rmw_cpu(mode, op, c, l1, k),
        rmw_result(mode, op, c, l2, k) == rmw_result(mode, op, c, l1, k),
{
    if mode == AddressingMode::Accumulator || mode == AddressingMode::X || mode == AddressingMode::Y {
        if void_read { assert(l2[k] == l1[k]); }
        assert(rmw_trace(mode, void_read, op, c, l2, k) =~= rmw_trace(mode, void_read, op, c, l1, k));
    } else if mode == AddressingMode::AbsoluteBooleanBit {
        assert(l2[k] == l1[k] && l2[k + 1] == l1[k + 1] && l2[k + 2] == l1[k + 2]);
        assert(rmw_trace(mode, void_read, op, c, l2, k) =~= rmw_trace(mode, void_read, op, c, l1, k));
    } else {
        let n = mode_trace(mode, c, l1, k).len() as int;
        lemma_mode_frame(mode, c, l1, l2, k);
        assert(l2[k + n] == l1[k + n]);
        assert(rmw_trace(mode, void_read, op, c, l2, k) =~= rmw_trace(mode, void_read, op, c, l1, k));
    }
}

impl Cpu {
    /// Applies a read-modify-write operation to a byte, setting the flags it sets.
    pub fn apply(&mut self, op: RmwOp, v: u8) -> (r: u8)
        requires
            rmw_op_ok(op),
        ensures
            r == rmw_apply(op, old(self).status.0, v).0,
            *final(self) == (Cpu { status: Status(rmw_apply(op, old(self).status.0, v).1), ..*old(self) }),
    {
        proof { reveal(rmw_apply); }
        match op {
            RmwOp::Adc(b) => self.do_adc(v, b),
            RmwOp::Sbc(b) => self.do_adc(v, 255 - b),
            RmwOp::And(b) => {
                self.set_nz(v & b);
                v & b
            },
            RmwOp::Or(b) => {
                self.set_nz(v | b);
                v | b
            },
            RmwOp::Eor(b) => {
                self.set_nz(v ^ b);
                v ^ b
            },
            RmwOp::Asl => {
                let r = ((v as u16 * 2) % 256) as u8;
                self.status.set_carry(v >= 0x80);
                self.set_nz(r);
                r
            },
            RmwOp::Lsr => {
                let r = v / 2;
                self.status.set_carry(v % 2 == 1);
                self.set_nz(r);
                r
            },
            RmwOp::Rol => {
                let c: u16 = if self.status.carry() { 1 } else { 0 };
                let r = ((v as u16 * 2) % 256 + c) as u8;
                self.status.set_carry(v >= 0x80);
                self.set_nz(r);
                r
            },
            RmwOp::Ror => {
                let c: u8 = if self.status.carry() { 0x80 } else { 0 };
                let r = v / 2 + c;
                self.status.set_carry(v % 2 == 1);
                self.set_nz(r);
                r
            },
            RmwOp::Dec => {
                let r = v.wrapping_sub(1);
                self.set_nz(r);
                r
            },
            RmwOp::Inc => {
                let r = v.wrapping_add(1);
                self.set_nz(r);
                r
            },
            RmwOp::DecQuiet => v.wrapping_sub(1),
            RmwOp::Clr1(i) => set_bit(v, bit_mask(i), false),
            RmwOp::Set1(i) => set_bit(v, bit_mask(i), true),
            RmwOp::Not1 => 255 - v,
            RmwOp::Carry => if self.status.carry() { 1 } else { 0 },
        }
    }

    /// Reads, modifies and writes back an operand: A, X or Y (after a discarded read of the
    /// program counter when `void_read`), one bit of memory, or a byte of memory.
    pub fn do_rmw<B: Bus>(&mut self, bus: &mut B, mode: AddressingMode, void_read: bool, op: RmwOp) -> (r: u8)
        requires
            old(bus).inv(),
            is_rmw_mode(mode),
            rmw_op_ok(op),
        ensures
            final(bus).inv(),
            final(bus).clock() >= old(bus).clock(),
            final(bus).agenda() == old(bus).agenda(),
            final(bus).cycles() == old(bus).cycles() + rmw_trace(mode, void_read, op, *old(self), final(bus).cycles(), old(bus).cycles().len() as int),
            *final(self) == rmw_cpu(mode, op, *old(self), final(bus).cycles(), old(bus).cycles().len() as int),
            r == rmw_result(mode, op, *old(self), final(bus).cycles(), old(bus).cycles().len() as int),
    {
        if mode == AddressingMode::Accumulator || mode == AddressingMode::X || mode == AddressingMode::Y {
            self.rmw_register(bus, mode, void_read, op)
        } else if mode == AddressingMode::AbsoluteBooleanBit {
            self.rmw_bit(bus, op)
        } else {
            self.rmw_memory(bus, mode, op)
        }
    }

    #[verifier::spinoff_prover]
    fn rmw_register<B: Bus>(&mut self, bus: &mut B, mode: AddressingMode, void_read: bool, op: RmwOp) -> (r: u8)
        requires
            old(bus).inv(),
            mode == AddressingMode::Accumulator || mode == AddressingMode::X || mode == AddressingMode::Y,
            rmw_op_ok(op),
        ensures
            final(bus).inv(),
            final(bus).clock() >= old(bus).clock(),
            final(bus).agenda() == old(bus).agenda(),
            final(bus).cycles() == old(bus).cycles() + rmw_trace(mode, void_read, op, *old(self), final(bus).cycles(), old(bus).cycles().len() as int),
            *final(self) == rmw_cpu(mode, op, *old(self), final(bus).cycles(), old(bus).cycles().len() as int),
            r == rmw_result(mode, op, *old(self), final(bus).cycles(), old(bus).cycles().len() as int),
    {
        let ghost n = old(bus).cycles().len() as int;
        if void_read {
            let _ = bus.read_and_tick(Address::new(self.program_counter, 0));
        }
        proof { assert(bus.cycles() =~= old(bus).cycles() + rmw_trace(mode, void_read, op, *old(self), bus.cycles(), n)); }
        match mode {
            AddressingMode::Accumulator => {
                let v = self.accumulator;
                self.accumulator = self.apply(op, v);
                self.accumulator
            },
            AddressingMode::X => {
                let v = self.index_x;
                self.index_x = self.apply(op, v);
                self.index_x
            },
            _ => {
                let v = self.index_y;
                self.index_y = self.apply(op, v);
                self.index_y
            },
        }
    }

    fn rmw_bit<B: Bus>(&mut self, bus: &mut B, op: RmwOp) -> (r: u8)
        requires
            old(bus).inv(),
            rmw_op_ok(op),
        ensures
            final(bus).inv(),
            final(bus).clock() >= old(bus).clock(),
            final(bus).agenda() == old(bus).agenda(),
            final(bus).cycles() == old(bus).cycles() + rmw_trace(AddressingMode::AbsoluteBooleanBit, false, op, *old(self), final(bus).cycles(), old(bus).cycles().len() as int),
            *final(self) == rmw_cpu(AddressingMode::AbsoluteBooleanBit, op, *old(self), final(bus).cycles(), old(bus).cycles().len() as int),
            r == rmw_result(AddressingMode::AbsoluteBooleanBit, op, *old(self), final(bus).cycles(), old(bus).cycles().len() as int),
    {
        let ghost n = old(bus).cycles().len() as int;
        let addr_bit = self.abs(bus);
        let page = addr_bit % 0x2000;
        let mask = bit_mask((addr_bit / 0x2000) as u8);
        let data = bus.read_and_tick(Address::from(page));
        let bit_value: u8 = if (data / mask) % 2 == 1 { 1 } else { 0 };
        let modified = self.apply(op, bit_value) % 2 == 1;
        let result = set_bit(data, mask, modified);
        bus.write_and_tick(Address::from(page), result);
        proof {
            assert(bus.cycles() =~= old(bus).cycles() + rmw_trace(AddressingMode::AbsoluteBooleanBit, false, op, *old(self), bus.cycles(), n));
        }
        result
    }

    #[verifier::spinoff_prover]
    fn rmw_memory<B: Bus>(&mut self, bus: &mut B, mode: AddressingMode, op: RmwOp) -> (r: u8)
        requires
            old(bus).inv(),
            is_memory_mode(mode),
            rmw_op_ok(op),
        ensures
            final(bus).inv(),
            final(bus).clock() >= old(bus).clock(),
            final(bus).agenda() == old(bus).agenda(),
            final(bus).cycles() == old(bus).cycles() + rmw_trace(mode, false, op, *old(self), final(bus).cycles(), old(bus).cycles().len() as int),
            *final(self) == rmw_cpu(mode, op, *old(self), final(bus).cycles(), old(bus).cycles().len() as int),
            r == rmw_result(mode, op, *old(self), final(bus).cycles(), old(bus).cycles().len() as int),
    {
        let ghost n = old(bus).cycles().len() as int;
        let ghost c = *old(self);
        let page = self.decode_addressing_mode(bus, mode);
        let ghost l1 = bus.cycles();
        let data = bus.read_and_tick(Address::from(page));
        let result = self.apply(op, data);
        bus.write_and_tick(Address::from(page), result);
        proof {
            lemma_mode_frame(mode, c, l1, bus.cycles(), n);
            assert(bus.cycles() =~= old(bus).cycles() + rmw_trace(mode, false, op, c, bus.cycles(), n));
        }
        result
    }

    /// Reads the word at bytes `offset` and `offset + 1` of the direct page (the offset is the
    /// byte after the program counter), applies `inc` (+1) or not (-1), sets N and Z from the
    /// 16-bit result and writes it back.
    #[verifier::spinoff_prover]
    #[verifier::rlimit(40)]
    pub fn do_rmw_word<B: Bus>(&mut self, bus: &mut B, inc: bool)
        requires
            old(bus).inv(),
        ensures
            final(bus).inv(),
            final(bus).clock() >= old(bus).clock(),
            final(bus).agenda() == old(bus).agenda(),
            ({
                let c = *old(self);
                let l = final(bus).cycles();
                let k = old(bus).cycles().len() as int;
                let off = d(l, k) as int;
                let res = (w16(l, k + 1) + if inc { 1int } else { 0xFFFF }) % 0x1_0000;
                &&& l == old(bus).cycles() + seq![
                    rd(pc_at(c, 0), d(l, k)),
                    rd(dp_addr(c, off), d(l, k + 1)),
                    rd(dp_addr(c, off + 1), d(l, k + 2)),
                    wr(dp_addr(c, off), (res % 256) as u8),
                    wr(dp_addr(c, off + 1), (res / 256) as u8),
                ]
                &&& *final(self) == (Cpu {
                    status: Status(with_bit(with_bit(c.status.0, 128, res >= 0x8000), 2, res == 0)),
                    ..advance(c, 1)
                })
            }),
    {
        let ghost n = old(bus).cycles().len() as int;
        let offset = self.get_imm(bus);
        let low_addr = self.direct_page_addr(offset);
        let high_addr = self.direct_page_addr(offset.wrapping_add(1));
        let low = bus.read_and_tick(Address::from(low_addr));
        let high = bus.read_and_tick(Address::from(high_addr));
        let data = low as u16 + high as u16 * 256;
        let result = if inc { data.wrapping_add(1) } else { data.wrapping_sub(1) };
        assert(data == w16(bus.cycles(), n + 1));
        self.status.set_negative(result >= 0x8000);
        self.status.set_zero(result == 0);
        bus.write_and_tick(Address::from(low_addr), (result % 256) as u8);
        bus.write_and_tick(Address::from(high_addr), (result / 256) as u8);
        proof {
            let l = bus.cycles();
            let res = (w16(l, n + 1) + if inc { 1int } else { 0xFFFF }) % 0x1_0000;
            assert(result == res);
            assert(l =~= old(bus).cycles() + seq![
                rd(pc_at(*old(self), 0), d(l, n)),
                rd(dp_addr(*old(self), d(l, n) as int), d(l, n + 1)),
                rd(dp_addr(*old(self), d(l, n) + 1), d(l, n + 2)),
                wr(dp_addr(*old(self), d(l, n) as int), (res % 256) as u8),
                wr(dp_addr(*old(self), d(l, n) + 1), (res / 256) as u8),
            ]);
        }
    }

    /// Pushes a byte at the stack pointer in page 1.
    pub fn do_push<B: Bus>(&mut self, bus: &mut B, data: u8)
        requires
            old(bus).inv(),
        ensures
            final(bus).inv(),
            final(bus).clock() >= old(bus).clock(),
            final(bus).agenda() == old(bus).agenda(),
            final(bus).cycles() == old(bus).cycles().push(wr(stack_addr(old(self).stack_pointer), data)),
            *final(self) == (Cpu { stack_pointer: ((old(self).stack_pointer + 255) % 256) as u8, ..*old(self) }),
    {
        let stack_addr = self.stack_pointer as u16 + 0x100;
        bus.write_and_tick(Address::from(stack_addr), data);
        self.stack_pointer = self.stack_pointer.wrapping_sub(1);
    }

    /// Pulls a byte from above the stack pointer in page 1.
    pub fn do_pop<B: Bus>(&mut self, bus: &mut B) -> (r: u8)
        requires
            old(bus).inv(),
        ensures
            final(bus).inv(),
            final(bus).clock() >= old(bus).clock(),
            final(bus).agenda() == old(bus).agenda(),
            final(bus).cycles() == old(bus).cycles().push(rd(stack_addr(((old(self).stack_pointer + 1) % 256) as u8), r)),
            *final(self) == (Cpu { stack_pointer: ((old(self).stack_pointer + 1) % 256) as u8, ..*old(self) }),
    {
        self.stack_pointer = self.stack_pointer.wrapping_add(1);
        let stack_addr = self.stack_pointer as u16 + 0x100;
        bus.read_and_tick(Address::from(stack_addr))
    }

    /// Reads a signed displacement and, when `cond` holds, takes two internal cycles and
    /// branches by it.
    pub fn do_branch<B: Bus>(&mut self, bus: &mut B, cond: bool)
        requires
            old(bus).inv(),
        ensures
            final(bus).inv(),
            final(bus).clock() >= old(bus).clock(),
            final(bus).agenda() == old(bus).agenda(),
            final(bus).cycles() == old(bus).cycles().push(rd(pc_at(*old(self), 0), d(final(bus).cycles(), old(bus).cycles().len() as int)))
                + (if cond { seq![BusCycle::Io(2)] } else { seq![] }),
            *final(self) == advance(*old(self), 1 + if cond { sext8(d(final(bus).cycles(), old(bus).cycles().len() as int)) } else { 0 }),
    {
        let ghost n = old(bus).cycles().len() as int;
        let offset = self.get_imm(bus);
        let ghost l1 = bus.cycles();
        if cond {
            bus.add_io_cycles(2);
            let disp: u16 = if offset >= 0x80 { 0xFF00 + offset as u16 } else { offset as u16 };
            self.program_counter = self.program_counter.wrapping_add(disp);
        }
        proof {
            assert(bus.cycles()[n] == l1[n]);
            assert(bus.cycles() =~= old(bus).cycles().push(rd(pc_at(*old(self), 0), d(bus.cycles(), n)))
                + (if cond { seq![BusCycle::Io(2)] } else { seq![] }));
        }
    }

    /// TSET1/TCLR1: N and Z from A minus the memory byte, then the byte with A's bits set
    /// (or cleared, when `clear`) is written back after a discarded read.
    #[verifier::spinoff_prover]
    #[verifier::rlimit(40)]
    pub fn do_test_bit<B: Bus>(&mut self, bus: &mut B, mode: AddressingMode, clear: bool)
        requires
            old(bus).inv(),
            is_memory_mode(mode),
        ensures
            final(bus).inv(),
            final(bus).clock() >= old(bus).clock(),
            final(bus).agenda() == old(bus).agenda(),
            ({
                let c = *old(self);
                let l = final(bus).cycles();
                let k = old(bus).cycles().len() as int;
                let t = mode_trace(mode, c, l, k);
                let a = mode_addr(mode, c, l, k);
                let v = d(l, k + t.len());
                let value = if clear { !c.accumulator & v } else { c.accumulator | v };
                &&& l == old(bus).cycles() + t + seq![rd(a, v), rd(a, d(l, k + t.len() + 1)), wr(a, value)]
                &&& *final(self) == (Cpu {
                    status: Status(nz8(c.status.0, ((c.accumulator - v) % 256) as u8)),
                    ..mode_cpu(mode, c)
                })
            }),
    {
        let ghost n = old(bus).cycles().len() as int;
        let ghost c = *old(self);
        let page = self.decode_addressing_mode(bus, mode);
        let ghost l1 = bus.cycles();
        let operand = bus.read_and_tick(Address::from(page));
        let diff = self.accumulator.wrapping_sub(operand);
        self.set_nz(diff);
        let value = if clear { !self.accumulator & operand } else { self.accumulator | operand };
        let _ = bus.read_and_tick(Address::from(page));
        bus.write_and_tick(Address::from(page), value);
        proof {
            lemma_mode_frame(mode, c, l1, bus.cycles(), n);
            let t = mode_trace(mode, c, bus.cycles(), n);
            assert(bus.cycles() =~= old(bus).cycles() + t
                + seq![rd(mode_addr(mode, c, bus.cycles(), n), operand), rd(mode_addr(mode, c, bus.cycles(), n), d(bus.cycles(), n + t.len() + 1)), wr(mode_addr(mode, c, bus.cycles(), n), value)]);
        }
    }

    /// A discarded read of the program counter and one internal cycle.
    pub fn idle<B: Bus>(&self, bus: &mut B)
        requires
            old(bus).inv(),
        ensures
            final(bus).inv(),
            final(bus).clock() >= old(bus).clock(),
            final(bus).agenda() == old(bus).agenda(),
            final(bus).cycles() == old(bus).cycles() + seq![
                rd(pc_at(*self, 0), d(final(bus).cycles(), old(bus).cycles().len() as int)),
                BusCycle::Io(1),
            ],
    {
        let _ = bus.read_and_tick(Address::new(self.program_counter, 0));
        bus.add_io_cycles(1);
        proof {
            assert(bus.cycles() =~= old(bus).cycles() + seq![
                rd(pc_at(*self, 0), d(bus.cycles(), old(bus).cycles().len() as int)),
                BusCycle::Io(1),
            ]);
        }
    }
}

} // verus!
