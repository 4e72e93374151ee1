use vstd::prelude::*;

use super::addressing::{lemma_offset_of, linear, Address};
use super::regsize::{modulus, sign_bit, RegSize};
use super::functions::{do_push, push_writes, apply_rmw, rmw_at, rmw_cpu, rmw_in, rmw_status, rmw_trace, rmw_value, store_mode, RmwOp};
use super::addressing::AddressingMode;
use super::trace::{bank0_reads, d, imm_reads, rd, w16, data_reads, data_value, data_writes, decodes, extends, lemma_decode_frame, lemma_page_frame, on_page, page_len};
use crate::bus::{Bus, BusCycle};
use crate::utils::bits::{bit, set_bit, with_bit};
use crate::utils::int_traits::{hi, lo, word, ManipulateU16};

verus! {

/// The interrupt and reset vectors.
#[derive(Clone, Copy)]
pub enum Vector {
    Cop,
    Brk,
    Abort,
    Nmi,
    Irq,
    Reset,
}

impl Vector {
    /// Bank-0 address of the vector, in emulation or native mode.
    pub open spec fn addr_spec(self, emu_mode: bool) -> u16 {
        match (self, emu_mode) {
            (Vector::Cop, true) => 0xFFF4,
            (Vector::Cop, false) => 0xFFE4,
            (Vector::Brk, true) => 0xFFFE,
            (Vector::Irq, true) => 0xFFFE,
            (Vector::Brk, false) => 0xFFE6,
            (Vector::Abort, true) => 0xFFF8,
            (Vector::Abort, false) => 0xFFE8,
            (Vector::Nmi, true) => 0xFFFA,
            (Vector::Nmi, false) => 0xFFEA,
            (Vector::Irq, false) => 0xFFEE,
            (Vector::Reset, _) => 0xFFFC,
        }
    }

    pub fn get_addr(self, emu_mode: bool) -> (r: u16)
        ensures
            r == self.addr_spec(emu_mode),
    {
        match (self, emu_mode) {
            (Vector::Cop, true) => 0xFFF4,
            (Vector::Cop, false) => 0xFFE4,
            (Vector::Brk, true) | (Vector::Irq, true) => 0xFFFE,
            (Vector::Brk, false) => 0xFFE6,
            (Vector::Abort, true) => 0xFFF8,
            (Vector::Abort, false) => 0xFFE8,
            (Vector::Nmi, true) => 0xFFFA,
            (Vector::Nmi, false) => 0xFFEA,
            (Vector::Irq, false) => 0xFFEE,
            (Vector::Reset, _) => 0xFFFC,
        }
    }
}

pub const FLAG_C: u8 = 0x01;

pub const FLAG_Z: u8 = 0x02;

pub const FLAG_I: u8 = 0x04;

pub const FLAG_D: u8 = 0x08;

pub const FLAG_X: u8 = 0x10;

pub const FLAG_M: u8 = 0x20;

pub const FLAG_V: u8 = 0x40;

pub const FLAG_N: u8 = 0x80;

/// The processor status register P.
#[derive(Clone, Copy)]
pub struct Status(pub u8);

impl Status {
    #[verifier::allow_in_spec]
    pub fn carry(&self) -> bool
        returns
            bit(self.0, 1),
    {
        self.0 % 2 == 1
    }

    #[verifier::allow_in_spec]
    pub fn zero(&self) -> bool
        returns
            bit(self.0, 2),
    {
        (self.0 / 2) % 2 == 1
    }

    #[verifier::allow_in_spec]
    pub fn irq_disable(&self) -> bool
        returns
            bit(self.0, 4),
    {
        (self.0 / 4) % 2 == 1
    }

    #[verifier::allow_in_spec]
    pub fn decimal(&self) -> bool
        returns
            bit(self.0, 8),
    {
        (self.0 / 8) % 2 == 1
    }

    /// X flag: index registers are 8 bits wide when set.
    #[verifier::allow_in_spec]
    pub fn index_regs_size(&self) -> bool
        returns
            bit(self.0, 16),
    {
        (self.0 / 16) % 2 == 1
    }

    /// M flag: the accumulator is 8 bits wide when set.
    #[verifier::allow_in_spec]
    pub fn a_reg_size(&self) -> bool
        returns
            bit(self.0, 32),
    {
        (self.0 / 32) % 2 == 1
    }

    #[verifier::allow_in_spec]
    pub fn overflow(&self) -> bool
        returns
            bit(self.0, 64),
    {
        (self.0 / 64) % 2 == 1
    }

    #[verifier::allow_in_spec]
    pub fn negative(&self) -> bool
        returns
            bit(self.0, 128),
    {
        (self.0 / 128) % 2 == 1
    }

    pub fn set_carry(&mut self, v: bool)
        ensures
            final(self).0 == with_bit(old(self).0, 1, v),
    {
        self.0 = set_bit(self.0, FLAG_C, v);
    }

    pub fn set_zero(&mut self, v: bool)
        ensures
            final(self).0 == with_bit(old(self).0, 2, v),
    {
        self.0 = set_bit(self.0, FLAG_Z, v);
    }

    pub fn set_irq_disable(&mut self, v: bool)
        ensures
            final(self).0 == with_bit(old(self).0, 4, v),
    {
        self.0 = set_bit(self.0, FLAG_I, v);
    }

    pub fn set_decimal(&mut self, v: bool)
        ensures
            final(self).0 == with_bit(old(self).0, 8, v),
    {
        self.0 = set_bit(self.0, FLAG_D, v);
    }

    pub fn set_index_regs_size(&mut self, v: bool)
        ensures
            final(self).0 == with_bit(old(self).0, 16, v),
    {
        self.0 = set_bit(self.0, FLAG_X, v);
    }

    pub fn set_a_reg_size(&mut self, v: bool)
        ensures
            final(self).0 == with_bit(old(self).0, 32, v),
    {
        self.0 = set_bit(self.0, FLAG_M, v);
    }

    pub fn set_overflow(&mut self, v: bool)
        ensures
            final(self).0 == with_bit(old(self).0, 64, v),
    {
        self.0 = set_bit(self.0, FLAG_V, v);
    }

    pub fn set_negative(&mut self, v: bool)
        ensures
            final(self).0 == with_bit(old(self).0, 128, v),
    {
        self.0 = set_bit(self.0, FLAG_N, v);
    }
}

/// P after N and Z are set from a result of the given width.
pub open spec fn nz_spec(p: u8, v: int, wide: bool) -> u8 {
    with_bit(with_bit(p, 128, v >= sign_bit(wide)), 2, v == 0)
}

/// A register after an 8- or 16-bit write: an 8-bit write keeps the high byte.
pub open spec fn merge(reg: u16, v: u16, wide: bool) -> u16 {
    if wide {
        v
    } else {
        word(v as u8, hi(reg))
    }
}

/// The W65C816 register file.
pub struct Cpu {
    pub accumulator: u16,
    pub index_x: u16,
    pub index_y: u16,
    pub stack_pointer: u16,
    pub program_counter: u16,
    pub status: Status,
    pub dpr: u16,
    pub pbr: u8,
    pub dbr: u8,
    pub emulation_mode: bool,
    pub stopped: bool,
    pub waiting_interrupt: bool,
}

impl Cpu {
    /// The processor as it is built, before any reset.
    pub open spec fn power_on() -> Cpu {
        Cpu {
            accumulator: 0,
            index_x: 0,
            index_y: 0,
            stack_pointer: 0,
            status: Status(0),
            dpr: 0,
            pbr: 0,
            dbr: 0,
            program_counter: 0,
            emulation_mode: true,
            stopped: false,
            waiting_interrupt: false,
        }
    }

    pub fn new() -> (r: Self)
        ensures
            r == Cpu::power_on(),
            r.accumulator == 0 && r.index_x == 0 && r.index_y == 0,
            r.stack_pointer == 0 && r.program_counter == 0 && r.status.0 == 0,
            r.dpr == 0 && r.pbr == 0 && r.dbr == 0,
            r.emulation_mode && !r.stopped && !r.waiting_interrupt,
    {
        Cpu {
            accumulator: 0x00,
            index_x: 0x00,
            index_y: 0x00,
            stack_pointer: 0x00,
            status: Status(0),
            dpr: 0x00,
            pbr: 0x00,
            dbr: 0x00,
            program_counter: 0x00,
            emulation_mode: true,
            stopped: false,
            waiting_interrupt: false,
        }
    }

    /// Whether the accumulator is 16 bits wide (M clear).
    pub open spec fn a_wide(&self) -> bool {
        !self.status.a_reg_size()
    }

    /// Whether the index registers are 16 bits wide (X clear).
    pub open spec fn x_wide(&self) -> bool {
        !self.status.index_regs_size()
    }

    /// Loads P; setting X truncates both index registers to 8 bits.
    pub fn set_status_register(&mut self, bits: u8)
        ensures
            final(self).status.0 == bits,
            final(self).index_x == if bit(bits, 16) { old(self).index_x % 256 } else { old(self).index_x },
            final(self).index_y == if bit(bits, 16) { old(self).index_y % 256 } else { old(self).index_y },
            final(self).accumulator == old(self).accumulator,
            final(self).stack_pointer == old(self).stack_pointer,
            final(self).program_counter == old(self).program_counter,
            final(self).dpr == old(self).dpr && final(self).pbr == old(self).pbr && final(self).dbr == old(self).dbr,
            final(self).emulation_mode == old(self).emulation_mode,
            final(self).stopped == old(self).stopped,
            final(self).waiting_interrupt == old(self).waiting_interrupt,
    {
        self.status = Status(bits);
        if self.status.index_regs_size() {
            self.index_x = self.index_x % 256;
            self.index_y = self.index_y % 256;
        }
    }

    /// Sets N and Z from a result.
    pub fn set_nz<T: RegSize>(&mut self, val: T)
        ensures
            final(self).status.0 == nz_spec(old(self).status.0, val.val() as int, T::wide()),
            final(self).accumulator == old(self).accumulator,
            final(self).index_x == old(self).index_x,
            final(self).index_y == old(self).index_y,
            final(self).stack_pointer == old(self).stack_pointer,
            final(self).program_counter == old(self).program_counter,
            final(self).dpr == old(self).dpr && final(self).pbr == old(self).pbr && final(self).dbr == old(self).dbr,
            final(self).emulation_mode == old(self).emulation_mode,
            final(self).stopped == old(self).stopped,
            final(self).waiting_interrupt == old(self).waiting_interrupt,
    {
        self.status.set_negative(val.is_negative());
        self.status.set_zero(val.is_zero());
    }

    pub fn set_accumulator<T: RegSize>(&mut self, val: T)
        ensures
            final(self).accumulator == merge(old(self).accumulator, val.val(), T::wide()),
            final(self).status == old(self).status,
            final(self).index_x == old(self).index_x,
            final(self).index_y == old(self).index_y,
            final(self).stack_pointer == old(self).stack_pointer,
            final(self).program_counter == old(self).program_counter,
            final(self).dpr == old(self).dpr && final(self).pbr == old(self).pbr && final(self).dbr == old(self).dbr,
            final(self).emulation_mode == old(self).emulation_mode,
            final(self).stopped == old(self).stopped,
            final(self).waiting_interrupt == old(self).waiting_interrupt,
    {
        if T::is_u16() {
            self.accumulator = val.as_u16();
        } else {
            proof { val.lemma_bounded(); }
            self.accumulator.set_low_byte(val.as_u8());
        }
    }

    pub fn set_index_x<T: RegSize>(&mut self, val: T)
        ensures
            final(self).index_x == merge(old(self).index_x, val.val(), T::wide()),
            final(self).status == old(self).status,
            final(self).accumulator == old(self).accumulator,
            final(self).index_y == old(self).index_y,
            final(self).stack_pointer == old(self).stack_pointer,
            final(self).program_counter == old(self).program_counter,
            final(self).dpr == old(self).dpr && final(self).pbr == old(self).pbr && final(self).dbr == old(self).dbr,
            final(self).emulation_mode == old(self).emulation_mode,
            final(self).stopped == old(self).stopped,
            final(self).waiting_interrupt == old(self).waiting_interrupt,
    {
        if T::is_u16() {
            self.index_x = val.as_u16();
        } else {
            proof { val.lemma_bounded(); }
            self.index_x.set_low_byte(val.as_u8());
        }
    }

    pub fn set_index_y<T: RegSize>(&mut self, val: T)
        ensures
            final(self).index_y == merge(old(self).index_y, val.val(), T::wide()),
            final(self).status == old(self).status,
            final(self).accumulator == old(self).accumulator,
            final(self).index_x == old(self).index_x,
            final(self).stack_pointer == old(self).stack_pointer,
            final(self).program_counter == old(self).program_counter,
            final(self).dpr == old(self).dpr && final(self).pbr == old(self).pbr && final(self).dbr == old(self).dbr,
            final(self).emulation_mode == old(self).emulation_mode,
            final(self).stopped == old(self).stopped,
            final(self).waiting_interrupt == old(self).waiting_interrupt,
    {
        if T::is_u16() {
            self.index_y = val.as_u16();
        } else {
            proof { val.lemma_bounded(); }
            self.index_y.set_low_byte(val.as_u8());
        }
    }

    /// Entering emulation mode forces 8-bit registers and a stack in page 1.
    pub fn set_emulation_mode(&mut self, val: bool)
        ensures
            final(self).emulation_mode == val,
            final(self).status.0 == if val { with_bit(with_bit(old(self).status.0, 32, true), 16, true) } else { old(self).status.0 },
            final(self).stack_pointer == if val { word(lo(old(self).stack_pointer), 1) } else { old(self).stack_pointer },
            final(self).index_x == if val { word(lo(old(self).index_x), 0) } else { old(self).index_x },
            final(self).index_y == if val { word(lo(old(self).index_y), 0) } else { old(self).index_y },
            final(self).accumulator == old(self).accumulator,
            final(self).program_counter == old(self).program_counter,
            final(self).dpr == old(self).dpr && final(self).pbr == old(self).pbr && final(self).dbr == old(self).dbr,
            final(self).stopped == old(self).stopped,
            final(self).waiting_interrupt == old(self).waiting_interrupt,
    {
        if val {
            self.status.set_a_reg_size(true);
            self.status.set_index_regs_size(true);
            self.stack_pointer.set_high_byte(0x01);
            self.index_y.set_high_byte(0x00);
            self.index_x.set_high_byte(0x00);
        }
        self.emulation_mode = val;
    }

    /// Reads an operand of `T`'s width at a 24-bit address (the high byte at the next address).
    pub fn read<B: Bus, T: RegSize>(&mut self, bus: &mut B, addr: Address) -> (r: T)
        requires
            old(bus).inv(),
        ensures
            final(bus).inv(),
            final(bus).clock() >= old(bus).clock(),
            final(bus).agenda() == old(bus).agenda(),
            final(bus).cycles() == old(bus).cycles() + data_reads(addr@, T::wide(), final(bus).cycles(), old(bus).cycles().len() as int),
            r.val() == data_value(T::wide(), final(bus).cycles(), old(bus).cycles().len() as int),
            *final(self) == *old(self),
    {
        let ghost n = old(bus).cycles().len() as int;
        if T::is_u16() {
            let low = bus.read_and_tick(addr);
            let high = bus.read_and_tick(addr.wrapping_add(1));
            proof {
                assert(bus.cycles() =~= old(bus).cycles() + data_reads(addr@, true, bus.cycles(), n));
            }
            T::from_u16(low as u16 + (high as u16) * 256)
        } else {
            let v = bus.read_and_tick(addr);
            proof {
                assert(bus.cycles() =~= old(bus).cycles() + data_reads(addr@, false, bus.cycles(), n));
            }
            T::from_u8(v)
        }
    }

    /// Writes a value of `T`'s width at a 24-bit address (the high byte at the next address).
    pub fn write<B: Bus, T: RegSize>(&mut self, bus: &mut B, addr: Address, data: T)
        requires
            old(bus).inv(),
        ensures
            final(bus).inv(),
            final(bus).clock() >= old(bus).clock(),
            final(bus).agenda() == old(bus).agenda(),
            final(bus).cycles() == old(bus).cycles() + data_writes(addr@, T::wide(), data.val()),
            *final(self) == *old(self),
    {
        proof { data.lemma_bounded(); }
        if T::is_u16() {
            bus.write_and_tick(addr, data.as_u16().low_byte());
            bus.write_and_tick(addr.wrapping_add(1), data.as_u16().high_byte());
        } else {
            bus.write_and_tick(addr, data.as_u8());
        }
        proof {
            assert(bus.cycles() =~= old(bus).cycles() + data_writes(addr@, T::wide(), data.val()));
        }
    }

    /// Reads, modifies and writes back the operand of the mode (or the accumulator).
    pub fn do_rmw<T: RegSize, B: Bus>(&mut self, bus: &mut B, mode: &AddressingMode, op: RmwOp)
        requires
            old(bus).inv(),
            *mode == AddressingMode::Accumulator || store_mode(*mode),
        ensures
            final(bus).inv(),
            final(bus).clock() >= old(bus).clock(),
            final(bus).agenda() == old(bus).agenda(),
            final(bus).cycles() == old(bus).cycles() + rmw_trace(*mode, *old(self), T::wide(), op, final(bus).cycles(), old(bus).cycles().len() as int),
            *final(self) == rmw_cpu(*mode, *old(self), T::wide(), op, final(bus).cycles(), old(bus).cycles().len() as int),
    {
        let ghost n = old(bus).cycles().len() as int;
        let ghost c = *old(self);
        match mode {
            AddressingMode::Accumulator => {
                let result = apply_rmw(self, op, T::from_u16(self.accumulator));
                self.set_accumulator(result);
                proof {
                    assert(bus.cycles() =~= old(bus).cycles() + rmw_trace(*mode, c, T::wide(), op, bus.cycles(), n));
                }
            },
            AddressingMode::Direct | AddressingMode::DirectX | AddressingMode::DirectY | AddressingMode::StackRelative => {
                self.rmw_page::<T, B>(bus, *mode, op);
            },
            _ => {
                self.rmw_decoded::<T, B>(bus, *mode, op);
            },
        }
    }

    /// Read-modify-write at a direct-page or stack address.
    fn rmw_page<T: RegSize, B: Bus>(&mut self, bus: &mut B, mode: AddressingMode, op: RmwOp)
        requires
            old(bus).inv(),
            on_page(mode),
        ensures
            final(bus).inv(),
            final(bus).clock() >= old(bus).clock(),
            final(bus).agenda() == old(bus).agenda(),
            final(bus).cycles() == old(bus).cycles() + rmw_trace(mode, *old(self), T::wide(), op, final(bus).cycles(), old(bus).cycles().len() as int),
            *final(self) == rmw_cpu(mode, *old(self), T::wide(), op, final(bus).cycles(), old(bus).cycles().len() as int),
    {
        let ghost n = old(bus).cycles().len() as int;
        let ghost c = *old(self);
        let (data, page) = self.read_from_direct_page::<T, B>(bus, &mode);
        let ghost l2 = bus.cycles();
        let result = apply_rmw(self, op, data);
        proof { result.lemma_bounded(); }
        if T::is_u16() {
            self.write_bank0(bus, page, result.as_u16());
        } else {
            bus.write_and_tick(Address::from(page), result.as_u8());
        }
        proof {
            let j = n + page_len(mode, c);
            assert(extends(bus.cycles(), l2));
            lemma_page_frame(mode, c, l2, bus.cycles(), n);
            assert(bus.cycles()[j] == l2[j]);
            if T::wide() { assert(bus.cycles()[j + 1] == l2[j + 1]); }
            assert(bus.cycles() =~= old(bus).cycles() + rmw_trace(mode, c, T::wide(), op, bus.cycles(), n));
        }
    }

    /// Read-modify-write at an effective address.
    #[verifier::spinoff_prover]
    fn rmw_decoded<T: RegSize, B: Bus>(&mut self, bus: &mut B, mode: AddressingMode, op: RmwOp)
        requires
            old(bus).inv(),
            decodes(mode),
        ensures
            final(bus).inv(),
            final(bus).clock() >= old(bus).clock(),
            final(bus).agenda() == old(bus).agenda(),
            final(bus).cycles() == old(bus).cycles() + rmw_trace(mode, *old(self), T::wide(), op, final(bus).cycles(), old(bus).cycles().len() as int),
            *final(self) == rmw_cpu(mode, *old(self), T::wide(), op, final(bus).cycles(), old(bus).cycles().len() as int),
    {
        let ghost n = old(bus).cycles().len() as int;
        let ghost c = *old(self);
        let addr = self.decode_addressing_mode::<true, B>(bus, mode);
        let ghost l1 = bus.cycles();
        let data = self.read::<B, T>(bus, addr);
        let ghost l2 = bus.cycles();
        let ghost c1 = *self;
        let result = apply_rmw(self, op, data);
        proof {
            assert(rmw_value(op, c1, data.val() as int, T::wide()) == rmw_value(op, c, data.val() as int, T::wide()));
            assert(rmw_status(op, c1, data.val() as int, T::wide()) == rmw_status(op, c, data.val() as int, T::wide()));
        }
        self.write(bus, addr, result);
        proof {
            let l = bus.cycles();
            let j = l1.len() as int;
            assert(extends(l, l1));
            lemma_decode_frame(mode, c, true, l1, l, n);
            assert(l[j] == l2[j]);
            if T::wide() { assert(l[j + 1] == l2[j + 1]); }
            assert(data_value(T::wide(), l, j) == data.val());
            assert(rmw_at(mode, c, l, n) == j);
            assert(rmw_in(mode, c, T::wide(), l, n) == data.val());
            assert(l =~= old(bus).cycles() + rmw_trace(mode, c, T::wide(), op, l, n));
        }
    }

    /// Jumps to the target of the mode; the long forms also load the program bank.
    pub fn do_jmp<B: Bus>(&mut self, bus: &mut B, mode: AddressingMode)
        requires
            old(bus).inv(),
            jmp_mode(mode),
        ensures
            final(bus).inv(),
            final(bus).clock() >= old(bus).clock(),
            final(bus).agenda() == old(bus).agenda(),
            final(bus).cycles() == old(bus).cycles() + jmp_trace(mode, *old(self), final(bus).cycles(), old(bus).cycles().len() as int),
            *final(self) == jmp_cpu(mode, *old(self), final(bus).cycles(), old(bus).cycles().len() as int),
    {
        match mode {
            AddressingMode::Absolute | AddressingMode::AbsoluteLong => self.jmp_absolute(bus, mode),
            AddressingMode::AbsoluteIndirect => self.jmp_indirect(bus, mode),
            AddressingMode::AbsoluteIndirectLong => self.jmp_indirect_long(bus, mode),
            _ => self.jmp_indexed_indirect(bus, mode),
        }
    }

    /// Jumps to an absolute (or long) operand.
    #[verifier::spinoff_prover]
    #[verifier::rlimit(50)]
    fn jmp_absolute<B: Bus>(&mut self, bus: &mut B, mode: AddressingMode)
        requires
            old(bus).inv(),
            mode == AddressingMode::Absolute || mode == AddressingMode::AbsoluteLong,
        ensures
            final(bus).inv(),
            final(bus).clock() >= old(bus).clock(),
            final(bus).agenda() == old(bus).agenda(),
            final(bus).cycles() == old(bus).cycles() + jmp_trace(mode, *old(self), final(bus).cycles(), old(bus).cycles().len() as int),
            *final(self) == jmp_cpu(mode, *old(self), final(bus).cycles(), old(bus).cycles().len() as int),
    {
        let ghost n = old(bus).cycles().len() as int;
        let ghost c = *old(self);
        if let AddressingMode::AbsoluteLong = mode {
            let addr = self.absolute_long_address(bus);
            proof { lemma_offset_of(addr); }
            self.program_counter = addr.offset;
            self.pbr = addr.bank;
        } else {
            let addr = self.absolute_address(bus);
            proof { lemma_offset_of(addr); }
            self.program_counter = addr.offset;
        }
    }

    /// Jumps through a word pointer in bank 0.
    #[verifier::spinoff_prover]
    #[verifier::rlimit(50)]
    fn jmp_indirect<B: Bus>(&mut self, bus: &mut B, mode: AddressingMode)
        requires
            old(bus).inv(),
            mode == AddressingMode::AbsoluteIndirect,
        ensures
            final(bus).inv(),
            final(bus).clock() >= old(bus).clock(),
            final(bus).agenda() == old(bus).agenda(),
            final(bus).cycles() == old(bus).cycles() + jmp_trace(mode, *old(self), final(bus).cycles(), old(bus).cycles().len() as int),
            *final(self) == jmp_cpu(mode, *old(self), final(bus).cycles(), old(bus).cycles().len() as int),
    {
        let ghost n = old(bus).cycles().len() as int;
        let ghost c = *old(self);
        let ptr = self.get_imm::<u16, B>(bus);
        let ghost l1 = bus.cycles();
        self.program_counter = self.read_bank0(bus, ptr);
        proof {
            assert(bus.cycles()[n] == l1[n] && bus.cycles()[n + 1] == l1[n + 1]);
            assert(bus.cycles() =~= old(bus).cycles() + jmp_trace(mode, c, bus.cycles(), n));
        }
    }

    /// Jumps through a 24-bit pointer in bank 0.
    #[verifier::spinoff_prover]
    #[verifier::rlimit(50)]
    fn jmp_indirect_long<B: Bus>(&mut self, bus: &mut B, mode: AddressingMode)
        requires
            old(bus).inv(),
            mode == AddressingMode::AbsoluteIndirectLong,
        ensures
            final(bus).inv(),
            final(bus).clock() >= old(bus).clock(),
            final(bus).agenda() == old(bus).agenda(),
            final(bus).cycles() == old(bus).cycles() + jmp_trace(mode, *old(self), final(bus).cycles(), old(bus).cycles().len() as int),
            *final(self) == jmp_cpu(mode, *old(self), final(bus).cycles(), old(bus).cycles().len() as int),
    {
        let ghost n = old(bus).cycles().len() as int;
        let ghost c = *old(self);
        let ptr = self.get_imm::<u16, B>(bus);
        let ghost l1 = bus.cycles();
        let target = self.indirect_long_address(bus, ptr);
        proof {
            lemma_offset_of(target);
            assert(bus.cycles()[n] == l1[n] && bus.cycles()[n + 1] == l1[n + 1]);
        }
        self.program_counter = target.offset;
        self.pbr = target.bank;
        proof {
            assert(bus.cycles() =~= old(bus).cycles() + jmp_trace(mode, c, bus.cycles(), n));
        }
    }

    /// Jumps through a word pointer indexed by X in the program bank.
    #[verifier::spinoff_prover]
    #[verifier::rlimit(50)]
    fn jmp_indexed_indirect<B: Bus>(&mut self, bus: &mut B, mode: AddressingMode)
        requires
            old(bus).inv(),
            mode == AddressingMode::AbsoluteIndirectX,
        ensures
            final(bus).inv(),
            final(bus).clock() >= old(bus).clock(),
            final(bus).agenda() == old(bus).agenda(),
            final(bus).cycles() == old(bus).cycles() + jmp_trace(mode, *old(self), final(bus).cycles(), old(bus).cycles().len() as int),
            *final(self) == jmp_cpu(mode, *old(self), final(bus).cycles(), old(bus).cycles().len() as int),
    {
        let ghost n = old(bus).cycles().len() as int;
        let ghost c = *old(self);
        bus.add_io_cycles(1);
        let offset = self.get_imm::<u16, B>(bus).wrapping_add(self.index_x);
        let addr = Address::new(offset, self.pbr);
        let ghost l1 = bus.cycles();
        let low = bus.read_and_tick(addr);
        let high = bus.read_and_tick(addr.wrapping_offset_add(1));
        self.program_counter.set_low_byte(low);
        self.program_counter.set_high_byte(high);
        proof {
            assert(bus.cycles()[n + 1] == l1[n + 1] && bus.cycles()[n + 2] == l1[n + 2]);
            assert(bus.cycles() =~= old(bus).cycles() + jmp_trace(mode, c, bus.cycles(), n));
        }
    }

    /// Resets the processor: emulation mode, 8-bit registers, stack at 0x1FF, and the reset vector.
    pub fn reset<B: Bus>(&mut self, bus: &mut B)
        requires
            old(bus).inv(),
        ensures
            final(bus).inv(),
            final(bus).clock() >= old(bus).clock(),
            final(bus).agenda() == old(bus).agenda(),
            final(bus).cycles() == old(bus).cycles() + bank0_reads(0xFFFC, final(bus).cycles(), old(bus).cycles().len() as int),
            *final(self) == reset_cpu(*old(self), final(bus).cycles(), old(bus).cycles().len() as int),
            final(bus).board() == old(bus).board(),
    {
        self.stopped = false;
        self.waiting_interrupt = false;
        self.set_emulation_mode(true);
        self.dpr = 0;
        self.dbr = 0;
        self.stack_pointer = 0x1FF;
        self.status.set_decimal(false);
        self.status.set_irq_disable(true);
        self.pbr = 0;
        let vector = Vector::Reset.get_addr(self.emulation_mode);
        self.program_counter = self.read_bank0(bus, vector);
    }

    /// Takes an interrupt: pushes the return state, masks interrupts and jumps through the vector.
    #[verifier::rlimit(40)]
    pub fn handle_interrupt<B: Bus>(&mut self, bus: &mut B, interrupt: Vector)
        requires
            old(bus).inv(),
        ensures
            final(bus).inv(),
            final(bus).clock() >= old(bus).clock(),
            final(bus).agenda() == old(bus).agenda(),
            final(bus).cycles() == old(bus).cycles() + interrupt_trace(*old(self), interrupt, final(bus).cycles(), old(bus).cycles().len() as int),
            *final(self) == interrupt_cpu(*old(self), interrupt, final(bus).cycles(), old(bus).cycles().len() as int),
    {
        let ghost n = old(bus).cycles().len() as int;
        let ghost c = *old(self);
        if !self.emulation_mode {
            let pbr = self.pbr;
            do_push(self, bus, pbr);
        }
        let pc = self.program_counter;
        do_push(self, bus, pc);
        let p = self.status.0;
        do_push(self, bus, p);
        self.status.set_decimal(false);
        self.status.set_irq_disable(true);
        self.pbr = 0;
        let vector = interrupt.get_addr(self.emulation_mode);
        self.program_counter = self.read_bank0(bus, vector);
        proof {
            assert(bus.cycles() =~= old(bus).cycles() + interrupt_trace(c, interrupt, bus.cycles(), n));
        }
    }
}

/// The modes of the jump instructions.
pub open spec fn jmp_mode(mode: AddressingMode) -> bool {
    mode == AddressingMode::Absolute || mode == AddressingMode::AbsoluteIndirect || mode == AddressingMode::AbsoluteLong
        || mode == AddressingMode::AbsoluteIndirectLong || mode == AddressingMode::AbsoluteIndirectX
}

/// The bus cycles of a jump: the operand, then any pointer it names.
pub open spec fn jmp_trace(mode: AddressingMode, c: Cpu, l: Seq<BusCycle>, k: int) -> Seq<BusCycle> {
    let ptr = w16(l, k);
    match mode {
        AddressingMode::Absolute => imm_reads(c, 2, l, k),
        AddressingMode::AbsoluteLong => imm_reads(c, 3, l, k),
        AddressingMode::AbsoluteIndirect => imm_reads(c, 2, l, k) + bank0_reads(ptr, l, k + 2),
        AddressingMode::AbsoluteIndirectLong =>
            imm_reads(c, 2, l, k) + bank0_reads(ptr, l, k + 2) + seq![rd((ptr + 2) % 0x1_0000, d(l, k + 4))],
        _ => {
            let off = (w16(l, k + 1) + c.index_x) % 0x1_0000;
            seq![BusCycle::Io(1)] + imm_reads(c, 2, l, k + 1)
                + seq![rd(linear(c.pbr, off as u16), d(l, k + 3)), rd(linear(c.pbr, ((off + 1) % 0x1_0000) as u16), d(l, k + 4))]
        },
    }
}

/// The CPU after a jump: the new program counter (and bank, for the long forms).
pub open spec fn jmp_cpu(mode: AddressingMode, c: Cpu, l: Seq<BusCycle>, k: int) -> Cpu {
    match mode {
        AddressingMode::Absolute => Cpu { program_counter: w16(l, k) as u16, ..c },
        AddressingMode::AbsoluteLong => Cpu { program_counter: w16(l, k) as u16, pbr: d(l, k + 2), ..c },
        AddressingMode::AbsoluteIndirect => Cpu { program_counter: w16(l, k + 2) as u16, ..c },
        AddressingMode::AbsoluteIndirectLong => Cpu { program_counter: w16(l, k + 2) as u16, pbr: d(l, k + 4), ..c },
        _ => Cpu { program_counter: w16(l, k + 3) as u16, ..c },
    }
}

/// P as an interrupt leaves it: decimal mode off, interrupts disabled.
pub open spec fn interrupt_p(p: u8) -> u8 {
    with_bit(with_bit(p, 8, false), 4, true)
}

/// The bus cycles of taking an interrupt: the pushes of PBR (native mode only), PC and P,
/// then the read of the vector.
pub open spec fn interrupt_trace(c: Cpu, v: Vector, l: Seq<BusCycle>, k: int) -> Seq<BusCycle> {
    let s0 = c.stack_pointer;
    let pushed_bank: int = if c.emulation_mode { 0 } else { 1 };
    let s1 = ((s0 - pushed_bank) % 0x1_0000) as u16;
    let s2 = ((s1 - 2) % 0x1_0000) as u16;
    (if c.emulation_mode { seq![] } else { push_writes(s0, c.pbr as u16, false) })
        + push_writes(s1, c.program_counter, true)
        + push_writes(s2, c.status.0 as u16, false)
        + bank0_reads(v.addr_spec(c.emulation_mode) as int, l, k + 3 + pushed_bank)
}

/// The number of bus cycles of taking an interrupt: three or four pushes and the two vector reads.
pub open spec fn interrupt_len(c: Cpu) -> int {
    if c.emulation_mode { 5 } else { 6 }
}

/// Taking an interrupt only looks at its own cycles: a longer log gives the same trace and state.
pub proof fn lemma_interrupt_frame(c: Cpu, v: Vector, l1: Seq<BusCycle>, l2: Seq<BusCycle>, k: int)
    requires
        0 <= k,
        k + interrupt_len(c) <= l1.len(),
        extends(l2, l1),
    ensures
        interrupt_trace(c, v, l2, k) == interrupt_trace(c, v, l1, k),
        interrupt_cpu(c, v, l2, k) == interrupt_cpu(c, v, l1, k),
{
    let j: int = if c.emulation_mode { k + 3 } else { k + 4 };
    assert(l2[j] == l1[j] && l2[j + 1] == l1[j + 1]);
    assert(interrupt_trace(c, v, l2, k) =~= interrupt_trace(c, v, l1, k));
}

/// The CPU after taking an interrupt.
pub open spec fn interrupt_cpu(c: Cpu, v: Vector, l: Seq<BusCycle>, k: int) -> Cpu {
    let pushed: int = if c.emulation_mode { 3 } else { 4 };
    Cpu {
        stack_pointer: ((c.stack_pointer - pushed) % 0x1_0000) as u16,
        status: Status(interrupt_p(c.status.0)),
        pbr: 0,
        program_counter: w16(l, k + pushed) as u16,
        ..c
    }
}

/// The CPU after a reset, with the reset vector read from the bus.
pub open spec fn reset_cpu(c: Cpu, l: Seq<BusCycle>, k: int) -> Cpu {
    Cpu {
        accumulator: c.accumulator,
        index_x: word(lo(c.index_x), 0),
        index_y: word(lo(c.index_y), 0),
        stack_pointer: 0x1FF,
        program_counter: w16(l, k) as u16,
        status: Status(interrupt_p(with_bit(with_bit(c.status.0, 32, true), 16, true))),
        dpr: 0,
        pbr: 0,
        dbr: 0,
        emulation_mode: true,
        stopped: false,
        waiting_interrupt: false,
    }
}

/// A jump only looks at its own cycles: a longer log gives the same trace and target.
pub proof fn lemma_jmp_frame(mode: AddressingMode, c: Cpu, l1: Seq<BusCycle>, l2: Seq<BusCycle>, k: int)
    requires
        jmp_mode(mode),
        0 <= k,
        k + jmp_trace(mode, c, l1, k).len() <= l1.len(),
        extends(l2, l1),
    ensures
        jmp_trace(mode, c, l2, k) == jmp_trace(mode, c, l1, k),
        jmp_cpu(mode, c, l2, k) == jmp_cpu(mode, c, l1, k),
{
    assert(l2[k] == l1[k] && l2[k + 1] == l1[k + 1]);
    if jmp_trace(mode, c, l1, k).len() > 2 { assert(l2[k + 2] == l1[k + 2]); }
    if jmp_trace(mode, c, l1, k).len() > 3 { assert(l2[k + 3] == l1[k + 3]); }
    if jmp_trace(mode, c, l1, k).len() > 4 { assert(l2[k + 4] == l1[k + 4]); }
    assert(jmp_trace(mode, c, l2, k) =~= jmp_trace(mode, c, l1, k));
}

} // verus!
