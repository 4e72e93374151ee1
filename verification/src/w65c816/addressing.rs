use vstd::prelude::*;
use vstd::std_specs::convert::FromSpecImpl;
use vstd::std_specs::convert::FromSpec;

use super::cpu::Cpu;
use super::regsize::RegSize;
use super::trace::{lemma_page_frame, data_reads, extends, lemma_decode_frame, has_operand, operand_trace, operand_value, operand_len, page_trace, page_reads, page_len, page_addr, unindexed_addr, decode_addr, decode_len, decode_trace, decodes, advance, bank0_reads, bank0_writes, d, data_value, dp_addr, dp_trace, imm_reads, pc_addr, rd, w16};
use crate::bus::{Bus, BusCycle};
use crate::utils::int_traits::{hi, lo, ManipulateU16};

verus! {

/// The addressing modes of the W65C816.
#[derive(Clone, Copy, Debug, PartialEq, Eq, Structural)]
pub enum AddressingMode {
    Implied,
    Immediate,
    Relative,
    RelativeLong,
    Direct,
    DirectX,
    DirectY,
    Indirect,
    IndirectX,
    IndirectY,
    IndirectLong,
    IndirectLongY,
    Absolute,
    AbsoluteX,
    AbsoluteY,
    AbsoluteLong,
    AbsoluteLongX,
    AbsoluteIndirect,
    AbsoluteIndirectLong,
    AbsoluteIndirectX,
    AbsoluteJMP,
    AbsoluteLongJSL,
    StackRelative,
    StackRelIndirectY,
    StackPEI,
    BlockMove,
    Accumulator,
}

/// A 24-bit address: an 8-bit bank and a 16-bit offset inside it.
#[derive(Clone, Copy)]
pub struct Address {
    pub bank: u8,
    pub offset: u16,
}

/// The 24-bit number of a bank and an offset.
pub open spec fn linear(bank: u8, offset: u16) -> int {
    bank * 0x1_0000 + offset
}

impl View for Address {
    type V = int;

    open spec fn view(&self) -> int {
        linear(self.bank, self.offset)
    }
}

impl Address {
    pub fn new(offset: u16, bank: u8) -> (r: Self)
        ensures
            r.bank == bank,
            r.offset == offset,
    {
        Self { bank, offset }
    }

    /// Adds to the offset, wrapping inside the bank.
    pub fn wrapping_offset_add(&self, rhs: u16) -> (r: Self)
        ensures
            r.bank == self.bank,
            r.offset == (self.offset + rhs) % 0x1_0000,
    {
        Self { bank: self.bank, offset: self.offset.wrapping_add(rhs) }
    }

    /// Adds to the whole 24-bit address, wrapping at the end of the address space.
    pub fn wrapping_add(&self, rhs: u32) -> (r: Self)
        ensures
            r@ == (self@ + rhs) % 0x100_0000,
    {
        let sum = u32::from(*self).wrapping_add(rhs);
        let r = Address::from(sum);
        assert((self@ + rhs) % 0x1_0000_0000 % 0x100_0000 == (self@ + rhs) % 0x100_0000)
            by (nonlinear_arith)
        ;
        r
    }
}

impl From<u16> for Address {
    fn from(value: u16) -> (r: Self) {
        Self { bank: 0, offset: value }
    }
}

impl FromSpecImpl<u16> for Address {
    open spec fn obeys_from_spec() -> bool {
        true
    }

    open spec fn from_spec(v: u16) -> Self {
        Address { bank: 0, offset: v }
    }
}

impl From<u32> for Address {
    fn from(value: u32) -> (r: Self) {
        Self { bank: ((value / 0x1_0000) % 0x100) as u8, offset: (value % 0x1_0000) as u16 }
    }
}

impl FromSpecImpl<u32> for Address {
    open spec fn obeys_from_spec() -> bool {
        true
    }

    open spec fn from_spec(v: u32) -> Self {
        Address { bank: ((v / 0x1_0000) % 0x100) as u8, offset: (v % 0x1_0000) as u16 }
    }
}

impl From<Address> for u32 {
    fn from(value: Address) -> (r: Self) {
        value.bank as u32 * 0x1_0000 + value.offset as u32
    }
}

impl FromSpecImpl<Address> for u32 {
    open spec fn obeys_from_spec() -> bool {
        true
    }

    open spec fn from_spec(v: Address) -> Self {
        v@ as u32
    }
}

impl From<Address> for usize {
    fn from(value: Address) -> (r: Self) {
        value.bank as usize * 0x1_0000 + value.offset as usize
    }
}

impl FromSpecImpl<Address> for usize {
    open spec fn obeys_from_spec() -> bool {
        true
    }

    open spec fn from_spec(v: Address) -> Self {
        v@ as usize
    }
}

impl Cpu {
    /// Reads a little-endian word at `offset` in bank 0.
    pub fn read_bank0<B: Bus>(&mut self, bus: &mut B, offset: u16) -> (r: u16)
        requires
            old(bus).inv(),
        ensures
            final(bus).inv(),
            final(bus).clock() >= old(bus).clock(),
            final(bus).agenda() == old(bus).agenda(),
            final(bus).cycles() == old(bus).cycles() + bank0_reads(offset as int, final(bus).cycles(), old(bus).cycles().len() as int),
            r == w16(final(bus).cycles(), old(bus).cycles().len() as int),
            *final(self) == *old(self),
            final(bus).board() == old(bus).board(),
    {
        let ghost n = old(bus).cycles().len() as int;
        let addr = Address::new(offset, 0);
        let low = bus.read_and_tick(addr);
        let high = bus.read_and_tick(addr.wrapping_offset_add(1));
        proof {
            assert(bus.cycles() =~= old(bus).cycles() + bank0_reads(offset as int, bus.cycles(), n));
        }
        low as u16 + (high as u16) * 256
    }

    /// Writes a little-endian word at `offset` in bank 0.
    pub fn write_bank0<B: Bus>(&mut self, bus: &mut B, offset: u16, data: u16)
        requires
            old(bus).inv(),
        ensures
            final(bus).inv(),
            final(bus).clock() >= old(bus).clock(),
            final(bus).agenda() == old(bus).agenda(),
            final(bus).cycles() == old(bus).cycles() + bank0_writes(offset as int, data),
            *final(self) == *old(self),
    {
        let addr = Address::new(offset, 0);
        bus.write_and_tick(addr, data.low_byte());
        bus.write_and_tick(addr.wrapping_offset_add(1), data.high_byte());
        proof {
            assert(bus.cycles() =~= old(bus).cycles() + bank0_writes(offset as int, data));
        }
    }

    /// Fetches an immediate operand of `T`'s width and moves the program counter past it.
    pub fn get_imm<T: RegSize, B: Bus>(&mut self, bus: &mut B) -> (r: T)
        requires
            old(bus).inv(),
        ensures
            final(bus).inv(),
            final(bus).clock() >= old(bus).clock(),
            final(bus).agenda() == old(bus).agenda(),
            final(bus).cycles() == old(bus).cycles() + imm_reads(*old(self), if T::wide() { 2 } else { 1 }, final(bus).cycles(), old(bus).cycles().len() as int),
            r.val() == data_value(T::wide(), final(bus).cycles(), old(bus).cycles().len() as int),
            *final(self) == advance(*old(self), if T::wide() { 2 } else { 1 }),
    {
        let ghost n = old(bus).cycles().len() as int;
        let addr = Address::new(self.program_counter, self.pbr);
        if T::is_u16() {
            let low = bus.read_and_tick(addr);
            let high = bus.read_and_tick(addr.wrapping_offset_add(1));
            let res = low as u16 + (high as u16) * 256;
            self.program_counter = self.program_counter.wrapping_add(2);
            proof {
                assert(bus.cycles() =~= old(bus).cycles() + imm_reads(*old(self), 2, bus.cycles(), n));
            }
            T::from_u16(res)
        } else {
            let res = bus.read_and_tick(addr);
            self.program_counter = self.program_counter.wrapping_add(1);
            proof {
                assert(bus.cycles() =~= old(bus).cycles() + imm_reads(*old(self), 1, bus.cycles(), n));
            }
            T::from_u8(res)
        }
    }

    /// Whether an indexed access takes an extra cycle
    /// (see <http://www.unusedino.de/ec64/technical/aay/c64/addr12a.htm>).
    fn detect_penalty_cycle<const WRITE: bool>(&mut self, unindexed_page: u8, indexed_page: u8) -> (r: bool)
        ensures
            r == (WRITE || !old(self).status.index_regs_size() || unindexed_page != indexed_page),
            *final(self) == *old(self),
    {
        WRITE || !self.status.index_regs_size() || unindexed_page != indexed_page
    }

    /// Fetches a direct-page offset and adds D to it.
    fn direct_offset<B: Bus>(&mut self, bus: &mut B) -> (r: u16)
        requires
            old(bus).inv(),
        ensures
            final(bus).inv(),
            final(bus).clock() >= old(bus).clock(),
            final(bus).agenda() == old(bus).agenda(),
            final(bus).cycles() == old(bus).cycles() + dp_trace(*old(self), final(bus).cycles(), old(bus).cycles().len() as int),
            r == dp_addr(*old(self), final(bus).cycles(), old(bus).cycles().len() as int),
            *final(self) == advance(*old(self), 1),
    {
        let ghost n = old(bus).cycles().len() as int;
        let dpr = self.dpr;
        if dpr % 256 != 0 {
            bus.add_io_cycles(1);
        }
        let b = self.get_imm::<u8, B>(bus);
        proof {
            assert(bus.cycles() =~= old(bus).cycles() + dp_trace(*old(self), bus.cycles(), n));
        }
        dpr.wrapping_add(b as u16)
    }

    /// A direct-page offset indexed by a register, after an internal cycle.
    fn direct_page_indexed<B: Bus>(&mut self, bus: &mut B, index: u16) -> (r: u16)
        requires
            old(bus).inv(),
        ensures
            final(bus).inv(),
            final(bus).clock() >= old(bus).clock(),
            final(bus).agenda() == old(bus).agenda(),
            final(bus).cycles() == old(bus).cycles() + seq![BusCycle::Io(1)] + dp_trace(*old(self), final(bus).cycles(), old(bus).cycles().len() as int + 1),
            r == (dp_addr(*old(self), final(bus).cycles(), old(bus).cycles().len() as int + 1) + index) % 0x1_0000,
            *final(self) == advance(*old(self), 1),
    {
        let ghost n = old(bus).cycles().len() as int;
        bus.add_io_cycles(1);
        let ghost l1 = bus.cycles();
        let off = self.direct_offset(bus);
        proof {
            assert(bus.cycles() =~= old(bus).cycles() + seq![BusCycle::Io(1)] + dp_trace(*old(self), bus.cycles(), n + 1));
        }
        off.wrapping_add(index)
    }

    /// A 24-bit pointer read from bank 0: the offset word, then the bank byte.
    pub(crate) fn indirect_long_address<B: Bus>(&mut self, bus: &mut B, indirect: u16) -> (r: Address)
        requires
            old(bus).inv(),
        ensures
            final(bus).inv(),
            final(bus).clock() >= old(bus).clock(),
            final(bus).agenda() == old(bus).agenda(),
            final(bus).cycles() == old(bus).cycles() + bank0_reads(indirect as int, final(bus).cycles(), old(bus).cycles().len() as int)
                + seq![rd((indirect + 2) % 0x1_0000, d(final(bus).cycles(), old(bus).cycles().len() as int + 2))],
            r@ == linear(d(final(bus).cycles(), old(bus).cycles().len() as int + 2), w16(final(bus).cycles(), old(bus).cycles().len() as int) as u16),
            *final(self) == *old(self),
    {
        let ghost n = old(bus).cycles().len() as int;
        let addr = Address::new(indirect.wrapping_add(2), 0);
        let offset = self.read_bank0(bus, indirect);
        let bank = bus.read_and_tick(addr);
        proof {
            assert(bus.cycles() =~= old(bus).cycles() + bank0_reads(indirect as int, bus.cycles(), n)
                + seq![rd((indirect + 2) % 0x1_0000, d(bus.cycles(), n + 2))]);
        }
        Address::new(offset, bank)
    }

    /// A 16-bit operand in the data bank.
    pub(crate) fn absolute_address<B: Bus>(&mut self, bus: &mut B) -> (r: Address)
        requires
            old(bus).inv(),
        ensures
            final(bus).inv(),
            final(bus).clock() >= old(bus).clock(),
            final(bus).agenda() == old(bus).agenda(),
            final(bus).cycles() == old(bus).cycles() + imm_reads(*old(self), 2, final(bus).cycles(), old(bus).cycles().len() as int),
            r@ == linear(old(self).dbr, w16(final(bus).cycles(), old(bus).cycles().len() as int) as u16),
            *final(self) == advance(*old(self), 2),
    {
        let offset = self.get_imm::<u16, B>(bus);
        Address::new(offset, self.dbr)
    }

    /// A 24-bit operand: a word, then the bank byte.
    pub(crate) fn absolute_long_address<B: Bus>(&mut self, bus: &mut B) -> (r: Address)
        requires
            old(bus).inv(),
        ensures
            final(bus).inv(),
            final(bus).clock() >= old(bus).clock(),
            final(bus).agenda() == old(bus).agenda(),
            final(bus).cycles() == old(bus).cycles() + imm_reads(*old(self), 3, final(bus).cycles(), old(bus).cycles().len() as int),
            r@ == linear(d(final(bus).cycles(), old(bus).cycles().len() as int + 2), w16(final(bus).cycles(), old(bus).cycles().len() as int) as u16),
            *final(self) == advance(*old(self), 3),
    {
        let ghost n = old(bus).cycles().len() as int;
        let offset = self.get_imm::<u16, B>(bus);
        let bank = self.get_imm::<u8, B>(bus);
        proof {
            assert(bus.cycles() =~= old(bus).cycles() + imm_reads(*old(self), 3, bus.cycles(), n));
        }
        Address::new(offset, bank)
    }

    /// Computes the effective address of an address-computing mode, taking its
    /// operand bytes (and any pointer) from the bus. `WRITE` marks a store,
    /// which always takes the indexing cycle.
    pub fn decode_addressing_mode<const WRITE: bool, B: Bus>(&mut self, bus: &mut B, mode: AddressingMode) -> (r: Address)
        requires
            old(bus).inv(),
            decodes(mode),
        ensures
            final(bus).inv(),
            final(bus).clock() >= old(bus).clock(),
            final(bus).agenda() == old(bus).agenda(),
            final(bus).cycles() == old(bus).cycles() + decode_trace(mode, *old(self), WRITE, final(bus).cycles(), old(bus).cycles().len() as int),
            r@ == decode_addr(mode, *old(self), final(bus).cycles(), old(bus).cycles().len() as int),
            *final(self) == advance(*old(self), decode_len(mode)),
    {
        match mode {
            AddressingMode::Indirect | AddressingMode::IndirectX | AddressingMode::IndirectLong
            | AddressingMode::IndirectLongY => self.decode_indirect::<WRITE, B>(bus, mode),
            AddressingMode::IndirectY | AddressingMode::AbsoluteX | AddressingMode::AbsoluteY =>
                self.decode_indexed::<WRITE, B>(bus, mode),
            _ => self.decode_other::<WRITE, B>(bus, mode),
        }
    }

    /// The modes that read a pointer from the direct page.
    #[verifier::spinoff_prover]
    #[verifier::rlimit(50)]
    fn decode_indirect<const WRITE: bool, B: Bus>(&mut self, bus: &mut B, mode: AddressingMode) -> (r: Address)
        requires
            old(bus).inv(),
            mode == AddressingMode::Indirect || mode == AddressingMode::IndirectX || mode == AddressingMode::IndirectLong || mode == AddressingMode::IndirectLongY,
        ensures
            final(bus).inv(),
            final(bus).clock() >= old(bus).clock(),
            final(bus).agenda() == old(bus).agenda(),
            final(bus).cycles() == old(bus).cycles() + decode_trace(mode, *old(self), WRITE, final(bus).cycles(), old(bus).cycles().len() as int),
            r@ == decode_addr(mode, *old(self), final(bus).cycles(), old(bus).cycles().len() as int),
            *final(self) == advance(*old(self), decode_len(mode)),
    {
        let ghost n = old(bus).cycles().len() as int;
        let ghost c = *old(self);
        match mode {
            AddressingMode::Indirect => {
                let indirect = self.direct_offset(bus);
                let offset = self.read_bank0(bus, indirect);
                proof {
                    assert(bus.cycles() =~= old(bus).cycles() + decode_trace(mode, c, WRITE, bus.cycles(), n));
                }
                Address::new(offset, self.dbr)
            },
            AddressingMode::IndirectX => {
                bus.add_io_cycles(1);
                let indirect = self.direct_offset(bus).wrapping_add(self.index_x);
                let offset = self.read_bank0(bus, indirect);
                proof {
                    assert(bus.cycles() =~= old(bus).cycles() + decode_trace(mode, c, WRITE, bus.cycles(), n));
                }
                Address::new(offset, self.dbr)
            },
            AddressingMode::IndirectLong => {
                let indirect = self.direct_offset(bus);
                let r = self.indirect_long_address(bus, indirect);
                proof {
                    assert(bus.cycles() =~= old(bus).cycles() + decode_trace(mode, c, WRITE, bus.cycles(), n));
                }
                r
            },
            _ => {
                let indirect = self.direct_offset(bus);
                let r = self.indirect_long_address(bus, indirect).wrapping_add(self.index_y as u32);
                proof {
                    assert(bus.cycles() =~= old(bus).cycles() + decode_trace(mode, c, WRITE, bus.cycles(), n));
                }
                r
            },
        }
    }

    /// The indexed modes that may take an extra cycle.
    fn decode_indexed<const WRITE: bool, B: Bus>(&mut self, bus: &mut B, mode: AddressingMode) -> (r: Address)
        requires
            old(bus).inv(),
            mode == AddressingMode::IndirectY || mode == AddressingMode::AbsoluteX || mode == AddressingMode::AbsoluteY,
        ensures
            final(bus).inv(),
            final(bus).clock() >= old(bus).clock(),
            final(bus).agenda() == old(bus).agenda(),
            final(bus).cycles() == old(bus).cycles() + decode_trace(mode, *old(self), WRITE, final(bus).cycles(), old(bus).cycles().len() as int),
            r@ == decode_addr(mode, *old(self), final(bus).cycles(), old(bus).cycles().len() as int),
            *final(self) == advance(*old(self), decode_len(mode)),
    {
        let ghost n = old(bus).cycles().len() as int;
        let ghost c = *old(self);
        let unindexed = if let AddressingMode::IndirectY = mode {
            let indirect = self.direct_offset(bus);
            let offset = self.read_bank0(bus, indirect);
            Address::new(offset, self.dbr)
        } else {
            self.absolute_address(bus)
        };
        let index = if let AddressingMode::AbsoluteX = mode { self.index_x } else { self.index_y };
        let indexed = unindexed.wrapping_add(index as u32);
        let ghost l2 = bus.cycles();
        proof {
            lemma_offset_of(unindexed);
            lemma_offset_of(indexed);
            assert(unindexed@ == unindexed_addr(mode, c, l2, n));
            assert(indexed@ == decode_addr(mode, c, l2, n));
        }
        if self.detect_penalty_cycle::<WRITE>(unindexed.offset.high_byte(), indexed.offset.high_byte()) {
            bus.add_io_cycles(1);
        }
        proof {
            assert(unindexed_addr(mode, c, l2, n) == unindexed_addr(mode, c, bus.cycles(), n));
            assert(decode_addr(mode, c, l2, n) == decode_addr(mode, c, bus.cycles(), n));
            assert(bus.cycles() =~= old(bus).cycles() + decode_trace(mode, c, WRITE, bus.cycles(), n));
        }
        indexed
    }

    /// The absolute modes and the stack-relative indirect mode.
    #[verifier::spinoff_prover]
    fn decode_other<const WRITE: bool, B: Bus>(&mut self, bus: &mut B, mode: AddressingMode) -> (r: Address)
        requires
            old(bus).inv(),
            decodes(mode), mode != AddressingMode::Indirect, mode != AddressingMode::IndirectX, mode != AddressingMode::IndirectLong, mode != AddressingMode::IndirectLongY, mode != AddressingMode::IndirectY, mode != AddressingMode::AbsoluteX, mode != AddressingMode::AbsoluteY,
        ensures
            final(bus).inv(),
            final(bus).clock() >= old(bus).clock(),
            final(bus).agenda() == old(bus).agenda(),
            final(bus).cycles() == old(bus).cycles() + decode_trace(mode, *old(self), WRITE, final(bus).cycles(), old(bus).cycles().len() as int),
            r@ == decode_addr(mode, *old(self), final(bus).cycles(), old(bus).cycles().len() as int),
            *final(self) == advance(*old(self), decode_len(mode)),
    {
        let ghost n = old(bus).cycles().len() as int;
        let ghost c = *old(self);
        match mode {
            AddressingMode::Absolute => self.absolute_address(bus),
            AddressingMode::AbsoluteLong => self.absolute_long_address(bus),
            AddressingMode::AbsoluteLongX => self.absolute_long_address(bus).wrapping_add(self.index_x as u32),
            AddressingMode::AbsoluteIndirect => {
                let offset = self.get_imm::<u16, B>(bus);
                Address::new(offset, 0)
            },
            AddressingMode::AbsoluteIndirectX => {
                bus.add_io_cycles(1);
                let offset = self.get_imm::<u16, B>(bus).wrapping_add(self.index_x);
                proof {
                    assert(bus.cycles() =~= old(bus).cycles() + decode_trace(mode, c, WRITE, bus.cycles(), n));
                }
                Address::new(offset, self.pbr)
            },
            _ => {
                bus.add_io_cycles(1);
                let indirect = self.stack_relative_address(bus);
                let offset = self.read_bank0(bus, indirect);
                proof {
                    assert(bus.cycles() =~= old(bus).cycles() + decode_trace(mode, c, WRITE, bus.cycles(), n));
                }
                Address::new(offset, self.dbr).wrapping_add(self.index_y as u32)
            },
        }
    }

    /// Fetches the operand of an instruction of `T`'s width for the mode.
    pub fn get_operand<T: RegSize, B: Bus>(&mut self, bus: &mut B, mode: &AddressingMode) -> (r: T)
        requires
            old(bus).inv(),
            has_operand(*mode),
        ensures
            final(bus).inv(),
            final(bus).clock() >= old(bus).clock(),
            final(bus).agenda() == old(bus).agenda(),
            final(bus).cycles() == old(bus).cycles() + operand_trace(*mode, *old(self), T::wide(), final(bus).cycles(), old(bus).cycles().len() as int),
            r.val() == operand_value(*mode, *old(self), T::wide(), final(bus).cycles(), old(bus).cycles().len() as int),
            *final(self) == advance(*old(self), operand_len(*mode, T::wide())),
    {
        let ghost n = old(bus).cycles().len() as int;
        let ghost c = *old(self);
        match mode {
            AddressingMode::Immediate | AddressingMode::Implied | AddressingMode::Relative
            | AddressingMode::RelativeLong | AddressingMode::AbsoluteJMP | AddressingMode::AbsoluteLongJSL
            | AddressingMode::AbsoluteIndirectLong | AddressingMode::BlockMove => self.get_imm(bus),
            AddressingMode::Direct | AddressingMode::DirectX | AddressingMode::DirectY
            | AddressingMode::StackRelative | AddressingMode::StackPEI => self.read_from_direct_page(bus, mode).0,
            _ => self.read_decoded(bus, *mode),
        }
    }

    /// Computes an effective address, then reads the operand there.
    fn read_decoded<T: RegSize, B: Bus>(&mut self, bus: &mut B, mode: AddressingMode) -> (r: T)
        requires
            old(bus).inv(),
            decodes(mode),
        ensures
            final(bus).inv(),
            final(bus).clock() >= old(bus).clock(),
            final(bus).agenda() == old(bus).agenda(),
            final(bus).cycles() == old(bus).cycles() + decode_trace(mode, *old(self), false, final(bus).cycles(), old(bus).cycles().len() as int)
                + data_reads(decode_addr(mode, *old(self), final(bus).cycles(), old(bus).cycles().len() as int), T::wide(), final(bus).cycles(),
                    old(bus).cycles().len() + decode_trace(mode, *old(self), false, final(bus).cycles(), old(bus).cycles().len() as int).len() as int),
            r.val() == data_value(T::wide(), final(bus).cycles(),
                old(bus).cycles().len() + decode_trace(mode, *old(self), false, final(bus).cycles(), old(bus).cycles().len() as int).len() as int),
            *final(self) == advance(*old(self), decode_len(mode)),
    {
        let ghost n = old(bus).cycles().len() as int;
        let ghost c = *old(self);
        let addr = self.decode_addressing_mode::<false, B>(bus, mode);
        let ghost l1 = bus.cycles();
        let r = self.read::<B, T>(bus, addr);
        proof {
            assert(extends(bus.cycles(), l1));
            lemma_decode_frame(mode, c, false, l1, bus.cycles(), n);
            assert(bus.cycles() =~= old(bus).cycles() + decode_trace(mode, c, false, bus.cycles(), n)
                + data_reads(decode_addr(mode, c, bus.cycles(), n), T::wide(), bus.cycles(),
                    n + decode_trace(mode, c, false, bus.cycles(), n).len() as int));
        }
        r
    }

    /// Computes the bank-0 address of a direct-page or stack operand.
    pub fn page_of<B: Bus>(&mut self, bus: &mut B, mode: &AddressingMode) -> (r: u16)
        requires
            old(bus).inv(),
        ensures
            final(bus).inv(),
            final(bus).clock() >= old(bus).clock(),
            final(bus).agenda() == old(bus).agenda(),
            final(bus).cycles() == old(bus).cycles() + page_trace(*mode, *old(self), final(bus).cycles(), old(bus).cycles().len() as int),
            r == page_addr(*mode, *old(self), final(bus).cycles(), old(bus).cycles().len() as int),
            *final(self) == advance(*old(self), 1),
    {
        let ghost n = old(bus).cycles().len() as int;
        let ghost c = *old(self);
        let page = match mode {
            AddressingMode::DirectX => self.direct_page_indexed(bus, self.index_x),
            AddressingMode::DirectY => self.direct_page_indexed(bus, self.index_y),
            AddressingMode::StackRelative => self.stack_relative_address(bus),
            _ => self.direct_offset(bus),
        };
        proof {
            assert(bus.cycles() =~= old(bus).cycles() + page_trace(*mode, c, bus.cycles(), n));
        }
        page
    }

    /// Reads an operand in bank 0 at a direct-page or stack address; returns it with that address.
    pub fn read_from_direct_page<T: RegSize, B: Bus>(&mut self, bus: &mut B, mode: &AddressingMode) -> (r: (T, u16))
        requires
            old(bus).inv(),
        ensures
            final(bus).inv(),
            final(bus).clock() >= old(bus).clock(),
            final(bus).agenda() == old(bus).agenda(),
            final(bus).cycles() == old(bus).cycles() + page_trace(*mode, *old(self), final(bus).cycles(), old(bus).cycles().len() as int)
                + page_reads(r.1 as int, T::wide(), final(bus).cycles(), old(bus).cycles().len() + page_len(*mode, *old(self))),
            r.1 == page_addr(*mode, *old(self), final(bus).cycles(), old(bus).cycles().len() as int),
            r.0.val() == data_value(T::wide(), final(bus).cycles(), old(bus).cycles().len() + page_len(*mode, *old(self))),
            *final(self) == advance(*old(self), 1),
    {
        let ghost n = old(bus).cycles().len() as int;
        let ghost c = *old(self);
        let page = self.page_of(bus, mode);
        let ghost l1 = bus.cycles();
        proof {
            assert(l1.len() == n + page_len(*mode, c));
        }
        let v = if T::is_u16() {
            T::from_u16(self.read_bank0(bus, page))
        } else {
            T::from_u8(bus.read_and_tick(Address::from(page)))
        };
        proof {
            assert(extends(bus.cycles(), l1));
            lemma_page_frame(*mode, c, l1, bus.cycles(), n);
            assert(bus.cycles() =~= old(bus).cycles() + page_trace(*mode, c, bus.cycles(), n)
                + page_reads(page as int, T::wide(), bus.cycles(), n + page_len(*mode, c)));
        }
        (v, page)
    }

    /// S plus an offset byte, after an internal cycle.
    fn stack_relative_address<B: Bus>(&mut self, bus: &mut B) -> (r: u16)
        requires
            old(bus).inv(),
        ensures
            final(bus).inv(),
            final(bus).clock() >= old(bus).clock(),
            final(bus).agenda() == old(bus).agenda(),
            final(bus).cycles() == old(bus).cycles() + seq![BusCycle::Io(1), rd(pc_addr(*old(self), 0), d(final(bus).cycles(), old(bus).cycles().len() as int + 1))],
            r == (old(self).stack_pointer + d(final(bus).cycles(), old(bus).cycles().len() as int + 1)) % 0x1_0000,
            *final(self) == advance(*old(self), 1),
    {
        let ghost n = old(bus).cycles().len() as int;
        bus.add_io_cycles(1);
        let b = self.get_imm::<u8, B>(bus);
        proof {
            assert(bus.cycles() =~= old(bus).cycles() + seq![BusCycle::Io(1), rd(pc_addr(*old(self), 0), d(bus.cycles(), n + 1))]);
        }
        self.stack_pointer.wrapping_add(b as u16)
    }
}

/// The offset and bank of an address are its 24-bit number split at bit 16.
pub proof fn lemma_offset_of(a: Address)
    ensures
        a.offset == a@ % 0x1_0000,
        a.bank == a@ / 0x1_0000,
{
    assert(a@ == a.bank * 0x1_0000 + a.offset);
    vstd::arithmetic::div_mod::lemma_fundamental_div_mod_converse(a@, 0x1_0000, a.bank as int, a.offset as int);
}

/// Converting a 24-bit address to a number and back gives the same address.
pub proof fn lemma_address_round_trip(a: Address)
    ensures
        <Address as FromSpec<u32>>::from_spec(<u32 as FromSpec<Address>>::from_spec(a)) == a,
{
}

} // verus!
