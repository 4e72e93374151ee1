use vstd::prelude::*;

pub mod addressing;
pub mod bcd;
pub mod cpu;
pub mod effects;
pub mod functions;
pub mod instructions;
pub mod regsize;
pub mod trace;

use addressing::{Address, AddressingMode};
use cpu::{Cpu, Vector};
use crate::bus::{Bus, BusCycle};
use trace::extends;
use effects::{decode, decode_0, decode_1, decode_2, decode_3, effect, Instr};

verus! {

/// What the opcode table says of an opcode: its mnemonic and addressing mode.
#[derive(Clone, Copy)]
pub struct Meta {
    pub code: u8,
    pub mnemonic: &'static str,
    pub mode: AddressingMode,
}

impl Meta {
    pub fn new(code: u8, mnemonic: &'static str, mode: AddressingMode) -> (r: Self)
        ensures
            r.code == code,
            r.mnemonic == mnemonic,
            r.mode == mode,
    {
        Self { code, mnemonic, mode }
    }
}

/// One step of the processor, from `c0` with the interrupt lines `nmi` and `irq` and the bus
/// trace `l0`, to `c1` with the trace `l1`: a stopped processor does nothing; a pending
/// interrupt is taken first (its trace is that of the interrupt sequence); a processor waiting
/// for an interrupt, with none pending, keeps waiting; otherwise one opcode is fetched at the
/// program counter and the instruction it decodes to has its effect.
pub open spec fn step_taken(c0: Cpu, nmi: bool, irq: bool, l0: Seq<BusCycle>, c1: Cpu, l1: Seq<BusCycle>) -> bool {
    &&& extends(l1, l0)
    &&& c0.stopped ==> c1 == c0 && l1 == l0
    &&& pending_interrupt(c0, nmi, irq) matches Some(v) ==> {
        let k = l0.len() as int;
        &&& k + cpu::interrupt_len(c0) <= l1.len()
        &&& l1.subrange(k, k + cpu::interrupt_len(c0))
            == cpu::interrupt_trace(Cpu { waiting_interrupt: false, ..c0 }, v, l1, k)
    }
    &&& pending_interrupt(c0, nmi, irq) is None && c0.waiting_interrupt && !c0.status.irq_disable() ==> {
        &&& c1 == c0
        &&& l1 == l0
    }
    &&& runs(c0, pending_interrupt(c0, nmi, irq)) ==> {
        let (ci, j) = fetch_point(c0, pending_interrupt(c0, nmi, irq), l1, l0.len() as int);
        let op = trace::d(l1, j);
        &&& j < l1.len()
        &&& l1[j] == trace::rd(trace::pc_addr(ci, 0), op)
        &&& effect(decode(op).0, decode(op).1, trace::advance(ci, 1), c1, l1.subrange(0, j + 1), l1)
    }
}

/// The W65C816 processor.
pub struct W65C816 {
    pub cpu: Cpu,
}

impl W65C816 {
    pub fn new() -> (r: Self)
        ensures
            r.cpu.accumulator == 0 && r.cpu.index_x == 0 && r.cpu.index_y == 0,
            r.cpu.stack_pointer == 0 && r.cpu.program_counter == 0 && r.cpu.status.0 == 0,
            r.cpu.dpr == 0 && r.cpu.pbr == 0 && r.cpu.dbr == 0,
            r.cpu.emulation_mode && !r.cpu.stopped && !r.cpu.waiting_interrupt,
            r.cpu == Cpu::power_on(),
    {
        Self { cpu: Cpu::new() }
    }

    /// Resets the processor.
    pub fn reset<B: Bus>(&mut self, bus: &mut B)
        requires
            old(bus).inv(),
        ensures
            final(bus).inv(),
            final(bus).clock() >= old(bus).clock(),
            final(bus).agenda() == old(bus).agenda(),
            final(bus).cycles() == old(bus).cycles() + trace::bank0_reads(0xFFFC, final(bus).cycles(), old(bus).cycles().len() as int),
            final(self).cpu == cpu::reset_cpu(old(self).cpu, final(bus).cycles(), old(bus).cycles().len() as int),
            final(bus).board() == old(bus).board(),
    {
        self.cpu.reset(bus);
    }

    /// Runs one instruction, or takes a pending interrupt first. A stopped processor
    /// does nothing; one waiting for an interrupt does nothing until one comes
    /// (or until it finds interrupts disabled).
    pub fn step<B: Bus>(&mut self, bus: &mut B)
        requires
            old(bus).inv(),
        ensures
            final(bus).inv(),
            final(bus).clock() >= old(bus).clock(),
            final(bus).agenda() == old(bus).agenda(),
            step_taken(old(self).cpu, old(bus).nmi_line(), old(bus).irq_line(), old(bus).cycles(),
                final(self).cpu, final(bus).cycles()),
    {
        let ghost n = old(bus).cycles().len() as int;
        let ghost c0 = self.cpu;
        if self.cpu.stopped {
            return;
        }
        let ghost mut taken: Option<Vector> = None;
        let ghost mut li: Seq<BusCycle> = Seq::empty();
        if bus.fired_nmi() {
            self.cpu.waiting_interrupt = false;
            self.cpu.handle_interrupt(bus, Vector::Nmi);
            proof {
                taken = Some(Vector::Nmi);
                li = bus.cycles();
            }
        } else if !self.cpu.status.irq_disable() && bus.fired_irq() {
            self.cpu.waiting_interrupt = false;
            self.cpu.handle_interrupt(bus, Vector::Irq);
            proof {
                taken = Some(Vector::Irq);
                li = bus.cycles();
            }
        } else if self.cpu.waiting_interrupt {
            if self.cpu.status.irq_disable() {
                self.cpu.waiting_interrupt = false;
            } else {
                return;
            }
        }
        proof {
            assert(taken == pending_interrupt(c0, old(bus).nmi_line(), old(bus).irq_line()));
            if let Some(v) = taken {
                assert(li == bus.cycles());
                assert(li.len() == n + cpu::interrupt_len(c0));
            }
        }
        let ghost ci = self.cpu;
        let ghost l1 = bus.cycles();
        let op = self.cpu.get_imm::<u8, B>(bus);
        let ghost l2 = bus.cycles();
        execute(&mut self.cpu, bus, op);
        proof {
            let l = bus.cycles();
            let j = l1.len() as int;
            assert(extends(l2, l1));
            assert(extends(l, old(bus).cycles()));
            assert(extends(l, l1));
            assert(l[j] == l2[j]);
            assert(l.subrange(0, j + 1) =~= l2);
            let c1 = Cpu { waiting_interrupt: false, ..c0 };
            if let Some(v) = taken {
                cpu::lemma_interrupt_frame(c1, v, li, l, n);
                assert(l.subrange(n, n + cpu::interrupt_len(c0)) =~= li.subrange(n, li.len() as int));
                assert(li.subrange(n, li.len() as int) =~= cpu::interrupt_trace(c1, v, li, n));
            }
            assert(fetch_point(c0, taken, l, n) == (ci, j));
        }
    }

    /// The table entry of the opcode at the program counter, read without side effects
    /// (0 where nothing answers at that address).
    pub fn peek_opcode<B: Bus>(&self, bus: &B) -> (r: Meta)
        requires
            bus.inv(),
        ensures
            r.code == match bus.peek_spec(addressing::linear(self.cpu.pbr, self.cpu.program_counter)) {
                Some(v) => v,
                None => 0,
            },
            r.mode == decode(r.code).1 && r.mnemonic == mnemonic(decode(r.code).0),
    {
        let addr = Address::new(self.cpu.program_counter, self.cpu.pbr);
        let op = match bus.peek_at(addr) {
            Some(v) => v,
            None => 0,
        };
        opcode_meta(op)
    }
}

/// The interrupt that a running processor takes before its next instruction: NMI first,
/// then IRQ unless masked.
pub open spec fn pending_interrupt(c: Cpu, nmi: bool, irq: bool) -> Option<Vector> {
    if c.stopped {
        None
    } else if nmi {
        Some(Vector::Nmi)
    } else if irq && !c.status.irq_disable() {
        Some(Vector::Irq)
    } else {
        None
    }
}

/// Whether the processor runs an instruction on a step: it is not stopped, and not
/// waiting for an interrupt that has not come.
pub open spec fn runs(c: Cpu, pending: Option<Vector>) -> bool {
    !c.stopped && !(pending is None && c.waiting_interrupt && !c.status.irq_disable())
}

/// The processor just before the opcode fetch of a step, and the index of that fetch in
/// the bus log `l` whose cycles of the step start at `k`.
pub open spec fn fetch_point(c: Cpu, pending: Option<Vector>, l: Seq<BusCycle>, k: int) -> (Cpu, int) {
    let c1 = Cpu { waiting_interrupt: false, ..c };
    match pending {
        Some(v) => (cpu::interrupt_cpu(c1, v, l, k), k + cpu::interrupt_len(c)),
        None => (c1, k),
    }
}

/// The mnemonic of an instruction, as the opcode table writes it.
pub open spec fn mnemonic(i: Instr) -> &'static str {
    match i {
        Instr::Adc => "ADC",
        Instr::Sbc => "SBC",
        Instr::And => "AND",
        Instr::Ora => "ORA",
        Instr::Eor => "EOR",
        Instr::Lda => "LDA",
        Instr::Ldx => "LDX",
        Instr::Ldy => "LDY",
        Instr::Cmp => "CMP",
        Instr::Cpx => "CPX",
        Instr::Cpy => "CPY",
        Instr::Bit => "BIT",
        Instr::Asl => "ASL",
        Instr::Lsr => "LSR",
        Instr::Rol => "ROL",
        Instr::Ror => "ROR",
        Instr::Dec => "DEC",
        Instr::Inc => "INC",
        Instr::Trb => "TRB",
        Instr::Tsb => "TSB",
        Instr::Sta => "STA",
        Instr::Stx => "STX",
        Instr::Sty => "STY",
        Instr::Stz => "STZ",
        Instr::Bcc => "BCC",
        Instr::Bcs => "BCS",
        Instr::Beq => "BEQ",
        Instr::Bne => "BNE",
        Instr::Bmi => "BMI",
        Instr::Bpl => "BPL",
        Instr::Bvc => "BVC",
        Instr::Bvs => "BVS",
        Instr::Bra => "BRA",
        Instr::Clc => "CLC",
        Instr::Cld => "CLD",
        Instr::Cli => "CLI",
        Instr::Clv => "CLV",
        Instr::Sec => "SEC",
        Instr::Sed => "SED",
        Instr::Sei => "SEI",
        Instr::Dex => "DEX",
        Instr::Dey => "DEY",
        Instr::Inx => "INX",
        Instr::Iny => "INY",
        Instr::Tax => "TAX",
        Instr::Tay => "TAY",
        Instr::Txy => "TXY",
        Instr::Tyx => "TYX",
        Instr::Tsx => "TSX",
        Instr::Txa => "TXA",
        Instr::Tya => "TYA",
        Instr::Tcd => "TCD",
        Instr::Tdc => "TDC",
        Instr::Tsc => "TSC",
        Instr::Tcs => "TCS",
        Instr::Txs => "TXS",
        Instr::Pha => "PHA",
        Instr::Phx => "PHX",
        Instr::Phy => "PHY",
        Instr::Phb => "PHB",
        Instr::Phd => "PHD",
        Instr::Phk => "PHK",
        Instr::Php => "PHP",
        Instr::Pea => "PEA",
        Instr::Pei => "PEI",
        Instr::Per => "PER",
        Instr::Pla => "PLA",
        Instr::Plx => "PLX",
        Instr::Ply => "PLY",
        Instr::Plb => "PLB",
        Instr::Pld => "PLD",
        Instr::Plp => "PLP",
        Instr::Rti => "RTI",
        Instr::Rtl => "RTL",
        Instr::Rts => "RTS",
        Instr::Rep => "REP",
        Instr::Sep => "SEP",
        Instr::Brk => "BRK",
        Instr::Cop => "COP",
        Instr::Brl => "BRL",
        Instr::Jmp => "JMP",
        Instr::Jml => "JML",
        Instr::Jsl => "JSL",
        Instr::Jsr => "JSR",
        Instr::Mvn => "MVN",
        Instr::Mvp => "MVP",
        Instr::Nop => "NOP",
        Instr::Stp => "STP",
        Instr::Wai => "WAI",
        Instr::Wdm => "WDM",
        Instr::Xba => "XBA",
        Instr::Xce => "XCE",
    }
}

/// The opcode table: mnemonic and addressing mode of each opcode.
pub fn opcode_meta(op: u8) -> (r: Meta)
    ensures
        r.code == op,
        r.mode == decode(op).1,
        r.mnemonic == mnemonic(decode(op).0),
{
    if op < 0x40 {
        meta_0(op)
    } else if op < 0x80 {
        meta_1(op)
    } else if op < 0xC0 {
        meta_2(op)
    } else {
        meta_3(op)
    }
}

#[verifier::spinoff_prover]
#[verifier::rlimit(50)]
fn meta_0(op: u8) -> (r: Meta)
    requires
        0 <= op < 64,
    ensures
        r.code == op,
        r.mode == decode_0(op).1,
        r.mnemonic == mnemonic(decode_0(op).0),
{
    match op {
        0x00 => Meta::new(0x00, "BRK", AddressingMode::Immediate),
        0x01 => Meta::new(0x01, "ORA", AddressingMode::IndirectX),
        0x02 => Meta::new(0x02, "COP", AddressingMode::Immediate),
        0x03 => Meta::new(0x03, "ORA", AddressingMode::StackRelative),
        0x04 => Meta::new(0x04, "TSB", AddressingMode::Direct),
        0x05 => Meta::new(0x05, "ORA", AddressingMode::Direct),
        0x06 => Meta::new(0x06, "ASL", AddressingMode::Direct),
        0x07 => Meta::new(0x07, "ORA", AddressingMode::IndirectLong),
        0x08 => Meta::new(0x08, "PHP", AddressingMode::Implied),
        0x09 => Meta::new(0x09, "ORA", AddressingMode::Immediate),
        0x0a => Meta::new(0x0a, "ASL", AddressingMode::Accumulator),
        0x0b => Meta::new(0x0b, "PHD", AddressingMode::Implied),
        0x0c => Meta::new(0x0c, "TSB", AddressingMode::Absolute),
        0x0d => Meta::new(0x0d, "ORA", AddressingMode::Absolute),
        0x0e => Meta::new(0x0e, "ASL", AddressingMode::Absolute),
        0x0f => Meta::new(0x0f, "ORA", AddressingMode::AbsoluteLong),
        0x10 => Meta::new(0x10, "BPL", AddressingMode::Relative),
        0x11 => Meta::new(0x11, "ORA", AddressingMode::IndirectY),
        0x12 => Meta::new(0x12, "ORA", AddressingMode::Indirect),
        0x13 => Meta::new(0x13, "ORA", AddressingMode::StackRelIndirectY),
        0x14 => Meta::new(0x14, "TRB", AddressingMode::Direct),
        0x15 => Meta::new(0x15, "ORA", AddressingMode::DirectX),
        0x16 => Meta::new(0x16, "ASL", AddressingMode::DirectX),
        0x17 => Meta::new(0x17, "ORA", AddressingMode::IndirectLongY),
        0x18 => Meta::new(0x18, "CLC", AddressingMode::Implied),
        0x19 => Meta::new(0x19, "ORA", AddressingMode::AbsoluteY),
        0x1a => Meta::new(0x1a, "INC", AddressingMode::Accumulator),
        0x1b => Meta::new(0x1b, "TCS", AddressingMode::Implied),
        0x1c => Meta::new(0x1c, "TRB", AddressingMode::Absolute),
        0x1d => Meta::new(0x1d, "ORA", AddressingMode::AbsoluteX),
        0x1e => Meta::new(0x1e, "ASL", AddressingMode::AbsoluteX),
        0x1f => Meta::new(0x1f, "ORA", AddressingMode::AbsoluteLongX),
        0x20 => Meta::new(0x20, "JSR", AddressingMode::Absolute),
        0x21 => Meta::new(0x21, "AND", AddressingMode::IndirectX),
        0x22 => Meta::new(0x22, "JSL", AddressingMode::AbsoluteLong),
        0x23 => Meta::new(0x23, "AND", AddressingMode::StackRelative),
        0x24 => Meta::new(0x24, "BIT", AddressingMode::Direct),
        0x25 => Meta::new(0x25, "AND", AddressingMode::Direct),
        0x26 => Meta::new(0x26, "ROL", AddressingMode::Direct),
        0x27 => Meta::new(0x27, "AND", AddressingMode::IndirectLong),
        0x28 => Meta::new(0x28, "PLP", AddressingMode::Implied),
        0x29 => Meta::new(0x29, "AND", AddressingMode::Immediate),
        0x2a => Meta::new(0x2a, "ROL", AddressingMode::Accumulator),
        0x2b => Meta::new(0x2b, "PLD", AddressingMode::Implied),
        0x2c => Meta::new(0x2c, "BIT", AddressingMode::Absolute),
        0x2d => Meta::new(0x2d, "AND", AddressingMode::Absolute),
        0x2e => Meta::new(0x2e, "ROL", AddressingMode::Absolute),
        0x2f => Meta::new(0x2f, "AND", AddressingMode::AbsoluteLong),
        0x30 => Meta::new(0x30, "BMI", AddressingMode::Relative),
        0x31 => Meta::new(0x31, "AND", AddressingMode::IndirectY),
        0x32 => Meta::new(0x32, "AND", AddressingMode::Indirect),
        0x33 => Meta::new(0x33, "AND", AddressingMode::StackRelIndirectY),
        0x34 => Meta::new(0x34, "BIT", AddressingMode::DirectX),
        0x35 => Meta::new(0x35, "AND", AddressingMode::DirectX),
        0x36 => Meta::new(0x36, "ROL", AddressingMode::DirectX),
        0x37 => Meta::new(0x37, "AND", AddressingMode::IndirectLongY),
        0x38 => Meta::new(0x38, "SEC", AddressingMode::Implied),
        0x39 => Meta::new(0x39, "AND", AddressingMode::AbsoluteY),
        0x3a => Meta::new(0x3a, "DEC", AddressingMode::Accumulator),
        0x3b => Meta::new(0x3b, "TSC", AddressingMode::Implied),
        0x3c => Meta::new(0x3c, "BIT", AddressingMode::AbsoluteX),
        0x3d => Meta::new(0x3d, "AND", AddressingMode::AbsoluteX),
        0x3e => Meta::new(0x3e, "ROL", AddressingMode::AbsoluteX),
        _ => Meta::new(0x3f, "AND", AddressingMode::AbsoluteLongX),
    }
}

#[verifier::spinoff_prover]
#[verifier::rlimit(50)]
fn meta_1(op: u8) -> (r: Meta)
    requires
        64 <= op < 128,
    ensures
        r.code == op,
        r.mode == decode_1(op).1,
        r.mnemonic == mnemonic(decode_1(op).0),
{
    match op {
        0x40 => Meta::new(0x40, "RTI", AddressingMode::Implied),
        0x41 => Meta::new(0x41, "EOR", AddressingMode::IndirectX),
        0x42 => Meta::new(0x42, "WDM", AddressingMode::Immediate),
        0x43 => Meta::new(0x43, "EOR", AddressingMode::StackRelative),
        0x44 => Meta::new(0x44, "MVP", AddressingMode::BlockMove),
        0x45 => Meta::new(0x45, "EOR", AddressingMode::Direct),
        0x46 => Meta::new(0x46, "LSR", AddressingMode::Direct),
        0x47 => Meta::new(0x47, "EOR", AddressingMode::IndirectLong),
        0x48 => Meta::new(0x48, "PHA", AddressingMode::Implied),
        0x49 => Meta::new(0x49, "EOR", AddressingMode::Immediate),
        0x4a => Meta::new(0x4a, "LSR", AddressingMode::Accumulator),
        0x4b => Meta::new(0x4b, "PHK", AddressingMode::Implied),
        0x4c => Meta::new(0x4c, "JMP", AddressingMode::Absolute),
        0x4d => Meta::new(0x4d, "EOR", AddressingMode::Absolute),
        0x4e => Meta::new(0x4e, "LSR", AddressingMode::Absolute),
        0x4f => Meta::new(0x4f, "EOR", AddressingMode::AbsoluteLong),
        0x50 => Meta::new(0x50, "BVC", AddressingMode::Relative),
        0x51 => Meta::new(0x51, "EOR", AddressingMode::IndirectY),
        0x52 => Meta::new(0x52, "EOR", AddressingMode::Indirect),
        0x53 => Meta::new(0x53, "EOR", AddressingMode::StackRelIndirectY),
        0x54 => Meta::new(0x54, "MVN", AddressingMode::BlockMove),
        0x55 => Meta::new(0x55, "EOR", AddressingMode::DirectX),
        0x56 => Meta::new(0x56, "LSR", AddressingMode::DirectX),
        0x57 => Meta::new(0x57, "EOR", AddressingMode::IndirectLongY),
        0x58 => Meta::new(0x58, "CLI", AddressingMode::Implied),
        0x59 => Meta::new(0x59, "EOR", AddressingMode::AbsoluteY),
        0x5a => Meta::new(0x5a, "PHY", AddressingMode::Implied),
        0x5b => Meta::new(0x5b, "TCD", AddressingMode::Implied),
        0x5c => Meta::new(0x5c, "JMP", AddressingMode::AbsoluteLong),
        0x5d => Meta::new(0x5d, "EOR", AddressingMode::AbsoluteX),
        0x5e => Meta::new(0x5e, "LSR", AddressingMode::AbsoluteX),
        0x5f => Meta::new(0x5f, "EOR", AddressingMode::AbsoluteLongX),
        0x60 => Meta::new(0x60, "RTS", AddressingMode::Implied),
        0x61 => Meta::new(0x61, "ADC", AddressingMode::IndirectX),
        0x62 => Meta::new(0x62, "PER", AddressingMode::RelativeLong),
        0x63 => Meta::new(0x63, "ADC", AddressingMode::StackRelative),
        0x64 => Meta::new(0x64, "STZ", AddressingMode::Direct),
        0x65 => Meta::new(0x65, "ADC", AddressingMode::Direct),
        0x66 => Meta::new(0x66, "ROR", AddressingMode::Direct),
        0x67 => Meta::new(0x67, "ADC", AddressingMode::IndirectLong),
        0x68 => Meta::new(0x68, "PLA", AddressingMode::Implied),
        0x69 => Meta::new(0x69, "ADC", AddressingMode::Immediate),
        0x6a => Meta::new(0x6a, "ROR", AddressingMode::Accumulator),
        0x6b => Meta::new(0x6b, "RTL", AddressingMode::Implied),
        0x6c => Meta::new(0x6c, "JMP", AddressingMode::AbsoluteIndirect),
        0x6d => Meta::new(0x6d, "ADC", AddressingMode::Absolute),
        0x6e => Meta::new(0x6e, "ROR", AddressingMode::Absolute),
        0x6f => Meta::new(0x6f, "ADC", AddressingMode::AbsoluteLong),
        0x70 => Meta::new(0x70, "BVS", AddressingMode::Relative),
        0x71 => Meta::new(0x71, "ADC", AddressingMode::IndirectY),
        0x72 => Meta::new(0x72, "ADC", AddressingMode::Indirect),
        0x73 => Meta::new(0x73, "ADC", AddressingMode::StackRelIndirectY),
        0x74 => Meta::new(0x74, "STZ", AddressingMode::DirectX),
        0x75 => Meta::new(0x75, "ADC", AddressingMode::DirectX),
        0x76 => Meta::new(0x76, "ROR", AddressingMode::DirectX),
        0x77 => Meta::new(0x77, "ADC", AddressingMode::IndirectLongY),
        0x78 => Meta::new(0x78, "SEI", AddressingMode::Implied),
        0x79 => Meta::new(0x79, "ADC", AddressingMode::AbsoluteY),
        0x7a => Meta::new(0x7a, "PLY", AddressingMode::Implied),
        0x7b => Meta::new(0x7b, "TDC", AddressingMode::Implied),
        0x7c => Meta::new(0x7c, "JMP", AddressingMode::AbsoluteIndirectX),
        0x7d => Meta::new(0x7d, "ADC", AddressingMode::AbsoluteX),
        0x7e => Meta::new(0x7e, "ROR", AddressingMode::AbsoluteX),
        _ => Meta::new(0x7f, "ADC", AddressingMode::AbsoluteLongX),
    }
}

#[verifier::spinoff_prover]
#[verifier::rlimit(50)]
fn meta_2(op: u8) -> (r: Meta)
    requires
        128 <= op < 192,
    ensures
        r.code == op,
        r.mode == decode_2(op).1,
        r.mnemonic == mnemonic(decode_2(op).0),
{
    match op {
        0x80 => Meta::new(0x80, "BRA", AddressingMode::Relative),
        0x81 => Meta::new(0x81, "STA", AddressingMode::IndirectX),
        0x82 => Meta::new(0x82, "BRL", AddressingMode::RelativeLong),
        0x83 => Meta::new(0x83, "STA", AddressingMode::StackRelative),
        0x84 => Meta::new(0x84, "STY", AddressingMode::Direct),
        0x85 => Meta::new(0x85, "STA", AddressingMode::Direct),
        0x86 => Meta::new(0x86, "STX", AddressingMode::Direct),
        0x87 => Meta::new(0x87, "STA", AddressingMode::IndirectLong),
        0x88 => Meta::new(0x88, "DEY", AddressingMode::Implied),
        0x89 => Meta::new(0x89, "BIT", AddressingMode::Immediate),
        0x8a => Meta::new(0x8a, "TXA", AddressingMode::Implied),
        0x8b => Meta::new(0x8b, "PHB", AddressingMode::Implied),
        0x8c => Meta::new(0x8c, "STY", AddressingMode::Absolute),
        0x8d => Meta::new(0x8d, "STA", AddressingMode::Absolute),
        0x8e => Meta::new(0x8e, "STX", AddressingMode::Absolute),
        0x8f => Meta::new(0x8f, "STA", AddressingMode::AbsoluteLong),
        0x90 => Meta::new(0x90, "BCC", AddressingMode::Relative),
        0x91 => Meta::new(0x91, "STA", AddressingMode::IndirectY),
        0x92 => Meta::new(0x92, "STA", AddressingMode::Indirect),
        0x93 => Meta::new(0x93, "STA", AddressingMode::StackRelIndirectY),
        0x94 => Meta::new(0x94, "STY", AddressingMode::DirectX),
        0x95 => Meta::new(0x95, "STA", AddressingMode::DirectX),
        0x96 => Meta::new(0x96, "STX", AddressingMode::DirectY),
        0x97 => Meta::new(0x97, "STA", AddressingMode::IndirectLongY),
        0x98 => Meta::new(0x98, "TYA", AddressingMode::Implied),
        0x99 => Meta::new(0x99, "STA", AddressingMode::AbsoluteY),
        0x9a => Meta::new(0x9a, "TXS", AddressingMode::Implied),
        0x9b => Meta::new(0x9b, "TXY", AddressingMode::Implied),
        0x9c => Meta::new(0x9c, "STZ", AddressingMode::Absolute),
        0x9d => Meta::new(0x9d, "STA", AddressingMode::AbsoluteX),
        0x9e => Meta::new(0x9e, "STZ", AddressingMode::AbsoluteX),
        0x9f => Meta::new(0x9f, "STA", AddressingMode::AbsoluteLongX),
        0xa0 => Meta::new(0xa0, "LDY", AddressingMode::Immediate),
        0xa1 => Meta::new(0xa1, "LDA", AddressingMode::IndirectX),
        0xa2 => Meta::new(0xa2, "LDX", AddressingMode::Immediate),
        0xa3 => Meta::new(0xa3, "LDA", AddressingMode::StackRelative),
        0xa4 => Meta::new(0xa4, "LDY", AddressingMode::Direct),
        0xa5 => Meta::new(0xa5, "LDA", AddressingMode::Direct),
        0xa6 => Meta::new(0xa6, "LDX", AddressingMode::Direct),
        0xa7 => Meta::new(0xa7, "LDA", AddressingMode::IndirectLong),
        0xa8 => Meta::new(0xa8, "TAY", AddressingMode::Implied),
        0xa9 => Meta::new(0xa9, "LDA", AddressingMode::Immediate),
        0xaa => Meta::new(0xaa, "TAX", AddressingMode::Implied),
        0xab => Meta::new(0xab, "PLB", AddressingMode::Implied),
        0xac => Meta::new(0xac, "LDY", AddressingMode::Absolute),
        0xad => Meta::new(0xad, "LDA", AddressingMode::Absolute),
        0xae => Meta::new(0xae, "LDX", AddressingMode::Absolute),
        0xaf => Meta::new(0xaf, "LDA", AddressingMode::AbsoluteLong),
        0xb0 => Meta::new(0xb0, "BCS", AddressingMode::Relative),
        0xb1 => Meta::new(0xb1, "LDA", AddressingMode::IndirectY),
        0xb2 => Meta::new(0xb2, "LDA", AddressingMode::Indirect),
        0xb3 => Meta::new(0xb3, "LDA", AddressingMode::StackRelIndirectY),
        0xb4 => Meta::new(0xb4, "LDY", AddressingMode::DirectX),
        0xb5 => Meta::new(0xb5, "LDA", AddressingMode::DirectX),
        0xb6 => Meta::new(0xb6, "LDX", AddressingMode::DirectY),
        0xb7 => Meta::new(0xb7, "LDA", AddressingMode::IndirectLongY),
        0xb8 => Meta::new(0xb8, "CLV", AddressingMode::Implied),
        0xb9 => Meta::new(0xb9, "LDA", AddressingMode::AbsoluteY),
        0xba => Meta::new(0xba, "TSX", AddressingMode::Implied),
        0xbb => Meta::new(0xbb, "TYX", AddressingMode::Implied),
        0xbc => Meta::new(0xbc, "LDY", AddressingMode::AbsoluteX),
        0xbd => Meta::new(0xbd, "LDA", AddressingMode::AbsoluteX),
        0xbe => Meta::new(0xbe, "LDX", AddressingMode::AbsoluteY),
        _ => Meta::new(0xbf, "LDA", AddressingMode::AbsoluteLongX),
    }
}

#[verifier::spinoff_prover]
#[verifier::rlimit(50)]
fn meta_3(op: u8) -> (r: Meta)
    requires
        192 <= op < 256,
    ensures
        r.code == op,
        r.mode == decode_3(op).1,
        r.mnemonic == mnemonic(decode_3(op).0),
{
    match op {
        0xc0 => Meta::new(0xc0, "CPY", AddressingMode::Immediate),
        0xc1 => Meta::new(0xc1, "CMP", AddressingMode::IndirectX),
        0xc2 => Meta::new(0xc2, "REP", AddressingMode::Immediate),
        0xc3 => Meta::new(0xc3, "CMP", AddressingMode::StackRelative),
        0xc4 => Meta::new(0xc4, "CPY", AddressingMode::Direct),
        0xc5 => Meta::new(0xc5, "CMP", AddressingMode::Direct),
        0xc6 => Meta::new(0xc6, "DEC", AddressingMode::Direct),
        0xc7 => Meta::new(0xc7, "CMP", AddressingMode::IndirectLong),
        0xc8 => Meta::new(0xc8, "INY", AddressingMode::Implied),
        0xc9 => Meta::new(0xc9, "CMP", AddressingMode::Immediate),
        0xca => Meta::new(0xca, "DEX", AddressingMode::Implied),
        0xcb => Meta::new(0xcb, "WAI", AddressingMode::Implied),
        0xcc => Meta::new(0xcc, "CPY", AddressingMode::Absolute),
        0xcd => Meta::new(0xcd, "CMP", AddressingMode::Absolute),
        0xce => Meta::new(0xce, "DEC", AddressingMode::Absolute),
        0xcf => Meta::new(0xcf, "CMP", AddressingMode::AbsoluteLong),
        0xd0 => Meta::new(0xd0, "BNE", AddressingMode::Relative),
        0xd1 => Meta::new(0xd1, "CMP", AddressingMode::IndirectY),
        0xd2 => Meta::new(0xd2, "CMP", AddressingMode::Indirect),
        0xd3 => Meta::new(0xd3, "CMP", AddressingMode::StackRelIndirectY),
        0xd4 => Meta::new(0xd4, "PEI", AddressingMode::Direct),
        0xd5 => Meta::new(0xd5, "CMP", AddressingMode::DirectX),
        0xd6 => Meta::new(0xd6, "DEC", AddressingMode::DirectX),
        0xd7 => Meta::new(0xd7, "CMP", AddressingMode::IndirectLongY),
        0xd8 => Meta::new(0xd8, "CLD", AddressingMode::Implied),
        0xd9 => Meta::new(0xd9, "CMP", AddressingMode::AbsoluteY),
        0xda => Meta::new(0xda, "PHX", AddressingMode::Implied),
        0xdb => Meta::new(0xdb, "STP", AddressingMode::Implied),
        0xdc => Meta::new(0xdc, "JML", AddressingMode::AbsoluteIndirectLong),
        0xdd => Meta::new(0xdd, "CMP", AddressingMode::AbsoluteX),
        0xde => Meta::new(0xde, "DEC", AddressingMode::AbsoluteX),
        0xdf => Meta::new(0xdf, "CMP", AddressingMode::AbsoluteLongX),
        0xe0 => Meta::new(0xe0, "CPX", AddressingMode::Immediate),
        0xe1 => Meta::new(0xe1, "SBC", AddressingMode::IndirectX),
        0xe2 => Meta::new(0xe2, "SEP", AddressingMode::Immediate),
        0xe3 => Meta::new(0xe3, "SBC", AddressingMode::StackRelative),
        0xe4 => Meta::new(0xe4, "CPX", AddressingMode::Direct),
        0xe5 => Meta::new(0xe5, "SBC", AddressingMode::Direct),
        0xe6 => Meta::new(0xe6, "INC", AddressingMode::Direct),
        0xe7 => Meta::new(0xe7, "SBC", AddressingMode::IndirectLong),
        0xe8 => Meta::new(0xe8, "INX", AddressingMode::Implied),
        0xe9 => Meta::new(0xe9, "SBC", AddressingMode::Immediate),
        0xea => Meta::new(0xea, "NOP", AddressingMode::Implied),
        0xeb => Meta::new(0xeb, "XBA", AddressingMode::Implied),
        0xec => Meta::new(0xec, "CPX", AddressingMode::Absolute),
        0xed => Meta::new(0xed, "SBC", AddressingMode::Absolute),
        0xee => Meta::new(0xee, "INC", AddressingMode::Absolute),
        0xef => Meta::new(0xef, "SBC", AddressingMode::AbsoluteLong),
        0xf0 => Meta::new(0xf0, "BEQ", AddressingMode::Relative),
        0xf1 => Meta::new(0xf1, "SBC", AddressingMode::IndirectY),
        0xf2 => Meta::new(0xf2, "SBC", AddressingMode::Indirect),
        0xf3 => Meta::new(0xf3, "SBC", AddressingMode::StackRelIndirectY),
        0xf4 => Meta::new(0xf4, "PEA", AddressingMode::Immediate),
        0xf5 => Meta::new(0xf5, "SBC", AddressingMode::DirectX),
        0xf6 => Meta::new(0xf6, "INC", AddressingMode::DirectX),
        0xf7 => Meta::new(0xf7, "SBC", AddressingMode::IndirectLongY),
        0xf8 => Meta::new(0xf8, "SED", AddressingMode::Implied),
        0xf9 => Meta::new(0xf9, "SBC", AddressingMode::AbsoluteY),
        0xfa => Meta::new(0xfa, "PLX", AddressingMode::Implied),
        0xfb => Meta::new(0xfb, "XCE", AddressingMode::Implied),
        0xfc => Meta::new(0xfc, "JSR", AddressingMode::AbsoluteIndirectX),
        0xfd => Meta::new(0xfd, "SBC", AddressingMode::AbsoluteX),
        0xfe => Meta::new(0xfe, "INC", AddressingMode::AbsoluteX),
        _ => Meta::new(0xff, "SBC", AddressingMode::AbsoluteLongX),
    }
}

/// Runs the instruction of an opcode whose first byte has been fetched.
pub fn execute<B: Bus>(cpu: &mut Cpu, bus: &mut B, op: u8)
    requires
        old(bus).inv(),
    ensures
        final(bus).inv(),
        final(bus).clock() >= old(bus).clock(),
        final(bus).agenda() == old(bus).agenda(),
        extends(final(bus).cycles(), old(bus).cycles()),
        effect(decode(op).0, decode(op).1, *old(cpu), *final(cpu), old(bus).cycles(), final(bus).cycles()),
{
    if op < 32 {
        execute_0(cpu, bus, op);
    } else if op < 64 {
        execute_1(cpu, bus, op);
    } else if op < 96 {
        execute_2(cpu, bus, op);
    } else if op < 128 {
        execute_3(cpu, bus, op);
    } else if op < 160 {
        execute_4(cpu, bus, op);
    } else if op < 192 {
        execute_5(cpu, bus, op);
    } else if op < 224 {
        execute_6(cpu, bus, op);
    } else {
        execute_7(cpu, bus, op);
    }
}

#[verifier::spinoff_prover]
fn execute_0<B: Bus>(cpu: &mut Cpu, bus: &mut B, op: u8)
    requires
        old(bus).inv(),
        0 <= op < 32,
    ensures
        final(bus).inv(),
        final(bus).clock() >= old(bus).clock(),
        final(bus).agenda() == old(bus).agenda(),
        extends(final(bus).cycles(), old(bus).cycles()),
        effect(decode(op).0, decode(op).1, *old(cpu), *final(cpu), old(bus).cycles(), final(bus).cycles()),
{
    match op {
        0x00 => W65C816::brk(cpu, bus, AddressingMode::Immediate),
        0x01 => W65C816::ora(cpu, bus, AddressingMode::IndirectX),
        0x02 => W65C816::cop(cpu, bus, AddressingMode::Immediate),
        0x03 => W65C816::ora(cpu, bus, AddressingMode::StackRelative),
        0x04 => W65C816::tsb(cpu, bus, AddressingMode::Direct),
        0x05 => W65C816::ora(cpu, bus, AddressingMode::Direct),
        0x06 => W65C816::asl(cpu, bus, AddressingMode::Direct),
        0x07 => W65C816::ora(cpu, bus, AddressingMode::IndirectLong),
        0x08 => W65C816::php(cpu, bus, AddressingMode::Implied),
        0x09 => W65C816::ora(cpu, bus, AddressingMode::Immediate),
        0x0a => W65C816::asl(cpu, bus, AddressingMode::Accumulator),
        0x0b => W65C816::phd(cpu, bus, AddressingMode::Implied),
        0x0c => W65C816::tsb(cpu, bus, AddressingMode::Absolute),
        0x0d => W65C816::ora(cpu, bus, AddressingMode::Absolute),
        0x0e => W65C816::asl(cpu, bus, AddressingMode::Absolute),
        0x0f => W65C816::ora(cpu, bus, AddressingMode::AbsoluteLong),
        0x10 => W65C816::bpl(cpu, bus, AddressingMode::Relative),
        0x11 => W65C816::ora(cpu, bus, AddressingMode::IndirectY),
        0x12 => W65C816::ora(cpu, bus, AddressingMode::Indirect),
        0x13 => W65C816::ora(cpu, bus, AddressingMode::StackRelIndirectY),
        0x14 => W65C816::trb(cpu, bus, AddressingMode::Direct),
        0x15 => W65C816::ora(cpu, bus, AddressingMode::DirectX),
        0x16 => W65C816::asl(cpu, bus, AddressingMode::DirectX),
        0x17 => W65C816::ora(cpu, bus, AddressingMode::IndirectLongY),
        0x18 => W65C816::clc(cpu, bus, AddressingMode::Implied),
        0x19 => W65C816::ora(cpu, bus, AddressingMode::AbsoluteY),
        0x1a => W65C816::inc(cpu, bus, AddressingMode::Accumulator),
        0x1b => W65C816::tcs(cpu, bus, AddressingMode::Implied),
        0x1c => W65C816::trb(cpu, bus, AddressingMode::Absolute),
        0x1d => W65C816::ora(cpu, bus, AddressingMode::AbsoluteX),
        0x1e => W65C816::asl(cpu, bus, AddressingMode::AbsoluteX),
        _ => W65C816::ora(cpu, bus, AddressingMode::AbsoluteLongX),
    }
}

#[verifier::spinoff_prover]
fn execute_1<B: Bus>(cpu: &mut Cpu, bus: &mut B, op: u8)
    requires
        old(bus).inv(),
        32 <= op < 64,
    ensures
        final(bus).inv(),
        final(bus).clock() >= old(bus).clock(),
        final(bus).agenda() == old(bus).agenda(),
        extends(final(bus).cycles(), old(bus).cycles()),
        effect(decode(op).0, decode(op).1, *old(cpu), *final(cpu), old(bus).cycles(), final(bus).cycles()),
{
    match op {
        0x20 => W65C816::jsr(cpu, bus, AddressingMode::Absolute),
        0x21 => W65C816::and(cpu, bus, AddressingMode::IndirectX),
        0x22 => W65C816::jsl(cpu, bus, AddressingMode::AbsoluteLong),
        0x23 => W65C816::and(cpu, bus, AddressingMode::StackRelative),
        0x24 => W65C816::bit(cpu, bus, AddressingMode::Direct),
        0x25 => W65C816::and(cpu, bus, AddressingMode::Direct),
        0x26 => W65C816::rol(cpu, bus, AddressingMode::Direct),
        0x27 => W65C816::and(cpu, bus, AddressingMode::IndirectLong),
        0x28 => W65C816::plp(cpu, bus, AddressingMode::Implied),
        0x29 => W65C816::and(cpu, bus, AddressingMode::Immediate),
        0x2a => W65C816::rol(cpu, bus, AddressingMode::Accumulator),
        0x2b => W65C816::pld(cpu, bus, AddressingMode::Implied),
        0x2c => W65C816::bit(cpu, bus, AddressingMode::Absolute),
        0x2d => W65C816::and(cpu, bus, AddressingMode::Absolute),
        0x2e => W65C816::rol(cpu, bus, AddressingMode::Absolute),
        0x2f => W65C816::and(cpu, bus, AddressingMode::AbsoluteLong),
        0x30 => W65C816::bmi(cpu, bus, AddressingMode::Relative),
        0x31 => W65C816::and(cpu, bus, AddressingMode::IndirectY),
        0x32 => W65C816::and(cpu, bus, AddressingMode::Indirect),
        0x33 => W65C816::and(cpu, bus, AddressingMode::StackRelIndirectY),
        0x34 => W65C816::bit(cpu, bus, AddressingMode::DirectX),
        0x35 => W65C816::and(cpu, bus, AddressingMode::DirectX),
        0x36 => W65C816::rol(cpu, bus, AddressingMode::DirectX),
        0x37 => W65C816::and(cpu, bus, AddressingMode::IndirectLongY),
        0x38 => W65C816::sec(cpu, bus, AddressingMode::Implied),
        0x39 => W65C816::and(cpu, bus, AddressingMode::AbsoluteY),
        0x3a => W65C816::dec(cpu, bus, AddressingMode::Accumulator),
        0x3b => W65C816::tsc(cpu, bus, AddressingMode::Implied),
        0x3c => W65C816::bit(cpu, bus, AddressingMode::AbsoluteX),
        0x3d => W65C816::and(cpu, bus, AddressingMode::AbsoluteX),
        0x3e => W65C816::rol(cpu, bus, AddressingMode::AbsoluteX),
        _ => W65C816::and(cpu, bus, AddressingMode::AbsoluteLongX),
    }
}

#[verifier::spinoff_prover]
fn execute_2<B: Bus>(cpu: &mut Cpu, bus: &mut B, op: u8)
    requires
        old(bus).inv(),
        64 <= op < 96,
    ensures
        final(bus).inv(),
        final(bus).clock() >= old(bus).clock(),
        final(bus).agenda() == old(bus).agenda(),
        extends(final(bus).cycles(), old(bus).cycles()),
        effect(decode(op).0, decode(op).1, *old(cpu), *final(cpu), old(bus).cycles(), final(bus).cycles()),
{
    match op {
        0x40 => W65C816::rti(cpu, bus, AddressingMode::Implied),
        0x41 => W65C816::eor(cpu, bus, AddressingMode::IndirectX),
        0x42 => W65C816::wdm(cpu, bus, AddressingMode::Immediate),
        0x43 => W65C816::eor(cpu, bus, AddressingMode::StackRelative),
        0x44 => W65C816::mvp(cpu, bus, AddressingMode::BlockMove),
        0x45 => W65C816::eor(cpu, bus, AddressingMode::Direct),
        0x46 => W65C816::lsr(cpu, bus, AddressingMode::Direct),
        0x47 => W65C816::eor(cpu, bus, AddressingMode::IndirectLong),
        0x48 => W65C816::pha(cpu, bus, AddressingMode::Implied),
        0x49 => W65C816::eor(cpu, bus, AddressingMode::Immediate),
        0x4a => W65C816::lsr(cpu, bus, AddressingMode::Accumulator),
        0x4b => W65C816::phk(cpu, bus, AddressingMode::Implied),
        0x4c => W65C816::jmp(cpu, bus, AddressingMode::Absolute),
        0x4d => W65C816::eor(cpu, bus, AddressingMode::Absolute),
        0x4e => W65C816::lsr(cpu, bus, AddressingMode::Absolute),
        0x4f => W65C816::eor(cpu, bus, AddressingMode::AbsoluteLong),
        0x50 => W65C816::bvc(cpu, bus, AddressingMode::Relative),
        0x51 => W65C816::eor(cpu, bus, AddressingMode::IndirectY),
        0x52 => W65C816::eor(cpu, bus, AddressingMode::Indirect),
        0x53 => W65C816::eor(cpu, bus, AddressingMode::StackRelIndirectY),
        0x54 => W65C816::mvn(cpu, bus, AddressingMode::BlockMove),
        0x55 => W65C816::eor(cpu, bus, AddressingMode::DirectX),
        0x56 => W65C816::lsr(cpu, bus, AddressingMode::DirectX),
        0x57 => W65C816::eor(cpu, bus, AddressingMode::IndirectLongY),
        0x58 => W65C816::cli(cpu, bus, AddressingMode::Implied),
        0x59 => W65C816::eor(cpu, bus, AddressingMode::AbsoluteY),
        0x5a => W65C816::phy(cpu, bus, AddressingMode::Implied),
        0x5b => W65C816::tcd(cpu, bus, AddressingMode::Implied),
        0x5c => W65C816::jmp(cpu, bus, AddressingMode::AbsoluteLong),
        0x5d => W65C816::eor(cpu, bus, AddressingMode::AbsoluteX),
        0x5e => W65C816::lsr(cpu, bus, AddressingMode::AbsoluteX),
        _ => W65C816::eor(cpu, bus, AddressingMode::AbsoluteLongX),
    }
}

#[verifier::spinoff_prover]
fn execute_3<B: Bus>(cpu: &mut Cpu, bus: &mut B, op: u8)
    requires
        old(bus).inv(),
        96 <= op < 128,
    ensures
        final(bus).inv(),
        final(bus).clock() >= old(bus).clock(),
        final(bus).agenda() == old(bus).agenda(),
        extends(final(bus).cycles(), old(bus).cycles()),
        effect(decode(op).0, decode(op).1, *old(cpu), *final(cpu), old(bus).cycles(), final(bus).cycles()),
{
    match op {
        0x60 => W65C816::rts(cpu, bus, AddressingMode::Implied),
        0x61 => W65C816::adc(cpu, bus, AddressingMode::IndirectX),
        0x62 => W65C816::per(cpu, bus, AddressingMode::RelativeLong),
        0x63 => W65C816::adc(cpu, bus, AddressingMode::StackRelative),
        0x64 => W65C816::stz(cpu, bus, AddressingMode::Direct),
        0x65 => W65C816::adc(cpu, bus, AddressingMode::Direct),
        0x66 => W65C816::ror(cpu, bus, AddressingMode::Direct),
        0x67 => W65C816::adc(cpu, bus, AddressingMode::IndirectLong),
        0x68 => W65C816::pla(cpu, bus, AddressingMode::Implied),
        0x69 => W65C816::adc(cpu, bus, AddressingMode::Immediate),
        0x6a => W65C816::ror(cpu, bus, AddressingMode::Accumulator),
        0x6b => W65C816::rtl(cpu, bus, AddressingMode::Implied),
        0x6c => W65C816::jmp(cpu, bus, AddressingMode::AbsoluteIndirect),
        0x6d => W65C816::adc(cpu, bus, AddressingMode::Absolute),
        0x6e => W65C816::ror(cpu, bus, AddressingMode::Absolute),
        0x6f => W65C816::adc(cpu, bus, AddressingMode::AbsoluteLong),
        0x70 => W65C816::bvs(cpu, bus, AddressingMode::Relative),
        0x71 => W65C816::adc(cpu, bus, AddressingMode::IndirectY),
        0x72 => W65C816::adc(cpu, bus, AddressingMode::Indirect),
        0x73 => W65C816::adc(cpu, bus, AddressingMode::StackRelIndirectY),
        0x74 => W65C816::stz(cpu, bus, AddressingMode::DirectX),
        0x75 => W65C816::adc(cpu, bus, AddressingMode::DirectX),
        0x76 => W65C816::ror(cpu, bus, AddressingMode::DirectX),
        0x77 => W65C816::adc(cpu, bus, AddressingMode::IndirectLongY),
        0x78 => W65C816::sei(cpu, bus, AddressingMode::Implied),
        0x79 => W65C816::adc(cpu, bus, AddressingMode::AbsoluteY),
        0x7a => W65C816::ply(cpu, bus, AddressingMode::Implied),
        0x7b => W65C816::tdc(cpu, bus, AddressingMode::Implied),
        0x7c => W65C816::jmp(cpu, bus, AddressingMode::AbsoluteIndirectX),
        0x7d => W65C816::adc(cpu, bus, AddressingMode::AbsoluteX),
        0x7e => W65C816::ror(cpu, bus, AddressingMode::AbsoluteX),
        _ => W65C816::adc(cpu, bus, AddressingMode::AbsoluteLongX),
    }
}

#[verifier::spinoff_prover]
fn execute_4<B: Bus>(cpu: &mut Cpu, bus: &mut B, op: u8)
    requires
        old(bus).inv(),
        128 <= op < 160,
    ensures
        final(bus).inv(),
        final(bus).clock() >= old(bus).clock(),
        final(bus).agenda() == old(bus).agenda(),
        extends(final(bus).cycles(), old(bus).cycles()),
        effect(decode(op).0, decode(op).1, *old(cpu), *final(cpu), old(bus).cycles(), final(bus).cycles()),
{
    match op {
        0x80 => W65C816::bra(cpu, bus, AddressingMode::Relative),
        0x81 => W65C816::sta(cpu, bus, AddressingMode::IndirectX),
        0x82 => W65C816::brl(cpu, bus, AddressingMode::RelativeLong),
        0x83 => W65C816::sta(cpu, bus, AddressingMode::StackRelative),
        0x84 => W65C816::sty(cpu, bus, AddressingMode::Direct),
        0x85 => W65C816::sta(cpu, bus, AddressingMode::Direct),
        0x86 => W65C816::stx(cpu, bus, AddressingMode::Direct),
        0x87 => W65C816::sta(cpu, bus, AddressingMode::IndirectLong),
        0x88 => W65C816::dey(cpu, bus, AddressingMode::Implied),
        0x89 => W65C816::bit(cpu, bus, AddressingMode::Immediate),
        0x8a => W65C816::txa(cpu, bus, AddressingMode::Implied),
        0x8b => W65C816::phb(cpu, bus, AddressingMode::Implied),
        0x8c => W65C816::sty(cpu, bus, AddressingMode::Absolute),
        0x8d => W65C816::sta(cpu, bus, AddressingMode::Absolute),
        0x8e => W65C816::stx(cpu, bus, AddressingMode::Absolute),
        0x8f => W65C816::sta(cpu, bus, AddressingMode::AbsoluteLong),
        0x90 => W65C816::bcc(cpu, bus, AddressingMode::Relative),
        0x91 => W65C816::sta(cpu, bus, AddressingMode::IndirectY),
        0x92 => W65C816::sta(cpu, bus, AddressingMode::Indirect),
        0x93 => W65C816::sta(cpu, bus, AddressingMode::StackRelIndirectY),
        0x94 => W65C816::sty(cpu, bus, AddressingMode::DirectX),
        0x95 => W65C816::sta(cpu, bus, AddressingMode::DirectX),
        0x96 => W65C816::stx(cpu, bus, AddressingMode::DirectY),
        0x97 => W65C816::sta(cpu, bus, AddressingMode::IndirectLongY),
        0x98 => W65C816::tya(cpu, bus, AddressingMode::Implied),
        0x99 => W65C816::sta(cpu, bus, AddressingMode::AbsoluteY),
        0x9a => W65C816::txs(cpu, bus, AddressingMode::Implied),
        0x9b => W65C816::txy(cpu, bus, AddressingMode::Implied),
        0x9c => W65C816::stz(cpu, bus, AddressingMode::Absolute),
        0x9d => W65C816::sta(cpu, bus, AddressingMode::AbsoluteX),
        0x9e => W65C816::stz(cpu, bus, AddressingMode::AbsoluteX),
        _ => W65C816::sta(cpu, bus, AddressingMode::AbsoluteLongX),
    }
}

#[verifier::spinoff_prover]
fn execute_5<B: Bus>(cpu: &mut Cpu, bus: &mut B, op: u8)
    requires
        old(bus).inv(),
        160 <= op < 192,
    ensures
        final(bus).inv(),
        final(bus).clock() >= old(bus).clock(),
        final(bus).agenda() == old(bus).agenda(),
        extends(final(bus).cycles(), old(bus).cycles()),
        effect(decode(op).0, decode(op).1, *old(cpu), *final(cpu), old(bus).cycles(), final(bus).cycles()),
{
    match op {
        0xa0 => W65C816::ldy(cpu, bus, AddressingMode::Immediate),
        0xa1 => W65C816::lda(cpu, bus, AddressingMode::IndirectX),
        0xa2 => W65C816::ldx(cpu, bus, AddressingMode::Immediate),
        0xa3 => W65C816::lda(cpu, bus, AddressingMode::StackRelative),
        0xa4 => W65C816::ldy(cpu, bus, AddressingMode::Direct),
        0xa5 => W65C816::lda(cpu, bus, AddressingMode::Direct),
        0xa6 => W65C816::ldx(cpu, bus, AddressingMode::Direct),
        0xa7 => W65C816::lda(cpu, bus, AddressingMode::IndirectLong),
        0xa8 => W65C816::tay(cpu, bus, AddressingMode::Implied),
        0xa9 => W65C816::lda(cpu, bus, AddressingMode::Immediate),
        0xaa => W65C816::tax(cpu, bus, AddressingMode::Implied),
        0xab => W65C816::plb(cpu, bus, AddressingMode::Implied),
        0xac => W65C816::ldy(cpu, bus, AddressingMode::Absolute),
        0xad => W65C816::lda(cpu, bus, AddressingMode::Absolute),
        0xae => W65C816::ldx(cpu, bus, AddressingMode::Absolute),
        0xaf => W65C816::lda(cpu, bus, AddressingMode::AbsoluteLong),
        0xb0 => W65C816::bcs(cpu, bus, AddressingMode::Relative),
        0xb1 => W65C816::lda(cpu, bus, AddressingMode::IndirectY),
        0xb2 => W65C816::lda(cpu, bus, AddressingMode::Indirect),
        0xb3 => W65C816::lda(cpu, bus, AddressingMode::StackRelIndirectY),
        0xb4 => W65C816::ldy(cpu, bus, AddressingMode::DirectX),
        0xb5 => W65C816::lda(cpu, bus, AddressingMode::DirectX),
        0xb6 => W65C816::ldx(cpu, bus, AddressingMode::DirectY),
        0xb7 => W65C816::lda(cpu, bus, AddressingMode::IndirectLongY),
        0xb8 => W65C816::clv(cpu, bus, AddressingMode::Implied),
        0xb9 => W65C816::lda(cpu, bus, AddressingMode::AbsoluteY),
        0xba => W65C816::tsx(cpu, bus, AddressingMode::Implied),
        0xbb => W65C816::tyx(cpu, bus, AddressingMode::Implied),
        0xbc => W65C816::ldy(cpu, bus, AddressingMode::AbsoluteX),
        0xbd => W65C816::lda(cpu, bus, AddressingMode::AbsoluteX),
        0xbe => W65C816::ldx(cpu, bus, AddressingMode::AbsoluteY),
        _ => W65C816::lda(cpu, bus, AddressingMode::AbsoluteLongX),
    }
}

#[verifier::spinoff_prover]
fn execute_6<B: Bus>(cpu: &mut Cpu, bus: &mut B, op: u8)
    requires
        old(bus).inv(),
        192 <= op < 224,
    ensures
        final(bus).inv(),
        final(bus).clock() >= old(bus).clock(),
        final(bus).agenda() == old(bus).agenda(),
        extends(final(bus).cycles(), old(bus).cycles()),
        effect(decode(op).0, decode(op).1, *old(cpu), *final(cpu), old(bus).cycles(), final(bus).cycles()),
{
    match op {
        0xc0 => W65C816::cpy(cpu, bus, AddressingMode::Immediate),
        0xc1 => W65C816::cmp(cpu, bus, AddressingMode::IndirectX),
        0xc2 => W65C816::rep(cpu, bus, AddressingMode::Immediate),
        0xc3 => W65C816::cmp(cpu, bus, AddressingMode::StackRelative),
        0xc4 => W65C816::cpy(cpu, bus, AddressingMode::Direct),
        0xc5 => W65C816::cmp(cpu, bus, AddressingMode::Direct),
        0xc6 => W65C816::dec(cpu, bus, AddressingMode::Direct),
        0xc7 => W65C816::cmp(cpu, bus, AddressingMode::IndirectLong),
        0xc8 => W65C816::iny(cpu, bus, AddressingMode::Implied),
        0xc9 => W65C816::cmp(cpu, bus, AddressingMode::Immediate),
        0xca => W65C816::dex(cpu, bus, AddressingMode::Implied),
        0xcb => W65C816::wai(cpu, bus, AddressingMode::Implied),
        0xcc => W65C816::cpy(cpu, bus, AddressingMode::Absolute),
        0xcd => W65C816::cmp(cpu, bus, AddressingMode::Absolute),
        0xce => W65C816::dec(cpu, bus, AddressingMode::Absolute),
        0xcf => W65C816::cmp(cpu, bus, AddressingMode::AbsoluteLong),
        0xd0 => W65C816::bne(cpu, bus, AddressingMode::Relative),
        0xd1 => W65C816::cmp(cpu, bus, AddressingMode::IndirectY),
        0xd2 => W65C816::cmp(cpu, bus, AddressingMode::Indirect),
        0xd3 => W65C816::cmp(cpu, bus, AddressingMode::StackRelIndirectY),
        0xd4 => W65C816::pei(cpu, bus, AddressingMode::Direct),
        0xd5 => W65C816::cmp(cpu, bus, AddressingMode::DirectX),
        0xd6 => W65C816::dec(cpu, bus, AddressingMode::DirectX),
        0xd7 => W65C816::cmp(cpu, bus, AddressingMode::IndirectLongY),
        0xd8 => W65C816::cld(cpu, bus, AddressingMode::Implied),
        0xd9 => W65C816::cmp(cpu, bus, AddressingMode::AbsoluteY),
        0xda => W65C816::phx(cpu, bus, AddressingMode::Implied),
        0xdb => W65C816::stp(cpu, bus, AddressingMode::Implied),
        0xdc => W65C816::jml(cpu, bus, AddressingMode::AbsoluteIndirectLong),
        0xdd => W65C816::cmp(cpu, bus, AddressingMode::AbsoluteX),
        0xde => W65C816::dec(cpu, bus, AddressingMode::AbsoluteX),
        _ => W65C816::cmp(cpu, bus, AddressingMode::AbsoluteLongX),
    }
}

#[verifier::spinoff_prover]
fn execute_7<B: Bus>(cpu: &mut Cpu, bus: &mut B, op: u8)
    requires
        old(bus).inv(),
        224 <= op < 256,
    ensures
        final(bus).inv(),
        final(bus).clock() >= old(bus).clock(),
        final(bus).agenda() == old(bus).agenda(),
        extends(final(bus).cycles(), old(bus).cycles()),
        effect(decode(op).0, decode(op).1, *old(cpu), *final(cpu), old(bus).cycles(), final(bus).cycles()),
{
    match op {
        0xe0 => W65C816::cpx(cpu, bus, AddressingMode::Immediate),
        0xe1 => W65C816::sbc(cpu, bus, AddressingMode::IndirectX),
        0xe2 => W65C816::sep(cpu, bus, AddressingMode::Immediate),
        0xe3 => W65C816::sbc(cpu, bus, AddressingMode::StackRelative),
        0xe4 => W65C816::cpx(cpu, bus, AddressingMode::Direct),
        0xe5 => W65C816::sbc(cpu, bus, AddressingMode::Direct),
        0xe6 => W65C816::inc(cpu, bus, AddressingMode::Direct),
        0xe7 => W65C816::sbc(cpu, bus, AddressingMode::IndirectLong),
        0xe8 => W65C816::inx(cpu, bus, AddressingMode::Implied),
        0xe9 => W65C816::sbc(cpu, bus, AddressingMode::Immediate),
        0xea => W65C816::nop(cpu, bus, AddressingMode::Implied),
        0xeb => W65C816::xba(cpu, bus, AddressingMode::Implied),
        0xec => W65C816::cpx(cpu, bus, AddressingMode::Absolute),
        0xed => W65C816::sbc(cpu, bus, AddressingMode::Absolute),
        0xee => W65C816::inc(cpu, bus, AddressingMode::Absolute),
        0xef => W65C816::sbc(cpu, bus, AddressingMode::AbsoluteLong),
        0xf0 => W65C816::beq(cpu, bus, AddressingMode::Relative),
        0xf1 => W65C816::sbc(cpu, bus, AddressingMode::IndirectY),
        0xf2 => W65C816::sbc(cpu, bus, AddressingMode::Indirect),
        0xf3 => W65C816::sbc(cpu, bus, AddressingMode::StackRelIndirectY),
        0xf4 => W65C816::pea(cpu, bus, AddressingMode::Immediate),
        0xf5 => W65C816::sbc(cpu, bus, AddressingMode::DirectX),
        0xf6 => W65C816::inc(cpu, bus, AddressingMode::DirectX),
        0xf7 => W65C816::sbc(cpu, bus, AddressingMode::IndirectLongY),
        0xf8 => W65C816::sed(cpu, bus, AddressingMode::Implied),
        0xf9 => W65C816::sbc(cpu, bus, AddressingMode::AbsoluteY),
        0xfa => W65C816::plx(cpu, bus, AddressingMode::Implied),
        0xfb => W65C816::xce(cpu, bus, AddressingMode::Implied),
        0xfc => W65C816::jsr(cpu, bus, AddressingMode::AbsoluteIndirectX),
        0xfd => W65C816::sbc(cpu, bus, AddressingMode::AbsoluteX),
        0xfe => W65C816::inc(cpu, bus, AddressingMode::AbsoluteX),
        _ => W65C816::sbc(cpu, bus, AddressingMode::AbsoluteLongX),
    }
}

} // verus!
