use vstd::prelude::*;

use super::addressing::pc_at;
use super::instructions::{kept, Spc700};
use super::effects::op_effect;
use super::{AddressingMode, Cpu, Meta};
use crate::bus::{Bus, BusCycle};
use crate::w65c816::trace::{extends, rd};

verus! {

impl Meta {
    pub fn new(code: u8, mnemonic: &'static str, mode: AddressingMode) -> (r: Self)
        ensures
            r.code == code,
            r.mnemonic == mnemonic,
            r.mode == mode,
    {
        Meta { code, mnemonic, mode }
    }
}

/// One step of the SPC700, from `c0` with the bus trace `l0` to `c1` with the trace `l1`: the
/// opcode is read at the program counter; an opcode of the table then has its effect, one
/// from $C0 up only moves the program counter past it.
pub open spec fn step_made(c0: Cpu, l0: Seq<BusCycle>, c1: Cpu, l1: Seq<BusCycle>) -> bool {
    let k = l0.len() as int;
    let op = crate::w65c816::trace::d(l1, k);
    &&& extends(l1, l0)
    &&& k < l1.len()
    &&& l1[k] == rd(pc_at(c0, 0), op)
    &&& op >= 0xC0 ==> l1.len() == k + 1 && c1 == super::addressing::advance(c0, 1)
    &&& op < 0xC0 ==> op_effect(op, super::addressing::advance(c0, 1), c1, l1.subrange(0, k + 1), l1)
}

impl Spc700 {
    /// Runs one instruction: fetches the opcode and runs it. Opcodes from $C0 up have no
    /// entry in the table: only their fetch is made, and the result is false.
    pub fn step<B: Bus>(&mut self, bus: &mut B) -> (r: bool)
        requires
            old(bus).inv(),
        ensures
            kept(*old(bus), *final(bus)),
            step_made(old(self).cpu, old(bus).cycles(), final(self).cpu, final(bus).cycles()),
            r == (crate::w65c816::trace::d(final(bus).cycles(), old(bus).cycles().len() as int) < 0xC0),
    {
        let ghost k = old(bus).cycles().len() as int;
        let op = self.cpu.get_imm(bus);
        let ghost l1 = bus.cycles();
        if op < 0xC0 {
            execute(&mut self.cpu, bus, op);
            proof {
                assert(bus.cycles()[k] == l1[k]);
                assert(bus.cycles().subrange(0, k + 1) =~= l1);
            }
            true
        } else {
            false
        }
    }
}

/// The opcode table: the mnemonic and addressing mode of each opcode below $C0.
pub open spec fn entry(op: u8) -> (&'static str, AddressingMode) {
    if op < 0x40 { entry_0(op) } else if op < 0x80 { entry_1(op) } else { entry_2(op) }
}

/// Entries $00-$3F of the opcode table.
pub open spec fn entry_0(op: u8) -> (&'static str, AddressingMode) {
    match op {
        0x00 => ("NOP", AddressingMode::Implied),
        0x01 => ("TCALL", AddressingMode::Implied),
        0x02 => ("SET1", AddressingMode::DirectPage),
        0x03 => ("BBS", AddressingMode::DirectPage),
        0x04 => ("OR", AddressingMode::DirectPage),
        0x05 => ("OR", AddressingMode::Absolute),
        0x06 => ("OR", AddressingMode::IndirectX),
        0x07 => ("OR", AddressingMode::XIndirect),
        0x08 => ("OR", AddressingMode::Immediate),
        0x09 => ("OR", AddressingMode::DirectPage),
        0x0a => ("OR1", AddressingMode::AbsoluteBooleanBit),
        0x0b => ("ASL", AddressingMode::DirectPage),
        0x0c => ("ASL", AddressingMode::Absolute),
        0x0d => ("PUSH", AddressingMode::Psw),
        0x0e => ("TSET1", AddressingMode::Absolute),
        0x0f => ("BRK", AddressingMode::Implied),
        0x10 => ("BPL", AddressingMode::Implied),
        0x11 => ("TCALL", AddressingMode::Implied),
        0x12 => ("CLR1", AddressingMode::DirectPage),
        0x13 => ("BBC", AddressingMode::DirectPage),
        0x14 => ("OR", AddressingMode::DirectX),
        0x15 => ("OR", AddressingMode::AbsoluteX),
        0x16 => ("OR", AddressingMode::AbsoluteY),
        0x17 => ("OR", AddressingMode::DirectPageIndirectY),
        0x18 => ("OR", AddressingMode::Immediate),
        0x19 => ("OR", AddressingMode::IndirectY),
        0x1a => ("DECW", AddressingMode::DirectPage),
        0x1b => ("ASL", AddressingMode::DirectX),
        0x1c => ("ASL", AddressingMode::Accumulator),
        0x1d => ("DEC", AddressingMode::X),
        0x1e => ("CMP", AddressingMode::Absolute),
        0x1f => ("JMP", AddressingMode::AbsoluteX),
        0x20 => ("CLRP", AddressingMode::Implied),
        0x21 => ("TCALL", AddressingMode::Implied),
        0x22 => ("SET1", AddressingMode::DirectPage),
        0x23 => ("BBS", AddressingMode::DirectPage),
        0x24 => ("AND", AddressingMode::DirectPage),
        0x25 => ("AND", AddressingMode::Absolute),
        0x26 => ("AND", AddressingMode::IndirectX),
        0x27 => ("AND", AddressingMode::XIndirect),
        0x28 => ("AND", AddressingMode::Immediate),
        0x29 => ("AND", AddressingMode::DirectPage),
        0x2a => ("OR1", AddressingMode::AbsoluteBooleanBit),
        0x2b => ("ROL", AddressingMode::DirectPage),
        0x2c => ("ROL", AddressingMode::Absolute),
        0x2d => ("PUSH", AddressingMode::Accumulator),
        0x2e => ("CBNE", AddressingMode::DirectPage),
        0x2f => ("BRA", AddressingMode::Implied),
        0x30 => ("BMI", AddressingMode::Implied),
        0x31 => ("TCALL", AddressingMode::Implied),
        0x32 => ("CLR1", AddressingMode::DirectPage),
        0x33 => ("BBC", AddressingMode::DirectPage),
        0x34 => ("AND", AddressingMode::DirectX),
        0x35 => ("AND", AddressingMode::AbsoluteX),
        0x36 => ("AND", AddressingMode::AbsoluteY),
        0x37 => ("AND", AddressingMode::DirectPageIndirectY),
        0x38 => ("AND", AddressingMode::Immediate),
        0x39 => ("AND", AddressingMode::IndirectY),
        0x3a => ("INCW", AddressingMode::DirectPage),
        0x3b => ("ROL", AddressingMode::DirectX),
        0x3c => ("ROL", AddressingMode::Accumulator),
        0x3d => ("INC", AddressingMode::X),
        0x3e => ("CMP", AddressingMode::DirectPage),
        _ => ("CALL", AddressingMode::Absolute),
    }
}

/// Entries $40-$7F of the opcode table.
pub open spec fn entry_1(op: u8) -> (&'static str, AddressingMode) {
    match op {
        0x40 => ("SETP", AddressingMode::Implied),
        0x41 => ("TCALL", AddressingMode::Implied),
        0x42 => ("SET1", AddressingMode::DirectPage),
        0x43 => ("BBS", AddressingMode::DirectPage),
        0x44 => ("EOR", AddressingMode::DirectPage),
        0x45 => ("EOR", AddressingMode::Absolute),
        0x46 => ("EOR", AddressingMode::IndirectX),
        0x47 => ("EOR", AddressingMode::XIndirect),
        0x48 => ("EOR", AddressingMode::Immediate),
        0x49 => ("EOR", AddressingMode::DirectPage),
        0x4a => ("AND1", AddressingMode::AbsoluteBooleanBit),
        0x4b => ("LSR", AddressingMode::DirectPage),
        0x4c => ("LSR", AddressingMode::Absolute),
        0x4d => ("PUSH", AddressingMode::X),
        0x4e => ("TCLR1", AddressingMode::Absolute),
        0x4f => ("PCALL", AddressingMode::Implied),
        0x50 => ("BVC", AddressingMode::Implied),
        0x51 => ("TCALL", AddressingMode::Implied),
        0x52 => ("CLR1", AddressingMode::DirectPage),
        0x53 => ("BBC", AddressingMode::DirectPage),
        0x54 => ("EOR", AddressingMode::DirectX),
        0x55 => ("EOR", AddressingMode::AbsoluteX),
        0x56 => ("EOR", AddressingMode::AbsoluteY),
        0x57 => ("EOR", AddressingMode::DirectPageIndirectY),
        0x58 => ("EOR", AddressingMode::Immediate),
        0x59 => ("EOR", AddressingMode::IndirectY),
        0x5a => ("CMPW", AddressingMode::DirectPage),
        0x5b => ("LSR", AddressingMode::DirectX),
        0x5c => ("LSR", AddressingMode::Accumulator),
        0x5d => ("MOV", AddressingMode::Accumulator),
        0x5e => ("CMP", AddressingMode::Absolute),
        0x5f => ("JMP", AddressingMode::Absolute),
        0x60 => ("CLRC", AddressingMode::Implied),
        0x61 => ("TCALL", AddressingMode::Implied),
        0x62 => ("SET1", AddressingMode::DirectPage),
        0x63 => ("BBS", AddressingMode::DirectPage),
        0x64 => ("CMP", AddressingMode::DirectPage),
        0x65 => ("CMP", AddressingMode::Absolute),
        0x66 => ("CMP", AddressingMode::IndirectX),
        0x67 => ("CMP", AddressingMode::XIndirect),
        0x68 => ("CMP", AddressingMode::Immediate),
        0x69 => ("CMP", AddressingMode::DirectPage),
        0x6a => ("AND1", AddressingMode::AbsoluteBooleanBit),
        0x6b => ("ROR", AddressingMode::DirectPage),
        0x6c => ("ROR", AddressingMode::Absolute),
        0x6d => ("PUSH", AddressingMode::Y),
        0x6e => ("DBNZ", AddressingMode::DirectPage),
        0x6f => ("RET", AddressingMode::Implied),
        0x70 => ("BVS", AddressingMode::Implied),
        0x71 => ("TCALL", AddressingMode::Implied),
        0x72 => ("CLR1", AddressingMode::DirectPage),
        0x73 => ("BBC", AddressingMode::DirectPage),
        0x74 => ("CMP", AddressingMode::DirectX),
        0x75 => ("CMP", AddressingMode::AbsoluteX),
        0x76 => ("CMP", AddressingMode::AbsoluteY),
        0x77 => ("CMP", AddressingMode::DirectPageIndirectY),
        0x78 => ("CMP", AddressingMode::Immediate),
        0x79 => ("CMP", AddressingMode::IndirectY),
        0x7a => ("ADDW", AddressingMode::DirectPage),
        0x7b => ("ROR", AddressingMode::DirectX),
        0x7c => ("ROR", AddressingMode::Accumulator),
        0x7d => ("MOV", AddressingMode::X),
        0x7e => ("CMP", AddressingMode::DirectPage),
        _ => ("RETI", AddressingMode::Implied),
    }
}

/// Entries $80-$BF of the opcode table.
pub open spec fn entry_2(op: u8) -> (&'static str, AddressingMode) {
    match op {
        0x80 => ("SETC", AddressingMode::Implied),
        0x81 => ("TCALL", AddressingMode::Implied),
        0x82 => ("SET1", AddressingMode::DirectPage),
        0x83 => ("BBS", AddressingMode::DirectPage),
        0x84 => ("ADC", AddressingMode::DirectPage),
        0x85 => ("ADC", AddressingMode::Absolute),
        0x86 => ("ADC", AddressingMode::IndirectX),
        0x87 => ("ADC", AddressingMode::XIndirect),
        0x88 => ("ADC", AddressingMode::Immediate),
        0x89 => ("ADC", AddressingMode::DirectPage),
        0x8a => ("EOR1", AddressingMode::AbsoluteBooleanBit),
        0x8b => ("DEC", AddressingMode::DirectPage),
        0x8c => ("DEC", AddressingMode::Absolute),
        0x8d => ("MOV", AddressingMode::Immediate),
        0x8e => ("POP", AddressingMode::Psw),
        0x8f => ("MOV", AddressingMode::Immediate),
        0x90 => ("BCC", AddressingMode::Implied),
        0x91 => ("TCALL", AddressingMode::Implied),
        0x92 => ("CLR1", AddressingMode::DirectPage),
        0x93 => ("BBC", AddressingMode::DirectPage),
        0x94 => ("ADC", AddressingMode::DirectX),
        0x95 => ("ADC", AddressingMode::AbsoluteX),
        0x96 => ("ADC", AddressingMode::AbsoluteY),
        0x97 => ("ADC", AddressingMode::DirectPageIndirectY),
        0x98 => ("ADC", AddressingMode::Immediate),
        0x99 => ("ADC", AddressingMode::IndirectY),
        0x9a => ("SUBW", AddressingMode::DirectPage),
        0x9b => ("DEC", AddressingMode::DirectX),
        0x9c => ("DEC", AddressingMode::Accumulator),
        0x9d => ("MOV", AddressingMode::Sp),
        0x9e => ("DIV", AddressingMode::Implied),
        0x9f => ("XCN", AddressingMode::Implied),
        0xa0 => ("EI", AddressingMode::Implied),
        0xa1 => ("TCALL", AddressingMode::Implied),
        0xa2 => ("SET1", AddressingMode::DirectPage),
        0xa3 => ("BBS", AddressingMode::DirectPage),
        0xa4 => ("SBC", AddressingMode::DirectPage),
        0xa5 => ("SBC", AddressingMode::Absolute),
        0xa6 => ("SBC", AddressingMode::IndirectX),
        0xa7 => ("SBC", AddressingMode::XIndirect),
        0xa8 => ("SBC", AddressingMode::Immediate),
        0xa9 => ("SBC", AddressingMode::DirectPage),
        0xaa => ("MOV1", AddressingMode::AbsoluteBooleanBit),
        0xab => ("INC", AddressingMode::DirectPage),
        0xac => ("INC", AddressingMode::Absolute),
        0xad => ("CMP", AddressingMode::Immediate),
        0xae => ("POP", AddressingMode::Accumulator),
        0xaf => ("MOV", AddressingMode::Accumulator),
        0xb0 => ("BCS", AddressingMode::Implied),
        0xb1 => ("TCALL", AddressingMode::Implied),
        0xb2 => ("CLR1", AddressingMode::DirectPage),
        0xb3 => ("BBC", AddressingMode::DirectPage),
        0xb4 => ("SBC", AddressingMode::DirectX),
        0xb5 => ("SBC", AddressingMode::AbsoluteX),
        0xb6 => ("SBC", AddressingMode::AbsoluteY),
        0xb7 => ("SBC", AddressingMode::DirectPageIndirectY),
        0xb8 => ("SBC", AddressingMode::Immediate),
        0xb9 => ("SBC", AddressingMode::IndirectY),
        0xba => ("MOVW", AddressingMode::DirectPage),
        0xbb => ("INC", AddressingMode::DirectX),
        0xbc => ("INC", AddressingMode::Accumulator),
        0xbd => ("MOV", AddressingMode::X),
        0xbe => ("DAS", AddressingMode::Implied),
        _ => ("MOV", AddressingMode::DirectXPostIncrement),
    }
}

/// The table entry of an opcode: its mnemonic and addressing mode.
pub fn opcode_meta(op: u8) -> (r: Meta)
    requires
        op < 0xC0,
    ensures
        r.code == op,
        r.mnemonic == entry(op).0,
        r.mode == entry(op).1,
{
    if op < 0x40 {
        meta_0(op)
    } else if op < 0x80 {
        meta_1(op)
    } else {
        meta_2(op)
    }
}

#[verifier::spinoff_prover]
#[verifier::rlimit(50)]
fn meta_0(op: u8) -> (r: Meta)
    requires
        0x00 <= op <= 0x3f,
    ensures
        r.code == op,
        r.mnemonic == entry_0(op).0,
        r.mode == entry_0(op).1,
{
    match op {
        0x00 => Meta::new(0x00, "NOP", AddressingMode::Implied),
        0x01 => Meta::new(0x01, "TCALL", AddressingMode::Implied),
        0x02 => Meta::new(0x02, "SET1", AddressingMode::DirectPage),
        0x03 => Meta::new(0x03, "BBS", AddressingMode::DirectPage),
        0x04 => Meta::new(0x04, "OR", AddressingMode::DirectPage),
        0x05 => Meta::new(0x05, "OR", AddressingMode::Absolute),
        0x06 => Meta::new(0x06, "OR", AddressingMode::IndirectX),
        0x07 => Meta::new(0x07, "OR", AddressingMode::XIndirect),
        0x08 => Meta::new(0x08, "OR", AddressingMode::Immediate),
        0x09 => Meta::new(0x09, "OR", AddressingMode::DirectPage),
        0x0a => Meta::new(0x0a, "OR1", AddressingMode::AbsoluteBooleanBit),
        0x0b => Meta::new(0x0b, "ASL", AddressingMode::DirectPage),
        0x0c => Meta::new(0x0c, "ASL", AddressingMode::Absolute),
        0x0d => Meta::new(0x0d, "PUSH", AddressingMode::Psw),
        0x0e => Meta::new(0x0e, "TSET1", AddressingMode::Absolute),
        0x0f => Meta::new(0x0f, "BRK", AddressingMode::Implied),
        0x10 => Meta::new(0x10, "BPL", AddressingMode::Implied),
        0x11 => Meta::new(0x11, "TCALL", AddressingMode::Implied),
        0x12 => Meta::new(0x12, "CLR1", AddressingMode::DirectPage),
        0x13 => Meta::new(0x13, "BBC", AddressingMode::DirectPage),
        0x14 => Meta::new(0x14, "OR", AddressingMode::DirectX),
        0x15 => Meta::new(0x15, "OR", AddressingMode::AbsoluteX),
        0x16 => Meta::new(0x16, "OR", AddressingMode::AbsoluteY),
        0x17 => Meta::new(0x17, "OR", AddressingMode::DirectPageIndirectY),
        0x18 => Meta::new(0x18, "OR", AddressingMode::Immediate),
        0x19 => Meta::new(0x19, "OR", AddressingMode::IndirectY),
        0x1a => Meta::new(0x1a, "DECW", AddressingMode::DirectPage),
        0x1b => Meta::new(0x1b, "ASL", AddressingMode::DirectX),
        0x1c => Meta::new(0x1c, "ASL", AddressingMode::Accumulator),
        0x1d => Meta::new(0x1d, "DEC", AddressingMode::X),
        0x1e => Meta::new(0x1e, "CMP", AddressingMode::Absolute),
        0x1f => Meta::new(0x1f, "JMP", AddressingMode::AbsoluteX),
        0x20 => Meta::new(0x20, "CLRP", AddressingMode::Implied),
        0x21 => Meta::new(0x21, "TCALL", AddressingMode::Implied),
        0x22 => Meta::new(0x22, "SET1", AddressingMode::DirectPage),
        0x23 => Meta::new(0x23, "BBS", AddressingMode::DirectPage),
        0x24 => Meta::new(0x24, "AND", AddressingMode::DirectPage),
        0x25 => Meta::new(0x25, "AND", AddressingMode::Absolute),
        0x26 => Meta::new(0x26, "AND", AddressingMode::IndirectX),
        0x27 => Meta::new(0x27, "AND", AddressingMode::XIndirect),
        0x28 => Meta::new(0x28, "AND", AddressingMode::Immediate),
        0x29 => Meta::new(0x29, "AND", AddressingMode::DirectPage),
        0x2a => Meta::new(0x2a, "OR1", AddressingMode::AbsoluteBooleanBit),
        0x2b => Meta::new(0x2b, "ROL", AddressingMode::DirectPage),
        0x2c => Meta::new(0x2c, "ROL", AddressingMode::Absolute),
        0x2d => Meta::new(0x2d, "PUSH", AddressingMode::Accumulator),
        0x2e => Meta::new(0x2e, "CBNE", AddressingMode::DirectPage),
        0x2f => Meta::new(0x2f, "BRA", AddressingMode::Implied),
        0x30 => Meta::new(0x30, "BMI", AddressingMode::Implied),
        0x31 => Meta::new(0x31, "TCALL", AddressingMode::Implied),
        0x32 => Meta::new(0x32, "CLR1", AddressingMode::DirectPage),
        0x33 => Meta::new(0x33, "BBC", AddressingMode::DirectPage),
        0x34 => Meta::new(0x34, "AND", AddressingMode::DirectX),
        0x35 => Meta::new(0x35, "AND", AddressingMode::AbsoluteX),
        0x36 => Meta::new(0x36, "AND", AddressingMode::AbsoluteY),
        0x37 => Meta::new(0x37, "AND", AddressingMode::DirectPageIndirectY),
        0x38 => Meta::new(0x38, "AND", AddressingMode::Immediate),
        0x39 => Meta::new(0x39, "AND", AddressingMode::IndirectY),
        0x3a => Meta::new(0x3a, "INCW", AddressingMode::DirectPage),
        0x3b => Meta::new(0x3b, "ROL", AddressingMode::DirectX),
        0x3c => Meta::new(0x3c, "ROL", AddressingMode::Accumulator),
        0x3d => Meta::new(0x3d, "INC", AddressingMode::X),
        0x3e => Meta::new(0x3e, "CMP", AddressingMode::DirectPage),
        _ => Meta::new(0x3f, "CALL", AddressingMode::Absolute),
    }
}

#[verifier::spinoff_prover]
#[verifier::rlimit(50)]
fn meta_1(op: u8) -> (r: Meta)
    requires
        0x40 <= op <= 0x7f,
    ensures
        r.code == op,
        r.mnemonic == entry_1(op).0,
        r.mode == entry_1(op).1,
{
    match op {
        0x40 => Meta::new(0x40, "SETP", AddressingMode::Implied),
        0x41 => Meta::new(0x41, "TCALL", AddressingMode::Implied),
        0x42 => Meta::new(0x42, "SET1", AddressingMode::DirectPage),
        0x43 => Meta::new(0x43, "BBS", AddressingMode::DirectPage),
        0x44 => Meta::new(0x44, "EOR", AddressingMode::DirectPage),
        0x45 => Meta::new(0x45, "EOR", AddressingMode::Absolute),
        0x46 => Meta::new(0x46, "EOR", AddressingMode::IndirectX),
        0x47 => Meta::new(0x47, "EOR", AddressingMode::XIndirect),
        0x48 => Meta::new(0x48, "EOR", AddressingMode::Immediate),
        0x49 => Meta::new(0x49, "EOR", AddressingMode::DirectPage),
        0x4a => Meta::new(0x4a, "AND1", AddressingMode::AbsoluteBooleanBit),
        0x4b => Meta::new(0x4b, "LSR", AddressingMode::DirectPage),
        0x4c => Meta::new(0x4c, "LSR", AddressingMode::Absolute),
        0x4d => Meta::new(0x4d, "PUSH", AddressingMode::X),
        0x4e => Meta::new(0x4e, "TCLR1", AddressingMode::Absolute),
        0x4f => Meta::new(0x4f, "PCALL", AddressingMode::Implied),
        0x50 => Meta::new(0x50, "BVC", AddressingMode::Implied),
        0x51 => Meta::new(0x51, "TCALL", AddressingMode::Implied),
        0x52 => Meta::new(0x52, "CLR1", AddressingMode::DirectPage),
        0x53 => Meta::new(0x53, "BBC", AddressingMode::DirectPage),
        0x54 => Meta::new(0x54, "EOR", AddressingMode::DirectX),
        0x55 => Meta::new(0x55, "EOR", AddressingMode::AbsoluteX),
        0x56 => Meta::new(0x56, "EOR", AddressingMode::AbsoluteY),
        0x57 => Meta::new(0x57, "EOR", AddressingMode::DirectPageIndirectY),
        0x58 => Meta::new(0x58, "EOR", AddressingMode::Immediate),
        0x59 => Meta::new(0x59, "EOR", AddressingMode::IndirectY),
        0x5a => Meta::new(0x5a, "CMPW", AddressingMode::DirectPage),
        0x5b => Meta::new(0x5b, "LSR", AddressingMode::DirectX),
        0x5c => Meta::new(0x5c, "LSR", AddressingMode::Accumulator),
        0x5d => Meta::new(0x5d, "MOV", AddressingMode::Accumulator),
        0x5e => Meta::new(0x5e, "CMP", AddressingMode::Absolute),
        0x5f => Meta::new(0x5f, "JMP", AddressingMode::Absolute),
        0x60 => Meta::new(0x60, "CLRC", AddressingMode::Implied),
        0x61 => Meta::new(0x61, "TCALL", AddressingMode::Implied),
        0x62 => Meta::new(0x62, "SET1", AddressingMode::DirectPage),
        0x63 => Meta::new(0x63, "BBS", AddressingMode::DirectPage),
        0x64 => Meta::new(0x64, "CMP", AddressingMode::DirectPage),
        0x65 => Meta::new(0x65, "CMP", AddressingMode::Absolute),
        0x66 => Meta::new(0x66, "CMP", AddressingMode::IndirectX),
        0x67 => Meta::new(0x67, "CMP", AddressingMode::XIndirect),
        0x68 => Meta::new(0x68, "CMP", AddressingMode::Immediate),
        0x69 => Meta::new(0x69, "CMP", AddressingMode::DirectPage),
        0x6a => Meta::new(0x6a, "AND1", AddressingMode::AbsoluteBooleanBit),
        0x6b => Meta::new(0x6b, "ROR", AddressingMode::DirectPage),
        0x6c => Meta::new(0x6c, "ROR", AddressingMode::Absolute),
        0x6d => Meta::new(0x6d, "PUSH", AddressingMode::Y),
        0x6e => Meta::new(0x6e, "DBNZ", AddressingMode::DirectPage),
        0x6f => Meta::new(0x6f, "RET", AddressingMode::Implied),
        0x70 => Meta::new(0x70, "BVS", AddressingMode::Implied),
        0x71 => Meta::new(0x71, "TCALL", AddressingMode::Implied),
        0x72 => Meta::new(0x72, "CLR1", AddressingMode::DirectPage),
        0x73 => Meta::new(0x73, "BBC", AddressingMode::DirectPage),
        0x74 => Meta::new(0x74, "CMP", AddressingMode::DirectX),
        0x75 => Meta::new(0x75, "CMP", AddressingMode::AbsoluteX),
        0x76 => Meta::new(0x76, "CMP", AddressingMode::AbsoluteY),
        0x77 => Meta::new(0x77, "CMP", AddressingMode::DirectPageIndirectY),
        0x78 => Meta::new(0x78, "CMP", AddressingMode::Immediate),
        0x79 => Meta::new(0x79, "CMP", AddressingMode::IndirectY),
        0x7a => Meta::new(0x7a, "ADDW", AddressingMode::DirectPage),
        0x7b => Meta::new(0x7b, "ROR", AddressingMode::DirectX),
        0x7c => Meta::new(0x7c, "ROR", AddressingMode::Accumulator),
        0x7d => Meta::new(0x7d, "MOV", AddressingMode::X),
        0x7e => Meta::new(0x7e, "CMP", AddressingMode::DirectPage),
        _ => Meta::new(0x7f, "RETI", AddressingMode::Implied),
    }
}

#[verifier::spinoff_prover]
#[verifier::rlimit(50)]
fn meta_2(op: u8) -> (r: Meta)
    requires
        0x80 <= op <= 0xbf,
    ensures
        r.code == op,
        r.mnemonic == entry_2(op).0,
        r.mode == entry_2(op).1,
{
    match op {
        0x80 => Meta::new(0x80, "SETC", AddressingMode::Implied),
        0x81 => Meta::new(0x81, "TCALL", AddressingMode::Implied),
        0x82 => Meta::new(0x82, "SET1", AddressingMode::DirectPage),
        0x83 => Meta::new(0x83, "BBS", AddressingMode::DirectPage),
        0x84 => Meta::new(0x84, "ADC", AddressingMode::DirectPage),
        0x85 => Meta::new(0x85, "ADC", AddressingMode::Absolute),
        0x86 => Meta::new(0x86, "ADC", AddressingMode::IndirectX),
        0x87 => Meta::new(0x87, "ADC", AddressingMode::XIndirect),
        0x88 => Meta::new(0x88, "ADC", AddressingMode::Immediate),
        0x89 => Meta::new(0x89, "ADC", AddressingMode::DirectPage),
        0x8a => Meta::new(0x8a, "EOR1", AddressingMode::AbsoluteBooleanBit),
        0x8b => Meta::new(0x8b, "DEC", AddressingMode::DirectPage),
        0x8c => Meta::new(0x8c, "DEC", AddressingMode::Absolute),
        0x8d => Meta::new(0x8d, "MOV", AddressingMode::Immediate),
        0x8e => Meta::new(0x8e, "POP", AddressingMode::Psw),
        0x8f => Meta::new(0x8f, "MOV", AddressingMode::Immediate),
        0x90 => Meta::new(0x90, "BCC", AddressingMode::Implied),
        0x91 => Meta::new(0x91, "TCALL", AddressingMode::Implied),
        0x92 => Meta::new(0x92, "CLR1", AddressingMode::DirectPage),
        0x93 => Meta::new(0x93, "BBC", AddressingMode::DirectPage),
        0x94 => Meta::new(0x94, "ADC", AddressingMode::DirectX),
        0x95 => Meta::new(0x95, "ADC", AddressingMode::AbsoluteX),
        0x96 => Meta::new(0x96, "ADC", AddressingMode::AbsoluteY),
        0x97 => Meta::new(0x97, "ADC", AddressingMode::DirectPageIndirectY),
        0x98 => Meta::new(0x98, "ADC", AddressingMode::Immediate),
        0x99 => Meta::new(0x99, "ADC", AddressingMode::IndirectY),
        0x9a => Meta::new(0x9a, "SUBW", AddressingMode::DirectPage),
        0x9b => Meta::new(0x9b, "DEC", AddressingMode::DirectX),
        0x9c => Meta::new(0x9c, "DEC", AddressingMode::Accumulator),
        0x9d => Meta::new(0x9d, "MOV", AddressingMode::Sp),
        0x9e => Meta::new(0x9e, "DIV", AddressingMode::Implied),
        0x9f => Meta::new(0x9f, "XCN", AddressingMode::Implied),
        0xa0 => Meta::new(0xa0, "EI", AddressingMode::Implied),
        0xa1 => Meta::new(0xa1, "TCALL", AddressingMode::Implied),
        0xa2 => Meta::new(0xa2, "SET1", AddressingMode::DirectPage),
        0xa3 => Meta::new(0xa3, "BBS", AddressingMode::DirectPage),
        0xa4 => Meta::new(0xa4, "SBC", AddressingMode::DirectPage),
        0xa5 => Meta::new(0xa5, "SBC", AddressingMode::Absolute),
        0xa6 => Meta::new(0xa6, "SBC", AddressingMode::IndirectX),
        0xa7 => Meta::new(0xa7, "SBC", AddressingMode::XIndirect),
        0xa8 => Meta::new(0xa8, "SBC", AddressingMode::Immediate),
        0xa9 => Meta::new(0xa9, "SBC", AddressingMode::DirectPage),
        0xaa => Meta::new(0xaa, "MOV1", AddressingMode::AbsoluteBooleanBit),
        0xab => Meta::new(0xab, "INC", AddressingMode::DirectPage),
        0xac => Meta::new(0xac, "INC", AddressingMode::Absolute),
        0xad => Meta::new(0xad, "CMP", AddressingMode::Immediate),
        0xae => Meta::new(0xae, "POP", AddressingMode::Accumulator),
        0xaf => Meta::new(0xaf, "MOV", AddressingMode::Accumulator),
        0xb0 => Meta::new(0xb0, "BCS", AddressingMode::Implied),
        0xb1 => Meta::new(0xb1, "TCALL", AddressingMode::Implied),
        0xb2 => Meta::new(0xb2, "CLR1", AddressingMode::DirectPage),
        0xb3 => Meta::new(0xb3, "BBC", AddressingMode::DirectPage),
        0xb4 => Meta::new(0xb4, "SBC", AddressingMode::DirectX),
        0xb5 => Meta::new(0xb5, "SBC", AddressingMode::AbsoluteX),
        0xb6 => Meta::new(0xb6, "SBC", AddressingMode::AbsoluteY),
        0xb7 => Meta::new(0xb7, "SBC", AddressingMode::DirectPageIndirectY),
        0xb8 => Meta::new(0xb8, "SBC", AddressingMode::Immediate),
        0xb9 => Meta::new(0xb9, "SBC", AddressingMode::IndirectY),
        0xba => Meta::new(0xba, "MOVW", AddressingMode::DirectPage),
        0xbb => Meta::new(0xbb, "INC", AddressingMode::DirectX),
        0xbc => Meta::new(0xbc, "INC", AddressingMode::Accumulator),
        0xbd => Meta::new(0xbd, "MOV", AddressingMode::X),
        0xbe => Meta::new(0xbe, "DAS", AddressingMode::Implied),
        _ => Meta::new(0xbf, "MOV", AddressingMode::DirectXPostIncrement),
    }
}

/// Runs the instruction of an opcode whose byte has been fetched.
pub fn execute<B: Bus>(cpu: &mut Cpu, bus: &mut B, op: u8)
    requires
        old(bus).inv(),
        op < 0xC0,
    ensures
        kept(*old(bus), *final(bus)),
        extends(final(bus).cycles(), old(bus).cycles()),
        op_effect(op, *old(cpu), *final(cpu), old(bus).cycles(), final(bus).cycles()),
{
    if op < 0x20 {
        execute_0(cpu, bus, op);
    } else if op < 0x40 {
        execute_1(cpu, bus, op);
    } else if op < 0x60 {
        execute_2(cpu, bus, op);
    } else if op < 0x80 {
        execute_3(cpu, bus, op);
    } else if op < 0xA0 {
        execute_4(cpu, bus, op);
    } else {
        execute_5(cpu, bus, op);
    }
}

#[verifier::spinoff_prover]
fn execute_0<B: Bus>(cpu: &mut Cpu, bus: &mut B, op: u8)
    requires
        old(bus).inv(),
        0x00 <= op <= 0x1f,
    ensures
        kept(*old(bus), *final(bus)),
        extends(final(bus).cycles(), old(bus).cycles()),
        op_effect(op, *old(cpu), *final(cpu), old(bus).cycles(), final(bus).cycles()),
{
    match op {
        0x00 => Spc700::nop(cpu, bus),
        0x01 => Spc700::tcall(cpu, bus, 0),
        0x02 => Spc700::set1(cpu, bus, AddressingMode::DirectPage, 0),
        0x03 => Spc700::bbs(cpu, bus, AddressingMode::DirectPage, 0),
        0x04 => Spc700::or(cpu, bus, AddressingMode::DirectPage, AddressingMode::Accumulator),
        0x05 => Spc700::or(cpu, bus, AddressingMode::Absolute, AddressingMode::Accumulator),
        0x06 => Spc700::or(cpu, bus, AddressingMode::IndirectX, AddressingMode::Accumulator),
        0x07 => Spc700::or(cpu, bus, AddressingMode::XIndirect, AddressingMode::Accumulator),
        0x08 => Spc700::or(cpu, bus, AddressingMode::Immediate, AddressingMode::Accumulator),
        0x09 => Spc700::or(cpu, bus, AddressingMode::DirectPage, AddressingMode::DirectPage),
        0x0a => Spc700::or1(cpu, bus, AddressingMode::AbsoluteBooleanBit, false),
        0x0b => Spc700::asl(cpu, bus, AddressingMode::DirectPage),
        0x0c => Spc700::asl(cpu, bus, AddressingMode::Absolute),
        0x0d => Spc700::push(cpu, bus, AddressingMode::Psw),
        0x0e => Spc700::tset1(cpu, bus, AddressingMode::Absolute),
        0x0f => Spc700::brk(cpu, bus),
        0x10 => Spc700::bpl(cpu, bus),
        0x11 => Spc700::tcall(cpu, bus, 1),
        0x12 => Spc700::clr1(cpu, bus, AddressingMode::DirectPage, 0),
        0x13 => Spc700::bbc(cpu, bus, AddressingMode::DirectPage, 0),
        0x14 => Spc700::or(cpu, bus, AddressingMode::DirectX, AddressingMode::Accumulator),
        0x15 => Spc700::or(cpu, bus, AddressingMode::AbsoluteX, AddressingMode::Accumulator),
        0x16 => Spc700::or(cpu, bus, AddressingMode::AbsoluteY, AddressingMode::Accumulator),
        0x17 => Spc700::or(cpu, bus, AddressingMode::DirectPageIndirectY, AddressingMode::Accumulator),
        0x18 => Spc700::or(cpu, bus, AddressingMode::Immediate, AddressingMode::DirectPage),
        0x19 => Spc700::or(cpu, bus, AddressingMode::IndirectY, AddressingMode::IndirectX),
        0x1a => Spc700::decw(cpu, bus),
        0x1b => Spc700::asl(cpu, bus, AddressingMode::DirectX),
        0x1c => Spc700::asl(cpu, bus, AddressingMode::Accumulator),
        0x1d => Spc700::dec(cpu, bus, AddressingMode::X),
        0x1e => Spc700::cmp(cpu, bus, AddressingMode::Absolute, AddressingMode::X),
        _ => Spc700::jmp(cpu, bus, AddressingMode::AbsoluteX),
    }
}

#[verifier::spinoff_prover]
fn execute_1<B: Bus>(cpu: &mut Cpu, bus: &mut B, op: u8)
    requires
        old(bus).inv(),
        0x20 <= op <= 0x3f,
    ensures
        kept(*old(bus), *final(bus)),
        extends(final(bus).cycles(), old(bus).cycles()),
        op_effect(op, *old(cpu), *final(cpu), old(bus).cycles(), final(bus).cycles()),
{
    match op {
        0x20 => Spc700::clrp(cpu, bus),
        0x21 => Spc700::tcall(cpu, bus, 2),
        0x22 => Spc700::set1(cpu, bus, AddressingMode::DirectPage, 1),
        0x23 => Spc700::bbs(cpu, bus, AddressingMode::DirectPage, 1),
        0x24 => Spc700::and(cpu, bus, AddressingMode::DirectPage, AddressingMode::Accumulator),
        0x25 => Spc700::and(cpu, bus, AddressingMode::Absolute, AddressingMode::Accumulator),
        0x26 => Spc700::and(cpu, bus, AddressingMode::IndirectX, AddressingMode::Accumulator),
        0x27 => Spc700::and(cpu, bus, AddressingMode::XIndirect, AddressingMode::Accumulator),
        0x28 => Spc700::and(cpu, bus, AddressingMode::Immediate, AddressingMode::Accumulator),
        0x29 => Spc700::and(cpu, bus, AddressingMode::DirectPage, AddressingMode::DirectPage),
        0x2a => Spc700::or1(cpu, bus, AddressingMode::AbsoluteBooleanBit, true),
        0x2b => Spc700::rol(cpu, bus, AddressingMode::DirectPage),
        0x2c => Spc700::rol(cpu, bus, AddressingMode::Absolute),
        0x2d => Spc700::push(cpu, bus, AddressingMode::Accumulator),
        0x2e => Spc700::cbne(cpu, bus, AddressingMode::DirectPage),
        0x2f => Spc700::bra(cpu, bus),
        0x30 => Spc700::bmi(cpu, bus),
        0x31 => Spc700::tcall(cpu, bus, 3),
        0x32 => Spc700::clr1(cpu, bus, AddressingMode::DirectPage, 1),
        0x33 => Spc700::bbc(cpu, bus, AddressingMode::DirectPage, 1),
        0x34 => Spc700::and(cpu, bus, AddressingMode::DirectX, AddressingMode::Accumulator),
        0x35 => Spc700::and(cpu, bus, AddressingMode::AbsoluteX, AddressingMode::Accumulator),
        0x36 => Spc700::and(cpu, bus, AddressingMode::AbsoluteY, AddressingMode::Accumulator),
        0x37 => Spc700::and(cpu, bus, AddressingMode::DirectPageIndirectY, AddressingMode::Accumulator),
        0x38 => Spc700::and(cpu, bus, AddressingMode::Immediate, AddressingMode::DirectPage),
        0x39 => Spc700::and(cpu, bus, AddressingMode::IndirectY, AddressingMode::IndirectX),
        0x3a => Spc700::incw(cpu, bus),
        0x3b => Spc700::rol(cpu, bus, AddressingMode::DirectX),
        0x3c => Spc700::rol(cpu, bus, AddressingMode::Accumulator),
        0x3d => Spc700::inc(cpu, bus, AddressingMode::X),
        0x3e => Spc700::cmp(cpu, bus, AddressingMode::DirectPage, AddressingMode::X),
        _ => Spc700::call(cpu, bus),
    }
}

#[verifier::spinoff_prover]
fn execute_2<B: Bus>(cpu: &mut Cpu, bus: &mut B, op: u8)
    requires
        old(bus).inv(),
        0x40 <= op <= 0x5f,
    ensures
        kept(*old(bus), *final(bus)),
        extends(final(bus).cycles(), old(bus).cycles()),
        op_effect(op, *old(cpu), *final(cpu), old(bus).cycles(), final(bus).cycles()),
{
    match op {
        0x40 => Spc700::setp(cpu, bus),
        0x41 => Spc700::tcall(cpu, bus, 4),
        0x42 => Spc700::set1(cpu, bus, AddressingMode::DirectPage, 2),
        0x43 => Spc700::bbs(cpu, bus, AddressingMode::DirectPage, 2),
        0x44 => Spc700::eor(cpu, bus, AddressingMode::DirectPage, AddressingMode::Accumulator),
        0x45 => Spc700::eor(cpu, bus, AddressingMode::Absolute, AddressingMode::Accumulator),
        0x46 => Spc700::eor(cpu, bus, AddressingMode::IndirectX, AddressingMode::Accumulator),
        0x47 => Spc700::eor(cpu, bus, AddressingMode::XIndirect, AddressingMode::Accumulator),
        0x48 => Spc700::eor(cpu, bus, AddressingMode::Immediate, AddressingMode::Accumulator),
        0x49 => Spc700::eor(cpu, bus, AddressingMode::DirectPage, AddressingMode::DirectPage),
        0x4a => Spc700::and1(cpu, bus, AddressingMode::AbsoluteBooleanBit, false),
        0x4b => Spc700::lsr(cpu, bus, AddressingMode::DirectPage),
        0x4c => Spc700::lsr(cpu, bus, AddressingMode::Absolute),
        0x4d => Spc700::push(cpu, bus, AddressingMode::X),
        0x4e => Spc700::tclr1(cpu, bus, AddressingMode::Absolute),
        0x4f => Spc700::pcall(cpu, bus),
        0x50 => Spc700::bvc(cpu, bus),
        0x51 => Spc700::tcall(cpu, bus, 5),
        0x52 => Spc700::clr1(cpu, bus, AddressingMode::DirectPage, 2),
        0x53 => Spc700::bbc(cpu, bus, AddressingMode::DirectPage, 2),
        0x54 => Spc700::eor(cpu, bus, AddressingMode::DirectX, AddressingMode::Accumulator),
        0x55 => Spc700::eor(cpu, bus, AddressingMode::AbsoluteX, AddressingMode::Accumulator),
        0x56 => Spc700::eor(cpu, bus, AddressingMode::AbsoluteY, AddressingMode::Accumulator),
        0x57 => Spc700::eor(cpu, bus, AddressingMode::DirectPageIndirectY, AddressingMode::Accumulator),
        0x58 => Spc700::eor(cpu, bus, AddressingMode::Immediate, AddressingMode::DirectPage),
        0x59 => Spc700::eor(cpu, bus, AddressingMode::IndirectY, AddressingMode::IndirectX),
        0x5a => Spc700::cmpw(cpu, bus),
        0x5b => Spc700::lsr(cpu, bus, AddressingMode::DirectX),
        0x5c => Spc700::lsr(cpu, bus, AddressingMode::Accumulator),
        0x5d => Spc700::mov(cpu, bus, AddressingMode::Accumulator, AddressingMode::X),
        0x5e => Spc700::cmp(cpu, bus, AddressingMode::Absolute, AddressingMode::Y),
        _ => Spc700::jmp(cpu, bus, AddressingMode::Absolute),
    }
}

#[verifier::spinoff_prover]
fn execute_3<B: Bus>(cpu: &mut Cpu, bus: &mut B, op: u8)
    requires
        old(bus).inv(),
        0x60 <= op <= 0x7f,
    ensures
        kept(*old(bus), *final(bus)),
        extends(final(bus).cycles(), old(bus).cycles()),
        op_effect(op, *old(cpu), *final(cpu), old(bus).cycles(), final(bus).cycles()),
{
    match op {
        0x60 => Spc700::clrc(cpu, bus),
        0x61 => Spc700::tcall(cpu, bus, 6),
        0x62 => Spc700::set1(cpu, bus, AddressingMode::DirectPage, 3),
        0x63 => Spc700::bbs(cpu, bus, AddressingMode::DirectPage, 3),
        0x64 => Spc700::cmp(cpu, bus, AddressingMode::DirectPage, AddressingMode::Accumulator),
        0x65 => Spc700::cmp(cpu, bus, AddressingMode::Absolute, AddressingMode::Accumulator),
        0x66 => Spc700::cmp(cpu, bus, AddressingMode::IndirectX, AddressingMode::Accumulator),
        0x67 => Spc700::cmp(cpu, bus, AddressingMode::XIndirect, AddressingMode::Accumulator),
        0x68 => Spc700::cmp(cpu, bus, AddressingMode::Immediate, AddressingMode::Accumulator),
        0x69 => Spc700::cmp(cpu, bus, AddressingMode::DirectPage, AddressingMode::DirectPage),
        0x6a => Spc700::and1(cpu, bus, AddressingMode::AbsoluteBooleanBit, true),
        0x6b => Spc700::ror(cpu, bus, AddressingMode::DirectPage),
        0x6c => Spc700::ror(cpu, bus, AddressingMode::Absolute),
        0x6d => Spc700::push(cpu, bus, AddressingMode::Y),
        0x6e => Spc700::dbnz(cpu, bus, AddressingMode::DirectPage),
        0x6f => Spc700::ret(cpu, bus),
        0x70 => Spc700::bvs(cpu, bus),
        0x71 => Spc700::tcall(cpu, bus, 7),
        0x72 => Spc700::clr1(cpu, bus, AddressingMode::DirectPage, 3),
        0x73 => Spc700::bbc(cpu, bus, AddressingMode::DirectPage, 3),
        0x74 => Spc700::cmp(cpu, bus, AddressingMode::DirectX, AddressingMode::Accumulator),
        0x75 => Spc700::cmp(cpu, bus, AddressingMode::AbsoluteX, AddressingMode::Accumulator),
        0x76 => Spc700::cmp(cpu, bus, AddressingMode::AbsoluteY, AddressingMode::Accumulator),
        0x77 => Spc700::cmp(cpu, bus, AddressingMode::DirectPageIndirectY, AddressingMode::Accumulator),
        0x78 => Spc700::cmp(cpu, bus, AddressingMode::Immediate, AddressingMode::DirectPage),
        0x79 => Spc700::cmp(cpu, bus, AddressingMode::IndirectY, AddressingMode::IndirectX),
        0x7a => Spc700::addw(cpu, bus),
        0x7b => Spc700::ror(cpu, bus, AddressingMode::DirectX),
        0x7c => Spc700::ror(cpu, bus, AddressingMode::Accumulator),
        0x7d => Spc700::mov(cpu, bus, AddressingMode::X, AddressingMode::Accumulator),
        0x7e => Spc700::cmp(cpu, bus, AddressingMode::DirectPage, AddressingMode::Y),
        _ => Spc700::reti(cpu, bus),
    }
}

#[verifier::spinoff_prover]
fn execute_4<B: Bus>(cpu: &mut Cpu, bus: &mut B, op: u8)
    requires
        old(bus).inv(),
        0x80 <= op <= 0x9f,
    ensures
        kept(*old(bus), *final(bus)),
        extends(final(bus).cycles(), old(bus).cycles()),
        op_effect(op, *old(cpu), *final(cpu), old(bus).cycles(), final(bus).cycles()),
{
    match op {
        0x80 => Spc700::setc(cpu, bus),
        0x81 => Spc700::tcall(cpu, bus, 8),
        0x82 => Spc700::set1(cpu, bus, AddressingMode::DirectPage, 4),
        0x83 => Spc700::bbs(cpu, bus, AddressingMode::DirectPage, 4),
        0x84 => Spc700::adc(cpu, bus, AddressingMode::DirectPage, AddressingMode::Accumulator),
        0x85 => Spc700::adc(cpu, bus, AddressingMode::Absolute, AddressingMode::Accumulator),
        0x86 => Spc700::adc(cpu, bus, AddressingMode::IndirectX, AddressingMode::Accumulator),
        0x87 => Spc700::adc(cpu, bus, AddressingMode::XIndirect, AddressingMode::Accumulator),
        0x88 => Spc700::adc(cpu, bus, AddressingMode::Immediate, AddressingMode::Accumulator),
        0x89 => Spc700::adc(cpu, bus, AddressingMode::DirectPage, AddressingMode::DirectPage),
        0x8a => Spc700::eor1(cpu, bus, AddressingMode::AbsoluteBooleanBit),
        0x8b => Spc700::dec(cpu, bus, AddressingMode::DirectPage),
        0x8c => Spc700::dec(cpu, bus, AddressingMode::Absolute),
        0x8d => Spc700::mov(cpu, bus, AddressingMode::Immediate, AddressingMode::Y),
        0x8e => Spc700::pop(cpu, bus, AddressingMode::Psw),
        0x8f => Spc700::mov(cpu, bus, AddressingMode::Immediate, AddressingMode::DirectPage),
        0x90 => Spc700::bcc(cpu, bus),
        0x91 => Spc700::tcall(cpu, bus, 9),
        0x92 => Spc700::clr1(cpu, bus, AddressingMode::DirectPage, 4),
        0x93 => Spc700::bbc(cpu, bus, AddressingMode::DirectPage, 4),
        0x94 => Spc700::adc(cpu, bus, AddressingMode::DirectX, AddressingMode::Accumulator),
        0x95 => Spc700::adc(cpu, bus, AddressingMode::AbsoluteX, AddressingMode::Accumulator),
        0x96 => Spc700::adc(cpu, bus, AddressingMode::AbsoluteY, AddressingMode::Accumulator),
        0x97 => Spc700::adc(cpu, bus, AddressingMode::DirectPageIndirectY, AddressingMode::Accumulator),
        0x98 => Spc700::adc(cpu, bus, AddressingMode::Immediate, AddressingMode::DirectPage),
        0x99 => Spc700::adc(cpu, bus, AddressingMode::IndirectY, AddressingMode::IndirectX),
        0x9a => Spc700::subw(cpu, bus),
        0x9b => Spc700::dec(cpu, bus, AddressingMode::DirectX),
        0x9c => Spc700::dec(cpu, bus, AddressingMode::Accumulator),
        0x9d => Spc700::mov(cpu, bus, AddressingMode::Sp, AddressingMode::X),
        0x9e => Spc700::div(cpu, bus),
        _ => Spc700::xcn(cpu, bus),
    }
}

#[verifier::spinoff_prover]
fn execute_5<B: Bus>(cpu: &mut Cpu, bus: &mut B, op: u8)
    requires
        old(bus).inv(),
        0xa0 <= op <= 0xbf,
    ensures
        kept(*old(bus), *final(bus)),
        extends(final(bus).cycles(), old(bus).cycles()),
        op_effect(op, *old(cpu), *final(cpu), old(bus).cycles(), final(bus).cycles()),
{
    match op {
        0xa0 => Spc700::ei(cpu, bus),
        0xa1 => Spc700::tcall(cpu, bus, 10),
        0xa2 => Spc700::set1(cpu, bus, AddressingMode::DirectPage, 5),
        0xa3 => Spc700::bbs(cpu, bus, AddressingMode::DirectPage, 5),
        0xa4 => Spc700::sbc(cpu, bus, AddressingMode::DirectPage, AddressingMode::Accumulator),
        0xa5 => Spc700::sbc(cpu, bus, AddressingMode::Absolute, AddressingMode::Accumulator),
        0xa6 => Spc700::sbc(cpu, bus, AddressingMode::IndirectX, AddressingMode::Accumulator),
        0xa7 => Spc700::sbc(cpu, bus, AddressingMode::XIndirect, AddressingMode::Accumulator),
        0xa8 => Spc700::sbc(cpu, bus, AddressingMode::Immediate, AddressingMode::Accumulator),
        0xa9 => Spc700::sbc(cpu, bus, AddressingMode::DirectPage, AddressingMode::DirectPage),
        0xaa => Spc700::mov1(cpu, bus, AddressingMode::AbsoluteBooleanBit, true),
        0xab => Spc700::inc(cpu, bus, AddressingMode::DirectPage),
        0xac => Spc700::inc(cpu, bus, AddressingMode::Absolute),
        0xad => Spc700::cmp(cpu, bus, AddressingMode::Immediate, AddressingMode::Y),
        0xae => Spc700::pop(cpu, bus, AddressingMode::Accumulator),
        0xaf => Spc700::mov(cpu, bus, AddressingMode::Accumulator, AddressingMode::DirectXPostIncrement),
        0xb0 => Spc700::bcs(cpu, bus),
        0xb1 => Spc700::tcall(cpu, bus, 11),
        0xb2 => Spc700::clr1(cpu, bus, AddressingMode::DirectPage, 5),
        0xb3 => Spc700::bbc(cpu, bus, AddressingMode::DirectPage, 5),
        0xb4 => Spc700::sbc(cpu, bus, AddressingMode::DirectX, AddressingMode::Accumulator),
        0xb5 => Spc700::sbc(cpu, bus, AddressingMode::AbsoluteX, AddressingMode::Accumulator),
        0xb6 => Spc700::sbc(cpu, bus, AddressingMode::AbsoluteY, AddressingMode::Accumulator),
        0xb7 => Spc700::sbc(cpu, bus, AddressingMode::DirectPageIndirectY, AddressingMode::Accumulator),
        0xb8 => Spc700::sbc(cpu, bus, AddressingMode::Immediate, AddressingMode::DirectPage),
        0xb9 => Spc700::sbc(cpu, bus, AddressingMode::IndirectY, AddressingMode::IndirectX),
        0xba => Spc700::movw(cpu, bus, true),
        0xbb => Spc700::inc(cpu, bus, AddressingMode::DirectX),
        0xbc => Spc700::inc(cpu, bus, AddressingMode::Accumulator),
        0xbd => Spc700::mov(cpu, bus, AddressingMode::X, AddressingMode::Sp),
        0xbe => Spc700::das(cpu, bus),
        _ => Spc700::mov(cpu, bus, AddressingMode::DirectXPostIncrement, AddressingMode::Accumulator),
    }
}

} // verus!
