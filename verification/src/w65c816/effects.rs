use vstd::prelude::*;

use super::addressing::AddressingMode;
use super::cpu::{interrupt_cpu, interrupt_trace, jmp_cpu, jmp_trace, nz_spec, Cpu, Status, Vector};
use super::functions::{
    bit_p, move_sp, pull_reads, push_writes, rmw_cpu, rmw_trace, sext, store_len, store_trace, width, with_p, RmwOp,
};
use super::instructions::{
    adc_cpu, at_width, block_move_spec, compared, emulation_cpu, load_a, load_x, load_y, logic, sbc_cpu, set_status,
};
use super::regsize::modulus;
use super::trace::{advance, d, data_value, imm_reads, io_if, operand_len, operand_trace, operand_value, w16};
use super::functions::addr_of;
use super::trace::{data_of, rd, wr};
use crate::bus::BusCycle;
use crate::utils::bits::with_bit;
use crate::utils::int_traits::{hi, lo, word};

verus! {

/// The instructions of the processor, one per mnemonic.
#[derive(Clone, Copy, PartialEq, Eq, Structural)]
pub enum Instr {
    Adc,
    Sbc,
    And,
    Ora,
    Eor,
    Lda,
    Ldx,
    Ldy,
    Cmp,
    Cpx,
    Cpy,
    Bit,
    Asl,
    Lsr,
    Rol,
    Ror,
    Dec,
    Inc,
    Trb,
    Tsb,
    Sta,
    Stx,
    Sty,
    Stz,
    Bcc,
    Bcs,
    Beq,
    Bne,
    Bmi,
    Bpl,
    Bvc,
    Bvs,
    Bra,
    Clc,
    Cld,
    Cli,
    Clv,
    Sec,
    Sed,
    Sei,
    Dex,
    Dey,
    Inx,
    Iny,
    Tax,
    Tay,
    Txy,
    Tyx,
    Tsx,
    Txa,
    Tya,
    Tcd,
    Tdc,
    Tsc,
    Tcs,
    Txs,
    Pha,
    Phx,
    Phy,
    Phb,
    Phd,
    Phk,
    Php,
    Pea,
    Pei,
    Per,
    Pla,
    Plx,
    Ply,
    Plb,
    Pld,
    Plp,
    Rti,
    Rtl,
    Rts,
    Rep,
    Sep,
    Brk,
    Cop,
    Brl,
    Jmp,
    Jml,
    Jsl,
    Jsr,
    Mvn,
    Mvp,
    Nop,
    Stp,
    Wai,
    Wdm,
    Xba,
    Xce,
}

/// The instruction and addressing mode of opcodes $00-$3F.
pub open spec fn decode_0(op: u8) -> (Instr, AddressingMode) {
    match op {
        0x00 => (Instr::Brk, AddressingMode::Immediate),
        0x01 => (Instr::Ora, AddressingMode::IndirectX),
        0x02 => (Instr::Cop, AddressingMode::Immediate),
        0x03 => (Instr::Ora, AddressingMode::StackRelative),
        0x04 => (Instr::Tsb, AddressingMode::Direct),
        0x05 => (Instr::Ora, AddressingMode::Direct),
        0x06 => (Instr::Asl, AddressingMode::Direct),
        0x07 => (Instr::Ora, AddressingMode::IndirectLong),
        0x08 => (Instr::Php, AddressingMode::Implied),
        0x09 => (Instr::Ora, AddressingMode::Immediate),
        0x0a => (Instr::Asl, AddressingMode::Accumulator),
        0x0b => (Instr::Phd, AddressingMode::Implied),
        0x0c => (Instr::Tsb, AddressingMode::Absolute),
        0x0d => (Instr::Ora, AddressingMode::Absolute),
        0x0e => (Instr::Asl, AddressingMode::Absolute),
        0x0f => (Instr::Ora, AddressingMode::AbsoluteLong),
        0x10 => (Instr::Bpl, AddressingMode::Relative),
        0x11 => (Instr::Ora, AddressingMode::IndirectY),
        0x12 => (Instr::Ora, AddressingMode::Indirect),
        0x13 => (Instr::Ora, AddressingMode::StackRelIndirectY),
        0x14 => (Instr::Trb, AddressingMode::Direct),
        0x15 => (Instr::Ora, AddressingMode::DirectX),
        0x16 => (Instr::Asl, AddressingMode::DirectX),
        0x17 => (Instr::Ora, AddressingMode::IndirectLongY),
        0x18 => (Instr::Clc, AddressingMode::Implied),
        0x19 => (Instr::Ora, AddressingMode::AbsoluteY),
        0x1a => (Instr::Inc, AddressingMode::Accumulator),
        0x1b => (Instr::Tcs, AddressingMode::Implied),
        0x1c => (Instr::Trb, AddressingMode::Absolute),
        0x1d => (Instr::Ora, AddressingMode::AbsoluteX),
        0x1e => (Instr::Asl, AddressingMode::AbsoluteX),
        0x1f => (Instr::Ora, AddressingMode::AbsoluteLongX),
        0x20 => (Instr::Jsr, AddressingMode::Absolute),
        0x21 => (Instr::And, AddressingMode::IndirectX),
        0x22 => (Instr::Jsl, AddressingMode::AbsoluteLong),
        0x23 => (Instr::And, AddressingMode::StackRelative),
        0x24 => (Instr::Bit, AddressingMode::Direct),
        0x25 => (Instr::And, AddressingMode::Direct),
        0x26 => (Instr::Rol, AddressingMode::Direct),
        0x27 => (Instr::And, AddressingMode::IndirectLong),
        0x28 => (Instr::Plp, AddressingMode::Implied),
        0x29 => (Instr::And, AddressingMode::Immediate),
        0x2a => (Instr::Rol, AddressingMode::Accumulator),
        0x2b => (Instr::Pld, AddressingMode::Implied),
        0x2c => (Instr::Bit, AddressingMode::Absolute),
        0x2d => (Instr::And, AddressingMode::Absolute),
        0x2e => (Instr::Rol, AddressingMode::Absolute),
        0x2f => (Instr::And, AddressingMode::AbsoluteLong),
        0x30 => (Instr::Bmi, AddressingMode::Relative),
        0x31 => (Instr::And, AddressingMode::IndirectY),
        0x32 => (Instr::And, AddressingMode::Indirect),
        0x33 => (Instr::And, AddressingMode::StackRelIndirectY),
        0x34 => (Instr::Bit, AddressingMode::DirectX),
        0x35 => (Instr::And, AddressingMode::DirectX),
        0x36 => (Instr::Rol, AddressingMode::DirectX),
        0x37 => (Instr::And, AddressingMode::IndirectLongY),
        0x38 => (Instr::Sec, AddressingMode::Implied),
        0x39 => (Instr::And, AddressingMode::AbsoluteY),
        0x3a => (Instr::Dec, AddressingMode::Accumulator),
        0x3b => (Instr::Tsc, AddressingMode::Implied),
        0x3c => (Instr::Bit, AddressingMode::AbsoluteX),
        0x3d => (Instr::And, AddressingMode::AbsoluteX),
        0x3e => (Instr::Rol, AddressingMode::AbsoluteX),
        _ => (Instr::And, AddressingMode::AbsoluteLongX),
    }
}

/// The instruction and addressing mode of opcodes $40-$7F.
pub open spec fn decode_1(op: u8) -> (Instr, AddressingMode) {
    match op {
        0x40 => (Instr::Rti, AddressingMode::Implied),
        0x41 => (Instr::Eor, AddressingMode::IndirectX),
        0x42 => (Instr::Wdm, AddressingMode::Immediate),
        0x43 => (Instr::Eor, AddressingMode::StackRelative),
        0x44 => (Instr::Mvp, AddressingMode::BlockMove),
        0x45 => (Instr::Eor, AddressingMode::Direct),
        0x46 => (Instr::Lsr, AddressingMode::Direct),
        0x47 => (Instr::Eor, AddressingMode::IndirectLong),
        0x48 => (Instr::Pha, AddressingMode::Implied),
        0x49 => (Instr::Eor, AddressingMode::Immediate),
        0x4a => (Instr::Lsr, AddressingMode::Accumulator),
        0x4b => (Instr::Phk, AddressingMode::Implied),
        0x4c => (Instr::Jmp, AddressingMode::Absolute),
        0x4d => (Instr::Eor, AddressingMode::Absolute),
        0x4e => (Instr::Lsr, AddressingMode::Absolute),
        0x4f => (Instr::Eor, AddressingMode::AbsoluteLong),
        0x50 => (Instr::Bvc, AddressingMode::Relative),
        0x51 => (Instr::Eor, AddressingMode::IndirectY),
        0x52 => (Instr::Eor, AddressingMode::Indirect),
        0x53 => (Instr::Eor, AddressingMode::StackRelIndirectY),
        0x54 => (Instr::Mvn, AddressingMode::BlockMove),
        0x55 => (Instr::Eor, AddressingMode::DirectX),
        0x56 => (Instr::Lsr, AddressingMode::DirectX),
        0x57 => (Instr::Eor, AddressingMode::IndirectLongY),
        0x58 => (Instr::Cli, AddressingMode::Implied),
        0x59 => (Instr::Eor, AddressingMode::AbsoluteY),
        0x5a => (Instr::Phy, AddressingMode::Implied),
        0x5b => (Instr::Tcd, AddressingMode::Implied),
        0x5c => (Instr::Jmp, AddressingMode::AbsoluteLong),
        0x5d => (Instr::Eor, AddressingMode::AbsoluteX),
        0x5e => (Instr::Lsr, AddressingMode::AbsoluteX),
        0x5f => (Instr::Eor, AddressingMode::AbsoluteLongX),
        0x60 => (Instr::Rts, AddressingMode::Implied),
        0x61 => (Instr::Adc, AddressingMode::IndirectX),
        0x62 => (Instr::Per, AddressingMode::RelativeLong),
        0x63 => (Instr::Adc, AddressingMode::StackRelative),
        0x64 => (Instr::Stz, AddressingMode::Direct),
        0x65 => (Instr::Adc, AddressingMode::Direct),
        0x66 => (Instr::Ror, AddressingMode::Direct),
        0x67 => (Instr::Adc, AddressingMode::IndirectLong),
        0x68 => (Instr::Pla, AddressingMode::Implied),
        0x69 => (Instr::Adc, AddressingMode::Immediate),
        0x6a => (Instr::Ror, AddressingMode::Accumulator),
        0x6b => (Instr::Rtl, AddressingMode::Implied),
        0x6c => (Instr::Jmp, AddressingMode::AbsoluteIndirect),
        0x6d => (Instr::Adc, AddressingMode::Absolute),
        0x6e => (Instr::Ror, AddressingMode::Absolute),
        0x6f => (Instr::Adc, AddressingMode::AbsoluteLong),
        0x70 => (Instr::Bvs, AddressingMode::Relative),
        0x71 => (Instr::Adc, AddressingMode::IndirectY),
        0x72 => (Instr::Adc, AddressingMode::Indirect),
        0x73 => (Instr::Adc, AddressingMode::StackRelIndirectY),
        0x74 => (Instr::Stz, AddressingMode::DirectX),
        0x75 => (Instr::Adc, AddressingMode::DirectX),
        0x76 => (Instr::Ror, AddressingMode::DirectX),
        0x77 => (Instr::Adc, AddressingMode::IndirectLongY),
        0x78 => (Instr::Sei, AddressingMode::Implied),
        0x79 => (Instr::Adc, AddressingMode::AbsoluteY),
        0x7a => (Instr::Ply, AddressingMode::Implied),
        0x7b => (Instr::Tdc, AddressingMode::Implied),
        0x7c => (Instr::Jmp, AddressingMode::AbsoluteIndirectX),
        0x7d => (Instr::Adc, AddressingMode::AbsoluteX),
        0x7e => (Instr::Ror, AddressingMode::AbsoluteX),
        _ => (Instr::Adc, AddressingMode::AbsoluteLongX),
    }
}

/// The instruction and addressing mode of opcodes $80-$BF.
pub open spec fn decode_2(op: u8) -> (Instr, AddressingMode) {
    match op {
        0x80 => (Instr::Bra, AddressingMode::Relative),
        0x81 => (Instr::Sta, AddressingMode::IndirectX),
        0x82 => (Instr::Brl, AddressingMode::RelativeLong),
        0x83 => (Instr::Sta, AddressingMode::StackRelative),
        0x84 => (Instr::Sty, AddressingMode::Direct),
        0x85 => (Instr::Sta, AddressingMode::Direct),
        0x86 => (Instr::Stx, AddressingMode::Direct),
        0x87 => (Instr::Sta, AddressingMode::IndirectLong),
        0x88 => (Instr::Dey, AddressingMode::Implied),
        0x89 => (Instr::Bit, AddressingMode::Immediate),
        0x8a => (Instr::Txa, AddressingMode::Implied),
        0x8b => (Instr::Phb, AddressingMode::Implied),
        0x8c => (Instr::Sty, AddressingMode::Absolute),
        0x8d => (Instr::Sta, AddressingMode::Absolute),
        0x8e => (Instr::Stx, AddressingMode::Absolute),
        0x8f => (Instr::Sta, AddressingMode::AbsoluteLong),
        0x90 => (Instr::Bcc, AddressingMode::Relative),
        0x91 => (Instr::Sta, AddressingMode::IndirectY),
        0x92 => (Instr::Sta, AddressingMode::Indirect),
        0x93 => (Instr::Sta, AddressingMode::StackRelIndirectY),
        0x94 => (Instr::Sty, AddressingMode::DirectX),
        0x95 => (Instr::Sta, AddressingMode::DirectX),
        0x96 => (Instr::Stx, AddressingMode::DirectY),
        0x97 => (Instr::Sta, AddressingMode::IndirectLongY),
        0x98 => (Instr::Tya, AddressingMode::Implied),
        0x99 => (Instr::Sta, AddressingMode::AbsoluteY),
        0x9a => (Instr::Txs, AddressingMode::Implied),
        0x9b => (Instr::Txy, AddressingMode::Implied),
        0x9c => (Instr::Stz, AddressingMode::Absolute),
        0x9d => (Instr::Sta, AddressingMode::AbsoluteX),
        0x9e => (Instr::Stz, AddressingMode::AbsoluteX),
        0x9f => (Instr::Sta, AddressingMode::AbsoluteLongX),
        0xa0 => (Instr::Ldy, AddressingMode::Immediate),
        0xa1 => (Instr::Lda, AddressingMode::IndirectX),
        0xa2 => (Instr::Ldx, AddressingMode::Immediate),
        0xa3 => (Instr::Lda, AddressingMode::StackRelative),
        0xa4 => (Instr::Ldy, AddressingMode::Direct),
        0xa5 => (Instr::Lda, AddressingMode::Direct),
        0xa6 => (Instr::Ldx, AddressingMode::Direct),
        0xa7 => (Instr::Lda, AddressingMode::IndirectLong),
        0xa8 => (Instr::Tay, AddressingMode::Implied),
        0xa9 => (Instr::Lda, AddressingMode::Immediate),
        0xaa => (Instr::Tax, AddressingMode::Implied),
        0xab => (Instr::Plb, AddressingMode::Implied),
        0xac => (Instr::Ldy, AddressingMode::Absolute),
        0xad => (Instr::Lda, AddressingMode::Absolute),
        0xae => (Instr::Ldx, AddressingMode::Absolute),
        0xaf => (Instr::Lda, AddressingMode::AbsoluteLong),
        0xb0 => (Instr::Bcs, AddressingMode::Relative),
        0xb1 => (Instr::Lda, AddressingMode::IndirectY),
        0xb2 => (Instr::Lda, AddressingMode::Indirect),
        0xb3 => (Instr::Lda, AddressingMode::StackRelIndirectY),
        0xb4 => (Instr::Ldy, AddressingMode::DirectX),
        0xb5 => (Instr::Lda, AddressingMode::DirectX),
        0xb6 => (Instr::Ldx, AddressingMode::DirectY),
        0xb7 => (Instr::Lda, AddressingMode::IndirectLongY),
        0xb8 => (Instr::Clv, AddressingMode::Implied),
        0xb9 => (Instr::Lda, AddressingMode::AbsoluteY),
        0xba => (Instr::Tsx, AddressingMode::Implied),
        0xbb => (Instr::Tyx, AddressingMode::Implied),
        0xbc => (Instr::Ldy, AddressingMode::AbsoluteX),
        0xbd => (Instr::Lda, AddressingMode::AbsoluteX),
        0xbe => (Instr::Ldx, AddressingMode::AbsoluteY),
        _ => (Instr::Lda, AddressingMode::AbsoluteLongX),
    }
}

/// The instruction and addressing mode of opcodes $C0-$FF.
pub open spec fn decode_3(op: u8) -> (Instr, AddressingMode) {
    match op {
        0xc0 => (Instr::Cpy, AddressingMode::Immediate),
        0xc1 => (Instr::Cmp, AddressingMode::IndirectX),
        0xc2 => (Instr::Rep, AddressingMode::Immediate),
        0xc3 => (Instr::Cmp, AddressingMode::StackRelative),
        0xc4 => (Instr::Cpy, AddressingMode::Direct),
        0xc5 => (Instr::Cmp, AddressingMode::Direct),
        0xc6 => (Instr::Dec, AddressingMode::Direct),
        0xc7 => (Instr::Cmp, AddressingMode::IndirectLong),
        0xc8 => (Instr::Iny, AddressingMode::Implied),
        0xc9 => (Instr::Cmp, AddressingMode::Immediate),
        0xca => (Instr::Dex, AddressingMode::Implied),
        0xcb => (Instr::Wai, AddressingMode::Implied),
        0xcc => (Instr::Cpy, AddressingMode::Absolute),
        0xcd => (Instr::Cmp, AddressingMode::Absolute),
        0xce => (Instr::Dec, AddressingMode::Absolute),
        0xcf => (Instr::Cmp, AddressingMode::AbsoluteLong),
        0xd0 => (Instr::Bne, AddressingMode::Relative),
        0xd1 => (Instr::Cmp, AddressingMode::IndirectY),
        0xd2 => (Instr::Cmp, AddressingMode::Indirect),
        0xd3 => (Instr::Cmp, AddressingMode::StackRelIndirectY),
        0xd4 => (Instr::Pei, AddressingMode::Direct),
        0xd5 => (Instr::Cmp, AddressingMode::DirectX),
        0xd6 => (Instr::Dec, AddressingMode::DirectX),
        0xd7 => (Instr::Cmp, AddressingMode::IndirectLongY),
        0xd8 => (Instr::Cld, AddressingMode::Implied),
        0xd9 => (Instr::Cmp, AddressingMode::AbsoluteY),
        0xda => (Instr::Phx, AddressingMode::Implied),
        0xdb => (Instr::Stp, AddressingMode::Implied),
        0xdc => (Instr::Jml, AddressingMode::AbsoluteIndirectLong),
        0xdd => (Instr::Cmp, AddressingMode::AbsoluteX),
        0xde => (Instr::Dec, AddressingMode::AbsoluteX),
        0xdf => (Instr::Cmp, AddressingMode::AbsoluteLongX),
        0xe0 => (Instr::Cpx, AddressingMode::Immediate),
        0xe1 => (Instr::Sbc, AddressingMode::IndirectX),
        0xe2 => (Instr::Sep, AddressingMode::Immediate),
        0xe3 => (Instr::Sbc, AddressingMode::StackRelative),
        0xe4 => (Instr::Cpx, AddressingMode::Direct),
        0xe5 => (Instr::Sbc, AddressingMode::Direct),
        0xe6 => (Instr::Inc, AddressingMode::Direct),
        0xe7 => (Instr::Sbc, AddressingMode::IndirectLong),
        0xe8 => (Instr::Inx, AddressingMode::Implied),
        0xe9 => (Instr::Sbc, AddressingMode::Immediate),
        0xea => (Instr::Nop, AddressingMode::Implied),
        0xeb => (Instr::Xba, AddressingMode::Implied),
        0xec => (Instr::Cpx, AddressingMode::Absolute),
        0xed => (Instr::Sbc, AddressingMode::Absolute),
        0xee => (Instr::Inc, AddressingMode::Absolute),
        0xef => (Instr::Sbc, AddressingMode::AbsoluteLong),
        0xf0 => (Instr::Beq, AddressingMode::Relative),
        0xf1 => (Instr::Sbc, AddressingMode::IndirectY),
        0xf2 => (Instr::Sbc, AddressingMode::Indirect),
        0xf3 => (Instr::Sbc, AddressingMode::StackRelIndirectY),
        0xf4 => (Instr::Pea, AddressingMode::Immediate),
        0xf5 => (Instr::Sbc, AddressingMode::DirectX),
        0xf6 => (Instr::Inc, AddressingMode::DirectX),
        0xf7 => (Instr::Sbc, AddressingMode::IndirectLongY),
        0xf8 => (Instr::Sed, AddressingMode::Implied),
        0xf9 => (Instr::Sbc, AddressingMode::AbsoluteY),
        0xfa => (Instr::Plx, AddressingMode::Implied),
        0xfb => (Instr::Xce, AddressingMode::Implied),
        0xfc => (Instr::Jsr, AddressingMode::AbsoluteIndirectX),
        0xfd => (Instr::Sbc, AddressingMode::AbsoluteX),
        0xfe => (Instr::Inc, AddressingMode::AbsoluteX),
        _ => (Instr::Sbc, AddressingMode::AbsoluteLongX),
    }
}

/// The instruction and addressing mode that an opcode stands for.
pub open spec fn decode(op: u8) -> (Instr, AddressingMode) {
    if op < 0x40 { decode_0(op) } else if op < 0x80 { decode_1(op) } else if op < 0xC0 { decode_2(op) } else { decode_3(op) }
}

/// What ADC does (see [`effect`]).
#[verifier::opaque]
pub open spec fn adc_effect(mode: AddressingMode, c: Cpu, f: Cpu, l0: Seq<BusCycle>, l: Seq<BusCycle>) -> bool {
    &&& l =~= l0 + operand_trace(mode, c, c.a_wide(), l, l0.len() as int)
    &&& f == adc_cpu(advance(c, operand_len(mode, c.a_wide())), operand_value(mode, c, c.a_wide(), l, l0.len() as int), c.a_wide())
}

/// What SBC does (see [`effect`]).
#[verifier::opaque]
pub open spec fn sbc_effect(mode: AddressingMode, c: Cpu, f: Cpu, l0: Seq<BusCycle>, l: Seq<BusCycle>) -> bool {
    &&& l =~= l0 + operand_trace(mode, c, c.a_wide(), l, l0.len() as int)
    &&& f == sbc_cpu(advance(c, operand_len(mode, c.a_wide())), operand_value(mode, c, c.a_wide(), l, l0.len() as int), c.a_wide())
}

/// What AND does (see [`effect`]).
#[verifier::opaque]
pub open spec fn and_effect(mode: AddressingMode, c: Cpu, f: Cpu, l0: Seq<BusCycle>, l: Seq<BusCycle>) -> bool {
    &&& l =~= l0 + operand_trace(mode, c, c.a_wide(), l, l0.len() as int)
    &&& f == load_a( advance(c, operand_len(mode, c.a_wide())), logic(0, at_width(c.accumulator, c.a_wide()) as u16, operand_value(mode, c, c.a_wide(), l, l0.len() as int) as u16), c.a_wide())
}

/// What ORA does (see [`effect`]).
#[verifier::opaque]
pub open spec fn ora_effect(mode: AddressingMode, c: Cpu, f: Cpu, l0: Seq<BusCycle>, l: Seq<BusCycle>) -> bool {
    &&& l =~= l0 + operand_trace(mode, c, c.a_wide(), l, l0.len() as int)
    &&& f == load_a( advance(c, operand_len(mode, c.a_wide())), logic(1, at_width(c.accumulator, c.a_wide()) as u16, operand_value(mode, c, c.a_wide(), l, l0.len() as int) as u16), c.a_wide())
}

/// What EOR does (see [`effect`]).
#[verifier::opaque]
pub open spec fn eor_effect(mode: AddressingMode, c: Cpu, f: Cpu, l0: Seq<BusCycle>, l: Seq<BusCycle>) -> bool {
    &&& l =~= l0 + operand_trace(mode, c, c.a_wide(), l, l0.len() as int)
    &&& f == load_a( advance(c, operand_len(mode, c.a_wide())), logic(2, at_width(c.accumulator, c.a_wide()) as u16, operand_value(mode, c, c.a_wide(), l, l0.len() as int) as u16), c.a_wide())
}

/// EOR leaves in A the bitwise exclusive OR of A and the operand at the current width: each bit
/// of the result is set exactly when it is set in one input and not the other, so EOR of a value
/// with itself gives 0, and Z is set exactly when A and the operand were equal.
pub proof fn lemma_eor_is_exclusive_or(mode: AddressingMode, c: Cpu, f: Cpu, l0: Seq<BusCycle>, l: Seq<BusCycle>)
    requires
        eor_effect(mode, c, f, l0, l),
    ensures
        ({
            let w = c.a_wide();
            let a = at_width(c.accumulator, w) as u16;
            let v = operand_value(mode, c, w, l, l0.len() as int) as u16;
            let r = at_width(f.accumulator, w) as u16;
            &&& forall|k: u16| k < (if w { 16u16 } else { 8u16 }) ==>
                ((#[trigger] (r >> k) & 1) == 1) == (((a >> k) & 1 == 1) != ((v >> k) & 1 == 1))
            &&& crate::utils::bits::bit(f.status.0, 2) == (a == v)
        }),
{
    reveal(eor_effect);
    let w = c.a_wide();
    let k0 = l0.len() as int;
    let a = at_width(c.accumulator, w) as u16;
    let vi = operand_value(mode, c, w, l, k0);
    let v = vi as u16;
    let x = logic(2, a, v);
    assert(x == (a ^ v) as int);
    let c1 = advance(c, operand_len(mode, w));
    assert(f == load_a(c1, x, w));
    if w {
        assert(0 <= vi < 0x1_0000) by {
            let j = super::trace::operand_at(mode, c, l, k0);
            assert(vi == w16(l, j));
        }
        assert(f.accumulator == (a ^ v));
        assert(at_width(f.accumulator, w) == (a ^ v) as int);
    } else {
        assert(0 <= vi < 0x100);
        assert(a < 256);
        assert((a ^ v) < 256) by (bit_vector)
            requires
                a < 256,
                v < 256,
        ;
        let y = (x as u16) as u8;
        assert(f.accumulator == word(y, hi(c.accumulator)));
        assert(y as int == (a ^ v) as int);
        assert(at_width(f.accumulator, w) == (a ^ v) as int);
    }
    let r = at_width(f.accumulator, w) as u16;
    assert(r == a ^ v);
    assert(forall|k: u16| k < 16u16 ==> ((#[trigger] ((a ^ v) >> k) & 1) == 1) == (((a >> k) & 1 == 1) != ((v >> k) & 1 == 1)))
        by (bit_vector);
    assert(((a ^ v) == 0) == (a == v)) by (bit_vector);
    crate::utils::bits::lemma_with_bit(with_bit(c1.status.0, 128, x >= super::regsize::sign_bit(w)), 2, x == 0, 2);
}

/// What LDA does (see [`effect`]).
#[verifier::opaque]
pub open spec fn lda_effect(mode: AddressingMode, c: Cpu, f: Cpu, l0: Seq<BusCycle>, l: Seq<BusCycle>) -> bool {
    &&& l =~= l0 + operand_trace(mode, c, c.a_wide(), l, l0.len() as int)
    &&& f == load_a(advance(c, operand_len(mode, c.a_wide())), operand_value(mode, c, c.a_wide(), l, l0.len() as int), c.a_wide())
}

/// What LDX does (see [`effect`]).
#[verifier::opaque]
pub open spec fn ldx_effect(mode: AddressingMode, c: Cpu, f: Cpu, l0: Seq<BusCycle>, l: Seq<BusCycle>) -> bool {
    &&& l =~= l0 + operand_trace(mode, c, c.x_wide(), l, l0.len() as int)
    &&& f == load_x(advance(c, operand_len(mode, c.x_wide())), operand_value(mode, c, c.x_wide(), l, l0.len() as int), c.x_wide())
}

/// What LDY does (see [`effect`]).
#[verifier::opaque]
pub open spec fn ldy_effect(mode: AddressingMode, c: Cpu, f: Cpu, l0: Seq<BusCycle>, l: Seq<BusCycle>) -> bool {
    &&& l =~= l0 + operand_trace(mode, c, c.x_wide(), l, l0.len() as int)
    &&& f == load_y(advance(c, operand_len(mode, c.x_wide())), operand_value(mode, c, c.x_wide(), l, l0.len() as int), c.x_wide())
}

/// What CMP does (see [`effect`]).
#[verifier::opaque]
pub open spec fn cmp_effect(mode: AddressingMode, c: Cpu, f: Cpu, l0: Seq<BusCycle>, l: Seq<BusCycle>) -> bool {
    &&& compared(mode, c, f, l0, l, c.accumulator, c.a_wide())
}

/// What CPX does (see [`effect`]).
#[verifier::opaque]
pub open spec fn cpx_effect(mode: AddressingMode, c: Cpu, f: Cpu, l0: Seq<BusCycle>, l: Seq<BusCycle>) -> bool {
    &&& compared(mode, c, f, l0, l, c.index_x, c.x_wide())
}

/// What CPY does (see [`effect`]).
#[verifier::opaque]
pub open spec fn cpy_effect(mode: AddressingMode, c: Cpu, f: Cpu, l0: Seq<BusCycle>, l: Seq<BusCycle>) -> bool {
    &&& compared(mode, c, f, l0, l, c.index_y, c.x_wide())
}

/// What BIT does (see [`effect`]).
#[verifier::opaque]
pub open spec fn bit_effect(mode: AddressingMode, c: Cpu, f: Cpu, l0: Seq<BusCycle>, l: Seq<BusCycle>) -> bool {
    &&& l =~= l0 + operand_trace(mode, c, c.a_wide(), l, l0.len() as int)
    &&& f == with_p(advance(c, operand_len(mode, c.a_wide())), bit_p(c.status.0, c.accumulator, operand_value(mode, c, c.a_wide(), l, l0.len() as int) as u16, c.a_wide(), mode == AddressingMode::Immediate))
}

/// What ASL does (see [`effect`]).
#[verifier::opaque]
pub open spec fn asl_effect(mode: AddressingMode, c: Cpu, f: Cpu, l0: Seq<BusCycle>, l: Seq<BusCycle>) -> bool {
    &&& l =~= l0 + seq![BusCycle::Io(1)] + rmw_trace(mode, c, c.a_wide(), RmwOp::Asl, l, l0.len() as int + 1)
    &&& f == rmw_cpu(mode, c, c.a_wide(), RmwOp::Asl, l, l0.len() as int + 1)
}

/// What LSR does (see [`effect`]).
#[verifier::opaque]
pub open spec fn lsr_effect(mode: AddressingMode, c: Cpu, f: Cpu, l0: Seq<BusCycle>, l: Seq<BusCycle>) -> bool {
    &&& l =~= l0 + seq![BusCycle::Io(1)] + rmw_trace(mode, c, c.a_wide(), RmwOp::Lsr, l, l0.len() as int + 1)
    &&& f == rmw_cpu(mode, c, c.a_wide(), RmwOp::Lsr, l, l0.len() as int + 1)
}

/// What ROL does (see [`effect`]).
#[verifier::opaque]
pub open spec fn rol_effect(mode: AddressingMode, c: Cpu, f: Cpu, l0: Seq<BusCycle>, l: Seq<BusCycle>) -> bool {
    &&& l =~= l0 + seq![BusCycle::Io(1)] + rmw_trace(mode, c, c.a_wide(), RmwOp::Rol, l, l0.len() as int + 1)
    &&& f == rmw_cpu(mode, c, c.a_wide(), RmwOp::Rol, l, l0.len() as int + 1)
}

/// What ROR does (see [`effect`]).
#[verifier::opaque]
pub open spec fn ror_effect(mode: AddressingMode, c: Cpu, f: Cpu, l0: Seq<BusCycle>, l: Seq<BusCycle>) -> bool {
    &&& l =~= l0 + seq![BusCycle::Io(1)] + rmw_trace(mode, c, c.a_wide(), RmwOp::Ror, l, l0.len() as int + 1)
    &&& f == rmw_cpu(mode, c, c.a_wide(), RmwOp::Ror, l, l0.len() as int + 1)
}

/// What DEC does (see [`effect`]).
#[verifier::opaque]
pub open spec fn dec_effect(mode: AddressingMode, c: Cpu, f: Cpu, l0: Seq<BusCycle>, l: Seq<BusCycle>) -> bool {
    &&& l =~= l0 + seq![BusCycle::Io(1)] + rmw_trace(mode, c, c.a_wide(), RmwOp::Dec, l, l0.len() as int + 1)
    &&& f == rmw_cpu(mode, c, c.a_wide(), RmwOp::Dec, l, l0.len() as int + 1)
}

/// What INC does (see [`effect`]).
#[verifier::opaque]
pub open spec fn inc_effect(mode: AddressingMode, c: Cpu, f: Cpu, l0: Seq<BusCycle>, l: Seq<BusCycle>) -> bool {
    &&& l =~= l0 + seq![BusCycle::Io(1)] + rmw_trace(mode, c, c.a_wide(), RmwOp::Inc, l, l0.len() as int + 1)
    &&& f == rmw_cpu(mode, c, c.a_wide(), RmwOp::Inc, l, l0.len() as int + 1)
}

/// What TRB does (see [`effect`]).
#[verifier::opaque]
pub open spec fn trb_effect(mode: AddressingMode, c: Cpu, f: Cpu, l0: Seq<BusCycle>, l: Seq<BusCycle>) -> bool {
    &&& l =~= l0 + seq![BusCycle::Io(1)] + rmw_trace(mode, c, c.a_wide(), RmwOp::Trb, l, l0.len() as int + 1)
    &&& f == rmw_cpu(mode, c, c.a_wide(), RmwOp::Trb, l, l0.len() as int + 1)
}

/// What TSB does (see [`effect`]).
#[verifier::opaque]
pub open spec fn tsb_effect(mode: AddressingMode, c: Cpu, f: Cpu, l0: Seq<BusCycle>, l: Seq<BusCycle>) -> bool {
    &&& l =~= l0 + seq![BusCycle::Io(1)] + rmw_trace(mode, c, c.a_wide(), RmwOp::Tsb, l, l0.len() as int + 1)
    &&& f == rmw_cpu(mode, c, c.a_wide(), RmwOp::Tsb, l, l0.len() as int + 1)
}

/// What STA does (see [`effect`]).
#[verifier::opaque]
pub open spec fn sta_effect(mode: AddressingMode, c: Cpu, f: Cpu, l0: Seq<BusCycle>, l: Seq<BusCycle>) -> bool {
    &&& l =~= l0 + store_trace(mode, c, c.a_wide(), at_width(c.accumulator, c.a_wide()) as u16, l, l0.len() as int)
    &&& f == advance(c, store_len(mode))
}

/// What STX does (see [`effect`]).
#[verifier::opaque]
pub open spec fn stx_effect(mode: AddressingMode, c: Cpu, f: Cpu, l0: Seq<BusCycle>, l: Seq<BusCycle>) -> bool {
    &&& l =~= l0 + store_trace(mode, c, c.x_wide(), at_width(c.index_x, c.x_wide()) as u16, l, l0.len() as int)
    &&& f == advance(c, store_len(mode))
}

/// What STY does (see [`effect`]).
#[verifier::opaque]
pub open spec fn sty_effect(mode: AddressingMode, c: Cpu, f: Cpu, l0: Seq<BusCycle>, l: Seq<BusCycle>) -> bool {
    &&& l =~= l0 + store_trace(mode, c, c.x_wide(), at_width(c.index_y, c.x_wide()) as u16, l, l0.len() as int)
    &&& f == advance(c, store_len(mode))
}

/// What STZ does (see [`effect`]).
#[verifier::opaque]
pub open spec fn stz_effect(mode: AddressingMode, c: Cpu, f: Cpu, l0: Seq<BusCycle>, l: Seq<BusCycle>) -> bool {
    &&& l =~= l0 + store_trace(mode, c, c.a_wide(), at_width(0, c.a_wide()) as u16, l, l0.len() as int)
    &&& f == advance(c, store_len(mode))
}

/// What BCC does (see [`effect`]).
#[verifier::opaque]
pub open spec fn bcc_effect(mode: AddressingMode, c: Cpu, f: Cpu, l0: Seq<BusCycle>, l: Seq<BusCycle>) -> bool {
    &&& l =~= l0 + imm_reads(c, 1, l, l0.len() as int) + io_if(!c.status.carry())
    &&& f == advance(c, 1 + if !c.status.carry() { sext(d(l, l0.len() as int)) } else { 0 })
}

/// What BCS does (see [`effect`]).
#[verifier::opaque]
pub open spec fn bcs_effect(mode: AddressingMode, c: Cpu, f: Cpu, l0: Seq<BusCycle>, l: Seq<BusCycle>) -> bool {
    &&& l =~= l0 + imm_reads(c, 1, l, l0.len() as int) + io_if(c.status.carry())
    &&& f == advance(c, 1 + if c.status.carry() { sext(d(l, l0.len() as int)) } else { 0 })
}

/// What BEQ does (see [`effect`]).
#[verifier::opaque]
pub open spec fn beq_effect(mode: AddressingMode, c: Cpu, f: Cpu, l0: Seq<BusCycle>, l: Seq<BusCycle>) -> bool {
    &&& l =~= l0 + imm_reads(c, 1, l, l0.len() as int) + io_if(c.status.zero())
    &&& f == advance(c, 1 + if c.status.zero() { sext(d(l, l0.len() as int)) } else { 0 })
}

/// What BNE does (see [`effect`]).
#[verifier::opaque]
pub open spec fn bne_effect(mode: AddressingMode, c: Cpu, f: Cpu, l0: Seq<BusCycle>, l: Seq<BusCycle>) -> bool {
    &&& l =~= l0 + imm_reads(c, 1, l, l0.len() as int) + io_if(!c.status.zero())
    &&& f == advance(c, 1 + if !c.status.zero() { sext(d(l, l0.len() as int)) } else { 0 })
}

/// What BMI does (see [`effect`]).
#[verifier::opaque]
pub open spec fn bmi_effect(mode: AddressingMode, c: Cpu, f: Cpu, l0: Seq<BusCycle>, l: Seq<BusCycle>) -> bool {
    &&& l =~= l0 + imm_reads(c, 1, l, l0.len() as int) + io_if(c.status.negative())
    &&& f == advance(c, 1 + if c.status.negative() { sext(d(l, l0.len() as int)) } else { 0 })
}

/// What BPL does (see [`effect`]).
#[verifier::opaque]
pub open spec fn bpl_effect(mode: AddressingMode, c: Cpu, f: Cpu, l0: Seq<BusCycle>, l: Seq<BusCycle>) -> bool {
    &&& l =~= l0 + imm_reads(c, 1, l, l0.len() as int) + io_if(!c.status.negative())
    &&& f == advance(c, 1 + if !c.status.negative() { sext(d(l, l0.len() as int)) } else { 0 })
}

/// What BVC does (see [`effect`]).
#[verifier::opaque]
pub open spec fn bvc_effect(mode: AddressingMode, c: Cpu, f: Cpu, l0: Seq<BusCycle>, l: Seq<BusCycle>) -> bool {
    &&& l =~= l0 + imm_reads(c, 1, l, l0.len() as int) + io_if(!c.status.overflow())
    &&& f == advance(c, 1 + if !c.status.overflow() { sext(d(l, l0.len() as int)) } else { 0 })
}

/// What BVS does (see [`effect`]).
#[verifier::opaque]
pub open spec fn bvs_effect(mode: AddressingMode, c: Cpu, f: Cpu, l0: Seq<BusCycle>, l: Seq<BusCycle>) -> bool {
    &&& l =~= l0 + imm_reads(c, 1, l, l0.len() as int) + io_if(c.status.overflow())
    &&& f == advance(c, 1 + if c.status.overflow() { sext(d(l, l0.len() as int)) } else { 0 })
}

/// What BRA does (see [`effect`]).
#[verifier::opaque]
pub open spec fn bra_effect(mode: AddressingMode, c: Cpu, f: Cpu, l0: Seq<BusCycle>, l: Seq<BusCycle>) -> bool {
    &&& l =~= l0 + imm_reads(c, 1, l, l0.len() as int) + io_if(true)
    &&& f == advance(c, 1 + if true { sext(d(l, l0.len() as int)) } else { 0 })
}

/// What CLC does (see [`effect`]).
#[verifier::opaque]
pub open spec fn clc_effect(mode: AddressingMode, c: Cpu, f: Cpu, l0: Seq<BusCycle>, l: Seq<BusCycle>) -> bool {
    &&& l =~= l0.push(BusCycle::Io(1))
    &&& f == with_p(c, with_bit(c.status.0, 1, false))
}

/// What CLD does (see [`effect`]).
#[verifier::opaque]
pub open spec fn cld_effect(mode: AddressingMode, c: Cpu, f: Cpu, l0: Seq<BusCycle>, l: Seq<BusCycle>) -> bool {
    &&& l =~= l0.push(BusCycle::Io(1))
    &&& f == with_p(c, with_bit(c.status.0, 8, false))
}

/// What CLI does (see [`effect`]).
#[verifier::opaque]
pub open spec fn cli_effect(mode: AddressingMode, c: Cpu, f: Cpu, l0: Seq<BusCycle>, l: Seq<BusCycle>) -> bool {
    &&& l =~= l0.push(BusCycle::Io(1))
    &&& f == with_p(c, with_bit(c.status.0, 4, false))
}

/// What CLV does (see [`effect`]).
#[verifier::opaque]
pub open spec fn clv_effect(mode: AddressingMode, c: Cpu, f: Cpu, l0: Seq<BusCycle>, l: Seq<BusCycle>) -> bool {
    &&& l =~= l0.push(BusCycle::Io(1))
    &&& f == with_p(c, with_bit(c.status.0, 64, false))
}

/// What SEC does (see [`effect`]).
#[verifier::opaque]
pub open spec fn sec_effect(mode: AddressingMode, c: Cpu, f: Cpu, l0: Seq<BusCycle>, l: Seq<BusCycle>) -> bool {
    &&& l =~= l0.push(BusCycle::Io(1))
    &&& f == with_p(c, with_bit(c.status.0, 1, true))
}

/// What SED does (see [`effect`]).
#[verifier::opaque]
pub open spec fn sed_effect(mode: AddressingMode, c: Cpu, f: Cpu, l0: Seq<BusCycle>, l: Seq<BusCycle>) -> bool {
    &&& l =~= l0.push(BusCycle::Io(1))
    &&& f == with_p(c, with_bit(c.status.0, 8, true))
}

/// What SEI does (see [`effect`]).
#[verifier::opaque]
pub open spec fn sei_effect(mode: AddressingMode, c: Cpu, f: Cpu, l0: Seq<BusCycle>, l: Seq<BusCycle>) -> bool {
    &&& l =~= l0.push(BusCycle::Io(1))
    &&& f == with_p(c, with_bit(c.status.0, 4, true))
}

/// What DEX does (see [`effect`]).
#[verifier::opaque]
pub open spec fn dex_effect(mode: AddressingMode, c: Cpu, f: Cpu, l0: Seq<BusCycle>, l: Seq<BusCycle>) -> bool {
    &&& l =~= l0.push(BusCycle::Io(1))
    &&& f == load_x(c, (at_width(c.index_x, c.x_wide()) - 1) % modulus(c.x_wide()), c.x_wide())
}

/// What DEY does (see [`effect`]).
#[verifier::opaque]
pub open spec fn dey_effect(mode: AddressingMode, c: Cpu, f: Cpu, l0: Seq<BusCycle>, l: Seq<BusCycle>) -> bool {
    &&& l =~= l0.push(BusCycle::Io(1))
    &&& f == load_y(c, (at_width(c.index_y, c.x_wide()) - 1) % modulus(c.x_wide()), c.x_wide())
}

/// What INX does (see [`effect`]).
#[verifier::opaque]
pub open spec fn inx_effect(mode: AddressingMode, c: Cpu, f: Cpu, l0: Seq<BusCycle>, l: Seq<BusCycle>) -> bool {
    &&& l =~= l0.push(BusCycle::Io(1))
    &&& f == load_x(c, (at_width(c.index_x, c.x_wide()) + 1) % modulus(c.x_wide()), c.x_wide())
}

/// What INY does (see [`effect`]).
#[verifier::opaque]
pub open spec fn iny_effect(mode: AddressingMode, c: Cpu, f: Cpu, l0: Seq<BusCycle>, l: Seq<BusCycle>) -> bool {
    &&& l =~= l0.push(BusCycle::Io(1))
    &&& f == load_y(c, (at_width(c.index_y, c.x_wide()) + 1) % modulus(c.x_wide()), c.x_wide())
}

/// What TAX does (see [`effect`]).
#[verifier::opaque]
pub open spec fn tax_effect(mode: AddressingMode, c: Cpu, f: Cpu, l0: Seq<BusCycle>, l: Seq<BusCycle>) -> bool {
    &&& l =~= l0.push(BusCycle::Io(1))
    &&& f == load_x(c, at_width(c.accumulator, c.x_wide()), c.x_wide())
}

/// What TAY does (see [`effect`]).
#[verifier::opaque]
pub open spec fn tay_effect(mode: AddressingMode, c: Cpu, f: Cpu, l0: Seq<BusCycle>, l: Seq<BusCycle>) -> bool {
    &&& l =~= l0.push(BusCycle::Io(1))
    &&& f == load_y(c, at_width(c.accumulator, c.x_wide()), c.x_wide())
}

/// What TXY does (see [`effect`]).
#[verifier::opaque]
pub open spec fn txy_effect(mode: AddressingMode, c: Cpu, f: Cpu, l0: Seq<BusCycle>, l: Seq<BusCycle>) -> bool {
    &&& l =~= l0.push(BusCycle::Io(1))
    &&& f == load_y(c, at_width(c.index_x, c.x_wide()), c.x_wide())
}

/// What TYX does (see [`effect`]).
#[verifier::opaque]
pub open spec fn tyx_effect(mode: AddressingMode, c: Cpu, f: Cpu, l0: Seq<BusCycle>, l: Seq<BusCycle>) -> bool {
    &&& l =~= l0.push(BusCycle::Io(1))
    &&& f == load_x(c, at_width(c.index_y, c.x_wide()), c.x_wide())
}

/// What TSX does (see [`effect`]).
#[verifier::opaque]
pub open spec fn tsx_effect(mode: AddressingMode, c: Cpu, f: Cpu, l0: Seq<BusCycle>, l: Seq<BusCycle>) -> bool {
    &&& l =~= l0.push(BusCycle::Io(1))
    &&& f == if c.x_wide() { load_x(c, c.stack_pointer as int, true) } else { Cpu { index_x: (c.stack_pointer % 256) as u16, status: Status(nz_spec(c.status.0, c.stack_pointer as int % 256, false)), ..c } }
}

/// What TXA does (see [`effect`]).
#[verifier::opaque]
pub open spec fn txa_effect(mode: AddressingMode, c: Cpu, f: Cpu, l0: Seq<BusCycle>, l: Seq<BusCycle>) -> bool {
    &&& l =~= l0.push(BusCycle::Io(1))
    &&& f == if c.a_wide() { Cpu { accumulator: if c.x_wide() { c.index_x } else { (c.index_x % 256) as u16 }, status: Status(nz_spec(c.status.0, c.index_x as int, true)), ..c } } else { load_a(c, c.index_x as int % 256, false) }
}

/// What TYA does (see [`effect`]).
#[verifier::opaque]
pub open spec fn tya_effect(mode: AddressingMode, c: Cpu, f: Cpu, l0: Seq<BusCycle>, l: Seq<BusCycle>) -> bool {
    &&& l =~= l0.push(BusCycle::Io(1))
    &&& f == if c.a_wide() { Cpu { accumulator: if c.x_wide() { c.index_y } else { (c.index_y % 256) as u16 }, status: Status(nz_spec(c.status.0, c.index_y as int, true)), ..c } } else { load_a(c, c.index_y as int % 256, false) }
}

/// What TCD does (see [`effect`]).
#[verifier::opaque]
pub open spec fn tcd_effect(mode: AddressingMode, c: Cpu, f: Cpu, l0: Seq<BusCycle>, l: Seq<BusCycle>) -> bool {
    &&& l =~= l0.push(BusCycle::Io(1))
    &&& f == (Cpu { dpr: c.accumulator, status: Status(nz_spec(c.status.0, c.accumulator as int, true)), ..c })
}

/// What TDC does (see [`effect`]).
#[verifier::opaque]
pub open spec fn tdc_effect(mode: AddressingMode, c: Cpu, f: Cpu, l0: Seq<BusCycle>, l: Seq<BusCycle>) -> bool {
    &&& l =~= l0.push(BusCycle::Io(1))
    &&& f == (Cpu { accumulator: c.dpr, status: Status(nz_spec(c.status.0, c.dpr as int, true)), ..c })
}

/// What TSC does (see [`effect`]).
#[verifier::opaque]
pub open spec fn tsc_effect(mode: AddressingMode, c: Cpu, f: Cpu, l0: Seq<BusCycle>, l: Seq<BusCycle>) -> bool {
    &&& l =~= l0.push(BusCycle::Io(1))
    &&& f == (Cpu { accumulator: c.stack_pointer, status: Status(nz_spec(c.status.0, c.stack_pointer as int, true)), ..c })
}

/// The stack pointer that TCS or TXS sets from `v`: all 16 bits, but in emulation mode only
/// the low byte, the high byte staying 0x01.
pub open spec fn stack_from(c: Cpu, v: u16) -> u16 {
    if c.emulation_mode { (0x100 + v % 256) as u16 } else { v }
}

/// What TCS does (see [`effect`]).
#[verifier::opaque]
pub open spec fn tcs_effect(mode: AddressingMode, c: Cpu, f: Cpu, l0: Seq<BusCycle>, l: Seq<BusCycle>) -> bool {
    &&& l =~= l0.push(BusCycle::Io(1))
    &&& f == (Cpu { stack_pointer: stack_from(c, c.accumulator), ..c })
}

/// What TXS does (see [`effect`]).
#[verifier::opaque]
pub open spec fn txs_effect(mode: AddressingMode, c: Cpu, f: Cpu, l0: Seq<BusCycle>, l: Seq<BusCycle>) -> bool {
    &&& l =~= l0.push(BusCycle::Io(1))
    &&& f == (Cpu { stack_pointer: stack_from(c, c.index_x), ..c })
}

/// What PHA does (see [`effect`]).
#[verifier::opaque]
pub open spec fn pha_effect(mode: AddressingMode, c: Cpu, f: Cpu, l0: Seq<BusCycle>, l: Seq<BusCycle>) -> bool {
    &&& l =~= l0.push(BusCycle::Io(1)) + push_writes(c.stack_pointer, at_width(c.accumulator, c.a_wide()) as u16, c.a_wide())
    &&& f == move_sp(c, -width(c.a_wide()))
}

/// What PHX does (see [`effect`]).
#[verifier::opaque]
pub open spec fn phx_effect(mode: AddressingMode, c: Cpu, f: Cpu, l0: Seq<BusCycle>, l: Seq<BusCycle>) -> bool {
    &&& l =~= l0.push(BusCycle::Io(1)) + push_writes(c.stack_pointer, at_width(c.index_x, c.x_wide()) as u16, c.x_wide())
    &&& f == move_sp(c, -width(c.x_wide()))
}

/// What PHY does (see [`effect`]).
#[verifier::opaque]
pub open spec fn phy_effect(mode: AddressingMode, c: Cpu, f: Cpu, l0: Seq<BusCycle>, l: Seq<BusCycle>) -> bool {
    &&& l =~= l0.push(BusCycle::Io(1)) + push_writes(c.stack_pointer, at_width(c.index_y, c.x_wide()) as u16, c.x_wide())
    &&& f == move_sp(c, -width(c.x_wide()))
}

/// What PHB does (see [`effect`]).
#[verifier::opaque]
pub open spec fn phb_effect(mode: AddressingMode, c: Cpu, f: Cpu, l0: Seq<BusCycle>, l: Seq<BusCycle>) -> bool {
    &&& l =~= l0.push(BusCycle::Io(1)) + push_writes(c.stack_pointer, c.dbr as u16, false)
    &&& f == move_sp(c, -width(false))
}

/// What PHD does (see [`effect`]).
#[verifier::opaque]
pub open spec fn phd_effect(mode: AddressingMode, c: Cpu, f: Cpu, l0: Seq<BusCycle>, l: Seq<BusCycle>) -> bool {
    &&& l =~= l0.push(BusCycle::Io(1)) + push_writes(c.stack_pointer, c.dpr as u16, true)
    &&& f == move_sp(c, -width(true))
}

/// What PHK does (see [`effect`]).
#[verifier::opaque]
pub open spec fn phk_effect(mode: AddressingMode, c: Cpu, f: Cpu, l0: Seq<BusCycle>, l: Seq<BusCycle>) -> bool {
    &&& l =~= l0.push(BusCycle::Io(1)) + push_writes(c.stack_pointer, c.pbr as u16, false)
    &&& f == move_sp(c, -width(false))
}

/// What PHP does (see [`effect`]).
#[verifier::opaque]
pub open spec fn php_effect(mode: AddressingMode, c: Cpu, f: Cpu, l0: Seq<BusCycle>, l: Seq<BusCycle>) -> bool {
    &&& l =~= l0.push(BusCycle::Io(1)) + push_writes(c.stack_pointer, c.status.0 as u16, false)
    &&& f == move_sp(c, -1)
}

/// What PEA does (see [`effect`]).
#[verifier::opaque]
pub open spec fn pea_effect(mode: AddressingMode, c: Cpu, f: Cpu, l0: Seq<BusCycle>, l: Seq<BusCycle>) -> bool {
    &&& l =~= l0 + operand_trace(mode, c, true, l, l0.len() as int) + push_writes(c.stack_pointer, operand_value(mode, c, true, l, l0.len() as int) as u16, true)
    &&& f == move_sp(advance(c, operand_len(mode, true)), -2)
}

/// What PEI does (see [`effect`]).
#[verifier::opaque]
pub open spec fn pei_effect(mode: AddressingMode, c: Cpu, f: Cpu, l0: Seq<BusCycle>, l: Seq<BusCycle>) -> bool {
    &&& l =~= l0 + operand_trace(mode, c, true, l, l0.len() as int) + push_writes(c.stack_pointer, operand_value(mode, c, true, l, l0.len() as int) as u16, true)
    &&& f == move_sp(advance(c, operand_len(mode, true)), -2)
}

/// What PER does (see [`effect`]).
#[verifier::opaque]
pub open spec fn per_effect(mode: AddressingMode, c: Cpu, f: Cpu, l0: Seq<BusCycle>, l: Seq<BusCycle>) -> bool {
    &&& l =~= l0 + imm_reads(c, 2, l, l0.len() as int) + push_writes(c.stack_pointer, ((c.program_counter + 2 + w16(l, l0.len() as int)) % 0x1_0000) as u16, true)
    &&& f == move_sp(advance(c, 2), -2)
}

/// What PLA does (see [`effect`]).
#[verifier::opaque]
pub open spec fn pla_effect(mode: AddressingMode, c: Cpu, f: Cpu, l0: Seq<BusCycle>, l: Seq<BusCycle>) -> bool {
    &&& l =~= l0.push(BusCycle::Io(2)) + pull_reads(c.stack_pointer, c.a_wide(), l, l0.len() as int + 1)
    &&& f == load_a(move_sp(c, width(c.a_wide())), data_value(c.a_wide(), l, l0.len() as int + 1), c.a_wide())
}

/// What PLX does (see [`effect`]).
#[verifier::opaque]
pub open spec fn plx_effect(mode: AddressingMode, c: Cpu, f: Cpu, l0: Seq<BusCycle>, l: Seq<BusCycle>) -> bool {
    &&& l =~= l0.push(BusCycle::Io(2)) + pull_reads(c.stack_pointer, c.x_wide(), l, l0.len() as int + 1)
    &&& f == load_x(move_sp(c, width(c.x_wide())), data_value(c.x_wide(), l, l0.len() as int + 1), c.x_wide())
}

/// What PLY does (see [`effect`]).
#[verifier::opaque]
pub open spec fn ply_effect(mode: AddressingMode, c: Cpu, f: Cpu, l0: Seq<BusCycle>, l: Seq<BusCycle>) -> bool {
    &&& l =~= l0.push(BusCycle::Io(2)) + pull_reads(c.stack_pointer, c.x_wide(), l, l0.len() as int + 1)
    &&& f == load_y(move_sp(c, width(c.x_wide())), data_value(c.x_wide(), l, l0.len() as int + 1), c.x_wide())
}

/// What PLB does (see [`effect`]).
#[verifier::opaque]
pub open spec fn plb_effect(mode: AddressingMode, c: Cpu, f: Cpu, l0: Seq<BusCycle>, l: Seq<BusCycle>) -> bool {
    &&& l =~= l0.push(BusCycle::Io(2)) + pull_reads(c.stack_pointer, false, l, l0.len() as int + 1)
    &&& f == (Cpu { dbr: data_value(false, l, l0.len() as int + 1) as u8, status: Status(nz_spec(c.status.0, data_value(false, l, l0.len() as int + 1), false)), ..move_sp(c, width(false)) })
}

/// What PLD does (see [`effect`]).
#[verifier::opaque]
pub open spec fn pld_effect(mode: AddressingMode, c: Cpu, f: Cpu, l0: Seq<BusCycle>, l: Seq<BusCycle>) -> bool {
    &&& l =~= l0.push(BusCycle::Io(2)) + pull_reads(c.stack_pointer, true, l, l0.len() as int + 1)
    &&& f == (Cpu { dpr: data_value(true, l, l0.len() as int + 1) as u16, status: Status(nz_spec(c.status.0, data_value(true, l, l0.len() as int + 1), true)), ..move_sp(c, width(true)) })
}

/// What PLP does (see [`effect`]).
#[verifier::opaque]
pub open spec fn plp_effect(mode: AddressingMode, c: Cpu, f: Cpu, l0: Seq<BusCycle>, l: Seq<BusCycle>) -> bool {
    &&& l =~= l0.push(BusCycle::Io(2)) + pull_reads(c.stack_pointer, false, l, l0.len() as int + 1)
    &&& f == set_status(move_sp(c, 1), d(l, l0.len() as int + 1))
}

/// What RTI does (see [`effect`]).
#[verifier::opaque]
pub open spec fn rti_effect(mode: AddressingMode, c: Cpu, f: Cpu, l0: Seq<BusCycle>, l: Seq<BusCycle>) -> bool {
    let k = l0.len() as int + 1;
    let s = c.stack_pointer;
    &&& l =~= l0.push(BusCycle::Io(2)) + pull_reads(s, false, l, k) + pull_reads(((s + 1) % 0x1_0000) as u16, true, l, k + 1) + (if c.emulation_mode { seq![] } else { pull_reads(((s + 3) % 0x1_0000) as u16, false, l, k + 3) })
    &&& f == set_status(Cpu { program_counter: w16(l, k + 1) as u16, pbr: if c.emulation_mode { c.pbr } else { d(l, k + 3) }, ..move_sp(c, if c.emulation_mode { 3 } else { 4 }) }, d(l, k))
}

/// What RTL does (see [`effect`]).
#[verifier::opaque]
pub open spec fn rtl_effect(mode: AddressingMode, c: Cpu, f: Cpu, l0: Seq<BusCycle>, l: Seq<BusCycle>) -> bool {
    let k = l0.len() as int + 1;
    let s = c.stack_pointer;
    &&& l =~= l0.push(BusCycle::Io(2)) + pull_reads(s, true, l, k) + pull_reads(((s + 2) % 0x1_0000) as u16, false, l, k + 2)
    &&& f == (Cpu { program_counter: ((w16(l, k) + 1) % 0x1_0000) as u16, pbr: d(l, k + 2), ..move_sp(c, 3) })
}

/// What RTS does (see [`effect`]).
#[verifier::opaque]
pub open spec fn rts_effect(mode: AddressingMode, c: Cpu, f: Cpu, l0: Seq<BusCycle>, l: Seq<BusCycle>) -> bool {
    &&& l =~= l0.push(BusCycle::Io(3)) + pull_reads(c.stack_pointer, true, l, l0.len() as int + 1)
    &&& f == (Cpu { program_counter: ((w16(l, l0.len() as int + 1) + 1) % 0x1_0000) as u16, ..move_sp(c, 2) })
}

/// What REP does (see [`effect`]).
#[verifier::opaque]
pub open spec fn rep_effect(mode: AddressingMode, c: Cpu, f: Cpu, l0: Seq<BusCycle>, l: Seq<BusCycle>) -> bool {
    let k = l0.len() as int + 1;
    let bits = c.status.0 & !d(l, k);
    let c1 = set_status(advance(c, 1), bits);
    &&& l =~= l0.push(BusCycle::Io(1)) + imm_reads(c, 1, l, k)
    &&& f == if c.emulation_mode { with_p(c1, with_bit(with_bit(bits, 32, true), 16, true)) } else { c1 }
}

/// What SEP does (see [`effect`]).
#[verifier::opaque]
pub open spec fn sep_effect(mode: AddressingMode, c: Cpu, f: Cpu, l0: Seq<BusCycle>, l: Seq<BusCycle>) -> bool {
    &&& l =~= l0.push(BusCycle::Io(1)) + imm_reads(c, 1, l, l0.len() as int + 1)
    &&& f == set_status(advance(c, 1), c.status.0 | d(l, l0.len() as int + 1))
}

/// What BRK does (see [`effect`]).
#[verifier::opaque]
pub open spec fn brk_effect(mode: AddressingMode, c: Cpu, f: Cpu, l0: Seq<BusCycle>, l: Seq<BusCycle>) -> bool {
    &&& l =~= l0 + imm_reads(c, 1, l, l0.len() as int) + interrupt_trace(advance(c, 1), Vector::Brk, l, l0.len() as int + 1)
    &&& f == interrupt_cpu(advance(c, 1), Vector::Brk, l, l0.len() as int + 1)
}

/// What COP does (see [`effect`]).
#[verifier::opaque]
pub open spec fn cop_effect(mode: AddressingMode, c: Cpu, f: Cpu, l0: Seq<BusCycle>, l: Seq<BusCycle>) -> bool {
    &&& l =~= l0 + imm_reads(c, 1, l, l0.len() as int) + interrupt_trace(advance(c, 1), Vector::Cop, l, l0.len() as int + 1)
    &&& f == interrupt_cpu(advance(c, 1), Vector::Cop, l, l0.len() as int + 1)
}

/// What BRL does (see [`effect`]).
#[verifier::opaque]
pub open spec fn brl_effect(mode: AddressingMode, c: Cpu, f: Cpu, l0: Seq<BusCycle>, l: Seq<BusCycle>) -> bool {
    &&& l =~= l0 + imm_reads(c, 2, l, l0.len() as int)
    &&& f == advance(c, 2 + w16(l, l0.len() as int))
}

/// What JMP does (see [`effect`]).
#[verifier::opaque]
pub open spec fn jmp_effect(mode: AddressingMode, c: Cpu, f: Cpu, l0: Seq<BusCycle>, l: Seq<BusCycle>) -> bool {
    &&& l =~= l0 + jmp_trace(mode, c, l, l0.len() as int)
    &&& f == jmp_cpu(mode, c, l, l0.len() as int)
}

/// What JML does (see [`effect`]).
#[verifier::opaque]
pub open spec fn jml_effect(mode: AddressingMode, c: Cpu, f: Cpu, l0: Seq<BusCycle>, l: Seq<BusCycle>) -> bool {
    &&& l =~= l0 + jmp_trace(mode, c, l, l0.len() as int)
    &&& f == jmp_cpu(mode, c, l, l0.len() as int)
}

/// What JSL does (see [`effect`]).
#[verifier::opaque]
pub open spec fn jsl_effect(mode: AddressingMode, c: Cpu, f: Cpu, l0: Seq<BusCycle>, l: Seq<BusCycle>) -> bool {
    let k = l0.len() as int;
    let s = c.stack_pointer;
    &&& l =~= l0.push(BusCycle::Io(1)) + push_writes(s, c.pbr as u16, false) + push_writes(((s - 1) % 0x1_0000) as u16, ((c.program_counter + 2) % 0x1_0000) as u16, true) + jmp_trace(mode, move_sp(c, -3), l, k + 4)
    &&& f == jmp_cpu(mode, move_sp(c, -3), l, k + 4)
}

/// What JSR does (see [`effect`]).
#[verifier::opaque]
pub open spec fn jsr_effect(mode: AddressingMode, c: Cpu, f: Cpu, l0: Seq<BusCycle>, l: Seq<BusCycle>) -> bool {
    let k = l0.len() as int;
    &&& l =~= l0 + push_writes(c.stack_pointer, ((c.program_counter + 1) % 0x1_0000) as u16, true) + jmp_trace(mode, move_sp(c, -2), l, k + 2) + io_if(mode == AddressingMode::Absolute)
    &&& f == jmp_cpu(mode, move_sp(c, -2), l, k + 2)
}

/// What MVN does (see [`effect`]).
#[verifier::opaque]
pub open spec fn mvn_effect(mode: AddressingMode, c: Cpu, f: Cpu, l0: Seq<BusCycle>, l: Seq<BusCycle>) -> bool {
    &&& block_move_spec(c, f, l0, l, true)
}

/// What MVP does (see [`effect`]).
#[verifier::opaque]
pub open spec fn mvp_effect(mode: AddressingMode, c: Cpu, f: Cpu, l0: Seq<BusCycle>, l: Seq<BusCycle>) -> bool {
    &&& block_move_spec(c, f, l0, l, false)
}

/// What NOP does (see [`effect`]).
#[verifier::opaque]
pub open spec fn nop_effect(mode: AddressingMode, c: Cpu, f: Cpu, l0: Seq<BusCycle>, l: Seq<BusCycle>) -> bool {
    &&& l =~= l0.push(BusCycle::Io(1))
    &&& f == c
}

/// What STP does (see [`effect`]).
#[verifier::opaque]
pub open spec fn stp_effect(mode: AddressingMode, c: Cpu, f: Cpu, l0: Seq<BusCycle>, l: Seq<BusCycle>) -> bool {
    &&& l =~= l0.push(BusCycle::Io(3))
    &&& f == (Cpu { stopped: true, ..c })
}

/// What WAI does (see [`effect`]).
#[verifier::opaque]
pub open spec fn wai_effect(mode: AddressingMode, c: Cpu, f: Cpu, l0: Seq<BusCycle>, l: Seq<BusCycle>) -> bool {
    &&& l =~= l0.push(BusCycle::Io(3))
    &&& f == (Cpu { waiting_interrupt: true, ..c })
}

/// What WDM does (see [`effect`]).
#[verifier::opaque]
pub open spec fn wdm_effect(mode: AddressingMode, c: Cpu, f: Cpu, l0: Seq<BusCycle>, l: Seq<BusCycle>) -> bool {
    &&& l =~= l0.push(BusCycle::Io(1))
    &&& f == advance(c, 1)
}

/// What XBA does (see [`effect`]).
#[verifier::opaque]
pub open spec fn xba_effect(mode: AddressingMode, c: Cpu, f: Cpu, l0: Seq<BusCycle>, l: Seq<BusCycle>) -> bool {
    &&& l =~= l0.push(BusCycle::Io(2))
    &&& f == (Cpu { accumulator: word(hi(c.accumulator), lo(c.accumulator)), status: Status(nz_spec(c.status.0, hi(c.accumulator) as int, false)), ..c })
}

/// What XCE does (see [`effect`]).
#[verifier::opaque]
pub open spec fn xce_effect(mode: AddressingMode, c: Cpu, f: Cpu, l0: Seq<BusCycle>, l: Seq<BusCycle>) -> bool {
    &&& l =~= l0.push(BusCycle::Io(1))
    &&& f == emulation_cpu(with_p(c, with_bit(c.status.0, 1, c.emulation_mode)), c.status.carry())
}

/// What running instruction `i` in mode `mode` does: from CPU `c` and bus log `l0`
/// it leaves CPU `f` and log `l` (the bus cycles it makes are those after `l0`).
pub open spec fn effect(i: Instr, mode: AddressingMode, c: Cpu, f: Cpu, l0: Seq<BusCycle>, l: Seq<BusCycle>) -> bool {
    match i {
        Instr::Adc => adc_effect(mode, c, f, l0, l),
        Instr::Sbc => sbc_effect(mode, c, f, l0, l),
        Instr::And => and_effect(mode, c, f, l0, l),
        Instr::Ora => ora_effect(mode, c, f, l0, l),
        Instr::Eor => eor_effect(mode, c, f, l0, l),
        Instr::Lda => lda_effect(mode, c, f, l0, l),
        Instr::Ldx => ldx_effect(mode, c, f, l0, l),
        Instr::Ldy => ldy_effect(mode, c, f, l0, l),
        Instr::Cmp => cmp_effect(mode, c, f, l0, l),
        Instr::Cpx => cpx_effect(mode, c, f, l0, l),
        Instr::Cpy => cpy_effect(mode, c, f, l0, l),
        Instr::Bit => bit_effect(mode, c, f, l0, l),
        Instr::Asl => asl_effect(mode, c, f, l0, l),
        Instr::Lsr => lsr_effect(mode, c, f, l0, l),
        Instr::Rol => rol_effect(mode, c, f, l0, l),
        Instr::Ror => ror_effect(mode, c, f, l0, l),
        Instr::Dec => dec_effect(mode, c, f, l0, l),
        Instr::Inc => inc_effect(mode, c, f, l0, l),
        Instr::Trb => trb_effect(mode, c, f, l0, l),
        Instr::Tsb => tsb_effect(mode, c, f, l0, l),
        Instr::Sta => sta_effect(mode, c, f, l0, l),
        Instr::Stx => stx_effect(mode, c, f, l0, l),
        Instr::Sty => sty_effect(mode, c, f, l0, l),
        Instr::Stz => stz_effect(mode, c, f, l0, l),
        Instr::Bcc => bcc_effect(mode, c, f, l0, l),
        Instr::Bcs => bcs_effect(mode, c, f, l0, l),
        Instr::Beq => beq_effect(mode, c, f, l0, l),
        Instr::Bne => bne_effect(mode, c, f, l0, l),
        Instr::Bmi => bmi_effect(mode, c, f, l0, l),
        Instr::Bpl => bpl_effect(mode, c, f, l0, l),
        Instr::Bvc => bvc_effect(mode, c, f, l0, l),
        Instr::Bvs => bvs_effect(mode, c, f, l0, l),
        Instr::Bra => bra_effect(mode, c, f, l0, l),
        Instr::Clc => clc_effect(mode, c, f, l0, l),
        Instr::Cld => cld_effect(mode, c, f, l0, l),
        Instr::Cli => cli_effect(mode, c, f, l0, l),
        Instr::Clv => clv_effect(mode, c, f, l0, l),
        Instr::Sec => sec_effect(mode, c, f, l0, l),
        Instr::Sed => sed_effect(mode, c, f, l0, l),
        Instr::Sei => sei_effect(mode, c, f, l0, l),
        Instr::Dex => dex_effect(mode, c, f, l0, l),
        Instr::Dey => dey_effect(mode, c, f, l0, l),
        Instr::Inx => inx_effect(mode, c, f, l0, l),
        Instr::Iny => iny_effect(mode, c, f, l0, l),
        Instr::Tax => tax_effect(mode, c, f, l0, l),
        Instr::Tay => tay_effect(mode, c, f, l0, l),
        Instr::Txy => txy_effect(mode, c, f, l0, l),
        Instr::Tyx => tyx_effect(mode, c, f, l0, l),
        Instr::Tsx => tsx_effect(mode, c, f, l0, l),
        Instr::Txa => txa_effect(mode, c, f, l0, l),
        Instr::Tya => tya_effect(mode, c, f, l0, l),
        Instr::Tcd => tcd_effect(mode, c, f, l0, l),
        Instr::Tdc => tdc_effect(mode, c, f, l0, l),
        Instr::Tsc => tsc_effect(mode, c, f, l0, l),
        Instr::Tcs => tcs_effect(mode, c, f, l0, l),
        Instr::Txs => txs_effect(mode, c, f, l0, l),
        Instr::Pha => pha_effect(mode, c, f, l0, l),
        Instr::Phx => phx_effect(mode, c, f, l0, l),
        Instr::Phy => phy_effect(mode, c, f, l0, l),
        Instr::Phb => phb_effect(mode, c, f, l0, l),
        Instr::Phd => phd_effect(mode, c, f, l0, l),
        Instr::Phk => phk_effect(mode, c, f, l0, l),
        Instr::Php => php_effect(mode, c, f, l0, l),
        Instr::Pea => pea_effect(mode, c, f, l0, l),
        Instr::Pei => pei_effect(mode, c, f, l0, l),
        Instr::Per => per_effect(mode, c, f, l0, l),
        Instr::Pla => pla_effect(mode, c, f, l0, l),
        Instr::Plx => plx_effect(mode, c, f, l0, l),
        Instr::Ply => ply_effect(mode, c, f, l0, l),
        Instr::Plb => plb_effect(mode, c, f, l0, l),
        Instr::Pld => pld_effect(mode, c, f, l0, l),
        Instr::Plp => plp_effect(mode, c, f, l0, l),
        Instr::Rti => rti_effect(mode, c, f, l0, l),
        Instr::Rtl => rtl_effect(mode, c, f, l0, l),
        Instr::Rts => rts_effect(mode, c, f, l0, l),
        Instr::Rep => rep_effect(mode, c, f, l0, l),
        Instr::Sep => sep_effect(mode, c, f, l0, l),
        Instr::Brk => brk_effect(mode, c, f, l0, l),
        Instr::Cop => cop_effect(mode, c, f, l0, l),
        Instr::Brl => brl_effect(mode, c, f, l0, l),
        Instr::Jmp => jmp_effect(mode, c, f, l0, l),
        Instr::Jml => jml_effect(mode, c, f, l0, l),
        Instr::Jsl => jsl_effect(mode, c, f, l0, l),
        Instr::Jsr => jsr_effect(mode, c, f, l0, l),
        Instr::Mvn => mvn_effect(mode, c, f, l0, l),
        Instr::Mvp => mvp_effect(mode, c, f, l0, l),
        Instr::Nop => nop_effect(mode, c, f, l0, l),
        Instr::Stp => stp_effect(mode, c, f, l0, l),
        Instr::Wai => wai_effect(mode, c, f, l0, l),
        Instr::Wdm => wdm_effect(mode, c, f, l0, l),
        Instr::Xba => xba_effect(mode, c, f, l0, l),
        Instr::Xce => xce_effect(mode, c, f, l0, l),
    }
}

/// JSR then RTS (whatever ran between, if it left the stack pointer alone) returns to the
/// instruction after the JSR with the stack pointer back where it was: the RTS reads the
/// two stack bytes the JSR wrote, and where they hold what was written the return address
/// is the JSR's own.
#[verifier::spinoff_prover]
pub proof fn lemma_jsr_rts_round_trip(
    c: Cpu,
    c1: Cpu,
    c2: Cpu,
    c3: Cpu,
    l0: Seq<BusCycle>,
    l1: Seq<BusCycle>,
    l2: Seq<BusCycle>,
    l3: Seq<BusCycle>,
)
    requires
        jsr_effect(AddressingMode::Absolute, c, c1, l0, l1),
        c2.stack_pointer == c1.stack_pointer,
        rts_effect(AddressingMode::Implied, c2, c3, l2, l3),
    ensures
        c3.stack_pointer == c.stack_pointer,
        addr_of(l3[l2.len() as int + 1]) == addr_of(l1[l0.len() as int + 1]),
        addr_of(l3[l2.len() as int + 2]) == addr_of(l1[l0.len() as int]),
        data_of(l3[l2.len() as int + 1]) == data_of(l1[l0.len() as int + 1]) && data_of(l3[l2.len() as int + 2]) == data_of(l1[l0.len() as int])
            ==> c3.program_counter == (c.program_counter + 2) % 0x1_0000,
{
    reveal(jsr_effect);
    reveal(rts_effect);
    let s = c.stack_pointer;
    let v = ((c.program_counter + 1) % 0x1_0000) as u16;
    let k0 = l0.len() as int;
    let k2 = l2.len() as int;
    let pw = push_writes(s, v, true);
    let rest = jmp_trace(AddressingMode::Absolute, move_sp(c, -2), l1, k0 + 2) + io_if(true);
    assert(l1 =~= l0 + pw + rest);
    assert(l1[k0] == pw[0] && l1[k0 + 1] == pw[1]) by {
        assert((l0 + pw + rest)[k0] == pw[0]);
        assert((l0 + pw + rest)[k0 + 1] == pw[1]);
    }
    assert(c1.stack_pointer == ((s - 2) % 0x1_0000) as u16);
    let pr = pull_reads(c2.stack_pointer, true, l3, k2 + 1);
    assert(l3 =~= l2.push(BusCycle::Io(3)) + pr);
    assert(l3[k2 + 1] == pr[0] && l3[k2 + 2] == pr[1]) by {
        assert((l2.push(BusCycle::Io(3)) + pr)[k2 + 1] == pr[0]);
        assert((l2.push(BusCycle::Io(3)) + pr)[k2 + 2] == pr[1]);
    }
    if data_of(l3[k2 + 1]) == data_of(l1[k0 + 1]) && data_of(l3[k2 + 2]) == data_of(l1[k0]) {
        assert(w16(l3, k2 + 1) == v);
    }
}
} // verus!
