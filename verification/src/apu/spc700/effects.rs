use vstd::prelude::*;

use super::addressing::{advance, dp_addr, pc_at, operand_trace, operand_value, operand_cpu, mode_trace, mode_addr, mode_cpu, register};
use super::instructions::{alu_effect, AluKind, with_carry, with_flag, pc_read, compare_effect, word_compare_effect, word_rmw_effect, test_bit_effect, mov_steps, bit_branch_effect, below, move_sp, push_pc, daa_spec, das_spec, div_spec, addw_spec};
use super::ops::{rmw_trace, rmw_cpu, rmw_result, sext8, with_register, RmwOp};
use super::{Cpu, Status, AddressingMode, nz8};
use crate::bus::BusCycle;
use crate::utils::bits::{with_bit, bit};
use crate::w65c816::trace::{d, rd, w16, wr};

verus! {

/// What ADC does (see [`Spc700::adc`]).
#[verifier::opaque]
pub open spec fn adc_effect(mode: AddressingMode, dest: AddressingMode, c: Cpu, f: Cpu, l0: Seq<BusCycle>, l: Seq<BusCycle>) -> bool {
    &&& alu_effect(AluKind::Adc, mode, dest, c, f, l0, l)
}

/// What SBC does (see [`Spc700::sbc`]).
#[verifier::opaque]
pub open spec fn sbc_effect(mode: AddressingMode, dest: AddressingMode, c: Cpu, f: Cpu, l0: Seq<BusCycle>, l: Seq<BusCycle>) -> bool {
    &&& alu_effect(AluKind::Sbc, mode, dest, c, f, l0, l)
}

/// What AND does (see [`Spc700::and`]).
#[verifier::opaque]
pub open spec fn and_effect(mode: AddressingMode, dest: AddressingMode, c: Cpu, f: Cpu, l0: Seq<BusCycle>, l: Seq<BusCycle>) -> bool {
    &&& alu_effect(AluKind::And, mode, dest, c, f, l0, l)
}

/// What OR does (see [`Spc700::or`]).
#[verifier::opaque]
pub open spec fn or_effect(mode: AddressingMode, dest: AddressingMode, c: Cpu, f: Cpu, l0: Seq<BusCycle>, l: Seq<BusCycle>) -> bool {
    &&& alu_effect(AluKind::Or, mode, dest, c, f, l0, l)
}

/// What EOR does (see [`Spc700::eor`]).
#[verifier::opaque]
pub open spec fn eor_effect(mode: AddressingMode, dest: AddressingMode, c: Cpu, f: Cpu, l0: Seq<BusCycle>, l: Seq<BusCycle>) -> bool {
    &&& alu_effect(AluKind::Eor, mode, dest, c, f, l0, l)
}

/// What NOT1 does (see [`Spc700::not1`]).
#[verifier::opaque]
pub open spec fn not1_effect(mode: AddressingMode, c: Cpu, f: Cpu, l0: Seq<BusCycle>, l: Seq<BusCycle>) -> bool {
    &&& l =~= l0 + rmw_trace(mode, false, RmwOp::Not1, c, l, l0.len() as int)
    &&& f == rmw_cpu(mode, RmwOp::Not1, c, l, l0.len() as int)
}

/// What MOV1 does (see [`Spc700::mov1`]).
#[verifier::opaque]
pub open spec fn mov1_effect(mode: AddressingMode, to_carry: bool, c: Cpu, f: Cpu, l0: Seq<BusCycle>, l: Seq<BusCycle>) -> bool {
    let k = l0.len() as int;
    &&& if to_carry { &&& l =~= l0 + operand_trace(mode, c, l, k) &&& f == with_carry(operand_cpu(mode, c), operand_value(mode, c, l, k) != 0) } else { &&& l =~= l0 + rmw_trace(mode, false, RmwOp::Carry, c, l, k) + seq![BusCycle::Io(1)] &&& f == rmw_cpu(mode, RmwOp::Carry, c, l, k) }
}

/// What BCC does (see [`Spc700::bcc`]).
#[verifier::opaque]
pub open spec fn bcc_effect(c: Cpu, f: Cpu, l0: Seq<BusCycle>, l: Seq<BusCycle>) -> bool {
    &&& l =~= l0.push(pc_read(c, l, l0.len() as int)) + (if !c.status.carry() { seq![BusCycle::Io(2)] } else { seq![] })
    &&& f == advance(c, 1 + if !c.status.carry() { sext8(d(l, l0.len() as int)) } else { 0 })
}

/// What BCS does (see [`Spc700::bcs`]).
#[verifier::opaque]
pub open spec fn bcs_effect(c: Cpu, f: Cpu, l0: Seq<BusCycle>, l: Seq<BusCycle>) -> bool {
    &&& l =~= l0.push(pc_read(c, l, l0.len() as int)) + (if c.status.carry() { seq![BusCycle::Io(2)] } else { seq![] })
    &&& f == advance(c, 1 + if c.status.carry() { sext8(d(l, l0.len() as int)) } else { 0 })
}

/// What BEQ does (see [`Spc700::beq`]).
#[verifier::opaque]
pub open spec fn beq_effect(c: Cpu, f: Cpu, l0: Seq<BusCycle>, l: Seq<BusCycle>) -> bool {
    &&& l =~= l0.push(pc_read(c, l, l0.len() as int)) + (if c.status.zero() { seq![BusCycle::Io(2)] } else { seq![] })
    &&& f == advance(c, 1 + if c.status.zero() { sext8(d(l, l0.len() as int)) } else { 0 })
}

/// What BNE does (see [`Spc700::bne`]).
#[verifier::opaque]
pub open spec fn bne_effect(c: Cpu, f: Cpu, l0: Seq<BusCycle>, l: Seq<BusCycle>) -> bool {
    &&& l =~= l0.push(pc_read(c, l, l0.len() as int)) + (if !c.status.zero() { seq![BusCycle::Io(2)] } else { seq![] })
    &&& f == advance(c, 1 + if !c.status.zero() { sext8(d(l, l0.len() as int)) } else { 0 })
}

/// What BMI does (see [`Spc700::bmi`]).
#[verifier::opaque]
pub open spec fn bmi_effect(c: Cpu, f: Cpu, l0: Seq<BusCycle>, l: Seq<BusCycle>) -> bool {
    &&& l =~= l0.push(pc_read(c, l, l0.len() as int)) + (if c.status.negative() { seq![BusCycle::Io(2)] } else { seq![] })
    &&& f == advance(c, 1 + if c.status.negative() { sext8(d(l, l0.len() as int)) } else { 0 })
}

/// What BPL does (see [`Spc700::bpl`]).
#[verifier::opaque]
pub open spec fn bpl_effect(c: Cpu, f: Cpu, l0: Seq<BusCycle>, l: Seq<BusCycle>) -> bool {
    &&& l =~= l0.push(pc_read(c, l, l0.len() as int)) + (if !c.status.negative() { seq![BusCycle::Io(2)] } else { seq![] })
    &&& f == advance(c, 1 + if !c.status.negative() { sext8(d(l, l0.len() as int)) } else { 0 })
}

/// What BVC does (see [`Spc700::bvc`]).
#[verifier::opaque]
pub open spec fn bvc_effect(c: Cpu, f: Cpu, l0: Seq<BusCycle>, l: Seq<BusCycle>) -> bool {
    &&& l =~= l0.push(pc_read(c, l, l0.len() as int)) + (if !c.status.overflow() { seq![BusCycle::Io(2)] } else { seq![] })
    &&& f == advance(c, 1 + if !c.status.overflow() { sext8(d(l, l0.len() as int)) } else { 0 })
}

/// What BVS does (see [`Spc700::bvs`]).
#[verifier::opaque]
pub open spec fn bvs_effect(c: Cpu, f: Cpu, l0: Seq<BusCycle>, l: Seq<BusCycle>) -> bool {
    &&& l =~= l0.push(pc_read(c, l, l0.len() as int)) + (if c.status.overflow() { seq![BusCycle::Io(2)] } else { seq![] })
    &&& f == advance(c, 1 + if c.status.overflow() { sext8(d(l, l0.len() as int)) } else { 0 })
}

/// What BRA does (see [`Spc700::bra`]).
#[verifier::opaque]
pub open spec fn bra_effect(c: Cpu, f: Cpu, l0: Seq<BusCycle>, l: Seq<BusCycle>) -> bool {
    &&& l =~= l0.push(pc_read(c, l, l0.len() as int)) + seq![BusCycle::Io(2)]
    &&& f == advance(c, 1 + sext8(d(l, l0.len() as int)))
}

/// What CBNE does (see [`Spc700::cbne`]).
#[verifier::opaque]
pub open spec fn cbne_effect(mode: AddressingMode, c: Cpu, f: Cpu, l0: Seq<BusCycle>, l: Seq<BusCycle>) -> bool {
    let k = l0.len() as int;
    let t = operand_trace(mode, c, l, k);
    let c1 = operand_cpu(mode, c);
    let j = k + t.len() + 1;
    let cond = c1.accumulator != operand_value(mode, c, l, k);
    &&& l =~= l0 + t + seq![BusCycle::Io(1), pc_read(c1, l, j)] + (if cond { seq![BusCycle::Io(2)] } else { seq![] })
    &&& f == advance(c1, 1 + if cond { sext8(d(l, j)) } else { 0 })
}

/// What DBNZ does (see [`Spc700::dbnz`]).
#[verifier::opaque]
pub open spec fn dbnz_effect(mode: AddressingMode, c: Cpu, f: Cpu, l0: Seq<BusCycle>, l: Seq<BusCycle>) -> bool {
    let k = l0.len() as int;
    let t = rmw_trace(mode, true, RmwOp::DecQuiet, c, l, k);
    let c1 = rmw_cpu(mode, RmwOp::DecQuiet, c, l, k);
    let result = rmw_result(mode, RmwOp::DecQuiet, c, l, k);
    let j = k + t.len();
    &&& l =~= l0 + t + seq![pc_read(c1, l, j)] + (if result != 0 { seq![BusCycle::Io(2)] } else { seq![] })
    &&& f == advance(c1, 1 + if result != 0 { sext8(d(l, j)) } else { 0 })
}

/// What CLRC does (see [`Spc700::clrc`]).
#[verifier::opaque]
pub open spec fn clrc_effect(c: Cpu, f: Cpu, l0: Seq<BusCycle>, l: Seq<BusCycle>) -> bool {
    &&& l =~= l0.push(pc_read(c, l, l0.len() as int))
    &&& f == with_flag(c, 1, false)
}

/// What SETC does (see [`Spc700::setc`]).
#[verifier::opaque]
pub open spec fn setc_effect(c: Cpu, f: Cpu, l0: Seq<BusCycle>, l: Seq<BusCycle>) -> bool {
    &&& l =~= l0.push(pc_read(c, l, l0.len() as int))
    &&& f == with_flag(c, 1, true)
}

/// What CLRP does (see [`Spc700::clrp`]).
#[verifier::opaque]
pub open spec fn clrp_effect(c: Cpu, f: Cpu, l0: Seq<BusCycle>, l: Seq<BusCycle>) -> bool {
    &&& l =~= l0.push(pc_read(c, l, l0.len() as int))
    &&& f == with_flag(c, 32, false)
}

/// What SETP does (see [`Spc700::setp`]).
#[verifier::opaque]
pub open spec fn setp_effect(c: Cpu, f: Cpu, l0: Seq<BusCycle>, l: Seq<BusCycle>) -> bool {
    &&& l =~= l0.push(pc_read(c, l, l0.len() as int))
    &&& f == with_flag(c, 32, true)
}

/// What CLRV does (see [`Spc700::clrv`]).
#[verifier::opaque]
pub open spec fn clrv_effect(c: Cpu, f: Cpu, l0: Seq<BusCycle>, l: Seq<BusCycle>) -> bool {
    &&& l =~= l0.push(pc_read(c, l, l0.len() as int))
    &&& f == with_flag(with_flag(c, 64, false), 8, false)
}

/// What DI does (see [`Spc700::di`]).
#[verifier::opaque]
pub open spec fn di_effect(c: Cpu, f: Cpu, l0: Seq<BusCycle>, l: Seq<BusCycle>) -> bool {
    &&& l =~= l0 + seq![pc_read(c, l, l0.len() as int), BusCycle::Io(1)]
    &&& f == with_flag(c, 4, false)
}

/// What EI does (see [`Spc700::ei`]).
#[verifier::opaque]
pub open spec fn ei_effect(c: Cpu, f: Cpu, l0: Seq<BusCycle>, l: Seq<BusCycle>) -> bool {
    &&& l =~= l0 + seq![pc_read(c, l, l0.len() as int), BusCycle::Io(1)]
    &&& f == with_flag(c, 4, true)
}

/// What NOTC does (see [`Spc700::notc`]).
#[verifier::opaque]
pub open spec fn notc_effect(c: Cpu, f: Cpu, l0: Seq<BusCycle>, l: Seq<BusCycle>) -> bool {
    &&& l =~= l0 + seq![pc_read(c, l, l0.len() as int), BusCycle::Io(1)]
    &&& f == with_carry(c, !c.status.carry())
}

/// What NOP does (see [`Spc700::nop`]).
#[verifier::opaque]
pub open spec fn nop_effect(c: Cpu, f: Cpu, l0: Seq<BusCycle>, l: Seq<BusCycle>) -> bool {
    &&& l =~= l0.push(pc_read(c, l, l0.len() as int))
    &&& f == c
}

/// What CMP does (see [`Spc700::cmp`]).
#[verifier::opaque]
pub open spec fn cmp_effect(mode: AddressingMode, a_mode: AddressingMode, c: Cpu, f: Cpu, l0: Seq<BusCycle>, l: Seq<BusCycle>) -> bool {
    &&& compare_effect(mode, a_mode, c, f, l0, l)
}

/// What CMPW does (see [`Spc700::cmpw`]).
#[verifier::opaque]
pub open spec fn cmpw_effect(c: Cpu, f: Cpu, l0: Seq<BusCycle>, l: Seq<BusCycle>) -> bool {
    &&& word_compare_effect(c, f, l0, l)
}

/// What AND1 does (see [`Spc700::and1`]).
#[verifier::opaque]
pub open spec fn and1_effect(mode: AddressingMode, inverse: bool, c: Cpu, f: Cpu, l0: Seq<BusCycle>, l: Seq<BusCycle>) -> bool {
    let k = l0.len() as int;
    let v = (operand_value(mode, c, l, k) != 0) != inverse;
    &&& l =~= l0 + operand_trace(mode, c, l, k)
    &&& f == with_carry(operand_cpu(mode, c), c.status.carry() && v)
}

/// What OR1 does (see [`Spc700::or1`]).
#[verifier::opaque]
pub open spec fn or1_effect(mode: AddressingMode, inverse: bool, c: Cpu, f: Cpu, l0: Seq<BusCycle>, l: Seq<BusCycle>) -> bool {
    let k = l0.len() as int;
    let v = (operand_value(mode, c, l, k) != 0) != inverse;
    &&& l =~= l0 + operand_trace(mode, c, l, k) + seq![BusCycle::Io(1)]
    &&& f == with_carry(operand_cpu(mode, c), c.status.carry() || v)
}

/// What EOR1 does (see [`Spc700::eor1`]).
#[verifier::opaque]
pub open spec fn eor1_effect(mode: AddressingMode, c: Cpu, f: Cpu, l0: Seq<BusCycle>, l: Seq<BusCycle>) -> bool {
    let k = l0.len() as int;
    let v = operand_value(mode, c, l, k) != 0;
    &&& l =~= l0 + operand_trace(mode, c, l, k) + seq![BusCycle::Io(1)]
    &&& f == with_carry(operand_cpu(mode, c), c.status.carry() != v)
}

/// What INCW does (see [`Spc700::incw`]).
#[verifier::opaque]
pub open spec fn incw_effect(c: Cpu, f: Cpu, l0: Seq<BusCycle>, l: Seq<BusCycle>) -> bool {
    &&& word_rmw_effect(true, c, f, l0, l)
}

/// What DECW does (see [`Spc700::decw`]).
#[verifier::opaque]
pub open spec fn decw_effect(c: Cpu, f: Cpu, l0: Seq<BusCycle>, l: Seq<BusCycle>) -> bool {
    &&& word_rmw_effect(false, c, f, l0, l)
}

/// What ADDW does (see [`Spc700::addw`]).
#[verifier::opaque]
pub open spec fn addw_effect(c: Cpu, f: Cpu, l0: Seq<BusCycle>, l: Seq<BusCycle>) -> bool {
    let k = l0.len() as int;
    let off = d(l, k) as int;
    let r = addw_spec(c.status.0, c.accumulator, c.index_y, w16(l, k + 1), false);
    &&& l =~= l0 + seq![rd(pc_at(c, 0), d(l, k)), rd(dp_addr(c, off), d(l, k + 1)), rd(dp_addr(c, off + 1), d(l, k + 2)), BusCycle::Io(1)]
    &&& f == (Cpu { accumulator: r.0, index_y: r.1, status: Status(r.2), ..advance(c, 1) })
}

/// What SUBW does (see [`Spc700::subw`]).
#[verifier::opaque]
pub open spec fn subw_effect(c: Cpu, f: Cpu, l0: Seq<BusCycle>, l: Seq<BusCycle>) -> bool {
    let k = l0.len() as int;
    let off = d(l, k) as int;
    let r = addw_spec(c.status.0, c.accumulator, c.index_y, w16(l, k + 1), true);
    &&& l =~= l0 + seq![rd(pc_at(c, 0), d(l, k)), rd(dp_addr(c, off), d(l, k + 1)), rd(dp_addr(c, off + 1), d(l, k + 2)), BusCycle::Io(1)]
    &&& f == (Cpu { accumulator: r.0, index_y: r.1, status: Status(r.2), ..advance(c, 1) })
}

/// What MUL does (see [`Spc700::mul`]).
#[verifier::opaque]
pub open spec fn mul_effect(c: Cpu, f: Cpu, l0: Seq<BusCycle>, l: Seq<BusCycle>) -> bool {
    let r = c.index_y * c.accumulator;
    &&& l =~= l0 + seq![pc_read(c, l, l0.len() as int), BusCycle::Io(7)]
    &&& f == (Cpu { accumulator: (r % 256) as u8, index_y: (r / 256) as u8, status: Status(nz8(c.status.0, (r / 256) as u8)), ..c })
}

/// What DIV does (see [`Spc700::div`]).
#[verifier::opaque]
pub open spec fn div_effect(c: Cpu, f: Cpu, l0: Seq<BusCycle>, l: Seq<BusCycle>) -> bool {
    let r = div_spec(c.accumulator, c.index_x, c.index_y);
    let p = with_bit(with_bit(c.status.0, 8, c.index_y % 16 >= c.index_x % 16), 64, c.index_y >= c.index_x);
    &&& l =~= l0 + seq![pc_read(c, l, l0.len() as int), BusCycle::Io(10)]
    &&& f == (Cpu { accumulator: r.0, index_y: r.1, status: Status(nz8(p, r.0)), ..c })
}

/// What XCN does (see [`Spc700::xcn`]).
#[verifier::opaque]
pub open spec fn xcn_effect(c: Cpu, f: Cpu, l0: Seq<BusCycle>, l: Seq<BusCycle>) -> bool {
    let r = (c.accumulator / 16 + 16 * (c.accumulator % 16)) as u8;
    &&& l =~= l0 + seq![BusCycle::Io(3), pc_read(c, l, l0.len() as int + 1)]
    &&& f == (Cpu { accumulator: r, status: Status(nz8(c.status.0, r)), ..c })
}

/// What DAA does (see [`Spc700::daa`]).
#[verifier::opaque]
pub open spec fn daa_effect(c: Cpu, f: Cpu, l0: Seq<BusCycle>, l: Seq<BusCycle>) -> bool {
    &&& l =~= l0 + seq![pc_read(c, l, l0.len() as int), BusCycle::Io(1)]
    &&& f == (Cpu { accumulator: daa_spec(c.status.0, c.accumulator).0, status: Status(daa_spec(c.status.0, c.accumulator).1), ..c })
}

/// What DAS does (see [`Spc700::das`]).
#[verifier::opaque]
pub open spec fn das_effect(c: Cpu, f: Cpu, l0: Seq<BusCycle>, l: Seq<BusCycle>) -> bool {
    &&& l =~= l0 + seq![pc_read(c, l, l0.len() as int), BusCycle::Io(1)]
    &&& f == (Cpu { accumulator: das_spec(c.status.0, c.accumulator).0, status: Status(das_spec(c.status.0, c.accumulator).1), ..c })
}

/// What BRK does (see [`Spc700::brk`]).
#[verifier::opaque]
pub open spec fn brk_effect(c: Cpu, f: Cpu, l0: Seq<BusCycle>, l: Seq<BusCycle>) -> bool {
    let k = l0.len() as int;
    let s = c.stack_pointer;
    &&& l =~= l0 + seq![pc_read(c, l, k)] + push_pc(s, c.program_counter as int) + seq![wr(below(s, 2), c.status.0), rd(0xFFDE, d(l, k + 4)), rd(0xFFDF, d(l, k + 5)), BusCycle::Io(1)]
    &&& f == (Cpu { program_counter: w16(l, k + 4) as u16, status: Status(with_bit(with_bit(c.status.0, 4, false), 16, true)), ..move_sp(c, -3) })
}

/// What CALL does (see [`Spc700::call`]).
#[verifier::opaque]
pub open spec fn call_effect(c: Cpu, f: Cpu, l0: Seq<BusCycle>, l: Seq<BusCycle>) -> bool {
    let k = l0.len() as int;
    &&& l =~= l0 + seq![BusCycle::Io(3), rd(pc_at(c, 0), d(l, k + 1)), rd(pc_at(c, 1), d(l, k + 2))] + push_pc(c.stack_pointer, pc_at(c, 2))
    &&& f == (Cpu { program_counter: w16(l, k + 1) as u16, ..move_sp(c, -2) })
}

/// What PCALL does (see [`Spc700::pcall`]).
#[verifier::opaque]
pub open spec fn pcall_effect(c: Cpu, f: Cpu, l0: Seq<BusCycle>, l: Seq<BusCycle>) -> bool {
    let k = l0.len() as int;
    &&& l =~= l0 + seq![BusCycle::Io(2), rd(pc_at(c, 0), d(l, k + 1))] + push_pc(c.stack_pointer, pc_at(c, 1))
    &&& f == (Cpu { program_counter: (0xFF00 + d(l, k + 1)) as u16, ..move_sp(c, -2) })
}

/// What TCALL does (see [`Spc700::tcall`]).
#[verifier::opaque]
pub open spec fn tcall_effect(index: u8, c: Cpu, f: Cpu, l0: Seq<BusCycle>, l: Seq<BusCycle>) -> bool {
    let k = l0.len() as int;
    let v = 0xFFDE - 2 * index;
    &&& l =~= l0 + seq![pc_read(c, l, k), BusCycle::Io(2)] + push_pc(c.stack_pointer, c.program_counter as int) + seq![rd(v, d(l, k + 4)), rd(v + 1, d(l, k + 5))]
    &&& f == (Cpu { program_counter: w16(l, k + 4) as u16, ..move_sp(c, -2) })
}

/// What RET does (see [`Spc700::ret`]).
#[verifier::opaque]
pub open spec fn ret_effect(c: Cpu, f: Cpu, l0: Seq<BusCycle>, l: Seq<BusCycle>) -> bool {
    let k = l0.len() as int;
    let s = c.stack_pointer;
    &&& l =~= l0 + seq![pc_read(c, l, k), BusCycle::Io(1), rd(below(s, -1), d(l, k + 2)), rd(below(s, -2), d(l, k + 3))]
    &&& f == (Cpu { program_counter: w16(l, k + 2) as u16, ..move_sp(c, 2) })
}

/// What RETI does (see [`Spc700::reti`]).
#[verifier::opaque]
pub open spec fn reti_effect(c: Cpu, f: Cpu, l0: Seq<BusCycle>, l: Seq<BusCycle>) -> bool {
    let k = l0.len() as int;
    let s = c.stack_pointer;
    &&& l =~= l0 + seq![pc_read(c, l, k), BusCycle::Io(1), rd(below(s, -1), d(l, k + 2)), rd(below(s, -2), d(l, k + 3)), rd(below(s, -3), d(l, k + 4))]
    &&& f == (Cpu { program_counter: w16(l, k + 3) as u16, status: Status(d(l, k + 2)), ..move_sp(c, 3) })
}

/// What PUSH does (see [`Spc700::push`]).
#[verifier::opaque]
pub open spec fn push_effect(mode: AddressingMode, c: Cpu, f: Cpu, l0: Seq<BusCycle>, l: Seq<BusCycle>) -> bool {
    let k = l0.len() as int;
    &&& l =~= l0 + seq![wr(below(c.stack_pointer, 0), super::addressing::register(mode, c)), pc_read(c, l, k + 1), BusCycle::Io(1)]
    &&& f == move_sp(c, -1)
}

/// What POP does (see [`Spc700::pop`]).
#[verifier::opaque]
pub open spec fn pop_effect(mode: AddressingMode, c: Cpu, f: Cpu, l0: Seq<BusCycle>, l: Seq<BusCycle>) -> bool {
    let k = l0.len() as int;
    let v = d(l, k);
    let c1 = move_sp(c, 1);
    &&& l =~= l0 + seq![rd(below(c.stack_pointer, -1), v), pc_read(c, l, k + 1), BusCycle::Io(1)]
    &&& f == if mode == AddressingMode::Psw { Cpu { status: Status(v), ..c1 } } else { with_register(mode, c1, v) }
}

/// What JMP does (see [`Spc700::jmp`]).
#[verifier::opaque]
pub open spec fn jmp_effect(mode: AddressingMode, c: Cpu, f: Cpu, l0: Seq<BusCycle>, l: Seq<BusCycle>) -> bool {
    let k = l0.len() as int;
    let t = mode_trace(mode, c, l, k);
    let a = mode_addr(mode, c, l, k);
    let c1 = mode_cpu(mode, c);
    &&& if mode == AddressingMode::Absolute { &&& l =~= l0 + t &&& f == (Cpu { program_counter: a as u16, ..c1 }) } else { &&& l =~= l0 + t + seq![rd(a, d(l, k + t.len())), rd((a + 1) % 0x1_0000, d(l, k + t.len() + 1))] &&& f == (Cpu { program_counter: w16(l, k + t.len()) as u16, ..c1 }) }
}

/// What SLEEP does (see [`Spc700::sleep`]).
#[verifier::opaque]
pub open spec fn sleep_effect(c: Cpu, f: Cpu, l0: Seq<BusCycle>, l: Seq<BusCycle>) -> bool {
    let k = l0.len() as int;
    &&& l =~= l0 + seq![pc_read(c, l, k), pc_read(c, l, k + 1), pc_read(c, l, k + 2), BusCycle::Io(3)]
    &&& f == (Cpu { paused: true, ..c })
}

/// What STOP does (see [`Spc700::stop`]).
#[verifier::opaque]
pub open spec fn stop_effect(c: Cpu, f: Cpu, l0: Seq<BusCycle>, l: Seq<BusCycle>) -> bool {
    let k = l0.len() as int;
    &&& l =~= l0 + seq![pc_read(c, l, k), pc_read(c, l, k + 1), pc_read(c, l, k + 2), BusCycle::Io(3)]
    &&& f == (Cpu { paused: true, ..c })
}

/// What TCLR1 does (see [`Spc700::tclr1`]).
#[verifier::opaque]
pub open spec fn tclr1_effect(mode: AddressingMode, c: Cpu, f: Cpu, l0: Seq<BusCycle>, l: Seq<BusCycle>) -> bool {
    &&& test_bit_effect(mode, true, c, f, l0, l)
}

/// What TSET1 does (see [`Spc700::tset1`]).
#[verifier::opaque]
pub open spec fn tset1_effect(mode: AddressingMode, c: Cpu, f: Cpu, l0: Seq<BusCycle>, l: Seq<BusCycle>) -> bool {
    &&& test_bit_effect(mode, false, c, f, l0, l)
}

/// What MOV does (see [`Spc700::mov`]).
#[verifier::opaque]
pub open spec fn mov_effect(mode: AddressingMode, dest: AddressingMode, c: Cpu, f: Cpu, l0: Seq<BusCycle>, l: Seq<BusCycle>) -> bool {
    &&& mov_steps(mode, dest, c, f, l0, l)
}

/// What MOVW does (see [`Spc700::movw`]).
#[verifier::opaque]
pub open spec fn movw_effect(to_ya: bool, c: Cpu, f: Cpu, l0: Seq<BusCycle>, l: Seq<BusCycle>) -> bool {
    let k = l0.len() as int;
    let off = d(l, k) as int;
    &&& if to_ya { let w = w16(l, k + 1); &&& l =~= l0 + seq![rd(pc_at(c, 0), d(l, k)), rd(dp_addr(c, off), d(l, k + 1)), rd(dp_addr(c, off + 1), d(l, k + 2)), BusCycle::Io(1)] &&& f == (Cpu { accumulator: d(l, k + 1), index_y: d(l, k + 2), status: Status(with_bit(with_bit(c.status.0, 128, w >= 0x8000), 2, w == 0)), ..advance(c, 1) }) } else { &&& l =~= l0 + seq![rd(pc_at(c, 0), d(l, k)), rd(dp_addr(c, off), d(l, k + 1)), wr(dp_addr(c, off), c.accumulator), wr(dp_addr(c, off + 1), c.index_y)] &&& f == advance(c, 1) }
}

/// What ASL does (see [`Spc700::asl`]).
#[verifier::opaque]
pub open spec fn asl_effect(mode: AddressingMode, c: Cpu, f: Cpu, l0: Seq<BusCycle>, l: Seq<BusCycle>) -> bool {
    &&& l =~= l0 + rmw_trace(mode, true, RmwOp::Asl, c, l, l0.len() as int)
    &&& f == rmw_cpu(mode, RmwOp::Asl, c, l, l0.len() as int)
}

/// What LSR does (see [`Spc700::lsr`]).
#[verifier::opaque]
pub open spec fn lsr_effect(mode: AddressingMode, c: Cpu, f: Cpu, l0: Seq<BusCycle>, l: Seq<BusCycle>) -> bool {
    &&& l =~= l0 + rmw_trace(mode, true, RmwOp::Lsr, c, l, l0.len() as int)
    &&& f == rmw_cpu(mode, RmwOp::Lsr, c, l, l0.len() as int)
}

/// What ROL does (see [`Spc700::rol`]).
#[verifier::opaque]
pub open spec fn rol_effect(mode: AddressingMode, c: Cpu, f: Cpu, l0: Seq<BusCycle>, l: Seq<BusCycle>) -> bool {
    &&& l =~= l0 + rmw_trace(mode, true, RmwOp::Rol, c, l, l0.len() as int)
    &&& f == rmw_cpu(mode, RmwOp::Rol, c, l, l0.len() as int)
}

/// What ROR does (see [`Spc700::ror`]).
#[verifier::opaque]
pub open spec fn ror_effect(mode: AddressingMode, c: Cpu, f: Cpu, l0: Seq<BusCycle>, l: Seq<BusCycle>) -> bool {
    &&& l =~= l0 + rmw_trace(mode, true, RmwOp::Ror, c, l, l0.len() as int)
    &&& f == rmw_cpu(mode, RmwOp::Ror, c, l, l0.len() as int)
}

/// What DEC does (see [`Spc700::dec`]).
#[verifier::opaque]
pub open spec fn dec_effect(mode: AddressingMode, c: Cpu, f: Cpu, l0: Seq<BusCycle>, l: Seq<BusCycle>) -> bool {
    &&& l =~= l0 + rmw_trace(mode, true, RmwOp::Dec, c, l, l0.len() as int)
    &&& f == rmw_cpu(mode, RmwOp::Dec, c, l, l0.len() as int)
}

/// What INC does (see [`Spc700::inc`]).
#[verifier::opaque]
pub open spec fn inc_effect(mode: AddressingMode, c: Cpu, f: Cpu, l0: Seq<BusCycle>, l: Seq<BusCycle>) -> bool {
    &&& l =~= l0 + rmw_trace(mode, true, RmwOp::Inc, c, l, l0.len() as int)
    &&& f == rmw_cpu(mode, RmwOp::Inc, c, l, l0.len() as int)
}

/// What CLR1 does (see [`Spc700::clr1`]).
#[verifier::opaque]
pub open spec fn clr1_effect(mode: AddressingMode, bit: u8, c: Cpu, f: Cpu, l0: Seq<BusCycle>, l: Seq<BusCycle>) -> bool {
    &&& l =~= l0 + rmw_trace(mode, false, RmwOp::Clr1(bit), c, l, l0.len() as int)
    &&& f == rmw_cpu(mode, RmwOp::Clr1(bit), c, l, l0.len() as int)
}

/// What SET1 does (see [`Spc700::set1`]).
#[verifier::opaque]
pub open spec fn set1_effect(mode: AddressingMode, bit: u8, c: Cpu, f: Cpu, l0: Seq<BusCycle>, l: Seq<BusCycle>) -> bool {
    &&& l =~= l0 + rmw_trace(mode, false, RmwOp::Set1(bit), c, l, l0.len() as int)
    &&& f == rmw_cpu(mode, RmwOp::Set1(bit), c, l, l0.len() as int)
}

/// What BBS does (see [`Spc700::bbs`]).
#[verifier::opaque]
pub open spec fn bbs_effect(mode: AddressingMode, bit: u8, c: Cpu, f: Cpu, l0: Seq<BusCycle>, l: Seq<BusCycle>) -> bool {
    &&& bit_branch_effect(mode, bit, true, c, f, l0, l)
}

/// What BBC does (see [`Spc700::bbc`]).
#[verifier::opaque]
pub open spec fn bbc_effect(mode: AddressingMode, bit: u8, c: Cpu, f: Cpu, l0: Seq<BusCycle>, l: Seq<BusCycle>) -> bool {
    &&& bit_branch_effect(mode, bit, false, c, f, l0, l)
}

/// What the instructions of opcodes $00-$3F do.
pub open spec fn op_effect_0(op: u8, c: Cpu, f: Cpu, l0: Seq<BusCycle>, l: Seq<BusCycle>) -> bool {
    match op {
        0x00 => nop_effect(c, f, l0, l),
        0x01 => tcall_effect(0, c, f, l0, l),
        0x02 => set1_effect(AddressingMode::DirectPage, 0, c, f, l0, l),
        0x03 => bbs_effect(AddressingMode::DirectPage, 0, c, f, l0, l),
        0x04 => or_effect(AddressingMode::DirectPage, AddressingMode::Accumulator, c, f, l0, l),
        0x05 => or_effect(AddressingMode::Absolute, AddressingMode::Accumulator, c, f, l0, l),
        0x06 => or_effect(AddressingMode::IndirectX, AddressingMode::Accumulator, c, f, l0, l),
        0x07 => or_effect(AddressingMode::XIndirect, AddressingMode::Accumulator, c, f, l0, l),
        0x08 => or_effect(AddressingMode::Immediate, AddressingMode::Accumulator, c, f, l0, l),
        0x09 => or_effect(AddressingMode::DirectPage, AddressingMode::DirectPage, c, f, l0, l),
        0x0a => or1_effect(AddressingMode::AbsoluteBooleanBit, false, c, f, l0, l),
        0x0b => asl_effect(AddressingMode::DirectPage, c, f, l0, l),
        0x0c => asl_effect(AddressingMode::Absolute, c, f, l0, l),
        0x0d => push_effect(AddressingMode::Psw, c, f, l0, l),
        0x0e => tset1_effect(AddressingMode::Absolute, c, f, l0, l),
        0x0f => brk_effect(c, f, l0, l),
        0x10 => bpl_effect(c, f, l0, l),
        0x11 => tcall_effect(1, c, f, l0, l),
        0x12 => clr1_effect(AddressingMode::DirectPage, 0, c, f, l0, l),
        0x13 => bbc_effect(AddressingMode::DirectPage, 0, c, f, l0, l),
        0x14 => or_effect(AddressingMode::DirectX, AddressingMode::Accumulator, c, f, l0, l),
        0x15 => or_effect(AddressingMode::AbsoluteX, AddressingMode::Accumulator, c, f, l0, l),
        0x16 => or_effect(AddressingMode::AbsoluteY, AddressingMode::Accumulator, c, f, l0, l),
        0x17 => or_effect(AddressingMode::DirectPageIndirectY, AddressingMode::Accumulator, c, f, l0, l),
        0x18 => or_effect(AddressingMode::Immediate, AddressingMode::DirectPage, c, f, l0, l),
        0x19 => or_effect(AddressingMode::IndirectY, AddressingMode::IndirectX, c, f, l0, l),
        0x1a => decw_effect(c, f, l0, l),
        0x1b => asl_effect(AddressingMode::DirectX, c, f, l0, l),
        0x1c => asl_effect(AddressingMode::Accumulator, c, f, l0, l),
        0x1d => dec_effect(AddressingMode::X, c, f, l0, l),
        0x1e => cmp_effect(AddressingMode::Absolute, AddressingMode::X, c, f, l0, l),
        0x1f => jmp_effect(AddressingMode::AbsoluteX, c, f, l0, l),
        0x20 => clrp_effect(c, f, l0, l),
        0x21 => tcall_effect(2, c, f, l0, l),
        0x22 => set1_effect(AddressingMode::DirectPage, 1, c, f, l0, l),
        0x23 => bbs_effect(AddressingMode::DirectPage, 1, c, f, l0, l),
        0x24 => and_effect(AddressingMode::DirectPage, AddressingMode::Accumulator, c, f, l0, l),
        0x25 => and_effect(AddressingMode::Absolute, AddressingMode::Accumulator, c, f, l0, l),
        0x26 => and_effect(AddressingMode::IndirectX, AddressingMode::Accumulator, c, f, l0, l),
        0x27 => and_effect(AddressingMode::XIndirect, AddressingMode::Accumulator, c, f, l0, l),
        0x28 => and_effect(AddressingMode::Immediate, AddressingMode::Accumulator, c, f, l0, l),
        0x29 => and_effect(AddressingMode::DirectPage, AddressingMode::DirectPage, c, f, l0, l),
        0x2a => or1_effect(AddressingMode::AbsoluteBooleanBit, true, c, f, l0, l),
        0x2b => rol_effect(AddressingMode::DirectPage, c, f, l0, l),
        0x2c => rol_effect(AddressingMode::Absolute, c, f, l0, l),
        0x2d => push_effect(AddressingMode::Accumulator, c, f, l0, l),
        0x2e => cbne_effect(AddressingMode::DirectPage, c, f, l0, l),
        0x2f => bra_effect(c, f, l0, l),
        0x30 => bmi_effect(c, f, l0, l),
        0x31 => tcall_effect(3, c, f, l0, l),
        0x32 => clr1_effect(AddressingMode::DirectPage, 1, c, f, l0, l),
        0x33 => bbc_effect(AddressingMode::DirectPage, 1, c, f, l0, l),
        0x34 => and_effect(AddressingMode::DirectX, AddressingMode::Accumulator, c, f, l0, l),
        0x35 => and_effect(AddressingMode::AbsoluteX, AddressingMode::Accumulator, c, f, l0, l),
        0x36 => and_effect(AddressingMode::AbsoluteY, AddressingMode::Accumulator, c, f, l0, l),
        0x37 => and_effect(AddressingMode::DirectPageIndirectY, AddressingMode::Accumulator, c, f, l0, l),
        0x38 => and_effect(AddressingMode::Immediate, AddressingMode::DirectPage, c, f, l0, l),
        0x39 => and_effect(AddressingMode::IndirectY, AddressingMode::IndirectX, c, f, l0, l),
        0x3a => incw_effect(c, f, l0, l),
        0x3b => rol_effect(AddressingMode::DirectX, c, f, l0, l),
        0x3c => rol_effect(AddressingMode::Accumulator, c, f, l0, l),
        0x3d => inc_effect(AddressingMode::X, c, f, l0, l),
        0x3e => cmp_effect(AddressingMode::DirectPage, AddressingMode::X, c, f, l0, l),
        _ => call_effect(c, f, l0, l),
    }
}

/// What the instructions of opcodes $40-$7F do.
pub open spec fn op_effect_1(op: u8, c: Cpu, f: Cpu, l0: Seq<BusCycle>, l: Seq<BusCycle>) -> bool {
    match op {
        0x40 => setp_effect(c, f, l0, l),
        0x41 => tcall_effect(4, c, f, l0, l),
        0x42 => set1_effect(AddressingMode::DirectPage, 2, c, f, l0, l),
        0x43 => bbs_effect(AddressingMode::DirectPage, 2, c, f, l0, l),
        0x44 => eor_effect(AddressingMode::DirectPage, AddressingMode::Accumulator, c, f, l0, l),
        0x45 => eor_effect(AddressingMode::Absolute, AddressingMode::Accumulator, c, f, l0, l),
        0x46 => eor_effect(AddressingMode::IndirectX, AddressingMode::Accumulator, c, f, l0, l),
        0x47 => eor_effect(AddressingMode::XIndirect, AddressingMode::Accumulator, c, f, l0, l),
        0x48 => eor_effect(AddressingMode::Immediate, AddressingMode::Accumulator, c, f, l0, l),
        0x49 => eor_effect(AddressingMode::DirectPage, AddressingMode::DirectPage, c, f, l0, l),
        0x4a => and1_effect(AddressingMode::AbsoluteBooleanBit, false, c, f, l0, l),
        0x4b => lsr_effect(AddressingMode::DirectPage, c, f, l0, l),
        0x4c => lsr_effect(AddressingMode::Absolute, c, f, l0, l),
        0x4d => push_effect(AddressingMode::X, c, f, l0, l),
        0x4e => tclr1_effect(AddressingMode::Absolute, c, f, l0, l),
        0x4f => pcall_effect(c, f, l0, l),
        0x50 => bvc_effect(c, f, l0, l),
        0x51 => tcall_effect(5, c, f, l0, l),
        0x52 => clr1_effect(AddressingMode::DirectPage, 2, c, f, l0, l),
        0x53 => bbc_effect(AddressingMode::DirectPage, 2, c, f, l0, l),
        0x54 => eor_effect(AddressingMode::DirectX, AddressingMode::Accumulator, c, f, l0, l),
        0x55 => eor_effect(AddressingMode::AbsoluteX, AddressingMode::Accumulator, c, f, l0, l),
        0x56 => eor_effect(AddressingMode::AbsoluteY, AddressingMode::Accumulator, c, f, l0, l),
        0x57 => eor_effect(AddressingMode::DirectPageIndirectY, AddressingMode::Accumulator, c, f, l0, l),
        0x58 => eor_effect(AddressingMode::Immediate, AddressingMode::DirectPage, c, f, l0, l),
        0x59 => eor_effect(AddressingMode::IndirectY, AddressingMode::IndirectX, c, f, l0, l),
        0x5a => cmpw_effect(c, f, l0, l),
        0x5b => lsr_effect(AddressingMode::DirectX, c, f, l0, l),
        0x5c => lsr_effect(AddressingMode::Accumulator, c, f, l0, l),
        0x5d => mov_effect(AddressingMode::Accumulator, AddressingMode::X, c, f, l0, l),
        0x5e => cmp_effect(AddressingMode::Absolute, AddressingMode::Y, c, f, l0, l),
        0x5f => jmp_effect(AddressingMode::Absolute, c, f, l0, l),
        0x60 => clrc_effect(c, f, l0, l),
        0x61 => tcall_effect(6, c, f, l0, l),
        0x62 => set1_effect(AddressingMode::DirectPage, 3, c, f, l0, l),
        0x63 => bbs_effect(AddressingMode::DirectPage, 3, c, f, l0, l),
        0x64 => cmp_effect(AddressingMode::DirectPage, AddressingMode::Accumulator, c, f, l0, l),
        0x65 => cmp_effect(AddressingMode::Absolute, AddressingMode::Accumulator, c, f, l0, l),
        0x66 => cmp_effect(AddressingMode::IndirectX, AddressingMode::Accumulator, c, f, l0, l),
        0x67 => cmp_effect(AddressingMode::XIndirect, AddressingMode::Accumulator, c, f, l0, l),
        0x68 => cmp_effect(AddressingMode::Immediate, AddressingMode::Accumulator, c, f, l0, l),
        0x69 => cmp_effect(AddressingMode::DirectPage, AddressingMode::DirectPage, c, f, l0, l),
        0x6a => and1_effect(AddressingMode::AbsoluteBooleanBit, true, c, f, l0, l),
        0x6b => ror_effect(AddressingMode::DirectPage, c, f, l0, l),
        0x6c => ror_effect(AddressingMode::Absolute, c, f, l0, l),
        0x6d => push_effect(AddressingMode::Y, c, f, l0, l),
        0x6e => dbnz_effect(AddressingMode::DirectPage, c, f, l0, l),
        0x6f => ret_effect(c, f, l0, l),
        0x70 => bvs_effect(c, f, l0, l),
        0x71 => tcall_effect(7, c, f, l0, l),
        0x72 => clr1_effect(AddressingMode::DirectPage, 3, c, f, l0, l),
        0x73 => bbc_effect(AddressingMode::DirectPage, 3, c, f, l0, l),
        0x74 => cmp_effect(AddressingMode::DirectX, AddressingMode::Accumulator, c, f, l0, l),
        0x75 => cmp_effect(AddressingMode::AbsoluteX, AddressingMode::Accumulator, c, f, l0, l),
        0x76 => cmp_effect(AddressingMode::AbsoluteY, AddressingMode::Accumulator, c, f, l0, l),
        0x77 => cmp_effect(AddressingMode::DirectPageIndirectY, AddressingMode::Accumulator, c, f, l0, l),
        0x78 => cmp_effect(AddressingMode::Immediate, AddressingMode::DirectPage, c, f, l0, l),
        0x79 => cmp_effect(AddressingMode::IndirectY, AddressingMode::IndirectX, c, f, l0, l),
        0x7a => addw_effect(c, f, l0, l),
        0x7b => ror_effect(AddressingMode::DirectX, c, f, l0, l),
        0x7c => ror_effect(AddressingMode::Accumulator, c, f, l0, l),
        0x7d => mov_effect(AddressingMode::X, AddressingMode::Accumulator, c, f, l0, l),
        0x7e => cmp_effect(AddressingMode::DirectPage, AddressingMode::Y, c, f, l0, l),
        _ => reti_effect(c, f, l0, l),
    }
}

/// What the instructions of opcodes $80-$BF do.
pub open spec fn op_effect_2(op: u8, c: Cpu, f: Cpu, l0: Seq<BusCycle>, l: Seq<BusCycle>) -> bool {
    match op {
        0x80 => setc_effect(c, f, l0, l),
        0x81 => tcall_effect(8, c, f, l0, l),
        0x82 => set1_effect(AddressingMode::DirectPage, 4, c, f, l0, l),
        0x83 => bbs_effect(AddressingMode::DirectPage, 4, c, f, l0, l),
        0x84 => adc_effect(AddressingMode::DirectPage, AddressingMode::Accumulator, c, f, l0, l),
        0x85 => adc_effect(AddressingMode::Absolute, AddressingMode::Accumulator, c, f, l0, l),
        0x86 => adc_effect(AddressingMode::IndirectX, AddressingMode::Accumulator, c, f, l0, l),
        0x87 => adc_effect(AddressingMode::XIndirect, AddressingMode::Accumulator, c, f, l0, l),
        0x88 => adc_effect(AddressingMode::Immediate, AddressingMode::Accumulator, c, f, l0, l),
        0x89 => adc_effect(AddressingMode::DirectPage, AddressingMode::DirectPage, c, f, l0, l),
        0x8a => eor1_effect(AddressingMode::AbsoluteBooleanBit, c, f, l0, l),
        0x8b => dec_effect(AddressingMode::DirectPage, c, f, l0, l),
        0x8c => dec_effect(AddressingMode::Absolute, c, f, l0, l),
        0x8d => mov_effect(AddressingMode::Immediate, AddressingMode::Y, c, f, l0, l),
        0x8e => pop_effect(AddressingMode::Psw, c, f, l0, l),
        0x8f => mov_effect(AddressingMode::Immediate, AddressingMode::DirectPage, c, f, l0, l),
        0x90 => bcc_effect(c, f, l0, l),
        0x91 => tcall_effect(9, c, f, l0, l),
        0x92 => clr1_effect(AddressingMode::DirectPage, 4, c, f, l0, l),
        0x93 => bbc_effect(AddressingMode::DirectPage, 4, c, f, l0, l),
        0x94 => adc_effect(AddressingMode::DirectX, AddressingMode::Accumulator, c, f, l0, l),
        0x95 => adc_effect(AddressingMode::AbsoluteX, AddressingMode::Accumulator, c, f, l0, l),
        0x96 => adc_effect(AddressingMode::AbsoluteY, AddressingMode::Accumulator, c, f, l0, l),
        0x97 => adc_effect(AddressingMode::DirectPageIndirectY, AddressingMode::Accumulator, c, f, l0, l),
        0x98 => adc_effect(AddressingMode::Immediate, AddressingMode::DirectPage, c, f, l0, l),
        0x99 => adc_effect(AddressingMode::IndirectY, AddressingMode::IndirectX, c, f, l0, l),
        0x9a => subw_effect(c, f, l0, l),
        0x9b => dec_effect(AddressingMode::DirectX, c, f, l0, l),
        0x9c => dec_effect(AddressingMode::Accumulator, c, f, l0, l),
        0x9d => mov_effect(AddressingMode::Sp, AddressingMode::X, c, f, l0, l),
        0x9e => div_effect(c, f, l0, l),
        0x9f => xcn_effect(c, f, l0, l),
        0xa0 => ei_effect(c, f, l0, l),
        0xa1 => tcall_effect(10, c, f, l0, l),
        0xa2 => set1_effect(AddressingMode::DirectPage, 5, c, f, l0, l),
        0xa3 => bbs_effect(AddressingMode::DirectPage, 5, c, f, l0, l),
        0xa4 => sbc_effect(AddressingMode::DirectPage, AddressingMode::Accumulator, c, f, l0, l),
        0xa5 => sbc_effect(AddressingMode::Absolute, AddressingMode::Accumulator, c, f, l0, l),
        0xa6 => sbc_effect(AddressingMode::IndirectX, AddressingMode::Accumulator, c, f, l0, l),
        0xa7 => sbc_effect(AddressingMode::XIndirect, AddressingMode::Accumulator, c, f, l0, l),
        0xa8 => sbc_effect(AddressingMode::Immediate, AddressingMode::Accumulator, c, f, l0, l),
        0xa9 => sbc_effect(AddressingMode::DirectPage, AddressingMode::DirectPage, c, f, l0, l),
        0xaa => mov1_effect(AddressingMode::AbsoluteBooleanBit, true, c, f, l0, l),
        0xab => inc_effect(AddressingMode::DirectPage, c, f, l0, l),
        0xac => inc_effect(AddressingMode::Absolute, c, f, l0, l),
        0xad => cmp_effect(AddressingMode::Immediate, AddressingMode::Y, c, f, l0, l),
        0xae => pop_effect(AddressingMode::Accumulator, c, f, l0, l),
        0xaf => mov_effect(AddressingMode::Accumulator, AddressingMode::DirectXPostIncrement, c, f, l0, l),
        0xb0 => bcs_effect(c, f, l0, l),
        0xb1 => tcall_effect(11, c, f, l0, l),
        0xb2 => clr1_effect(AddressingMode::DirectPage, 5, c, f, l0, l),
        0xb3 => bbc_effect(AddressingMode::DirectPage, 5, c, f, l0, l),
        0xb4 => sbc_effect(AddressingMode::DirectX, AddressingMode::Accumulator, c, f, l0, l),
        0xb5 => sbc_effect(AddressingMode::AbsoluteX, AddressingMode::Accumulator, c, f, l0, l),
        0xb6 => sbc_effect(AddressingMode::AbsoluteY, AddressingMode::Accumulator, c, f, l0, l),
        0xb7 => sbc_effect(AddressingMode::DirectPageIndirectY, AddressingMode::Accumulator, c, f, l0, l),
        0xb8 => sbc_effect(AddressingMode::Immediate, AddressingMode::DirectPage, c, f, l0, l),
        0xb9 => sbc_effect(AddressingMode::IndirectY, AddressingMode::IndirectX, c, f, l0, l),
        0xba => movw_effect(true, c, f, l0, l),
        0xbb => inc_effect(AddressingMode::DirectX, c, f, l0, l),
        0xbc => inc_effect(AddressingMode::Accumulator, c, f, l0, l),
        0xbd => mov_effect(AddressingMode::X, AddressingMode::Sp, c, f, l0, l),
        0xbe => das_effect(c, f, l0, l),
        _ => mov_effect(AddressingMode::DirectXPostIncrement, AddressingMode::Accumulator, c, f, l0, l),
    }
}

/// What the instruction of opcode `op` (below $C0) does: from CPU `c` and bus log `l0` it
/// leaves CPU `f` and log `l`.
pub open spec fn op_effect(op: u8, c: Cpu, f: Cpu, l0: Seq<BusCycle>, l: Seq<BusCycle>) -> bool {
    if op < 0x40 {
        op_effect_0(op, c, f, l0, l)
    } else if op < 0x80 {
        op_effect_1(op, c, f, l0, l)
    } else {
        op_effect_2(op, c, f, l0, l)
    }
}

} // verus!
