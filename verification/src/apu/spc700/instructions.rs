use vstd::prelude::*;

use super::addressing::{
    advance, dp_addr, is_memory_mode, is_operand_mode, is_register_mode, lemma_operand_frame, mode_addr, mode_cpu,
    mode_trace, operand_cpu, operand_trace, operand_value, pc_at, pow2,
};
use super::effects::{
    adc_effect, sbc_effect, and_effect, or_effect, eor_effect, not1_effect, mov1_effect, bcc_effect,
    bcs_effect, beq_effect, bne_effect, bmi_effect, bpl_effect, bvc_effect, bvs_effect, bra_effect,
    cbne_effect, dbnz_effect, clrc_effect, setc_effect, clrp_effect, setp_effect, clrv_effect, di_effect,
    ei_effect, notc_effect, nop_effect, cmp_effect, cmpw_effect, and1_effect, or1_effect, eor1_effect,
    incw_effect, decw_effect, addw_effect, subw_effect, mul_effect, div_effect, xcn_effect, daa_effect,
    das_effect, brk_effect, call_effect, pcall_effect, tcall_effect, ret_effect, reti_effect, push_effect,
    pop_effect, jmp_effect, sleep_effect, stop_effect, tclr1_effect, tset1_effect, mov_effect, movw_effect,
    asl_effect, lsr_effect, rol_effect, ror_effect, dec_effect, inc_effect, clr1_effect, set1_effect,
    bbs_effect, bbc_effect,
};
use super::ops::{
    byte_register, cv, is_rmw_mode, rmw_apply, rmw_cpu, rmw_op_ok, rmw_result, rmw_trace, sext8, stack_addr, with_register, RmwOp,
};
use super::{adc_spec, nz8, AddressingMode, Cpu, Status};
use crate::bus::{Bus, BusCycle};
use crate::utils::bits::{bit, lemma_with_bit, with_bit};
use crate::w65c816::bcd::{bcd8_encode, bcd8_value, is_bcd8};
use crate::w65c816::addressing::Address;
use crate::w65c816::trace::{d, extends, rd, w16, wr};

verus! {

/// The SPC700 processor of the sound unit.
pub struct Spc700 {
    pub cpu: Cpu,
}

/// What every bus access keeps: the bus invariant, a clock that never goes back and the agenda.
pub open spec fn kept<B: Bus>(b0: B, b1: B) -> bool {
    &&& b1.inv()
    &&& b1.clock() >= b0.clock()
    &&& b1.agenda() == b0.agenda()
}

/// A discarded read of the program counter, the `j`-th cycle of the log.
pub open spec fn pc_read(c: Cpu, l: Seq<BusCycle>, j: int) -> BusCycle {
    rd(pc_at(c, 0), d(l, j))
}

/// The arithmetic and logic operations that combine an operand into a destination.
#[derive(Clone, Copy, PartialEq, Eq, Structural)]
pub enum AluKind {
    Adc,
    Sbc,
    And,
    Or,
    Eor,
}

/// The read-modify-write that combines operand `b` by `kind`.
pub open spec fn alu_op(kind: AluKind, b: u8) -> RmwOp {
    match kind {
        AluKind::Adc => RmwOp::Adc(b),
        AluKind::Sbc => RmwOp::Sbc(b),
        AluKind::And => RmwOp::And(b),
        AluKind::Or => RmwOp::Or(b),
        AluKind::Eor => RmwOp::Eor(b),
    }
}

/// What `dest op= operand` does: the operand fetch, then the read-modify-write of the destination.
pub open spec fn alu_effect(kind: AluKind, mode: AddressingMode, dest: AddressingMode, c: Cpu, f: Cpu, l0: Seq<BusCycle>, l: Seq<BusCycle>) -> bool {
    let k = l0.len() as int;
    let t = operand_trace(mode, c, l, k);
    let op = alu_op(kind, operand_value(mode, c, l, k));
    let c1 = operand_cpu(mode, c);
    &&& l == l0 + t + rmw_trace(dest, false, op, c1, l, k + t.len())
    &&& f == rmw_cpu(dest, op, c1, l, k + t.len())
}

/// The PSW with the carry set to `v`.
pub open spec fn with_carry(c: Cpu, v: bool) -> Cpu {
    Cpu { status: Status(with_bit(c.status.0, 1, v)), ..c }
}

/// The PSW with the bit of value `m` set to `v`.
pub open spec fn with_flag(c: Cpu, m: int, v: bool) -> Cpu {
    Cpu { status: Status(with_bit(c.status.0, m, v)), ..c }
}


/// What CMP does: one internal cycle when the first operand is in memory, the fetch of the
/// second operand `mode`, then of the first `a_mode`; C when not below, N and Z from the difference.
pub open spec fn compare_effect(mode: AddressingMode, a_mode: AddressingMode, c: Cpu, f: Cpu, l0: Seq<BusCycle>, l: Seq<BusCycle>) -> bool {
    let io: Seq<BusCycle> = if is_register_mode(a_mode) { seq![] } else { seq![BusCycle::Io(1)] };
    let k = (l0.len() + io.len()) as int;
    let t1 = operand_trace(mode, c, l, k);
    let b = operand_value(mode, c, l, k);
    let c1 = operand_cpu(mode, c);
    let t2 = operand_trace(a_mode, c1, l, k + t1.len());
    let a = operand_value(a_mode, c1, l, k + t1.len());
    let c2 = operand_cpu(a_mode, c1);
    &&& l == l0 + io + t1 + t2
    &&& f == (Cpu { status: Status(nz8(with_bit(c2.status.0, 1, a >= b), ((a - b) % 256) as u8)), ..c2 })
}

/// What INCW (`inc`) and DECW do: the offset byte, the word read from the direct page and
/// written back one up (down); N and Z from the 16-bit result.
pub open spec fn word_rmw_effect(inc: bool, c: Cpu, f: Cpu, l0: Seq<BusCycle>, l: Seq<BusCycle>) -> bool {
    let k = l0.len() as int;
    let off = d(l, k) as int;
    let res = (w16(l, k + 1) + if inc { 1int } else { 0xFFFF }) % 0x1_0000;
    &&& l == l0 + seq![
        rd(pc_at(c, 0), d(l, k)),
        rd(dp_addr(c, off), d(l, k + 1)),
        rd(dp_addr(c, off + 1), d(l, k + 2)),
        wr(dp_addr(c, off), (res % 256) as u8),
        wr(dp_addr(c, off + 1), (res / 256) as u8),
    ]
    &&& f == (Cpu { status: Status(with_bit(with_bit(c.status.0, 128, res >= 0x8000), 2, res == 0)), ..advance(c, 1) })
}

/// What TSET1 and TCLR1 (`clear`) do: the address, the byte read, a discarded read, the
/// byte with A's bits set (cleared) written back; N and Z from A minus the byte.
pub open spec fn test_bit_effect(mode: AddressingMode, clear: bool, c: Cpu, f: Cpu, l0: Seq<BusCycle>, l: Seq<BusCycle>) -> bool {
    let k = l0.len() as int;
    let t = mode_trace(mode, c, l, k);
    let a = mode_addr(mode, c, l, k);
    let v = d(l, k + t.len());
    let value = if clear { !c.accumulator & v } else { c.accumulator | v };
    &&& l == l0 + t + seq![rd(a, v), rd(a, d(l, k + t.len() + 1)), wr(a, value)]
    &&& f == (Cpu { status: Status(nz8(c.status.0, ((c.accumulator - v) % 256) as u8)), ..mode_cpu(mode, c) })
}

/// What CMPW does: the offset byte, the two bytes of the word in the direct page; C when YA
/// is not below the word, N and Z from the 16-bit difference.
pub open spec fn word_compare_effect(c: Cpu, f: Cpu, l0: Seq<BusCycle>, l: Seq<BusCycle>) -> bool {
    let k = l0.len() as int;
    let off = d(l, k) as int;
    let a = c.accumulator + 256 * c.index_y;
    let b = w16(l, k + 1);
    let r = (a - b) % 0x1_0000;
    &&& l == l0 + seq![rd(pc_at(c, 0), d(l, k)), rd(dp_addr(c, off), d(l, k + 1)), rd(dp_addr(c, off + 1), d(l, k + 2))]
    &&& f == (Cpu {
        status: Status(with_bit(with_bit(with_bit(c.status.0, 1, a >= b), 128, r >= 0x8000), 2, r == 0)),
        ..advance(c, 1)
    })
}

/// Decimal adjust after an addition: A and PSW.
pub open spec fn daa_spec(p: u8, a: u8) -> (u8, u8) {
    let hi = bit(p, 1) || a > 0x99;
    let a1 = if hi { ((a + 0x60) % 256) as u8 } else { a };
    let p1 = if hi { with_bit(p, 1, true) } else { p };
    let a2 = if bit(p1, 8) || a1 % 16 > 9 { ((a1 + 6) % 256) as u8 } else { a1 };
    (a2, nz8(p1, a2))
}

/// Decimal adjust after a subtraction: A and PSW.
pub open spec fn das_spec(p: u8, a: u8) -> (u8, u8) {
    let hi = !bit(p, 1) || a > 0x99;
    let a1 = if hi { ((a + 256 - 0x60) % 256) as u8 } else { a };
    let p1 = if hi { with_bit(p, 1, false) } else { p };
    let a2 = if !bit(p1, 8) || a1 % 16 > 9 { ((a1 + 256 - 6) % 256) as u8 } else { a1 };
    (a2, nz8(p1, a2))
}

/// NZ leave the carry (bit 0) and half-carry (bit 3) flags alone.
proof fn lemma_nz8_keeps(p: u8, v: u8)
    ensures
        bit(nz8(p, v), 1) == bit(p, 1),
        bit(nz8(p, v), 8) == bit(p, 8),
{
    lemma_with_bit(with_bit(p, 128, v >= 0x80), 2, v == 0, 1);
    lemma_with_bit(with_bit(p, 128, v >= 0x80), 2, v == 0, 8);
    lemma_with_bit(p, 128, v >= 0x80, 1);
    lemma_with_bit(p, 128, v >= 0x80, 8);
}

/// The carry and half-carry an 8-bit add with carry leaves.
proof fn lemma_adc_flags(p: u8, a: u8, b: u8)
    ensures
        bit(adc_spec(p, a, b).1, 1) == (a + b + (if bit(p, 1) { 1int } else { 0 }) >= 256),
        bit(adc_spec(p, a, b).1, 8) == (a % 16 + b % 16 + (if bit(p, 1) { 1int } else { 0 }) >= 16),
{
    let c: int = if bit(p, 1) { 1 } else { 0 };
    let sum = a + b + c;
    let r = (sum % 256) as u8;
    let h = a % 16 + b % 16 + c >= 16;
    let v = (a >= 0x80) == (b >= 0x80) && (r >= 0x80) != (a >= 0x80);
    let q1 = with_bit(p, 1, sum >= 256);
    let q2 = with_bit(q1, 8, h);
    let q3 = with_bit(q2, 64, v);
    lemma_nz8_keeps(q3, r);
    lemma_with_bit(q2, 64, v, 1);
    lemma_with_bit(q2, 64, v, 8);
    lemma_with_bit(q1, 8, h, 1);
    lemma_with_bit(q1, 8, h, 8);
    lemma_with_bit(p, 1, sum >= 256, 1);
}

/// The decimal adjust after a subtraction, on digits: `a1 a0` minus `b1 b0` less the borrow.
proof fn lemma_das_digits(a1: int, a0: int, b1: int, b0: int, cin: int)
    requires
        0 <= a1 <= 9 && 0 <= a0 <= 9 && 0 <= b1 <= 9 && 0 <= b0 <= 9,
        cin == 0 || cin == 1,
    ensures
        ({
            let s = 16 * a1 + a0 + 255 - (16 * b1 + b0) + cin;
            let r = s % 256;
            let c = s >= 256;
            let h = a0 + 15 - b0 + cin >= 16;
            let hi = !c || r > 0x99;
            let x1 = if hi { (r + 256 - 0x60) % 256 } else { r };
            let x2 = if !h || x1 % 16 > 9 { (x1 + 256 - 6) % 256 } else { x1 };
            let diff = 10 * a1 + a0 - (10 * b1 + b0) - (1 - cin);
            &&& x2 == bcd8_encode(if diff >= 0 { diff } else { diff + 100 })
            &&& (c && !hi) == (diff >= 0)
        }),
{
    let s = 16 * a1 + a0 + 255 - (16 * b1 + b0) + cin;
    let low = a0 - b0 - (1 - cin);
    let bl: int = if low < 0 { 1 } else { 0 };
    let lowd = low + 10 * bl;
    let t = a1 - b1 - bl;
    let diff = 10 * a1 + a0 - (10 * b1 + b0) - (1 - cin);
    assert(diff == 10 * t + lowd);
    assert(0 <= lowd <= 9);
    if low >= 0 {
        assert(s == 256 + 16 * t + low);
        if t >= 0 {
            assert(s % 256 == 16 * t + low);
            assert(bcd8_encode(diff) == 16 * t + lowd);
        } else {
            assert(s % 256 == 256 + 16 * t + low);
            assert((256 + 16 * t + low + 256 - 0x60) % 256 == 160 + 16 * t + low);
            assert((160 + 16 * t + low) % 16 == low);
            assert(diff + 100 == 10 * (t + 10) + lowd);
            assert(bcd8_encode(diff + 100) == 16 * (t + 10) + lowd);
        }
    } else {
        assert(s == 256 + 16 * t + lowd + 6);
        if t >= 0 {
            assert(s % 256 == 16 * t + lowd + 6);
            assert((16 * t + lowd + 6 + 256 - 6) % 256 == 16 * t + lowd);
            assert(bcd8_encode(diff) == 16 * t + lowd);
        } else {
            assert(s % 256 == 256 + 16 * t + lowd + 6);
            assert((256 + 16 * t + lowd + 6 + 256 - 0x60) % 256 == 160 + 16 * t + lowd + 6);
            assert((160 + 16 * t + lowd + 6 + 256 - 6) % 256 == 160 + 16 * t + lowd);
            assert(diff + 100 == 10 * (t + 10) + lowd);
            assert(bcd8_encode(diff + 100) == 16 * (t + 10) + lowd);
        }
    }
}

/// The BCD encoding of a number given by its tens and units.
proof fn lemma_encode_digits(t: int, d: int)
    requires
        0 <= t <= 9 && 0 <= d <= 9,
    ensures
        bcd8_encode(10 * t + d) == 16 * t + d,
{
    assert((10 * t + d) / 10 == t && (10 * t + d) % 10 == d) by (nonlinear_arith)
        requires 0 <= t <= 9 && 0 <= d <= 9;
}

/// The decimal adjust after an addition, on digits: `a1 a0` plus `b1 b0` plus the carry.
#[verifier::rlimit(50)]
proof fn lemma_daa_digits(a1: int, a0: int, b1: int, b0: int, cin: int)
    requires
        0 <= a1 <= 9 && 0 <= a0 <= 9 && 0 <= b1 <= 9 && 0 <= b0 <= 9,
        cin == 0 || cin == 1,
    ensures
        ({
            let s = 16 * a1 + a0 + 16 * b1 + b0 + cin;
            let r = s % 256;
            let c = s >= 256;
            let h = a0 + b0 + cin >= 16;
            let hi = c || r > 0x99;
            let x1 = if hi { (r + 0x60) % 256 } else { r };
            let x2 = if h || x1 % 16 > 9 { (x1 + 6) % 256 } else { x1 };
            let sum = 10 * a1 + a0 + 10 * b1 + b0 + cin;
            &&& x2 == bcd8_encode(sum % 100)
            &&& (c || hi) == (sum >= 100)
        }),
{
    let u = a1 + b1;
    let low = a0 + b0 + cin;
    let s = 16 * u + low;
    let r = s % 256;
    let c = s >= 256;
    let h = low >= 16;
    let hi = c || r > 0x99;
    let x1 = if hi { (r + 0x60) % 256 } else { r };
    let sum = 10 * a1 + a0 + 10 * b1 + b0 + cin;
    let k: int = if low > 9 { 1 } else { 0 };
    let lowd = low - 10 * k;
    let t = u + k;
    assert(sum == 10 * t + lowd);
    assert(0 <= lowd <= 9);
    if s >= 256 {
        assert(r == s - 256);
    } else {
        assert(r == s);
    }
    if t <= 9 {
        assert(sum % 100 == sum);
        lemma_encode_digits(t, lowd);
        assert(s <= 0x99);
        assert(!hi && x1 == s);
        if low <= 9 {
            assert(x1 % 16 == low);
        } else if low <= 15 {
            assert(x1 % 16 == low);
            assert(s + 6 == 16 * t + lowd);
        } else {
            assert(s + 6 == 16 * t + lowd);
        }
    } else {
        assert(sum % 100 == 10 * (t - 10) + lowd);
        lemma_encode_digits(t - 10, lowd);
        assert(s >= 154);
        assert(hi);
        assert((r + 0x60) % 256 == (s + 0x60) % 256);
        if s + 0x60 >= 256 {
            assert(x1 == s - 160);
            if low <= 9 {
                assert(x1 == 16 * (u - 10) + low);
                assert(x1 % 16 == low);
            } else if low <= 15 {
                assert(x1 == 16 * (u - 10) + low);
                assert(x1 % 16 == low);
                assert(x1 + 6 == 16 * (t - 10) + lowd);
            } else {
                assert(x1 + 6 == 16 * (t - 10) + lowd);
            }
        } else {
            assert(u == 9 && 10 <= low <= 15);
            assert(x1 == 240 + low);
            assert(x1 % 16 == low);
            assert((x1 + 6) % 256 == lowd);
        }
    }
}

/// SBC of two BCD numbers followed by DAS is BCD subtraction: A ends up as the BCD encoding of
/// the decimal difference (less the borrow) modulo 100, and C is set exactly when no borrow
/// occurred.
#[verifier::rlimit(100)]
#[verifier::spinoff_prover]
pub proof fn lemma_sbc_das_is_bcd_subtraction(p: u8, a: u8, b: u8)
    requires
        is_bcd8(a as int),
        is_bcd8(b as int),
    ensures
        ({
            let (r, p1) = rmw_apply(RmwOp::Sbc(b), p, a);
            let (x, p2) = das_spec(p1, r);
            let diff = bcd8_value(a as int) - bcd8_value(b as int) - (if bit(p, 1) { 0int } else { 1 });
            &&& x == bcd8_encode(if diff >= 0 { diff } else { diff + 100 })
            &&& bit(p2, 1) == (diff >= 0)
        }),
{
    reveal(rmw_apply);
    let cin: int = if bit(p, 1) { 1 } else { 0 };
    let nb = (255 - b) as u8;
    lemma_adc_flags(p, a, nb);
    let (r, p1) = adc_spec(p, a, nb);
    let a1 = a as int / 16;
    let a0 = a as int % 16;
    let b1 = b as int / 16;
    let b0 = b as int % 16;
    assert(a as int == 16 * a1 + a0 && b as int == 16 * b1 + b0);
    assert(nb as int == 16 * (15 - b1) + (15 - b0));
    assert(nb as int % 16 == 15 - b0);
    lemma_das_digits(a1, a0, b1, b0, cin);
    let q = if !bit(p1, 1) || r > 0x99 { with_bit(p1, 1, false) } else { p1 };
    lemma_with_bit(p1, 1, false, 8);
    lemma_with_bit(p1, 1, false, 1);
    let x2 = das_spec(p1, r).0;
    assert(das_spec(p1, r).1 == nz8(q, x2));
    lemma_nz8_keeps(q, x2);
}

/// ADC of two BCD numbers followed by DAA is BCD addition: A ends up as the BCD encoding of the
/// decimal sum (with the carry) modulo 100, and C is set exactly when the sum reaches 100.
#[verifier::rlimit(100)]
#[verifier::spinoff_prover]
pub proof fn lemma_adc_daa_is_bcd_addition(p: u8, a: u8, b: u8)
    requires
        is_bcd8(a as int),
        is_bcd8(b as int),
    ensures
        ({
            let (r, p1) = rmw_apply(RmwOp::Adc(b), p, a);
            let (x, p2) = daa_spec(p1, r);
            let sum = bcd8_value(a as int) + bcd8_value(b as int) + (if bit(p, 1) { 1int } else { 0 });
            &&& x == bcd8_encode(sum % 100)
            &&& bit(p2, 1) == (sum >= 100)
        }),
{
    reveal(rmw_apply);
    let cin: int = if bit(p, 1) { 1 } else { 0 };
    lemma_adc_flags(p, a, b);
    let (r, p1) = adc_spec(p, a, b);
    let a1 = a as int / 16;
    let a0 = a as int % 16;
    let b1 = b as int / 16;
    let b0 = b as int % 16;
    assert(a as int == 16 * a1 + a0 && b as int == 16 * b1 + b0);
    lemma_daa_digits(a1, a0, b1, b0, cin);
    let s = a + b + cin;
    assert(s == 16 * a1 + a0 + 16 * b1 + b0 + cin);
    assert(r as int == s % 256);
    assert(bit(p1, 1) == (s >= 256));
    assert(bit(p1, 8) == (a0 + b0 + cin >= 16));
    let hi = bit(p1, 1) || r > 0x99;
    let q = if hi { with_bit(p1, 1, true) } else { p1 };
    lemma_with_bit(p1, 1, true, 8);
    lemma_with_bit(p1, 1, true, 1);
    assert(bit(q, 8) == bit(p1, 8));
    assert(bit(q, 1) == (bit(p1, 1) || hi));
    let x1: u8 = if hi { ((r + 0x60) % 256) as u8 } else { r };
    let x2: u8 = if bit(q, 8) || x1 % 16 > 9 { ((x1 + 6) % 256) as u8 } else { x1 };
    assert(daa_spec(p1, r) == (x2, nz8(q, x2)));
    lemma_nz8_keeps(q, x2);
    assert(bcd8_value(a as int) == 10 * a1 + a0);
    assert(bcd8_value(b as int) == 10 * b1 + b0);
    let ri = s % 256;
    let hi_i = s >= 256 || ri > 0x99;
    assert(hi == hi_i);
    let x1i = if hi_i { (ri + 0x60) % 256 } else { ri };
    assert(x1 as int == x1i);
    let x2i = if a0 + b0 + cin >= 16 || x1i % 16 > 9 { (x1i + 6) % 256 } else { x1i };
    assert(x2 as int == x2i);
    let sum = 10 * a1 + a0 + 10 * b1 + b0 + cin;
    assert(x2i == bcd8_encode(sum % 100));
    assert((s >= 256 || hi_i) == (sum >= 100));
    assert(rmw_apply(RmwOp::Adc(b), p, a) == (r, p1));
    let sum2 = bcd8_value(a as int) + bcd8_value(b as int) + (if bit(p, 1) { 1int } else { 0 });
    assert(sum2 == sum);
    assert(x2 == bcd8_encode(sum2 % 100));
    assert(bit(nz8(q, x2), 1) == (sum2 >= 100));
}

/// DIV's quotient (A) and remainder (Y) of YA by X; when the quotient does not fit in 9
/// bits the chip's own arithmetic gives the result.
pub open spec fn div_spec(a: u8, x: u8, y: u8) -> (u8, u8) {
    let ya = a + 256 * y;
    if y < 2 * x {
        (((ya / (x as int)) % 256) as u8, (ya % (x as int)) as u8)
    } else {
        ((255 - (ya - 512 * x) / (256 - x)) as u8, (x + (ya - 512 * x) % (256 - x)) as u8)
    }
}

/// The result and PSW of ADDW (`sub` false) or SUBW on YA and word `w`: two byte adds through
/// the carry, Z from the whole word.
pub open spec fn addw_spec(p: u8, a: u8, y: u8, w: int, sub: bool) -> (u8, u8, u8) {
    let lo = (w % 256) as u8;
    let hi = (w / 256) as u8;
    let p0 = with_bit(p, 1, sub);
    let r1 = adc_spec(p0, a, if sub { (255 - lo) as u8 } else { lo });
    let r2 = adc_spec(r1.1, y, if sub { (255 - hi) as u8 } else { hi });
    (r1.0, r2.0, with_bit(r2.1, 2, r2.0 == 0 && r1.0 == 0))
}

/// The stack address `n` bytes below stack pointer `s` (wrapping in page 1).
pub open spec fn below(s: u8, n: int) -> int {
    stack_addr(((s - n) % 256) as u8)
}

/// The CPU with its stack pointer moved by `n` (wrapping).
pub open spec fn move_sp(c: Cpu, n: int) -> Cpu {
    Cpu { stack_pointer: ((c.stack_pointer + n) % 256) as u8, ..c }
}

/// The two pushes of a return address, high byte first.
pub open spec fn push_pc(s: u8, pc: int) -> Seq<BusCycle> {
    seq![wr(below(s, 0), (pc / 256) as u8), wr(below(s, 1), (pc % 256) as u8)]
}

/// The bus cycles of MOV's store of `v` into `dest`, from cycle `j` on (`mode` is the source).
pub open spec fn store_trace(mode: AddressingMode, dest: AddressingMode, v: u8, c: Cpu, l: Seq<BusCycle>, j: int) -> Seq<BusCycle> {
    if dest == AddressingMode::Accumulator || dest == AddressingMode::X || dest == AddressingMode::Y
        || dest == AddressingMode::Psw {
        seq![]
    } else if dest == AddressingMode::Sp {
        seq![pc_read(c, l, j)]
    } else {
        let t = mode_trace(dest, c, l, j);
        let a = mode_addr(dest, c, l, j);
        let dummy = dest != AddressingMode::DirectXPostIncrement && mode != AddressingMode::DirectPage;
        t + (if dummy { seq![rd(a, d(l, j + t.len()))] } else { seq![] }) + seq![wr(a, v)]
    }
}

/// The CPU after MOV's store of `v` into `dest`.
pub open spec fn store_cpu(dest: AddressingMode, v: u8, c: Cpu) -> Cpu {
    if dest == AddressingMode::Accumulator || dest == AddressingMode::X || dest == AddressingMode::Y {
        with_register(dest, c, v)
    } else if dest == AddressingMode::Sp {
        Cpu { stack_pointer: v, ..c }
    } else if dest == AddressingMode::Psw {
        Cpu { status: Status(v), ..c }
    } else {
        mode_cpu(dest, c)
    }
}

/// The bus cycles that end MOV: a discarded read after a move from SP, and one after a move
/// between registers.
pub open spec fn finish_trace(mode: AddressingMode, dest: AddressingMode, c: Cpu, l: Seq<BusCycle>, j: int) -> Seq<BusCycle> {
    let t3: Seq<BusCycle> = if mode == AddressingMode::Sp { seq![pc_read(c, l, j)] } else { seq![] };
    let t4: Seq<BusCycle> = if is_register_mode(dest) && is_register_mode(mode) { seq![pc_read(c, l, j + t3.len())] } else { seq![] };
    t3 + t4
}

/// The CPU at the end of MOV: N and Z from the byte when it went to a register.
pub open spec fn finish_cpu(dest: AddressingMode, v: u8, c: Cpu) -> Cpu {
    if is_register_mode(dest) { Cpu { status: Status(nz8(c.status.0, v)), ..c } } else { c }
}

/// The steps of MOV: the operand fetch, the store, the end.
pub open spec fn mov_steps(mode: AddressingMode, dest: AddressingMode, c: Cpu, f: Cpu, l0: Seq<BusCycle>, l: Seq<BusCycle>) -> bool {
    let k = l0.len() as int;
    let t1 = operand_trace(mode, c, l, k);
    let v = operand_value(mode, c, l, k);
    let c1 = operand_cpu(mode, c);
    let t2 = store_trace(mode, dest, v, c1, l, k + t1.len());
    let c2 = store_cpu(dest, v, c1);
    &&& l == l0 + t1 + t2 + finish_trace(mode, dest, c2, l, k + t1.len() + t2.len())
    &&& f == finish_cpu(dest, v, c2)
}

/// A store only looks at its own cycles.
pub proof fn lemma_store_frame(mode: AddressingMode, dest: AddressingMode, v: u8, c: Cpu, l1: Seq<BusCycle>, l2: Seq<BusCycle>, j: int)
    requires
        is_register_mode(dest) || is_memory_mode(dest),
        0 <= j,
        j + store_trace(mode, dest, v, c, l1, j).len() <= l1.len(),
        l1.len() <= l2.len(),
        forall|i: int| 0 <= i < l1.len() ==> #[trigger] l2[i] == l1[i],
    ensures
        store_trace(mode, dest, v, c, l2, j) == store_trace(mode, dest, v, c, l1, j),
{
    if is_memory_mode(dest) {
        super::addressing::lemma_mode_frame(dest, c, l1, l2, j);
        let n = mode_trace(dest, c, l1, j).len() as int;
        if dest != AddressingMode::DirectXPostIncrement && mode != AddressingMode::DirectPage {
            assert(l2[j + n] == l1[j + n]);
        }
    } else if dest == AddressingMode::Sp {
        assert(l2[j] == l1[j]);
    }
    assert(store_trace(mode, dest, v, c, l2, j) =~= store_trace(mode, dest, v, c, l1, j));
}

/// What BBS (`set`) and BBC do: the byte fetch, one internal cycle, then a branch when bit
/// `bit` of the byte is set (clear).
pub open spec fn bit_branch_effect(mode: AddressingMode, bit: u8, set: bool, c: Cpu, f: Cpu, l0: Seq<BusCycle>, l: Seq<BusCycle>) -> bool {
    let k = l0.len() as int;
    let t = operand_trace(mode, c, l, k);
    let v = operand_value(mode, c, l, k);
    let c1 = operand_cpu(mode, c);
    let j = k + t.len() + 1;
    let cond = crate::utils::bits::bit(v, pow2(bit as int)) == set;
    &&& l == l0 + t + seq![BusCycle::Io(1), pc_read(c1, l, j)] + (if cond { seq![BusCycle::Io(2)] } else { seq![] })
    &&& f == advance(c1, 1 + if cond { sext8(d(l, j)) } else { 0 })
}

impl Spc700 {
    pub fn new() -> (r: Self)
        ensures
            r.cpu.accumulator == 0 && r.cpu.index_x == 0 && r.cpu.index_y == 0,
            r.cpu.program_counter == 0 && r.cpu.stack_pointer == 0 && r.cpu.status.0 == 0 && !r.cpu.paused,
    {
        Spc700 { cpu: Cpu::new() }
    }

    /// ADC, SBC, AND, OR and EOR: fetches the operand, then combines it into the destination.
    pub fn alu<B: Bus>(cpu: &mut Cpu, bus: &mut B, mode: AddressingMode, dest: AddressingMode, kind: AluKind)
        requires
            old(bus).inv(),
            is_operand_mode(mode),
            is_rmw_mode(dest),
        ensures
            kept(*old(bus), *final(bus)),
            alu_effect(kind, mode, dest, *old(cpu), *final(cpu), old(bus).cycles(), final(bus).cycles()),
    {
        let ghost c = *old(cpu);
        let ghost k = old(bus).cycles().len() as int;
        let b = cpu.operand(bus, mode);
        let ghost l1 = bus.cycles();
        let op = match kind {
            AluKind::Adc => RmwOp::Adc(b),
            AluKind::Sbc => RmwOp::Sbc(b),
            AluKind::And => RmwOp::And(b),
            AluKind::Or => RmwOp::Or(b),
            AluKind::Eor => RmwOp::Eor(b),
        };
        cpu.do_rmw(bus, dest, false, op);
        proof {
            lemma_operand_frame(mode, c, l1, bus.cycles(), k);
            assert(bus.cycles() =~= old(bus).cycles() + operand_trace(mode, c, bus.cycles(), k)
                + rmw_trace(dest, false, op, operand_cpu(mode, c), bus.cycles(), k + operand_trace(mode, c, bus.cycles(), k).len()));
        }
    }

    /// ADC: add with carry into the destination.
    pub fn adc<B: Bus>(cpu: &mut Cpu, bus: &mut B, mode: AddressingMode, dest: AddressingMode)
        requires
            old(bus).inv(),
            is_operand_mode(mode),
            is_rmw_mode(dest),
        ensures
            kept(*old(bus), *final(bus)),
            extends(final(bus).cycles(), old(bus).cycles()),
            adc_effect(mode, dest, *old(cpu), *final(cpu), old(bus).cycles(), final(bus).cycles()),
    {
        proof { reveal(adc_effect); }
        Self::alu(cpu, bus, mode, dest, AluKind::Adc);
    }

    /// SBC: subtract with borrow from the destination.
    pub fn sbc<B: Bus>(cpu: &mut Cpu, bus: &mut B, mode: AddressingMode, dest: AddressingMode)
        requires
            old(bus).inv(),
            is_operand_mode(mode),
            is_rmw_mode(dest),
        ensures
            kept(*old(bus), *final(bus)),
            extends(final(bus).cycles(), old(bus).cycles()),
            sbc_effect(mode, dest, *old(cpu), *final(cpu), old(bus).cycles(), final(bus).cycles()),
    {
        proof { reveal(sbc_effect); }
        Self::alu(cpu, bus, mode, dest, AluKind::Sbc);
    }

    /// AND into the destination.
    pub fn and<B: Bus>(cpu: &mut Cpu, bus: &mut B, mode: AddressingMode, dest: AddressingMode)
        requires
            old(bus).inv(),
            is_operand_mode(mode),
            is_rmw_mode(dest),
        ensures
            kept(*old(bus), *final(bus)),
            extends(final(bus).cycles(), old(bus).cycles()),
            and_effect(mode, dest, *old(cpu), *final(cpu), old(bus).cycles(), final(bus).cycles()),
    {
        proof { reveal(and_effect); }
        Self::alu(cpu, bus, mode, dest, AluKind::And);
    }

    /// OR into the destination.
    pub fn or<B: Bus>(cpu: &mut Cpu, bus: &mut B, mode: AddressingMode, dest: AddressingMode)
        requires
            old(bus).inv(),
            is_operand_mode(mode),
            is_rmw_mode(dest),
        ensures
            kept(*old(bus), *final(bus)),
            extends(final(bus).cycles(), old(bus).cycles()),
            or_effect(mode, dest, *old(cpu), *final(cpu), old(bus).cycles(), final(bus).cycles()),
    {
        proof { reveal(or_effect); }
        Self::alu(cpu, bus, mode, dest, AluKind::Or);
    }

    /// EOR into the destination.
    pub fn eor<B: Bus>(cpu: &mut Cpu, bus: &mut B, mode: AddressingMode, dest: AddressingMode)
        requires
            old(bus).inv(),
            is_operand_mode(mode),
            is_rmw_mode(dest),
        ensures
            kept(*old(bus), *final(bus)),
            extends(final(bus).cycles(), old(bus).cycles()),
            eor_effect(mode, dest, *old(cpu), *final(cpu), old(bus).cycles(), final(bus).cycles()),
    {
        proof { reveal(eor_effect); }
        Self::alu(cpu, bus, mode, dest, AluKind::Eor);
    }

    /// ASL, LSR, ROL, ROR, DEC and INC: a read-modify-write of A, X, Y or memory (a register
    /// operand takes a discarded read of the program counter).
    pub fn unary<B: Bus>(cpu: &mut Cpu, bus: &mut B, mode: AddressingMode, op: RmwOp)
        requires
            old(bus).inv(),
            is_rmw_mode(mode),
            rmw_op_ok(op),
        ensures
            kept(*old(bus), *final(bus)),
            final(bus).cycles() == old(bus).cycles() + rmw_trace(mode, true, op, *old(cpu), final(bus).cycles(), old(bus).cycles().len() as int),
            *final(cpu) == rmw_cpu(mode, op, *old(cpu), final(bus).cycles(), old(bus).cycles().len() as int),
    {
        cpu.do_rmw(bus, mode, true, op);
    }

    /// CLR1 and SET1: clears or sets bit `bit` of a direct-page byte.
    pub fn change_bit<B: Bus>(cpu: &mut Cpu, bus: &mut B, mode: AddressingMode, bit: u8, set: bool)
        requires
            old(bus).inv(),
            is_rmw_mode(mode),
            bit < 8,
        ensures
            kept(*old(bus), *final(bus)),
            ({
                let op = if set { RmwOp::Set1(bit) } else { RmwOp::Clr1(bit) };
                &&& final(bus).cycles() == old(bus).cycles() + rmw_trace(mode, false, op, *old(cpu), final(bus).cycles(), old(bus).cycles().len() as int)
                &&& *final(cpu) == rmw_cpu(mode, op, *old(cpu), final(bus).cycles(), old(bus).cycles().len() as int)
            }),
    {
        let op = if set { RmwOp::Set1(bit) } else { RmwOp::Clr1(bit) };
        cpu.do_rmw(bus, mode, false, op);
    }

    /// NOT1: complements a bit of memory.
    pub fn not1<B: Bus>(cpu: &mut Cpu, bus: &mut B, mode: AddressingMode)
        requires
            old(bus).inv(),
            is_rmw_mode(mode),
        ensures
            kept(*old(bus), *final(bus)),
            extends(final(bus).cycles(), old(bus).cycles()),
            not1_effect(mode, *old(cpu), *final(cpu), old(bus).cycles(), final(bus).cycles()),
    {
        proof { reveal(not1_effect); }
        cpu.do_rmw(bus, mode, false, RmwOp::Not1);
    }

    /// MOV1: the carry from a bit of memory (`to_carry`), or a bit of memory from the carry
    /// (then one internal cycle).
    pub fn mov1<B: Bus>(cpu: &mut Cpu, bus: &mut B, mode: AddressingMode, to_carry: bool)
        requires
            old(bus).inv(),
            is_operand_mode(mode),
            is_rmw_mode(mode),
        ensures
            kept(*old(bus), *final(bus)),
            extends(final(bus).cycles(), old(bus).cycles()),
            mov1_effect(mode, to_carry, *old(cpu), *final(cpu), old(bus).cycles(), final(bus).cycles()),
    {
        proof { reveal(mov1_effect); }
        let ghost k = old(bus).cycles().len() as int;
        if to_carry {
            let operand = cpu.operand(bus, mode);
            cpu.status.set_carry(operand != 0);
        } else {
            cpu.do_rmw(bus, mode, false, RmwOp::Carry);
            let ghost l1 = bus.cycles();
            bus.add_io_cycles(1);
            proof {
                assert(bus.cycles().subrange(0, l1.len() as int) =~= l1);
                assert forall|i: int| 0 <= i < l1.len() implies bus.cycles()[i] == l1[i] by {}
                assert(rmw_trace(mode, false, RmwOp::Carry, *old(cpu), bus.cycles(), k)
                    =~= rmw_trace(mode, false, RmwOp::Carry, *old(cpu), l1, k)) by {
                    crate::apu::spc700::ops::lemma_rmw_frame(mode, false, RmwOp::Carry, *old(cpu), l1, bus.cycles(), k);
                }
                assert(bus.cycles() =~= old(bus).cycles() + rmw_trace(mode, false, RmwOp::Carry, *old(cpu), bus.cycles(), k) + seq![BusCycle::Io(1)]);
            }
        }
    }

    /// BCC: branches when the carry is clear.
    pub fn bcc<B: Bus>(cpu: &mut Cpu, bus: &mut B)
        requires
            old(bus).inv(),
        ensures
            kept(*old(bus), *final(bus)),
            extends(final(bus).cycles(), old(bus).cycles()),
            bcc_effect(*old(cpu), *final(cpu), old(bus).cycles(), final(bus).cycles()),
    {
        proof { reveal(bcc_effect); }
        let cond = !cpu.status.carry();
        cpu.do_branch(bus, cond);
    }

    /// BCS: branches when the carry is set.
    pub fn bcs<B: Bus>(cpu: &mut Cpu, bus: &mut B)
        requires
            old(bus).inv(),
        ensures
            kept(*old(bus), *final(bus)),
            extends(final(bus).cycles(), old(bus).cycles()),
            bcs_effect(*old(cpu), *final(cpu), old(bus).cycles(), final(bus).cycles()),
    {
        proof { reveal(bcs_effect); }
        let cond = cpu.status.carry();
        cpu.do_branch(bus, cond);
    }

    /// BEQ: branches when Z is set.
    pub fn beq<B: Bus>(cpu: &mut Cpu, bus: &mut B)
        requires
            old(bus).inv(),
        ensures
            kept(*old(bus), *final(bus)),
            extends(final(bus).cycles(), old(bus).cycles()),
            beq_effect(*old(cpu), *final(cpu), old(bus).cycles(), final(bus).cycles()),
    {
        proof { reveal(beq_effect); }
        let cond = cpu.status.zero();
        cpu.do_branch(bus, cond);
    }

    /// BNE: branches when Z is clear.
    pub fn bne<B: Bus>(cpu: &mut Cpu, bus: &mut B)
        requires
            old(bus).inv(),
        ensures
            kept(*old(bus), *final(bus)),
            extends(final(bus).cycles(), old(bus).cycles()),
            bne_effect(*old(cpu), *final(cpu), old(bus).cycles(), final(bus).cycles()),
    {
        proof { reveal(bne_effect); }
        let cond = !cpu.status.zero();
        cpu.do_branch(bus, cond);
    }

    /// BMI: branches when N is set.
    pub fn bmi<B: Bus>(cpu: &mut Cpu, bus: &mut B)
        requires
            old(bus).inv(),
        ensures
            kept(*old(bus), *final(bus)),
            extends(final(bus).cycles(), old(bus).cycles()),
            bmi_effect(*old(cpu), *final(cpu), old(bus).cycles(), final(bus).cycles()),
    {
        proof { reveal(bmi_effect); }
        let cond = cpu.status.negative();
        cpu.do_branch(bus, cond);
    }

    /// BPL: branches when N is clear.
    pub fn bpl<B: Bus>(cpu: &mut Cpu, bus: &mut B)
        requires
            old(bus).inv(),
        ensures
            kept(*old(bus), *final(bus)),
            extends(final(bus).cycles(), old(bus).cycles()),
            bpl_effect(*old(cpu), *final(cpu), old(bus).cycles(), final(bus).cycles()),
    {
        proof { reveal(bpl_effect); }
        let cond = !cpu.status.negative();
        cpu.do_branch(bus, cond);
    }

    /// BVC: branches when V is clear.
    pub fn bvc<B: Bus>(cpu: &mut Cpu, bus: &mut B)
        requires
            old(bus).inv(),
        ensures
            kept(*old(bus), *final(bus)),
            extends(final(bus).cycles(), old(bus).cycles()),
            bvc_effect(*old(cpu), *final(cpu), old(bus).cycles(), final(bus).cycles()),
    {
        proof { reveal(bvc_effect); }
        let cond = !cpu.status.overflow();
        cpu.do_branch(bus, cond);
    }

    /// BVS: branches when V is set.
    pub fn bvs<B: Bus>(cpu: &mut Cpu, bus: &mut B)
        requires
            old(bus).inv(),
        ensures
            kept(*old(bus), *final(bus)),
            extends(final(bus).cycles(), old(bus).cycles()),
            bvs_effect(*old(cpu), *final(cpu), old(bus).cycles(), final(bus).cycles()),
    {
        proof { reveal(bvs_effect); }
        let cond = cpu.status.overflow();
        cpu.do_branch(bus, cond);
    }

    /// BRA: branches always.
    pub fn bra<B: Bus>(cpu: &mut Cpu, bus: &mut B)
        requires
            old(bus).inv(),
        ensures
            kept(*old(bus), *final(bus)),
            extends(final(bus).cycles(), old(bus).cycles()),
            bra_effect(*old(cpu), *final(cpu), old(bus).cycles(), final(bus).cycles()),
    {
        proof { reveal(bra_effect); }
        cpu.do_branch(bus, true);
    }

    /// BBS and BBC: fetch a direct-page byte, one internal cycle, then branch when bit `bit`
    /// of it is set (BBS, `set`) or clear (BBC).
    pub fn branch_on_bit<B: Bus>(cpu: &mut Cpu, bus: &mut B, mode: AddressingMode, bit: u8, set: bool)
        requires
            old(bus).inv(),
            is_operand_mode(mode),
            bit < 8,
        ensures
            kept(*old(bus), *final(bus)),
            bit_branch_effect(mode, bit, set, *old(cpu), *final(cpu), old(bus).cycles(), final(bus).cycles()),
    {
        let ghost c = *old(cpu);
        let ghost k = old(bus).cycles().len() as int;
        let operand = cpu.operand(bus, mode);
        let ghost l1 = bus.cycles();
        bus.add_io_cycles(1);
        let mask = super::addressing::bit_mask(bit);
        let cond = ((operand / mask) % 2 == 1) == set;
        cpu.do_branch(bus, cond);
        proof {
            lemma_operand_frame(mode, c, l1, bus.cycles(), k);
            let l = bus.cycles();
            let t = operand_trace(mode, c, l, k);
            assert(l =~= old(bus).cycles() + t + seq![BusCycle::Io(1), pc_read(operand_cpu(mode, c), l, k + t.len() + 1)]
                + (if cond { seq![BusCycle::Io(2)] } else { seq![] }));
        }
    }

    /// CBNE: fetch a byte, one internal cycle, then branch when A differs from it.
    pub fn cbne<B: Bus>(cpu: &mut Cpu, bus: &mut B, mode: AddressingMode)
        requires
            old(bus).inv(),
            is_operand_mode(mode),
        ensures
            kept(*old(bus), *final(bus)),
            extends(final(bus).cycles(), old(bus).cycles()),
            cbne_effect(mode, *old(cpu), *final(cpu), old(bus).cycles(), final(bus).cycles()),
    {
        proof { reveal(cbne_effect); }
        let ghost c = *old(cpu);
        let ghost k = old(bus).cycles().len() as int;
        let operand = cpu.operand(bus, mode);
        let ghost l1 = bus.cycles();
        bus.add_io_cycles(1);
        let cond = cpu.accumulator != operand;
        cpu.do_branch(bus, cond);
        proof {
            lemma_operand_frame(mode, c, l1, bus.cycles(), k);
            let l = bus.cycles();
            let t = operand_trace(mode, c, l, k);
            assert(l =~= old(bus).cycles() + t + seq![BusCycle::Io(1), pc_read(operand_cpu(mode, c), l, k + t.len() + 1)]
                + (if cond { seq![BusCycle::Io(2)] } else { seq![] }));
        }
    }

    /// DBNZ: decrements A, X, Y or a byte of memory (flags untouched), then branches when
    /// the result is not zero.
    pub fn dbnz<B: Bus>(cpu: &mut Cpu, bus: &mut B, mode: AddressingMode)
        requires
            old(bus).inv(),
            is_rmw_mode(mode),
            mode != AddressingMode::AbsoluteBooleanBit,
        ensures
            kept(*old(bus), *final(bus)),
            extends(final(bus).cycles(), old(bus).cycles()),
            dbnz_effect(mode, *old(cpu), *final(cpu), old(bus).cycles(), final(bus).cycles()),
    {
        proof { reveal(dbnz_effect); }
        let ghost c = *old(cpu);
        let ghost k = old(bus).cycles().len() as int;
        let result = cpu.do_rmw(bus, mode, true, RmwOp::DecQuiet);
        let ghost l1 = bus.cycles();
        cpu.do_branch(bus, result != 0);
        proof {
            crate::apu::spc700::ops::lemma_rmw_frame(mode, true, RmwOp::DecQuiet, c, l1, bus.cycles(), k);
            let l = bus.cycles();
            let t = rmw_trace(mode, true, RmwOp::DecQuiet, c, l, k);
            assert(l =~= old(bus).cycles() + t + seq![pc_read(rmw_cpu(mode, RmwOp::DecQuiet, c, l, k), l, k + t.len())]
                + (if result != 0 { seq![BusCycle::Io(2)] } else { seq![] }));
        }
    }

    /// CLRC: clears the carry, after a discarded read.
    pub fn clrc<B: Bus>(cpu: &mut Cpu, bus: &mut B)
        requires
            old(bus).inv(),
        ensures
            kept(*old(bus), *final(bus)),
            extends(final(bus).cycles(), old(bus).cycles()),
            clrc_effect(*old(cpu), *final(cpu), old(bus).cycles(), final(bus).cycles()),
    {
        proof { reveal(clrc_effect); }
        let _ = bus.read_and_tick(Address::new(cpu.program_counter, 0));
        cpu.status.set_carry(false);
    }

    /// SETC: sets the carry, after a discarded read.
    pub fn setc<B: Bus>(cpu: &mut Cpu, bus: &mut B)
        requires
            old(bus).inv(),
        ensures
            kept(*old(bus), *final(bus)),
            extends(final(bus).cycles(), old(bus).cycles()),
            setc_effect(*old(cpu), *final(cpu), old(bus).cycles(), final(bus).cycles()),
    {
        proof { reveal(setc_effect); }
        let _ = bus.read_and_tick(Address::new(cpu.program_counter, 0));
        cpu.status.set_carry(true);
    }

    /// CLRP: selects direct page 0, after a discarded read.
    pub fn clrp<B: Bus>(cpu: &mut Cpu, bus: &mut B)
        requires
            old(bus).inv(),
        ensures
            kept(*old(bus), *final(bus)),
            extends(final(bus).cycles(), old(bus).cycles()),
            clrp_effect(*old(cpu), *final(cpu), old(bus).cycles(), final(bus).cycles()),
    {
        proof { reveal(clrp_effect); }
        let _ = bus.read_and_tick(Address::new(cpu.program_counter, 0));
        cpu.status.set_direct_page(false);
    }

    /// SETP: selects direct page 1, after a discarded read.
    pub fn setp<B: Bus>(cpu: &mut Cpu, bus: &mut B)
        requires
            old(bus).inv(),
        ensures
            kept(*old(bus), *final(bus)),
            extends(final(bus).cycles(), old(bus).cycles()),
            setp_effect(*old(cpu), *final(cpu), old(bus).cycles(), final(bus).cycles()),
    {
        proof { reveal(setp_effect); }
        let _ = bus.read_and_tick(Address::new(cpu.program_counter, 0));
        cpu.status.set_direct_page(true);
    }

    /// CLRV: clears V and H, after a discarded read.
    pub fn clrv<B: Bus>(cpu: &mut Cpu, bus: &mut B)
        requires
            old(bus).inv(),
        ensures
            kept(*old(bus), *final(bus)),
            extends(final(bus).cycles(), old(bus).cycles()),
            clrv_effect(*old(cpu), *final(cpu), old(bus).cycles(), final(bus).cycles()),
    {
        proof { reveal(clrv_effect); }
        let _ = bus.read_and_tick(Address::new(cpu.program_counter, 0));
        cpu.status.set_overflow(false);
        cpu.status.set_half_carry(false);
    }

    /// DI: disables interrupts; a discarded read and one internal cycle.
    pub fn di<B: Bus>(cpu: &mut Cpu, bus: &mut B)
        requires
            old(bus).inv(),
        ensures
            kept(*old(bus), *final(bus)),
            extends(final(bus).cycles(), old(bus).cycles()),
            di_effect(*old(cpu), *final(cpu), old(bus).cycles(), final(bus).cycles()),
    {
        proof { reveal(di_effect); }
        cpu.status.set_irq_enabled(false);
        cpu.idle(bus);
    }

    /// EI: enables interrupts; a discarded read and one internal cycle.
    pub fn ei<B: Bus>(cpu: &mut Cpu, bus: &mut B)
        requires
            old(bus).inv(),
        ensures
            kept(*old(bus), *final(bus)),
            extends(final(bus).cycles(), old(bus).cycles()),
            ei_effect(*old(cpu), *final(cpu), old(bus).cycles(), final(bus).cycles()),
    {
        proof { reveal(ei_effect); }
        cpu.status.set_irq_enabled(true);
        cpu.idle(bus);
    }

    /// NOTC: complements the carry; a discarded read and one internal cycle.
    pub fn notc<B: Bus>(cpu: &mut Cpu, bus: &mut B)
        requires
            old(bus).inv(),
        ensures
            kept(*old(bus), *final(bus)),
            extends(final(bus).cycles(), old(bus).cycles()),
            notc_effect(*old(cpu), *final(cpu), old(bus).cycles(), final(bus).cycles()),
    {
        proof { reveal(notc_effect); }
        let carry = cpu.status.carry();
        cpu.status.set_carry(!carry);
        cpu.idle(bus);
    }

    /// NOP: a discarded read.
    pub fn nop<B: Bus>(cpu: &mut Cpu, bus: &mut B)
        requires
            old(bus).inv(),
        ensures
            kept(*old(bus), *final(bus)),
            extends(final(bus).cycles(), old(bus).cycles()),
            nop_effect(*old(cpu), *final(cpu), old(bus).cycles(), final(bus).cycles()),
    {
        proof { reveal(nop_effect); }
        let _ = bus.read_and_tick(Address::new(cpu.program_counter, 0));
    }

    /// Compares a register or memory operand `a_mode` with the operand `mode` (one
    /// internal cycle first when `a_mode` is in memory): C when not below, N and Z from the
    /// difference.
    pub fn compare_operands<B: Bus>(cpu: &mut Cpu, bus: &mut B, mode: AddressingMode, a_mode: AddressingMode)
        requires
            old(bus).inv(),
            is_operand_mode(mode),
            is_operand_mode(a_mode),
        ensures
            kept(*old(bus), *final(bus)),
            compare_effect(mode, a_mode, *old(cpu), *final(cpu), old(bus).cycles(), final(bus).cycles()),
    {
        let ghost c = *old(cpu);
        let ghost k0 = old(bus).cycles().len() as int;
        if !a_mode.is_register_access() {
            bus.add_io_cycles(1);
        }
        let ghost k = bus.cycles().len() as int;
        let b = cpu.operand(bus, mode);
        let ghost l1 = bus.cycles();
        let ghost c1 = *cpu;
        let a = cpu.operand(bus, a_mode);
        let ghost l2 = bus.cycles();
        cpu.do_compare(a, b);
        proof {
            lemma_operand_frame(mode, c, l1, l2, k);
            let t1 = operand_trace(mode, c, l2, k);
            let io: Seq<BusCycle> = if is_register_mode(a_mode) { seq![] } else { seq![BusCycle::Io(1)] };
            assert(l2 =~= old(bus).cycles() + io + t1 + operand_trace(a_mode, c1, l2, k + t1.len()));
        }
    }

    /// Compares YA with a word of the direct page: C when not below, N and Z from the
    /// 16-bit difference.
    pub fn compare_word<B: Bus>(cpu: &mut Cpu, bus: &mut B)
        requires
            old(bus).inv(),
        ensures
            kept(*old(bus), *final(bus)),
            word_compare_effect(*old(cpu), *final(cpu), old(bus).cycles(), final(bus).cycles()),
    {
        let ghost k = old(bus).cycles().len() as int;
        let a = cpu.ya();
        let offset = cpu.get_imm(bus);
        let b = cpu.word_from_direct_page(bus, offset);
        let result = a.wrapping_sub(b);
        cpu.status.set_carry(a >= b);
        cpu.status.set_negative(result >= 0x8000);
        cpu.status.set_zero(result == 0);
        proof {
            let l = bus.cycles();
            assert(l =~= old(bus).cycles() + seq![rd(pc_at(*old(cpu), 0), d(l, k)), rd(dp_addr(*old(cpu), d(l, k) as int), d(l, k + 1)), rd(dp_addr(*old(cpu), d(l, k) + 1), d(l, k + 2))]);
        }
    }

    /// CMP: compares a register or memory operand `a_mode` with the operand `mode` (one
    /// internal cycle first when `a_mode` is in memory): C when not below, N and Z from the
    /// difference.
    pub fn cmp<B: Bus>(cpu: &mut Cpu, bus: &mut B, mode: AddressingMode, a_mode: AddressingMode)
        requires
            old(bus).inv(),
            is_operand_mode(mode),
            is_operand_mode(a_mode),
        ensures
            kept(*old(bus), *final(bus)),
            extends(final(bus).cycles(), old(bus).cycles()),
            cmp_effect(mode, a_mode, *old(cpu), *final(cpu), old(bus).cycles(), final(bus).cycles()),
    {
        proof { reveal(cmp_effect); }
        Self::compare_operands(cpu, bus, mode, a_mode);
    }

    /// CMPW: compares YA with a word of the direct page: C when not below, N and Z from the
    /// 16-bit difference.
    pub fn cmpw<B: Bus>(cpu: &mut Cpu, bus: &mut B)
        requires
            old(bus).inv(),
        ensures
            kept(*old(bus), *final(bus)),
            extends(final(bus).cycles(), old(bus).cycles()),
            cmpw_effect(*old(cpu), *final(cpu), old(bus).cycles(), final(bus).cycles()),
    {
        proof { reveal(cmpw_effect); }
        Self::compare_word(cpu, bus);
    }

    /// AND1: the carry ANDed with a bit of memory (complemented when `inverse`).
    pub fn and1<B: Bus>(cpu: &mut Cpu, bus: &mut B, mode: AddressingMode, inverse: bool)
        requires
            old(bus).inv(),
            is_operand_mode(mode),
        ensures
            kept(*old(bus), *final(bus)),
            extends(final(bus).cycles(), old(bus).cycles()),
            and1_effect(mode, inverse, *old(cpu), *final(cpu), old(bus).cycles(), final(bus).cycles()),
    {
        proof { reveal(and1_effect); }
        let operand = (cpu.operand(bus, mode) != 0) != inverse;
        let carry = cpu.status.carry();
        cpu.status.set_carry(carry && operand);
    }

    /// OR1: the carry ORed with a bit of memory (complemented when `inverse`), then one
    /// internal cycle.
    pub fn or1<B: Bus>(cpu: &mut Cpu, bus: &mut B, mode: AddressingMode, inverse: bool)
        requires
            old(bus).inv(),
            is_operand_mode(mode),
        ensures
            kept(*old(bus), *final(bus)),
            extends(final(bus).cycles(), old(bus).cycles()),
            or1_effect(mode, inverse, *old(cpu), *final(cpu), old(bus).cycles(), final(bus).cycles()),
    {
        proof { reveal(or1_effect); }
        let ghost c = *old(cpu);
        let ghost k = old(bus).cycles().len() as int;
        let operand = (cpu.operand(bus, mode) != 0) != inverse;
        let ghost l1 = bus.cycles();
        let carry = cpu.status.carry();
        cpu.status.set_carry(carry || operand);
        bus.add_io_cycles(1);
        proof {
            lemma_operand_frame(mode, c, l1, bus.cycles(), k);
            assert(bus.cycles() =~= old(bus).cycles() + operand_trace(mode, c, bus.cycles(), k) + seq![BusCycle::Io(1)]);
        }
    }

    /// EOR1: the carry exclusive-ORed with a bit of memory, then one internal cycle.
    pub fn eor1<B: Bus>(cpu: &mut Cpu, bus: &mut B, mode: AddressingMode)
        requires
            old(bus).inv(),
            is_operand_mode(mode),
        ensures
            kept(*old(bus), *final(bus)),
            extends(final(bus).cycles(), old(bus).cycles()),
            eor1_effect(mode, *old(cpu), *final(cpu), old(bus).cycles(), final(bus).cycles()),
    {
        proof { reveal(eor1_effect); }
        let ghost c = *old(cpu);
        let ghost k = old(bus).cycles().len() as int;
        let operand = cpu.operand(bus, mode) != 0;
        let ghost l1 = bus.cycles();
        let carry = cpu.status.carry();
        cpu.status.set_carry(carry != operand);
        bus.add_io_cycles(1);
        proof {
            lemma_operand_frame(mode, c, l1, bus.cycles(), k);
            assert(bus.cycles() =~= old(bus).cycles() + operand_trace(mode, c, bus.cycles(), k) + seq![BusCycle::Io(1)]);
        }
    }

    /// INCW: increments a word of the direct page; N and Z from the result.
    pub fn incw<B: Bus>(cpu: &mut Cpu, bus: &mut B)
        requires
            old(bus).inv(),
        ensures
            kept(*old(bus), *final(bus)),
            extends(final(bus).cycles(), old(bus).cycles()),
            incw_effect(*old(cpu), *final(cpu), old(bus).cycles(), final(bus).cycles()),
    {
        proof { reveal(incw_effect); }
        cpu.do_rmw_word(bus, true);
    }

    /// DECW: decrements a word of the direct page; N and Z from the result.
    pub fn decw<B: Bus>(cpu: &mut Cpu, bus: &mut B)
        requires
            old(bus).inv(),
        ensures
            kept(*old(bus), *final(bus)),
            extends(final(bus).cycles(), old(bus).cycles()),
            decw_effect(*old(cpu), *final(cpu), old(bus).cycles(), final(bus).cycles()),
    {
        proof { reveal(decw_effect); }
        cpu.do_rmw_word(bus, false);
    }

    /// ADDW (`sub` false) and SUBW: YA plus (minus) a word of the direct page, then one
    /// internal cycle.
    #[verifier::spinoff_prover]
    #[verifier::rlimit(30)]
    pub fn add_word<B: Bus>(cpu: &mut Cpu, bus: &mut B, sub: bool)
        requires
            old(bus).inv(),
        ensures
            kept(*old(bus), *final(bus)),
            ({
                let c = *old(cpu);
                let l = final(bus).cycles();
                let k = old(bus).cycles().len() as int;
                let off = d(l, k) as int;
                let r = addw_spec(c.status.0, c.accumulator, c.index_y, w16(l, k + 1), sub);
                &&& l == old(bus).cycles() + seq![rd(pc_at(c, 0), d(l, k)), rd(dp_addr(c, off), d(l, k + 1)), rd(dp_addr(c, off + 1), d(l, k + 2)), BusCycle::Io(1)]
                &&& *final(cpu) == (Cpu { accumulator: r.0, index_y: r.1, status: Status(r.2), ..advance(c, 1) })
            }),
    {
        let ghost k = old(bus).cycles().len() as int;
        let offset = cpu.get_imm(bus);
        let b = cpu.word_from_direct_page(bus, offset);
        cpu.status.set_carry(sub);
        let lo = (b % 256) as u8;
        let hi = (b / 256) as u8;
        let a = cpu.accumulator;
        let y = cpu.index_y;
        let ra = cpu.do_adc(a, if sub { 255 - lo } else { lo });
        let ry = cpu.do_adc(y, if sub { 255 - hi } else { hi });
        cpu.accumulator = ra;
        cpu.index_y = ry;
        cpu.status.set_zero(ry == 0 && ra == 0);
        bus.add_io_cycles(1);
        proof {
            let l = bus.cycles();
            assert(l =~= old(bus).cycles() + seq![rd(pc_at(*old(cpu), 0), d(l, k)), rd(dp_addr(*old(cpu), d(l, k) as int), d(l, k + 1)), rd(dp_addr(*old(cpu), d(l, k) + 1), d(l, k + 2)), BusCycle::Io(1)]);
        }
    }

    /// ADDW: adds a word of the direct page to YA.
    pub fn addw<B: Bus>(cpu: &mut Cpu, bus: &mut B)
        requires
            old(bus).inv(),
        ensures
            kept(*old(bus), *final(bus)),
            extends(final(bus).cycles(), old(bus).cycles()),
            addw_effect(*old(cpu), *final(cpu), old(bus).cycles(), final(bus).cycles()),
    {
        proof { reveal(addw_effect); }
        Self::add_word(cpu, bus, false);
    }

    /// SUBW: subtracts a word of the direct page from YA.
    pub fn subw<B: Bus>(cpu: &mut Cpu, bus: &mut B)
        requires
            old(bus).inv(),
        ensures
            kept(*old(bus), *final(bus)),
            extends(final(bus).cycles(), old(bus).cycles()),
            subw_effect(*old(cpu), *final(cpu), old(bus).cycles(), final(bus).cycles()),
    {
        proof { reveal(subw_effect); }
        Self::add_word(cpu, bus, true);
    }

    /// MUL: YA = Y * A, N and Z from Y; a discarded read and seven internal cycles.
    pub fn mul<B: Bus>(cpu: &mut Cpu, bus: &mut B)
        requires
            old(bus).inv(),
        ensures
            kept(*old(bus), *final(bus)),
            extends(final(bus).cycles(), old(bus).cycles()),
            mul_effect(*old(cpu), *final(cpu), old(bus).cycles(), final(bus).cycles()),
    {
        proof { reveal(mul_effect); }
        let ghost k = old(bus).cycles().len() as int;
        assert(cpu.index_y * cpu.accumulator <= 255 * 255) by (nonlinear_arith)
            requires
                cpu.index_y <= 255,
                cpu.accumulator <= 255,
        ;
        let result = cpu.index_y as u16 * cpu.accumulator as u16;
        cpu.accumulator = (result % 256) as u8;
        cpu.index_y = (result / 256) as u8;
        let y = cpu.index_y;
        cpu.set_nz(y);
        let _ = bus.read_and_tick(Address::new(cpu.program_counter, 0));
        bus.add_io_cycles(7);
        proof {
            assert(bus.cycles() =~= old(bus).cycles() + seq![pc_read(*old(cpu), bus.cycles(), k), BusCycle::Io(7)]);
        }
    }

    /// DIV: YA divided by X, the quotient in A and the remainder in Y (see [`div_spec`]);
    /// H from the low digits, V when Y is not below X, N and Z from A; a discarded read and
    /// ten internal cycles.
    pub fn div<B: Bus>(cpu: &mut Cpu, bus: &mut B)
        requires
            old(bus).inv(),
        ensures
            kept(*old(bus), *final(bus)),
            extends(final(bus).cycles(), old(bus).cycles()),
            div_effect(*old(cpu), *final(cpu), old(bus).cycles(), final(bus).cycles()),
    {
        proof { reveal(div_effect); }
        let ghost k = old(bus).cycles().len() as int;
        let a = cpu.accumulator;
        let x8 = cpu.index_x;
        let y8 = cpu.index_y;
        cpu.status.set_half_carry(y8 % 16 >= x8 % 16);
        cpu.status.set_overflow(y8 >= x8);
        let ya: u32 = a as u32 + y8 as u32 * 256;
        let x: u32 = x8 as u32;
        if (y8 as u32) < x * 2 {
            cpu.accumulator = ((ya / x) % 256) as u8;
            cpu.index_y = (ya % x) as u8;
        } else {
            let rest = ya - x * 512;
            let dv = 256 - x;
            let q = rest / dv;
            assert(q < 256) by (nonlinear_arith)
                requires
                    rest + 512 * x <= 0xFFFF,
                    x <= 127,
                    dv == 256 - x,
                    q == rest / dv,
            ;
            assert(x + rest % dv < 256) by (nonlinear_arith)
                requires
                    x <= 127,
                    dv == 256 - x,
            ;
            cpu.accumulator = (255 - q) as u8;
            cpu.index_y = (x + rest % dv) as u8;
        }
        let acc = cpu.accumulator;
        cpu.set_nz(acc);
        let _ = bus.read_and_tick(Address::new(cpu.program_counter, 0));
        bus.add_io_cycles(10);
        proof {
            assert(bus.cycles() =~= old(bus).cycles() + seq![pc_read(*old(cpu), bus.cycles(), k), BusCycle::Io(10)]);
        }
    }

    /// XCN: swaps the two digits of A, N and Z from the result; three internal cycles and a
    /// discarded read.
    pub fn xcn<B: Bus>(cpu: &mut Cpu, bus: &mut B)
        requires
            old(bus).inv(),
        ensures
            kept(*old(bus), *final(bus)),
            extends(final(bus).cycles(), old(bus).cycles()),
            xcn_effect(*old(cpu), *final(cpu), old(bus).cycles(), final(bus).cycles()),
    {
        proof { reveal(xcn_effect); }
        let ghost k = old(bus).cycles().len() as int;
        let a = cpu.accumulator;
        cpu.accumulator = a / 16 + 16 * (a % 16);
        let r = cpu.accumulator;
        cpu.set_nz(r);
        bus.add_io_cycles(3);
        let _ = bus.read_and_tick(Address::new(cpu.program_counter, 0));
        proof {
            assert(bus.cycles() =~= old(bus).cycles() + seq![BusCycle::Io(3), pc_read(*old(cpu), bus.cycles(), k + 1)]);
        }
    }

    /// DAA: decimal adjust after an addition; a discarded read and one internal cycle.
    #[verifier::spinoff_prover]
    pub fn daa<B: Bus>(cpu: &mut Cpu, bus: &mut B)
        requires
            old(bus).inv(),
        ensures
            kept(*old(bus), *final(bus)),
            extends(final(bus).cycles(), old(bus).cycles()),
            daa_effect(*old(cpu), *final(cpu), old(bus).cycles(), final(bus).cycles()),
    {
        proof { reveal(daa_effect); }
        let ghost p = old(cpu).status.0;
        let ghost a0 = old(cpu).accumulator;
        let high = cpu.status.carry() || cpu.accumulator > 0x99;
        if high {
            cpu.accumulator = cpu.accumulator.wrapping_add(0x60);
            cpu.status.set_carry(true);
        }
        let ghost p1 = cpu.status.0;
        let ghost a1 = cpu.accumulator;
        assert(a1 == (if high { ((a0 + 0x60) % 256) as u8 } else { a0 }));
        assert(p1 == (if high { with_bit(p, 1, true) } else { p }));
        if cpu.status.half_carry() || cpu.accumulator % 16 > 9 {
            cpu.accumulator = cpu.accumulator.wrapping_add(6);
        }
        assert(cpu.accumulator == daa_spec(p, a0).0);
        let a = cpu.accumulator;
        cpu.set_nz(a);
        cpu.idle(bus);
    }

    /// DAS: decimal adjust after a subtraction; a discarded read and one internal cycle.
    #[verifier::spinoff_prover]
    pub fn das<B: Bus>(cpu: &mut Cpu, bus: &mut B)
        requires
            old(bus).inv(),
        ensures
            kept(*old(bus), *final(bus)),
            extends(final(bus).cycles(), old(bus).cycles()),
            das_effect(*old(cpu), *final(cpu), old(bus).cycles(), final(bus).cycles()),
    {
        proof { reveal(das_effect); }
        let ghost p = old(cpu).status.0;
        let ghost a0 = old(cpu).accumulator;
        let high = !cpu.status.carry() || cpu.accumulator > 0x99;
        if high {
            cpu.accumulator = cpu.accumulator.wrapping_sub(0x60);
            cpu.status.set_carry(false);
        }
        let ghost p1 = cpu.status.0;
        let ghost a1 = cpu.accumulator;
        assert(a1 == (if high { ((a0 + 256 - 0x60) % 256) as u8 } else { a0 }));
        assert(p1 == (if high { with_bit(p, 1, false) } else { p }));
        if !cpu.status.half_carry() || cpu.accumulator % 16 > 9 {
            cpu.accumulator = cpu.accumulator.wrapping_sub(6);
        }
        assert(cpu.accumulator == das_spec(p, a0).0);
        let a = cpu.accumulator;
        cpu.set_nz(a);
        cpu.idle(bus);
    }

    /// BRK: a discarded read, pushes of PC and PSW, the jump through the vector at $FFDE;
    /// interrupts disabled and B set; one internal cycle.
    pub fn brk<B: Bus>(cpu: &mut Cpu, bus: &mut B)
        requires
            old(bus).inv(),
        ensures
            kept(*old(bus), *final(bus)),
            extends(final(bus).cycles(), old(bus).cycles()),
            brk_effect(*old(cpu), *final(cpu), old(bus).cycles(), final(bus).cycles()),
    {
        proof { reveal(brk_effect); }
        let ghost k = old(bus).cycles().len() as int;
        let _ = bus.read_and_tick(Address::new(cpu.program_counter, 0));
        let pc = cpu.program_counter;
        cpu.do_push(bus, (pc / 256) as u8);
        cpu.do_push(bus, (pc % 256) as u8);
        let p = cpu.status.0;
        cpu.do_push(bus, p);
        cpu.program_counter = cpu.read_16(bus, 0xFFDE);
        cpu.status.set_irq_enabled(false);
        cpu.status.set_break(true);
        bus.add_io_cycles(1);
        proof {
            let l = bus.cycles();
            let c = *old(cpu);
            let s = c.stack_pointer;
            assert(l =~= old(bus).cycles() + seq![pc_read(c, l, k)] + push_pc(s, c.program_counter as int)
                + seq![wr(below(s, 2), c.status.0), rd(0xFFDE, d(l, k + 4)), rd(0xFFDF, d(l, k + 5)), BusCycle::Io(1)]);
        }
    }

    /// CALL: three internal cycles, the target word, pushes of the return address, the jump.
    pub fn call<B: Bus>(cpu: &mut Cpu, bus: &mut B)
        requires
            old(bus).inv(),
        ensures
            kept(*old(bus), *final(bus)),
            extends(final(bus).cycles(), old(bus).cycles()),
            call_effect(*old(cpu), *final(cpu), old(bus).cycles(), final(bus).cycles()),
    {
        proof { reveal(call_effect); }
        let ghost k = old(bus).cycles().len() as int;
        bus.add_io_cycles(3);
        let new_pc = cpu.abs(bus);
        let pc = cpu.program_counter;
        cpu.do_push(bus, (pc / 256) as u8);
        cpu.do_push(bus, (pc % 256) as u8);
        cpu.program_counter = new_pc;
        proof {
            let l = bus.cycles();
            let c = *old(cpu);
            assert(l =~= old(bus).cycles() + seq![BusCycle::Io(3), rd(pc_at(c, 0), d(l, k + 1)), rd(pc_at(c, 1), d(l, k + 2))]
                + push_pc(c.stack_pointer, pc_at(c, 2)));
        }
    }

    /// PCALL: two internal cycles, the low byte of a target in page $FF, pushes of the return
    /// address, the jump.
    pub fn pcall<B: Bus>(cpu: &mut Cpu, bus: &mut B)
        requires
            old(bus).inv(),
        ensures
            kept(*old(bus), *final(bus)),
            extends(final(bus).cycles(), old(bus).cycles()),
            pcall_effect(*old(cpu), *final(cpu), old(bus).cycles(), final(bus).cycles()),
    {
        proof { reveal(pcall_effect); }
        let ghost k = old(bus).cycles().len() as int;
        bus.add_io_cycles(2);
        let low = cpu.get_imm(bus);
        let new_pc = 0xFF00 + low as u16;
        let pc = cpu.program_counter;
        cpu.do_push(bus, (pc / 256) as u8);
        cpu.do_push(bus, (pc % 256) as u8);
        cpu.program_counter = new_pc;
        proof {
            let l = bus.cycles();
            let c = *old(cpu);
            assert(l =~= old(bus).cycles() + seq![BusCycle::Io(2), rd(pc_at(c, 0), d(l, k + 1))] + push_pc(c.stack_pointer, pc_at(c, 1)));
        }
    }

    /// TCALL: a discarded read, two internal cycles, pushes of the return address and the
    /// jump through entry `index` of the table below $FFDE.
    pub fn tcall<B: Bus>(cpu: &mut Cpu, bus: &mut B, index: u8)
        requires
            old(bus).inv(),
            index < 16,
        ensures
            kept(*old(bus), *final(bus)),
            extends(final(bus).cycles(), old(bus).cycles()),
            tcall_effect(index, *old(cpu), *final(cpu), old(bus).cycles(), final(bus).cycles()),
    {
        proof { reveal(tcall_effect); }
        let ghost k = old(bus).cycles().len() as int;
        let _ = bus.read_and_tick(Address::new(cpu.program_counter, 0));
        bus.add_io_cycles(2);
        let pc = cpu.program_counter;
        cpu.do_push(bus, (pc / 256) as u8);
        cpu.do_push(bus, (pc % 256) as u8);
        let vector_addr = 0xFFDE - 2 * index as u16;
        cpu.program_counter = cpu.read_16(bus, vector_addr);
        proof {
            let l = bus.cycles();
            let c = *old(cpu);
            let v = 0xFFDE - 2 * index;
            assert(l =~= old(bus).cycles() + seq![pc_read(c, l, k), BusCycle::Io(2)] + push_pc(c.stack_pointer, c.program_counter as int)
                + seq![rd(v, d(l, k + 4)), rd(v + 1, d(l, k + 5))]);
        }
    }

    /// RET: a discarded read, one internal cycle, then the return address pulled (low byte first).
    pub fn ret<B: Bus>(cpu: &mut Cpu, bus: &mut B)
        requires
            old(bus).inv(),
        ensures
            kept(*old(bus), *final(bus)),
            extends(final(bus).cycles(), old(bus).cycles()),
            ret_effect(*old(cpu), *final(cpu), old(bus).cycles(), final(bus).cycles()),
    {
        proof { reveal(ret_effect); }
        let ghost k = old(bus).cycles().len() as int;
        cpu.idle(bus);
        let low = cpu.do_pop(bus);
        let high = cpu.do_pop(bus);
        cpu.program_counter = low as u16 + high as u16 * 256;
        proof {
            let l = bus.cycles();
            let c = *old(cpu);
            let s = c.stack_pointer;
            assert(l =~= old(bus).cycles() + seq![pc_read(c, l, k), BusCycle::Io(1), rd(below(s, -1), d(l, k + 2)), rd(below(s, -2), d(l, k + 3))]);
        }
    }

    /// RETI: a discarded read, one internal cycle, then PSW and the return address pulled.
    pub fn reti<B: Bus>(cpu: &mut Cpu, bus: &mut B)
        requires
            old(bus).inv(),
        ensures
            kept(*old(bus), *final(bus)),
            extends(final(bus).cycles(), old(bus).cycles()),
            reti_effect(*old(cpu), *final(cpu), old(bus).cycles(), final(bus).cycles()),
    {
        proof { reveal(reti_effect); }
        let ghost k = old(bus).cycles().len() as int;
        cpu.idle(bus);
        let p = cpu.do_pop(bus);
        cpu.status = Status(p);
        let low = cpu.do_pop(bus);
        let high = cpu.do_pop(bus);
        cpu.program_counter = low as u16 + high as u16 * 256;
        proof {
            let l = bus.cycles();
            let c = *old(cpu);
            let s = c.stack_pointer;
            assert(l =~= old(bus).cycles() + seq![pc_read(c, l, k), BusCycle::Io(1), rd(below(s, -1), d(l, k + 2)),
                rd(below(s, -2), d(l, k + 3)), rd(below(s, -3), d(l, k + 4))]);
        }
    }

    /// PUSH: pushes A, X, Y or PSW; a discarded read and one internal cycle.
    pub fn push<B: Bus>(cpu: &mut Cpu, bus: &mut B, mode: AddressingMode)
        requires
            old(bus).inv(),
            is_register_mode(mode),
        ensures
            kept(*old(bus), *final(bus)),
            extends(final(bus).cycles(), old(bus).cycles()),
            push_effect(mode, *old(cpu), *final(cpu), old(bus).cycles(), final(bus).cycles()),
    {
        proof { reveal(push_effect); }
        let ghost k = old(bus).cycles().len() as int;
        let operand = cpu.operand(bus, mode);
        cpu.do_push(bus, operand);
        cpu.idle(bus);
        proof {
            let l = bus.cycles();
            let c = *old(cpu);
            assert(l =~= old(bus).cycles() + seq![wr(below(c.stack_pointer, 0), super::addressing::register(mode, c)),
                pc_read(c, l, k + 1), BusCycle::Io(1)]);
        }
    }

    /// POP: pulls into A, X, Y or PSW; a discarded read and one internal cycle.
    pub fn pop<B: Bus>(cpu: &mut Cpu, bus: &mut B, mode: AddressingMode)
        requires
            old(bus).inv(),
            mode == AddressingMode::Accumulator || mode == AddressingMode::X || mode == AddressingMode::Y
                || mode == AddressingMode::Psw,
        ensures
            kept(*old(bus), *final(bus)),
            extends(final(bus).cycles(), old(bus).cycles()),
            pop_effect(mode, *old(cpu), *final(cpu), old(bus).cycles(), final(bus).cycles()),
    {
        proof { reveal(pop_effect); }
        let ghost k = old(bus).cycles().len() as int;
        let operand = cpu.do_pop(bus);
        match mode {
            AddressingMode::Accumulator => cpu.accumulator = operand,
            AddressingMode::X => cpu.index_x = operand,
            AddressingMode::Y => cpu.index_y = operand,
            _ => cpu.status = Status(operand),
        }
        cpu.idle(bus);
        proof {
            let l = bus.cycles();
            let c = *old(cpu);
            assert(l =~= old(bus).cycles() + seq![rd(below(c.stack_pointer, -1), d(l, k)), pc_read(c, l, k + 1), BusCycle::Io(1)]);
        }
    }

    /// JMP: to an absolute address, or through a word pointer at `!abs+X`.
    pub fn jmp<B: Bus>(cpu: &mut Cpu, bus: &mut B, mode: AddressingMode)
        requires
            old(bus).inv(),
            is_memory_mode(mode),
        ensures
            kept(*old(bus), *final(bus)),
            extends(final(bus).cycles(), old(bus).cycles()),
            jmp_effect(mode, *old(cpu), *final(cpu), old(bus).cycles(), final(bus).cycles()),
    {
        proof { reveal(jmp_effect); }
        let ghost c = *old(cpu);
        let ghost k = old(bus).cycles().len() as int;
        let value = cpu.decode_addressing_mode(bus, mode);
        let ghost l1 = bus.cycles();
        if mode == AddressingMode::Absolute {
            cpu.program_counter = value;
        } else {
            cpu.program_counter = cpu.read_16(bus, value);
            proof {
                super::addressing::lemma_mode_frame(mode, c, l1, bus.cycles(), k);
                let l = bus.cycles();
                let t = mode_trace(mode, c, l, k);
                let a = mode_addr(mode, c, l, k);
                assert(l =~= old(bus).cycles() + t + seq![rd(a, d(l, k + t.len())), rd((a + 1) % 0x1_0000, d(l, k + t.len() + 1))]);
            }
        }
    }

    /// SLEEP and STOP: the processor halts; three discarded reads and three internal cycles.
    pub fn halt<B: Bus>(cpu: &mut Cpu, bus: &mut B)
        requires
            old(bus).inv(),
        ensures
            kept(*old(bus), *final(bus)),
            ({
                let c = *old(cpu);
                let l = final(bus).cycles();
                let k = old(bus).cycles().len() as int;
                &&& l == old(bus).cycles() + seq![pc_read(c, l, k), pc_read(c, l, k + 1), pc_read(c, l, k + 2), BusCycle::Io(3)]
                &&& *final(cpu) == (Cpu { paused: true, ..c })
            }),
    {
        let ghost k = old(bus).cycles().len() as int;
        cpu.paused = true;
        let _ = bus.read_and_tick(Address::new(cpu.program_counter, 0));
        let _ = bus.read_and_tick(Address::new(cpu.program_counter, 0));
        let _ = bus.read_and_tick(Address::new(cpu.program_counter, 0));
        bus.add_io_cycles(3);
        proof {
            let l = bus.cycles();
            let c = *old(cpu);
            assert(l =~= old(bus).cycles() + seq![pc_read(c, l, k), pc_read(c, l, k + 1), pc_read(c, l, k + 2), BusCycle::Io(3)]);
        }
    }

    /// SLEEP: see [`Spc700::halt`].
    pub fn sleep<B: Bus>(cpu: &mut Cpu, bus: &mut B)
        requires
            old(bus).inv(),
        ensures
            kept(*old(bus), *final(bus)),
            extends(final(bus).cycles(), old(bus).cycles()),
            sleep_effect(*old(cpu), *final(cpu), old(bus).cycles(), final(bus).cycles()),
    {
        proof { reveal(sleep_effect); }
        Self::halt(cpu, bus);
    }

    /// STOP: see [`Spc700::halt`].
    pub fn stop<B: Bus>(cpu: &mut Cpu, bus: &mut B)
        requires
            old(bus).inv(),
        ensures
            kept(*old(bus), *final(bus)),
            extends(final(bus).cycles(), old(bus).cycles()),
            stop_effect(*old(cpu), *final(cpu), old(bus).cycles(), final(bus).cycles()),
    {
        proof { reveal(stop_effect); }
        Self::halt(cpu, bus);
    }

    /// TCLR1: clears the bits of A in a byte of memory; N and Z from A minus the byte.
    pub fn tclr1<B: Bus>(cpu: &mut Cpu, bus: &mut B, mode: AddressingMode)
        requires
            old(bus).inv(),
            is_memory_mode(mode),
        ensures
            kept(*old(bus), *final(bus)),
            extends(final(bus).cycles(), old(bus).cycles()),
            tclr1_effect(mode, *old(cpu), *final(cpu), old(bus).cycles(), final(bus).cycles()),
    {
        proof { reveal(tclr1_effect); }
        cpu.do_test_bit(bus, mode, true);
    }

    /// TSET1: sets the bits of A in a byte of memory; N and Z from A minus the byte.
    pub fn tset1<B: Bus>(cpu: &mut Cpu, bus: &mut B, mode: AddressingMode)
        requires
            old(bus).inv(),
            is_memory_mode(mode),
        ensures
            kept(*old(bus), *final(bus)),
            extends(final(bus).cycles(), old(bus).cycles()),
            tset1_effect(mode, *old(cpu), *final(cpu), old(bus).cycles(), final(bus).cycles()),
    {
        proof { reveal(tset1_effect); }
        cpu.do_test_bit(bus, mode, false);
    }

    /// MOV: fetches the operand `mode` and stores it in `dest`: a register (N and Z from the
    /// byte, with a discarded read when both are registers; a discarded read before SP is
    /// set) or memory (read first unless `dest` is `(X)+` or the source is `dp`).
    pub fn mov<B: Bus>(cpu: &mut Cpu, bus: &mut B, mode: AddressingMode, dest: AddressingMode)
        requires
            old(bus).inv(),
            is_operand_mode(mode),
            is_register_mode(dest) || is_memory_mode(dest),
        ensures
            kept(*old(bus), *final(bus)),
            extends(final(bus).cycles(), old(bus).cycles()),
            mov_effect(mode, dest, *old(cpu), *final(cpu), old(bus).cycles(), final(bus).cycles()),
    {
        proof { reveal(mov_effect); }
        let ghost c = *old(cpu);
        let ghost k = old(bus).cycles().len() as int;
        let operand = cpu.operand(bus, mode);
        let ghost l1 = bus.cycles();
        let ghost c1 = *cpu;
        Self::mov_store(cpu, bus, mode, dest, operand);
        let ghost l2 = bus.cycles();
        let ghost c2 = *cpu;
        Self::mov_finish(cpu, bus, mode, dest, operand);
        proof {
            let l = bus.cycles();
            assert forall|i: int| 0 <= i < l1.len() implies #[trigger] l[i] == l1[i] by {
                assert(l2[i] == l1[i]);
            }
            lemma_operand_frame(mode, c, l1, l, k);
            lemma_store_frame(mode, dest, operand, c1, l2, l, l1.len() as int);
            let t1 = operand_trace(mode, c, l, k);
            let t2 = store_trace(mode, dest, operand, c1, l, k + t1.len());
            assert(l =~= old(bus).cycles() + t1 + t2 + finish_trace(mode, dest, c2, l, k + t1.len() + t2.len()));
        }
    }

    /// The store of MOV.
    #[verifier::spinoff_prover]
    fn mov_store<B: Bus>(cpu: &mut Cpu, bus: &mut B, mode: AddressingMode, dest: AddressingMode, v: u8)
        requires
            old(bus).inv(),
            is_register_mode(dest) || is_memory_mode(dest),
        ensures
            kept(*old(bus), *final(bus)),
            final(bus).cycles() == old(bus).cycles() + store_trace(mode, dest, v, *old(cpu), final(bus).cycles(), old(bus).cycles().len() as int),
            *final(cpu) == store_cpu(dest, v, *old(cpu)),
    {
        let ghost c = *old(cpu);
        let ghost j = old(bus).cycles().len() as int;
        match dest {
            AddressingMode::Accumulator => cpu.accumulator = v,
            AddressingMode::X => cpu.index_x = v,
            AddressingMode::Y => cpu.index_y = v,
            AddressingMode::Sp => {
                let _ = bus.read_and_tick(Address::new(cpu.program_counter, 0));
                cpu.stack_pointer = v;
                proof { assert(bus.cycles() =~= old(bus).cycles() + store_trace(mode, dest, v, c, bus.cycles(), j)); }
            },
            AddressingMode::Psw => cpu.status = Status(v),
            _ => {
                let page = cpu.decode_addressing_mode(bus, dest);
                let ghost ld = bus.cycles();
                let dummy = dest != AddressingMode::DirectXPostIncrement && mode != AddressingMode::DirectPage;
                if dummy {
                    let _ = bus.read_and_tick(Address::from(page));
                }
                bus.write_and_tick(Address::from(page), v);
                proof {
                    super::addressing::lemma_mode_frame(dest, c, ld, bus.cycles(), j);
                    let l = bus.cycles();
                    let t = mode_trace(dest, c, l, j);
                    let a = mode_addr(dest, c, l, j);
                    assert(l =~= old(bus).cycles() + (t + (if dummy { seq![rd(a, d(l, j + t.len()))] } else { seq![] }) + seq![wr(a, v)]));
                }
            },
        }
        proof { assert(bus.cycles() =~= old(bus).cycles() + store_trace(mode, dest, v, c, bus.cycles(), j)); }
    }

    /// The end of MOV.
    fn mov_finish<B: Bus>(cpu: &mut Cpu, bus: &mut B, mode: AddressingMode, dest: AddressingMode, v: u8)
        requires
            old(bus).inv(),
        ensures
            kept(*old(bus), *final(bus)),
            final(bus).cycles() == old(bus).cycles() + finish_trace(mode, dest, *old(cpu), final(bus).cycles(), old(bus).cycles().len() as int),
            *final(cpu) == finish_cpu(dest, v, *old(cpu)),
    {
        let ghost c = *old(cpu);
        let ghost j = old(bus).cycles().len() as int;
        if mode == AddressingMode::Sp {
            let _ = bus.read_and_tick(Address::new(cpu.program_counter, 0));
        }
        let ghost l3 = bus.cycles();
        if dest.is_register_access() {
            cpu.set_nz(v);
            if mode.is_register_access() {
                let _ = bus.read_and_tick(Address::new(cpu.program_counter, 0));
            }
        }
        proof {
            let l = bus.cycles();
            if mode == AddressingMode::Sp {
                assert(l[j] == l3[j]);
            }
            assert(l =~= old(bus).cycles() + finish_trace(mode, dest, c, l, j));
        }
    }

    /// MOVW: YA from a word of the direct page (`to_ya`; N and Z from the word, one internal
    /// cycle), or YA to it (after a discarded read of the low byte).
    pub fn movw<B: Bus>(cpu: &mut Cpu, bus: &mut B, to_ya: bool)
        requires
            old(bus).inv(),
        ensures
            kept(*old(bus), *final(bus)),
            extends(final(bus).cycles(), old(bus).cycles()),
            movw_effect(to_ya, *old(cpu), *final(cpu), old(bus).cycles(), final(bus).cycles()),
    {
        proof { reveal(movw_effect); }
        let ghost k = old(bus).cycles().len() as int;
        let offset = cpu.get_imm(bus);
        if to_ya {
            let value = cpu.word_from_direct_page(bus, offset);
            cpu.accumulator = (value % 256) as u8;
            cpu.index_y = (value / 256) as u8;
            cpu.status.set_negative(value >= 0x8000);
            cpu.status.set_zero(value == 0);
            bus.add_io_cycles(1);
            proof {
                let l = bus.cycles();
                let c = *old(cpu);
                assert(l =~= old(bus).cycles() + seq![rd(pc_at(c, 0), d(l, k)), rd(dp_addr(c, d(l, k) as int), d(l, k + 1)),
                    rd(dp_addr(c, d(l, k) + 1), d(l, k + 2)), BusCycle::Io(1)]);
            }
        } else {
            let low_addr = cpu.direct_page_addr(offset);
            let high_addr = cpu.direct_page_addr(offset.wrapping_add(1));
            let _ = bus.read_and_tick(Address::from(low_addr));
            bus.write_and_tick(Address::from(low_addr), cpu.accumulator);
            bus.write_and_tick(Address::from(high_addr), cpu.index_y);
            proof {
                let l = bus.cycles();
                let c = *old(cpu);
                assert(l =~= old(bus).cycles() + seq![rd(pc_at(c, 0), d(l, k)), rd(dp_addr(c, d(l, k) as int), d(l, k + 1)),
                    wr(dp_addr(c, d(l, k) as int), c.accumulator), wr(dp_addr(c, d(l, k) + 1), c.index_y)]);
            }
        }
    }

    /// ASL: shifts left, C from bit 7.
    pub fn asl<B: Bus>(cpu: &mut Cpu, bus: &mut B, mode: AddressingMode)
        requires
            old(bus).inv(),
            is_rmw_mode(mode),
        ensures
            kept(*old(bus), *final(bus)),
            extends(final(bus).cycles(), old(bus).cycles()),
            asl_effect(mode, *old(cpu), *final(cpu), old(bus).cycles(), final(bus).cycles()),
    {
        proof { reveal(asl_effect); }
        Self::unary(cpu, bus, mode, RmwOp::Asl);
    }

    /// LSR: shifts right, C from bit 0.
    pub fn lsr<B: Bus>(cpu: &mut Cpu, bus: &mut B, mode: AddressingMode)
        requires
            old(bus).inv(),
            is_rmw_mode(mode),
        ensures
            kept(*old(bus), *final(bus)),
            extends(final(bus).cycles(), old(bus).cycles()),
            lsr_effect(mode, *old(cpu), *final(cpu), old(bus).cycles(), final(bus).cycles()),
    {
        proof { reveal(lsr_effect); }
        Self::unary(cpu, bus, mode, RmwOp::Lsr);
    }

    /// ROL: rotates left through the carry.
    pub fn rol<B: Bus>(cpu: &mut Cpu, bus: &mut B, mode: AddressingMode)
        requires
            old(bus).inv(),
            is_rmw_mode(mode),
        ensures
            kept(*old(bus), *final(bus)),
            extends(final(bus).cycles(), old(bus).cycles()),
            rol_effect(mode, *old(cpu), *final(cpu), old(bus).cycles(), final(bus).cycles()),
    {
        proof { reveal(rol_effect); }
        Self::unary(cpu, bus, mode, RmwOp::Rol);
    }

    /// ROR: rotates right through the carry.
    pub fn ror<B: Bus>(cpu: &mut Cpu, bus: &mut B, mode: AddressingMode)
        requires
            old(bus).inv(),
            is_rmw_mode(mode),
        ensures
            kept(*old(bus), *final(bus)),
            extends(final(bus).cycles(), old(bus).cycles()),
            ror_effect(mode, *old(cpu), *final(cpu), old(bus).cycles(), final(bus).cycles()),
    {
        proof { reveal(ror_effect); }
        Self::unary(cpu, bus, mode, RmwOp::Ror);
    }

    /// DEC: decrements, N and Z from the result.
    pub fn dec<B: Bus>(cpu: &mut Cpu, bus: &mut B, mode: AddressingMode)
        requires
            old(bus).inv(),
            is_rmw_mode(mode),
        ensures
            kept(*old(bus), *final(bus)),
            extends(final(bus).cycles(), old(bus).cycles()),
            dec_effect(mode, *old(cpu), *final(cpu), old(bus).cycles(), final(bus).cycles()),
    {
        proof { reveal(dec_effect); }
        Self::unary(cpu, bus, mode, RmwOp::Dec);
    }

    /// INC: increments, N and Z from the result.
    pub fn inc<B: Bus>(cpu: &mut Cpu, bus: &mut B, mode: AddressingMode)
        requires
            old(bus).inv(),
            is_rmw_mode(mode),
        ensures
            kept(*old(bus), *final(bus)),
            extends(final(bus).cycles(), old(bus).cycles()),
            inc_effect(mode, *old(cpu), *final(cpu), old(bus).cycles(), final(bus).cycles()),
    {
        proof { reveal(inc_effect); }
        Self::unary(cpu, bus, mode, RmwOp::Inc);
    }

    /// CLR1: clears bit `bit` of a byte.
    pub fn clr1<B: Bus>(cpu: &mut Cpu, bus: &mut B, mode: AddressingMode, bit: u8)
        requires
            old(bus).inv(),
            is_rmw_mode(mode),
            bit < 8,
        ensures
            kept(*old(bus), *final(bus)),
            extends(final(bus).cycles(), old(bus).cycles()),
            clr1_effect(mode, bit, *old(cpu), *final(cpu), old(bus).cycles(), final(bus).cycles()),
    {
        proof { reveal(clr1_effect); }
        Self::change_bit(cpu, bus, mode, bit, false);
    }

    /// SET1: sets bit `bit` of a byte.
    pub fn set1<B: Bus>(cpu: &mut Cpu, bus: &mut B, mode: AddressingMode, bit: u8)
        requires
            old(bus).inv(),
            is_rmw_mode(mode),
            bit < 8,
        ensures
            kept(*old(bus), *final(bus)),
            extends(final(bus).cycles(), old(bus).cycles()),
            set1_effect(mode, bit, *old(cpu), *final(cpu), old(bus).cycles(), final(bus).cycles()),
    {
        proof { reveal(set1_effect); }
        Self::change_bit(cpu, bus, mode, bit, true);
    }

    /// BBS: branches when bit `bit` of the byte is set.
    pub fn bbs<B: Bus>(cpu: &mut Cpu, bus: &mut B, mode: AddressingMode, bit: u8)
        requires
            old(bus).inv(),
            is_operand_mode(mode),
            bit < 8,
        ensures
            kept(*old(bus), *final(bus)),
            extends(final(bus).cycles(), old(bus).cycles()),
            bbs_effect(mode, bit, *old(cpu), *final(cpu), old(bus).cycles(), final(bus).cycles()),
    {
        proof { reveal(bbs_effect); }
        Self::branch_on_bit(cpu, bus, mode, bit, true);
    }

    /// BBC: branches when bit `bit` of the byte is clear.
    pub fn bbc<B: Bus>(cpu: &mut Cpu, bus: &mut B, mode: AddressingMode, bit: u8)
        requires
            old(bus).inv(),
            is_operand_mode(mode),
            bit < 8,
        ensures
            kept(*old(bus), *final(bus)),
            extends(final(bus).cycles(), old(bus).cycles()),
            bbc_effect(mode, bit, *old(cpu), *final(cpu), old(bus).cycles(), final(bus).cycles()),
    {
        proof { reveal(bbc_effect); }
        Self::branch_on_bit(cpu, bus, mode, bit, false);
    }
}

/// A POP right after a PUSH (whatever ran between, if it left the stack pointer alone)
/// reads the stack byte the PUSH wrote and puts the stack pointer back; where the read
/// returns the byte written, the register gets back the value pushed.
pub proof fn lemma_push_pop_round_trip(
    mode: AddressingMode,
    c: Cpu,
    c1: Cpu,
    c2: Cpu,
    c3: Cpu,
    l0: Seq<BusCycle>,
    l1: Seq<BusCycle>,
    l2: Seq<BusCycle>,
    l3: Seq<BusCycle>,
)
    requires
        mode == AddressingMode::Accumulator || mode == AddressingMode::X || mode == AddressingMode::Y
            || mode == AddressingMode::Psw,
        push_effect(mode, c, c1, l0, l1),
        c2.stack_pointer == c1.stack_pointer,
        pop_effect(mode, c2, c3, l2, l3),
    ensures
        c3.stack_pointer == c.stack_pointer,
        l3[l2.len() as int] is Read,
        crate::w65c816::functions::addr_of(l3[l2.len() as int]) == crate::w65c816::functions::addr_of(l1[l0.len() as int]),
        crate::w65c816::trace::data_of(l3[l2.len() as int]) == crate::w65c816::trace::data_of(l1[l0.len() as int])
            ==> super::addressing::register(mode, c3) == super::addressing::register(mode, c),
{
    reveal(push_effect);
    reveal(pop_effect);
    let s = c.stack_pointer;
    assert(c1.stack_pointer == ((s + 255) % 256) as u8);
    assert(((c1.stack_pointer + 1) % 256) as u8 == s);
    assert(l1[l0.len() as int] == wr(below(s, 0), super::addressing::register(mode, c)));
    assert(l3[l2.len() as int] == rd(below(c2.stack_pointer, -1), d(l3, l2.len() as int)));
}

/// CALL then RET (whatever ran between, if it left the stack pointer alone) returns to the
/// instruction after the CALL with the stack pointer back where it was: the RET reads the
/// two stack bytes the CALL wrote, and where they hold what was written the return address
/// is the CALL's own.
#[verifier::spinoff_prover]
pub proof fn lemma_call_ret_round_trip(
    c: Cpu,
    c1: Cpu,
    c2: Cpu,
    c3: Cpu,
    l0: Seq<BusCycle>,
    l1: Seq<BusCycle>,
    l2: Seq<BusCycle>,
    l3: Seq<BusCycle>,
)
    requires
        call_effect(c, c1, l0, l1),
        c2.stack_pointer == c1.stack_pointer,
        ret_effect(c2, c3, l2, l3),
    ensures
        c3.stack_pointer == c.stack_pointer,
        crate::w65c816::functions::addr_of(l3[l2.len() as int + 2]) == crate::w65c816::functions::addr_of(l1[l0.len() as int + 4]),
        crate::w65c816::functions::addr_of(l3[l2.len() as int + 3]) == crate::w65c816::functions::addr_of(l1[l0.len() as int + 3]),
        crate::w65c816::trace::data_of(l3[l2.len() as int + 2]) == crate::w65c816::trace::data_of(l1[l0.len() as int + 4])
            && crate::w65c816::trace::data_of(l3[l2.len() as int + 3]) == crate::w65c816::trace::data_of(l1[l0.len() as int + 3])
            ==> c3.program_counter == pc_at(c, 2),
{
    reveal(call_effect);
    reveal(ret_effect);
    let s = c.stack_pointer;
    let k0 = l0.len() as int;
    let k2 = l2.len() as int;
    let head = seq![BusCycle::Io(3), rd(pc_at(c, 0), d(l1, k0 + 1)), rd(pc_at(c, 1), d(l1, k0 + 2))];
    let pp = push_pc(s, pc_at(c, 2));
    assert(l1 =~= l0 + head + pp);
    assert(l1[k0 + 3] == pp[0] && l1[k0 + 4] == pp[1]) by {
        assert((l0 + head + pp)[k0 + 3] == pp[0]);
        assert((l0 + head + pp)[k0 + 4] == pp[1]);
    }
    let tail = seq![pc_read(c2, l3, k2), BusCycle::Io(1), rd(below(c2.stack_pointer, -1), d(l3, k2 + 2)), rd(below(c2.stack_pointer, -2), d(l3, k2 + 3))];
    assert(l3 =~= l2 + tail);
    assert(l3[k2 + 2] == tail[2] && l3[k2 + 3] == tail[3]) by {
        assert((l2 + tail)[k2 + 2] == tail[2]);
        assert((l2 + tail)[k2 + 3] == tail[3]);
    }
    assert(c1.stack_pointer == ((s - 2) % 256) as u8);
    if crate::w65c816::trace::data_of(l3[k2 + 2]) == crate::w65c816::trace::data_of(l1[k0 + 4])
        && crate::w65c816::trace::data_of(l3[k2 + 3]) == crate::w65c816::trace::data_of(l1[k0 + 3]) {
        assert(w16(l3, k2 + 2) == pc_at(c, 2));
    }
}

} // verus!
