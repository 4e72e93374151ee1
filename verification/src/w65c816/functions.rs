use vstd::prelude::*;

use super::addressing::{linear, Address, AddressingMode};
use super::cpu::{merge, nz_spec, Cpu};
use super::regsize::{modulus, sign_bit, RegSize};
use super::trace::{
    advance, d, data_of, data_reads, data_value, page_reads, data_writes, decode_addr, decode_len, decode_trace, decodes, extends,
    imm_reads, io_if, lemma_decode_frame, lemma_page_frame, on_page, page_addr, page_len, page_trace,
    page_writes, rd, wr,
};
use crate::bus::{Bus, BusCycle};
use crate::utils::bits::with_bit;
use crate::utils::int_traits::{hi, lo, ManipulateU16};

verus! {

/// 1 for a set carry, 0 otherwise.
pub open spec fn cv(c: bool) -> int {
    if c { 1 } else { 0 }
}

/// Binary add with carry of `a` and `b` at the given width: (result, carry, overflow).
pub open spec fn bin_adc_spec(a: int, b: int, c: bool, wide: bool) -> (int, bool, bool) {
    let m = modulus(wide);
    let h = sign_bit(wide);
    let sum = a + b + cv(c);
    let res = sum % m;
    (res, sum >= m, (a >= h) == (b >= h) && (res >= h) != (a >= h))
}

/// One decimal digit step of the BCD adder: `r` is the running sum below digit `d`
/// (weight `w = 16^d`); the digit of `a` and `b` is added, with a decimal carry from below.
pub open spec fn dec_digit_step(a: int, b: int, r: int, w: int) -> int {
    (a / w % 16) * w + (b / w % 16) * w + r % w + (if r > w - 1 { w } else { 0 })
}

/// Decimal add with carry at 8 bits, as the chip computes it (also for non-BCD input).
pub open spec fn dec_adc8_spec(a: int, b: int, c: bool) -> (int, bool, bool) {
    let r0 = a % 16 + b % 16 + cv(c);
    let r1 = if r0 > 9 { r0 + 6 } else { r0 };
    let r2 = dec_digit_step(a, b, r1, 16);
    let v = (a >= 0x80) == (b >= 0x80) && ((r2 / 0x80) % 2 == 1) != (a >= 0x80);
    let r3 = if r2 > 0x9F { r2 + 0x60 } else { r2 };
    (r3 % 0x100, r3 >= 0x100, v)
}

/// Decimal add with carry at 16 bits, as the chip computes it (also for non-BCD input).
pub open spec fn dec_adc16_spec(a: int, b: int, c: bool) -> (int, bool, bool) {
    let r0 = a % 16 + b % 16 + cv(c);
    let r1 = if r0 > 9 { r0 + 6 } else { r0 };
    let r2 = dec_digit_step(a, b, r1, 16);
    let r3 = if r2 > 0x9F { r2 + 0x60 } else { r2 };
    let r4 = dec_digit_step(a, b, r3, 0x100);
    let r5 = if r4 > 0x9FF { r4 + 0x600 } else { r4 };
    let r6 = dec_digit_step(a, b, r5, 0x1000);
    let v = (a >= 0x8000) == (b >= 0x8000) && ((r6 / 0x8000) % 2 == 1) != (a >= 0x8000);
    let r7 = if r6 > 0x9FFF { r6 + 0x6000 } else { r6 };
    (r7 % 0x1_0000, r7 >= 0x1_0000, v)
}

/// Decimal subtract at 8 bits: `b` is the complemented operand, as the chip computes it.
pub open spec fn dec_sbc8_spec(a: int, b: int, c: bool) -> (int, bool, bool) {
    let r0 = a % 16 + b % 16 + cv(c);
    let r1 = if r0 <= 0xF { r0 - 6 } else { r0 };
    let r2 = dec_digit_step(a, b, r1, 16);
    let v = (a >= 0x80) == (b >= 0x80) && ((r2 / 0x80) % 2 == 1) != (a >= 0x80);
    let r3 = if r2 <= 0xFF { r2 - 0x60 } else { r2 };
    (r3 % 0x100, r3 > 0xFF, v)
}

/// Decimal subtract at 16 bits: `b` is the complemented operand, as the chip computes it.
pub open spec fn dec_sbc16_spec(a: int, b: int, c: bool) -> (int, bool, bool) {
    let r0 = a % 16 + b % 16 + cv(c);
    let r1 = if r0 <= 0xF { r0 - 6 } else { r0 };
    let r2 = dec_digit_step(a, b, r1, 16);
    let r3 = if r2 <= 0xFF { r2 - 0x60 } else { r2 };
    let r4 = dec_digit_step(a, b, r3, 0x100);
    let r5 = if r4 <= 0xFFF { r4 - 0x600 } else { r4 };
    let r6 = dec_digit_step(a, b, r5, 0x1000);
    let v = (a >= 0x8000) == (b >= 0x8000) && ((r6 / 0x8000) % 2 == 1) != (a >= 0x8000);
    let r7 = if r6 <= 0xFFFF { r6 - 0x6000 } else { r6 };
    (r7 % 0x1_0000, r7 > 0xFFFF, v)
}

/// The CPU after an add or subtract that produced (result, carry, overflow).
pub open spec fn after_arith(c: Cpu, out: (int, bool, bool), wide: bool) -> Cpu {
    Cpu {
        accumulator: merge(c.accumulator, out.0 as u16, wide),
        status: super::cpu::Status(
            nz_spec(with_bit(with_bit(c.status.0, 1, out.1), 64, out.2), out.0, wide),
        ),
        ..c
    }
}

pub fn do_bin_adc<T: RegSize>(cpu: &mut Cpu, operand: T)
    ensures
        *final(cpu) == after_arith(
            *old(cpu),
            bin_adc_spec(
                old(cpu).accumulator as int % modulus(T::wide()),
                operand.val() as int,
                old(cpu).status.carry(),
                T::wide(),
            ),
            T::wide(),
        ),
{
    proof { operand.lemma_bounded(); }
    if T::is_u16() {
        let src = cpu.accumulator as u32;
        let operand = operand.as_u16() as u32;
        let result = src + operand + if cpu.status.carry() { 1u32 } else { 0 };
        let res = (result % 0x1_0000) as u16;
        let is_overflow = (src >= 0x8000) == (operand >= 0x8000) && (res >= 0x8000) != (src >= 0x8000);
        cpu.status.set_carry(result >= 0x1_0000);
        cpu.status.set_overflow(is_overflow);
        cpu.set_nz(res);
        cpu.accumulator = res;
    } else {
        let src = cpu.accumulator % 0x100;
        let operand = operand.as_u16();
        let result = src + operand + if cpu.status.carry() { 1u16 } else { 0 };
        let res = (result % 0x100) as u8;
        let is_overflow = (src >= 0x80) == (operand >= 0x80) && (res >= 0x80) != (src >= 0x80);
        cpu.status.set_carry(result >= 0x100);
        cpu.status.set_overflow(is_overflow);
        cpu.set_nz(res);
        cpu.set_accumulator(res);
    }
}


/// Stores a result with its carry and overflow: flags C, V, N, Z and the accumulator.
fn finish_arith<T: RegSize>(cpu: &mut Cpu, res: u16, carry: bool, overflow: bool)
    requires
        res < modulus(T::wide()),
    ensures
        *final(cpu) == after_arith(*old(cpu), (res as int, carry, overflow), T::wide()),
{
    cpu.status.set_carry(carry);
    cpu.status.set_overflow(overflow);
    let r = T::from_u16(res);
    cpu.set_nz(r);
    cpu.set_accumulator(r);
}

/// One digit step of the BCD adder at weight `w` (16, 0x100 or 0x1000).
fn dec_step(a: i32, b: i32, r: i32, w: i32) -> (out: i32)
    requires
        w == 16 || w == 0x100 || w == 0x1000,
        0 <= a < 0x1_0000,
        0 <= b < 0x1_0000,
        -w <= r < 0x1_0000,
    ensures
        out == dec_digit_step(a as int, b as int, r as int, w as int),
        0 <= out < 0x2_0000,
{
    let au = a as u32;
    let bu = b as u32;
    let rs = (r + w) as u32;
    let wu = w as u32;
    let carry_in: u32 = if r > w - 1 { wu } else { 0 };
    assert((rs as int) % (wu as int) == (r as int) % (w as int)) by (nonlinear_arith)
        requires
            rs as int == r as int + w as int,
            wu as int == w as int,
            w > 0,
    ;
    let out = if w == 16 {
        (au / 16 % 16) * 16 + (bu / 16 % 16) * 16 + rs % 16 + carry_in
    } else if w == 0x100 {
        (au / 0x100 % 16) * 0x100 + (bu / 0x100 % 16) * 0x100 + rs % 0x100 + carry_in
    } else {
        (au / 0x1000 % 16) * 0x1000 + (bu / 0x1000 % 16) * 0x1000 + rs % 0x1000 + carry_in
    };
    out as i32
}

fn dec_adc8(a: i32, b: i32, c: bool) -> (out: (u16, bool, bool))
    requires
        0 <= a < 0x100,
        0 <= b < 0x100,
    ensures
        (out.0 as int, out.1, out.2) == dec_adc8_spec(a as int, b as int, c),
{
    let mut r = a % 16 + b % 16 + if c { 1i32 } else { 0 };
    if r > 9 {
        r = r + 6;
    }
    r = dec_step(a, b, r, 16);
    let v = (a >= 0x80) == (b >= 0x80) && ((r / 0x80) % 2 == 1) != (a >= 0x80);
    if r > 0x9F {
        r = r + 0x60;
    }
    ((r % 0x100) as u16, r >= 0x100, v)
}

fn dec_adc16(a: i32, b: i32, c: bool) -> (out: (u16, bool, bool))
    requires
        0 <= a < 0x1_0000,
        0 <= b < 0x1_0000,
    ensures
        (out.0 as int, out.1, out.2) == dec_adc16_spec(a as int, b as int, c),
{
    let mut r = a % 16 + b % 16 + if c { 1i32 } else { 0 };
    if r > 9 {
        r = r + 6;
    }
    r = dec_step(a, b, r, 16);
    if r > 0x9F {
        r = r + 0x60;
    }
    r = dec_step(a, b, r, 0x100);
    if r > 0x9FF {
        r = r + 0x600;
    }
    r = dec_step(a, b, r, 0x1000);
    let v = (a >= 0x8000) == (b >= 0x8000) && ((r / 0x8000) % 2 == 1) != (a >= 0x8000);
    if r > 0x9FFF {
        r = r + 0x6000;
    }
    ((r % 0x1_0000) as u16, r >= 0x1_0000, v)
}

fn dec_sbc8(a: i32, b: i32, c: bool) -> (out: (u16, bool, bool))
    requires
        0 <= a < 0x100,
        0 <= b < 0x100,
    ensures
        (out.0 as int, out.1, out.2) == dec_sbc8_spec(a as int, b as int, c),
{
    let mut r = ((a as u32) % 16 + (b as u32) % 16) as i32 + if c { 1i32 } else { 0 };
    if r <= 0xF {
        r = r - 6;
    }
    r = dec_step(a, b, r, 16);
    let v = (a >= 0x80) == (b >= 0x80) && ((r / 0x80) % 2 == 1) != (a >= 0x80);
    if r <= 0xFF {
        r = r - 0x60;
    }
    let rs = (r + 0x100) as u32;
    assert((rs as int) % 0x100 == (r as int) % 0x100) by (nonlinear_arith)
        requires
            rs as int == r as int + 0x100,
    ;
    ((rs % 0x100) as u16, r > 0xFF, v)
}

fn dec_sbc16(a: i32, b: i32, c: bool) -> (out: (u16, bool, bool))
    requires
        0 <= a < 0x1_0000,
        0 <= b < 0x1_0000,
    ensures
        (out.0 as int, out.1, out.2) == dec_sbc16_spec(a as int, b as int, c),
{
    let mut r = ((a as u32) % 16 + (b as u32) % 16) as i32 + if c { 1i32 } else { 0 };
    if r <= 0xF {
        r = r - 6;
    }
    r = dec_step(a, b, r, 16);
    if r <= 0xFF {
        r = r - 0x60;
    }
    r = dec_step(a, b, r, 0x100);
    if r <= 0xFFF {
        r = r - 0x600;
    }
    r = dec_step(a, b, r, 0x1000);
    let v = (a >= 0x8000) == (b >= 0x8000) && ((r / 0x8000) % 2 == 1) != (a >= 0x8000);
    if r <= 0xFFFF {
        r = r - 0x6000;
    }
    let rs = (r + 0x1_0000) as u32;
    assert((rs as int) % 0x1_0000 == (r as int) % 0x1_0000) by (nonlinear_arith)
        requires
            rs as int == r as int + 0x1_0000,
    ;
    ((rs % 0x1_0000) as u16, r > 0xFFFF, v)
}

/// Decimal-mode add with carry (ADC with D set).
pub fn do_dec_adc<T: RegSize>(cpu: &mut Cpu, operand: T)
    ensures
        *final(cpu) == after_arith(
            *old(cpu),
            if T::wide() {
                dec_adc16_spec(old(cpu).accumulator as int, operand.val() as int, old(cpu).status.carry())
            } else {
                dec_adc8_spec(old(cpu).accumulator as int % 0x100, operand.val() as int, old(cpu).status.carry())
            },
            T::wide(),
        ),
{
    proof { operand.lemma_bounded(); }
    let out = if T::is_u16() {
        dec_adc16(cpu.accumulator as i32, operand.as_u16() as i32, cpu.status.carry())
    } else {
        dec_adc8((cpu.accumulator % 0x100) as i32, operand.as_u16() as i32, cpu.status.carry())
    };
    finish_arith::<T>(cpu, out.0, out.1, out.2);
}

/// Decimal-mode subtract with borrow (SBC with D set); `operand` is already complemented.
pub fn do_dec_sbc<T: RegSize>(cpu: &mut Cpu, operand: T)
    ensures
        *final(cpu) == after_arith(
            *old(cpu),
            if T::wide() {
                dec_sbc16_spec(old(cpu).accumulator as int, operand.val() as int, old(cpu).status.carry())
            } else {
                dec_sbc8_spec(old(cpu).accumulator as int % 0x100, operand.val() as int, old(cpu).status.carry())
            },
            T::wide(),
        ),
{
    proof { operand.lemma_bounded(); }
    let out = if T::is_u16() {
        dec_sbc16(cpu.accumulator as i32, operand.as_u16() as i32, cpu.status.carry())
    } else {
        dec_sbc8((cpu.accumulator % 0x100) as i32, operand.as_u16() as i32, cpu.status.carry())
    };
    finish_arith::<T>(cpu, out.0, out.1, out.2);
}


/// The CPU with P replaced.
pub open spec fn with_p(c: Cpu, p: u8) -> Cpu {
    Cpu { status: super::cpu::Status(p), ..c }
}

/// Shift left; bit 7/15 goes to carry.
pub fn do_asl<T: RegSize>(cpu: &mut Cpu, operand: T) -> (r: T)
    ensures
        r.val() == (2 * operand.val()) % modulus(T::wide()),
        *final(cpu) == with_p(*old(cpu), nz_spec(with_bit(old(cpu).status.0, 1, operand.val() >= sign_bit(T::wide())), r.val() as int, T::wide())),
{
    proof { operand.lemma_bounded(); }
    let m: u32 = if T::is_u16() { 0x1_0000 } else { 0x100 };
    let h: u16 = if T::is_u16() { 0x8000 } else { 0x80 };
    let op = operand.as_u16();
    let result = T::from_u16(((op as u32 * 2) % m) as u16);
    cpu.status.set_carry(op >= h);
    cpu.set_nz(result);
    result
}

/// Shift right; bit 0 goes to carry.
pub fn do_lsr<T: RegSize>(cpu: &mut Cpu, operand: T) -> (r: T)
    ensures
        r.val() == operand.val() / 2,
        *final(cpu) == with_p(*old(cpu), nz_spec(with_bit(old(cpu).status.0, 1, operand.val() % 2 == 1), r.val() as int, T::wide())),
{
    proof { operand.lemma_bounded(); }
    let op = operand.as_u16();
    let result = T::from_u16(op / 2);
    cpu.status.set_carry(op % 2 == 1);
    cpu.set_nz(result);
    result
}

/// Rotate left through carry.
pub fn do_rol<T: RegSize>(cpu: &mut Cpu, operand: T) -> (r: T)
    ensures
        r.val() == (2 * operand.val() + cv(old(cpu).status.carry())) % modulus(T::wide()),
        *final(cpu) == with_p(*old(cpu), nz_spec(with_bit(old(cpu).status.0, 1, operand.val() >= sign_bit(T::wide())), r.val() as int, T::wide())),
{
    proof { operand.lemma_bounded(); }
    let m: u32 = if T::is_u16() { 0x1_0000 } else { 0x100 };
    let h: u16 = if T::is_u16() { 0x8000 } else { 0x80 };
    let op = operand.as_u16();
    let c: u32 = if cpu.status.carry() { 1 } else { 0 };
    let result = T::from_u16(((op as u32 * 2 + c) % m) as u16);
    cpu.status.set_carry(op >= h);
    cpu.set_nz(result);
    result
}

/// Rotate right through carry.
pub fn do_ror<T: RegSize>(cpu: &mut Cpu, operand: T) -> (r: T)
    ensures
        r.val() == operand.val() / 2 + if old(cpu).status.carry() { sign_bit(T::wide()) } else { 0 },
        *final(cpu) == with_p(*old(cpu), nz_spec(with_bit(old(cpu).status.0, 1, operand.val() % 2 == 1), r.val() as int, T::wide())),
{
    proof { operand.lemma_bounded(); }
    let h: u16 = if T::is_u16() { 0x8000 } else { 0x80 };
    let op = operand.as_u16();
    let result = T::from_u16(op / 2 + if cpu.status.carry() { h } else { 0 });
    cpu.status.set_carry(op % 2 == 1);
    cpu.set_nz(result);
    result
}

/// P after BIT with the accumulator `a` and the operand `v`: Z from `a AND v`; outside
/// immediate mode N and V are copied from the operand's top two bits.
pub open spec fn bit_p(p: u8, a: u16, v: u16, wide: bool, immediate: bool) -> u8 {
    let h = sign_bit(wide);
    let zero = (((a as int % modulus(wide)) as u16) & v) == 0;
    if immediate {
        with_bit(p, 2, zero)
    } else {
        with_bit(with_bit(with_bit(p, 128, v >= h), 64, (v as int / (h / 2)) % 2 == 1), 2, zero)
    }
}

/// BIT: Z from A AND operand; outside immediate mode N and V are copied from the operand.
pub fn do_bit<T: RegSize>(cpu: &mut Cpu, operand: T, mode: AddressingMode)
    ensures
        *final(cpu) == with_p(*old(cpu), bit_p(old(cpu).status.0, old(cpu).accumulator, operand.val(), T::wide(), mode == AddressingMode::Immediate)),
{
    let a = T::from_u16(cpu.accumulator).as_u16();
    let result = a & operand.as_u16();
    if let AddressingMode::Immediate = mode {
        cpu.status.set_zero(result == 0);
    } else {
        cpu.status.set_negative(operand.is_negative());
        cpu.status.set_overflow(operand.is_overflow());
        cpu.status.set_zero(result == 0);
    }
}

/// Compare: C when `src >= operand`, N and Z from the difference.
pub fn do_compare<T: RegSize>(cpu: &mut Cpu, src: T, operand: T)
    ensures
        *final(cpu) == with_p(*old(cpu), nz_spec(with_bit(old(cpu).status.0, 1, src.val() >= operand.val()),
            (src.val() - operand.val()) % modulus(T::wide()), T::wide())),
{
    let result = src.wrapping_sub(operand);
    cpu.status.set_carry(src.as_u16() >= operand.as_u16());
    cpu.set_nz(result);
}

/// Decrement with N and Z.
pub fn do_dec<T: RegSize>(cpu: &mut Cpu, src: T) -> (r: T)
    ensures
        r.val() == (src.val() - 1) % modulus(T::wide()),
        *final(cpu) == with_p(*old(cpu), nz_spec(old(cpu).status.0, r.val() as int, T::wide())),
{
    let result = src.wrapping_sub(T::from_u8(1));
    cpu.set_nz(result);
    result
}

/// Increment with N and Z.
pub fn do_inc<T: RegSize>(cpu: &mut Cpu, src: T) -> (r: T)
    ensures
        r.val() == (src.val() + 1) % modulus(T::wide()),
        *final(cpu) == with_p(*old(cpu), nz_spec(old(cpu).status.0, r.val() as int, T::wide())),
{
    let result = src.wrapping_add(T::from_u8(1));
    cpu.set_nz(result);
    result
}

/// TRB: Z from A AND operand; the result clears A's bits in the operand.
pub fn do_trb<T: RegSize>(cpu: &mut Cpu, operand: T) -> (r: T)
    ensures
        ({
            let a = (old(cpu).accumulator as int % modulus(T::wide())) as u16;
            &&& r.val() == (operand.val() & !a) as int % modulus(T::wide())
            &&& *final(cpu) == with_p(*old(cpu), with_bit(old(cpu).status.0, 2, (operand.val() & a) == 0))
        }),
{
    let a = T::from_u16(cpu.accumulator).as_u16();
    let op = operand.as_u16();
    cpu.status.set_zero((op & a) == 0);
    T::from_u16(op & !a)
}

/// TSB: Z from A AND operand; the result sets A's bits in the operand.
pub fn do_tsb<T: RegSize>(cpu: &mut Cpu, operand: T) -> (r: T)
    ensures
        ({
            let a = (old(cpu).accumulator as int % modulus(T::wide())) as u16;
            &&& r.val() == (operand.val() | a) as int % modulus(T::wide())
            &&& *final(cpu) == with_p(*old(cpu), with_bit(old(cpu).status.0, 2, (operand.val() & a) == 0))
        }),
{
    let a = T::from_u16(cpu.accumulator).as_u16();
    let op = operand.as_u16();
    cpu.status.set_zero((op & a) == 0);
    T::from_u16(op | a)
}


/// The read-modify-write operations of the W65C816.
#[derive(Clone, Copy, PartialEq, Eq, Structural)]
pub enum RmwOp {
    Asl,
    Lsr,
    Rol,
    Ror,
    Dec,
    Inc,
    Trb,
    Tsb,
}

/// The value a read-modify-write operation writes back for the operand `v`.
pub open spec fn rmw_value(op: RmwOp, c: Cpu, v: int, wide: bool) -> int {
    let m = modulus(wide);
    let a = (c.accumulator as int % m) as u16;
    match op {
        RmwOp::Asl => (2 * v) % m,
        RmwOp::Lsr => v / 2,
        RmwOp::Rol => (2 * v + cv(c.status.carry())) % m,
        RmwOp::Ror => v / 2 + if c.status.carry() { sign_bit(wide) } else { 0 },
        RmwOp::Dec => (v - 1) % m,
        RmwOp::Inc => (v + 1) % m,
        RmwOp::Trb => ((v as u16) & !a) as int % m,
        RmwOp::Tsb => ((v as u16) | a) as int % m,
    }
}

/// P after a read-modify-write operation on the operand `v`.
pub open spec fn rmw_status(op: RmwOp, c: Cpu, v: int, wide: bool) -> u8 {
    let p = c.status.0;
    let r = rmw_value(op, c, v, wide);
    let a = (c.accumulator as int % modulus(wide)) as u16;
    match op {
        RmwOp::Asl | RmwOp::Rol => nz_spec(with_bit(p, 1, v >= sign_bit(wide)), r, wide),
        RmwOp::Lsr | RmwOp::Ror => nz_spec(with_bit(p, 1, v % 2 == 1), r, wide),
        RmwOp::Dec | RmwOp::Inc => nz_spec(p, r, wide),
        RmwOp::Trb | RmwOp::Tsb => with_bit(p, 2, ((v as u16) & a) == 0),
    }
}

/// Applies a read-modify-write operation to an operand.
pub fn apply_rmw<T: RegSize>(cpu: &mut Cpu, op: RmwOp, v: T) -> (r: T)
    ensures
        r.val() == rmw_value(op, *old(cpu), v.val() as int, T::wide()),
        *final(cpu) == with_p(*old(cpu), rmw_status(op, *old(cpu), v.val() as int, T::wide())),
{
    match op {
        RmwOp::Asl => do_asl(cpu, v),
        RmwOp::Lsr => do_lsr(cpu, v),
        RmwOp::Rol => do_rol(cpu, v),
        RmwOp::Ror => do_ror(cpu, v),
        RmwOp::Dec => do_dec(cpu, v),
        RmwOp::Inc => do_inc(cpu, v),
        RmwOp::Trb => do_trb(cpu, v),
        RmwOp::Tsb => do_tsb(cpu, v),
    }
}

/// The writes of a push of `v` at the stack pointer `s`: high byte first, then the low byte below it.
pub open spec fn push_writes(s: u16, v: u16, wide: bool) -> Seq<BusCycle> {
    if wide {
        seq![wr(s as int, hi(v)), wr((s - 1) % 0x1_0000, lo(v))]
    } else {
        seq![wr(s as int, lo(v))]
    }
}

/// The reads of a pull above the stack pointer `s`: low byte first.
pub open spec fn pull_reads(s: u16, wide: bool, l: Seq<BusCycle>, k: int) -> Seq<BusCycle> {
    if wide {
        seq![rd((s + 1) % 0x1_0000, d(l, k)), rd((s + 2) % 0x1_0000, d(l, k + 1))]
    } else {
        seq![rd((s + 1) % 0x1_0000, d(l, k))]
    }
}

/// The number of bytes of a value of the given width.
pub open spec fn width(wide: bool) -> int {
    if wide { 2 } else { 1 }
}

/// The CPU with its stack pointer moved by `n` (wrapping).
pub open spec fn move_sp(c: Cpu, n: int) -> Cpu {
    Cpu { stack_pointer: ((c.stack_pointer + n) % 0x1_0000) as u16, ..c }
}

/// The address a bus cycle touches (0 for internal cycles).
pub open spec fn addr_of(c: BusCycle) -> int {
    match c {
        BusCycle::Read(a, _) => a as int,
        BusCycle::Write(a, _) => a as int,
        BusCycle::Io(_) => 0,
    }
}

/// A pull right after a push of the same width leaves the stack pointer where it was and
/// reads back the bytes the push wrote, in reverse order; where each read returns the byte
/// written at its address, the value pulled is the value pushed.
pub proof fn lemma_push_pull_round_trip(c: Cpu, v: u16, wide: bool, l: Seq<BusCycle>, k: int)
    requires
        wide || v < 0x100,
    ensures
        ({
            let pushed = push_writes(c.stack_pointer, v, wide);
            let c1 = move_sp(c, -width(wide));
            let pulled = pull_reads(c1.stack_pointer, wide, l, k);
            &&& move_sp(c1, width(wide)) == c
            &&& pulled.len() == pushed.len() == width(wide)
            &&& forall|i: int| 0 <= i < width(wide) ==>
                addr_of(#[trigger] pulled[i]) == addr_of(pushed[width(wide) - 1 - i])
            &&& (forall|i: int| 0 <= i < width(wide) ==>
                data_of(#[trigger] pulled[i]) == data_of(pushed[width(wide) - 1 - i]))
                ==> data_value(wide, l, k) == v
        }),
{
    let s = c.stack_pointer;
    let c1 = move_sp(c, -width(wide));
    let pushed = push_writes(s, v, wide);
    let pulled = pull_reads(c1.stack_pointer, wide, l, k);
    if wide {
        assert(c1.stack_pointer == (s - 2) % 0x1_0000);
        assert((c1.stack_pointer + 1) % 0x1_0000 == (s - 1) % 0x1_0000);
        assert((c1.stack_pointer + 2) % 0x1_0000 == s);
        assert(addr_of(pulled[0]) == addr_of(pushed[1]));
        assert(addr_of(pulled[1]) == addr_of(pushed[0]));
        if forall|i: int| 0 <= i < 2 ==> data_of(#[trigger] pulled[i]) == data_of(pushed[1 - i]) {
            assert(data_of(pulled[0]) == data_of(pushed[1]));
            assert(data_of(pulled[1]) == data_of(pushed[0]));
            assert(d(l, k) == lo(v) && d(l, k + 1) == hi(v));
        }
    } else {
        assert(c1.stack_pointer == (s - 1) % 0x1_0000);
        assert((c1.stack_pointer + 1) % 0x1_0000 == s);
        assert(addr_of(pulled[0]) == addr_of(pushed[0]));
        if forall|i: int| 0 <= i < 1 ==> data_of(#[trigger] pulled[i]) == data_of(pushed[0 - i]) {
            assert(data_of(pulled[0]) == data_of(pushed[0]));
        }
    }
    assert(move_sp(c1, width(wide)) == c);
}

/// Pushes a value of `T`'s width on the stack in bank 0.
pub fn do_push<T: RegSize, B: Bus>(cpu: &mut Cpu, bus: &mut B, value: T)
    requires
        old(bus).inv(),
    ensures
        final(bus).inv(),
        final(bus).clock() >= old(bus).clock(),
        final(bus).agenda() == old(bus).agenda(),
        final(bus).cycles() == old(bus).cycles() + push_writes(old(cpu).stack_pointer, value.val(), T::wide()),
        *final(cpu) == move_sp(*old(cpu), -width(T::wide())),
{
    proof { value.lemma_bounded(); }
    if T::is_u16() {
        bus.write_and_tick(Address::from(cpu.stack_pointer), value.as_u16().high_byte());
        cpu.stack_pointer = cpu.stack_pointer.wrapping_sub(1);
        bus.write_and_tick(Address::from(cpu.stack_pointer), value.as_u16().low_byte());
        cpu.stack_pointer = cpu.stack_pointer.wrapping_sub(1);
    } else {
        bus.write_and_tick(Address::from(cpu.stack_pointer), value.as_u8());
        cpu.stack_pointer = cpu.stack_pointer.wrapping_sub(1);
    }
    proof {
        assert(bus.cycles() =~= old(bus).cycles() + push_writes(old(cpu).stack_pointer, value.val(), T::wide()));
    }
}

/// Pulls a value of `T`'s width from the stack in bank 0.
pub fn do_pull<T: RegSize, B: Bus>(cpu: &mut Cpu, bus: &mut B) -> (r: T)
    requires
        old(bus).inv(),
    ensures
        final(bus).inv(),
        final(bus).clock() >= old(bus).clock(),
        final(bus).agenda() == old(bus).agenda(),
        final(bus).cycles() == old(bus).cycles() + pull_reads(old(cpu).stack_pointer, T::wide(), final(bus).cycles(), old(bus).cycles().len() as int),
        r.val() == data_value(T::wide(), final(bus).cycles(), old(bus).cycles().len() as int),
        *final(cpu) == move_sp(*old(cpu), width(T::wide())),
{
    let ghost n = old(bus).cycles().len() as int;
    if T::is_u16() {
        cpu.stack_pointer = cpu.stack_pointer.wrapping_add(1);
        let low = bus.read_and_tick(Address::from(cpu.stack_pointer));
        cpu.stack_pointer = cpu.stack_pointer.wrapping_add(1);
        let high = bus.read_and_tick(Address::from(cpu.stack_pointer));
        proof {
            assert(bus.cycles() =~= old(bus).cycles() + pull_reads(old(cpu).stack_pointer, true, bus.cycles(), n));
        }
        T::from_u16(low as u16 + (high as u16) * 256)
    } else {
        cpu.stack_pointer = cpu.stack_pointer.wrapping_add(1);
        let v = bus.read_and_tick(Address::from(cpu.stack_pointer));
        proof {
            assert(bus.cycles() =~= old(bus).cycles() + pull_reads(old(cpu).stack_pointer, false, bus.cycles(), n));
        }
        T::from_u8(v)
    }
}

/// The modes that store to (or modify) memory: a direct-page or stack address, or an effective address.
pub open spec fn store_mode(mode: AddressingMode) -> bool {
    (on_page(mode) && mode != AddressingMode::StackPEI) || decodes(mode)
}

/// How many instruction bytes a store's address takes.
pub open spec fn store_len(mode: AddressingMode) -> int {
    if on_page(mode) { 1 } else { decode_len(mode) }
}

/// The bus cycles of a store of `v`.
pub open spec fn store_trace(mode: AddressingMode, c: Cpu, wide: bool, v: u16, l: Seq<BusCycle>, k: int) -> Seq<BusCycle> {
    if on_page(mode) {
        page_trace(mode, c, l, k) + page_writes(page_addr(mode, c, l, k), wide, v)
    } else {
        decode_trace(mode, c, true, l, k) + data_writes(decode_addr(mode, c, l, k), wide, v)
    }
}

/// Stores a value of `T`'s width at the operand address of the mode.
pub fn do_store<T: RegSize, B: Bus>(cpu: &mut Cpu, bus: &mut B, mode: AddressingMode, value: T)
    requires
        old(bus).inv(),
        store_mode(mode),
    ensures
        final(bus).inv(),
        final(bus).clock() >= old(bus).clock(),
        final(bus).agenda() == old(bus).agenda(),
        final(bus).cycles() == old(bus).cycles() + store_trace(mode, *old(cpu), T::wide(), value.val(), final(bus).cycles(), old(bus).cycles().len() as int),
        *final(cpu) == advance(*old(cpu), store_len(mode)),
{
    let ghost n = old(bus).cycles().len() as int;
    let ghost c = *old(cpu);
    proof { value.lemma_bounded(); }
    match mode {
        AddressingMode::Direct | AddressingMode::DirectX | AddressingMode::DirectY | AddressingMode::StackRelative => {
            let page = cpu.page_of(bus, &mode);
            let ghost l1 = bus.cycles();
            if T::is_u16() {
                cpu.write_bank0(bus, page, value.as_u16());
            } else {
                bus.write_and_tick(Address::from(page), value.as_u8());
            }
            proof {
                assert(extends(bus.cycles(), l1));
                lemma_page_frame(mode, c, l1, bus.cycles(), n);
                assert(bus.cycles() =~= old(bus).cycles() + store_trace(mode, c, T::wide(), value.val(), bus.cycles(), n));
            }
        },
        _ => {
            let addr = cpu.decode_addressing_mode::<true, B>(bus, mode);
            let ghost l1 = bus.cycles();
            cpu.write(bus, addr, value);
            proof {
                assert(extends(bus.cycles(), l1));
                lemma_decode_frame(mode, c, true, l1, bus.cycles(), n);
                assert(bus.cycles() =~= old(bus).cycles() + store_trace(mode, c, T::wide(), value.val(), bus.cycles(), n));
            }
        },
    }
}

/// The 16-bit two's-complement extension of a signed byte.
pub open spec fn sext(b: u8) -> int {
    if b < 0x80 { b as int } else { b + 0xFF00 }
}

/// A relative branch: fetches the offset, and when taken spends a cycle and jumps.
pub fn do_branch<B: Bus>(cpu: &mut Cpu, bus: &mut B, mode: AddressingMode, cond: bool)
    requires
        old(bus).inv(),
        mode == AddressingMode::Relative,
    ensures
        final(bus).inv(),
        final(bus).clock() >= old(bus).clock(),
        final(bus).agenda() == old(bus).agenda(),
        final(bus).cycles() == old(bus).cycles() + imm_reads(*old(cpu), 1, final(bus).cycles(), old(bus).cycles().len() as int) + io_if(cond),
        *final(cpu) == advance(*old(cpu), 1 + if cond { sext(d(final(bus).cycles(), old(bus).cycles().len() as int)) } else { 0 }),
{
    let ghost n = old(bus).cycles().len() as int;
    let offset = cpu.get_operand::<u8, B>(bus, &mode);
    let ghost l1 = bus.cycles();
    if cond {
        bus.add_io_cycles(1);
        let ext: u16 = if offset < 0x80 { offset as u16 } else { offset as u16 + 0xFF00 };
        cpu.program_counter = cpu.program_counter.wrapping_add(ext);
    }
    proof {
        assert(bus.cycles()[n] == l1[n]);
        assert(bus.cycles() =~= old(bus).cycles() + imm_reads(*old(cpu), 1, bus.cycles(), n) + io_if(cond));
    }
}

/// One step of MVN (`increment`) or MVP: moves a byte from X in the source bank to Y in the
/// destination bank, steps X and Y, counts A down, and repeats the instruction until A wraps.
pub fn do_block_move<T: RegSize, B: Bus>(cpu: &mut Cpu, bus: &mut B, increment: bool)
    requires
        old(bus).inv(),
    ensures
        final(bus).inv(),
        final(bus).clock() >= old(bus).clock(),
        final(bus).agenda() == old(bus).agenda(),
        ({
            let l = final(bus).cycles();
            let k = old(bus).cycles().len() as int;
            let c = *old(cpu);
            let m = modulus(T::wide());
            let step = if increment { 1int } else { -1int };
            let acc = (c.accumulator - 1) % 0x1_0000;
            &&& l == old(bus).cycles() + imm_reads(c, 2, l, k) + seq![
                rd(linear(d(l, k + 1), c.index_x), d(l, k + 2)),
                wr(linear(d(l, k), c.index_y), d(l, k + 2)),
                BusCycle::Io(2)]
            &&& *final(cpu) == (Cpu {
                dbr: d(l, k),
                index_x: ((c.index_x as int % m + step) % m) as u16,
                index_y: ((c.index_y as int % m + step) % m) as u16,
                accumulator: acc as u16,
                program_counter: if acc != 0xFFFF { ((c.program_counter + 2 - 3) % 0x1_0000) as u16 } else { ((c.program_counter + 2) % 0x1_0000) as u16 },
                ..c
            })
        }),
{
    let ghost n = old(bus).cycles().len() as int;
    let banks = cpu.get_operand::<u16, B>(bus, &AddressingMode::BlockMove);
    let src_bank = banks.high_byte();
    cpu.dbr = banks.low_byte();
    let src = Address::new(cpu.index_x, src_bank);
    let dst = Address::new(cpu.index_y, cpu.dbr);
    let val = bus.read_and_tick(src);
    bus.write_and_tick(dst, val);
    bus.add_io_cycles(2);
    let one = T::from_u8(1);
    if increment {
        cpu.index_x = T::from_u16(cpu.index_x).wrapping_add(one).as_u16();
        cpu.index_y = T::from_u16(cpu.index_y).wrapping_add(one).as_u16();
    } else {
        cpu.index_x = T::from_u16(cpu.index_x).wrapping_sub(one).as_u16();
        cpu.index_y = T::from_u16(cpu.index_y).wrapping_sub(one).as_u16();
    }
    cpu.accumulator = cpu.accumulator.wrapping_sub(1);
    if cpu.accumulator != 0xFFFF {
        cpu.program_counter = cpu.program_counter.wrapping_sub(3);
    }
    proof {
        let l = bus.cycles();
        assert(l[n] == rd(linear(old(cpu).pbr, old(cpu).program_counter), lo(banks)));
        assert(l =~= old(bus).cycles() + imm_reads(*old(cpu), 2, l, n) + seq![
            rd(linear(d(l, n + 1), old(cpu).index_x), d(l, n + 2)),
            wr(linear(d(l, n), old(cpu).index_y), d(l, n + 2)),
            BusCycle::Io(2)]);
    }
}

/// Index of the first operand byte of a read-modify-write or store in the log.
pub open spec fn rmw_at(mode: AddressingMode, c: Cpu, l: Seq<BusCycle>, k: int) -> int {
    if on_page(mode) { k + page_len(mode, c) } else { k + decode_trace(mode, c, true, l, k).len() }
}

/// The value a read-modify-write operation starts from.
pub open spec fn rmw_in(mode: AddressingMode, c: Cpu, wide: bool, l: Seq<BusCycle>, k: int) -> int {
    if mode == AddressingMode::Accumulator {
        c.accumulator as int % modulus(wide)
    } else {
        data_value(wide, l, rmw_at(mode, c, l, k))
    }
}

/// The bus cycles of a read-modify-write operation: none on the accumulator, else the
/// address computation, the read and the write back.
pub open spec fn rmw_trace(mode: AddressingMode, c: Cpu, wide: bool, op: RmwOp, l: Seq<BusCycle>, k: int) -> Seq<BusCycle> {
    let res = rmw_value(op, c, rmw_in(mode, c, wide, l, k), wide) as u16;
    let j = rmw_at(mode, c, l, k);
    if mode == AddressingMode::Accumulator {
        seq![]
    } else if on_page(mode) {
        let pa = page_addr(mode, c, l, k);
        page_trace(mode, c, l, k) + page_reads(pa, wide, l, j) + page_writes(pa, wide, res)
    } else {
        let a = decode_addr(mode, c, l, k);
        decode_trace(mode, c, true, l, k) + data_reads(a, wide, l, j) + data_writes(a, wide, res)
    }
}

/// The CPU after a read-modify-write operation.
pub open spec fn rmw_cpu(mode: AddressingMode, c: Cpu, wide: bool, op: RmwOp, l: Seq<BusCycle>, k: int) -> Cpu {
    let v = rmw_in(mode, c, wide, l, k);
    if mode == AddressingMode::Accumulator {
        Cpu {
            accumulator: merge(c.accumulator, rmw_value(op, c, v, wide) as u16, wide),
            status: super::cpu::Status(rmw_status(op, c, v, wide)),
            ..c
        }
    } else {
        with_p(advance(c, store_len(mode)), rmw_status(op, c, v, wide))
    }
}

} // verus!
