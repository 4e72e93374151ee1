use vstd::prelude::*;

use super::functions::{cv, dec_adc16_spec, dec_adc8_spec, dec_digit_step, dec_sbc16_spec, dec_sbc8_spec};

verus! {

// Decimal mode: the chip's digit-by-digit adder, read on BCD input, is BCD arithmetic.

/// Whether every 4-bit digit of an 8-bit value is a decimal digit.
pub open spec fn is_bcd8(x: int) -> bool {
    0 <= x < 0x100 && x % 16 <= 9 && x / 16 <= 9
}

/// The number an 8-bit BCD value stands for.
pub open spec fn bcd8_value(x: int) -> int {
    (x / 16) * 10 + x % 16
}

/// The 8-bit BCD encoding of a number below 100.
pub open spec fn bcd8_encode(n: int) -> int {
    (n / 10) * 16 + n % 10
}

/// In decimal mode, adding two 8-bit BCD numbers gives their BCD sum modulo 100,
/// with carry set exactly when the sum reaches 100.
#[verifier::rlimit(100)]
#[verifier::spinoff_prover]
pub proof fn lemma_dec_adc8_is_bcd_addition(a: int, b: int, c: bool)
    requires
        is_bcd8(a),
        is_bcd8(b),
    ensures
        ({
            let s = bcd8_value(a) + bcd8_value(b) + cv(c);
            let out = dec_adc8_spec(a, b, c);
            out.0 == bcd8_encode(s % 100) && out.1 == (s >= 100)
        }),
{
    let a1 = a / 16;
    let a0 = a % 16;
    let b1 = b / 16;
    let b0 = b % 16;
    assert(a / 16 % 16 == a1);
    assert(b / 16 % 16 == b1);
    let r0 = a0 + b0 + cv(c);
    assert(0 <= r0 <= 19);
    let k = if r0 > 9 { 1int } else { 0 };
    let low = r0 - 10 * k;
    let r1 = if r0 > 9 { r0 + 6 } else { r0 };
    assert(r1 % 16 == low);
    assert((r1 > 15) == (k == 1));
    let t = a1 + b1 + k;
    let r2 = dec_digit_step(a, b, r1, 16);
    assert(r2 == 16 * t + low);
    assert((r2 > 0x9F) == (t > 9));
    let s = bcd8_value(a) + bcd8_value(b) + cv(c);
    assert(s == 10 * t + low);
    let out = dec_adc8_spec(a, b, c);
    if t > 9 {
        assert(s % 100 == 10 * (t - 10) + low);
        assert((r2 + 0x60) % 0x100 == 16 * (t - 10) + low);
        assert(out.0 == 16 * (t - 10) + low);
    } else {
        assert(s % 100 == 10 * t + low);
        assert(out.0 == 16 * t + low);
    }
}

/// In decimal mode, subtracting an 8-bit BCD number (passed complemented, as SBC does)
/// gives the BCD difference modulo 100, with carry set exactly when no borrow occurred.
#[verifier::rlimit(100)]
#[verifier::spinoff_prover]
pub proof fn lemma_dec_sbc8_is_bcd_subtraction(a: int, b: int, c: bool)
    requires
        is_bcd8(a),
        is_bcd8(b),
    ensures
        ({
            let d = bcd8_value(a) - bcd8_value(b) - 1 + cv(c);
            let out = dec_sbc8_spec(a, 0xFF - b, c);
            out.0 == bcd8_encode(d % 100) && out.1 == (d >= 0)
        }),
{
    let nb = 0xFF - b;
    let a1 = a / 16;
    let a0 = a % 16;
    let b1 = b / 16;
    let b0 = b % 16;
    assert(nb % 16 == 15 - b0);
    assert(nb / 16 % 16 == 15 - b1);
    assert(a / 16 % 16 == a1);
    let r0 = a0 + (15 - b0) + cv(c);
    assert(r0 >= 6);
    let k = if r0 <= 0xF { 0int } else { 1 };
    let lowd = if r0 <= 0xF { r0 - 6 } else { r0 - 16 };
    let r1 = if r0 <= 0xF { r0 - 6 } else { r0 };
    assert(r1 % 16 == lowd);
    assert((r1 > 15) == (k == 1));
    let t = a1 + (15 - b1) + k;
    assert(dec_digit_step(a, nb, r1, 16) == 16 * t + lowd);
    let d = bcd8_value(a) - bcd8_value(b) - 1 + cv(c);
    assert(d == 10 * (t - 16) + lowd);
    if t >= 16 {
        assert(d % 100 == d);
        assert((16 * t + lowd) % 0x100 == 16 * (t - 16) + lowd);
    } else {
        assert(d % 100 == 10 * (t - 6) + lowd);
        assert((16 * t + lowd - 0x60) % 0x100 == 16 * (t - 6) + lowd);
    }
}

/// Whether both bytes of a 16-bit value are BCD.
pub open spec fn is_bcd16(x: int) -> bool {
    0 <= x < 0x1_0000 && is_bcd8(x / 0x100) && is_bcd8(x % 0x100)
}

/// The number a 16-bit BCD value stands for: the high byte holds the hundreds.
pub open spec fn bcd16_value(x: int) -> int {
    100 * bcd8_value(x / 0x100) + bcd8_value(x % 0x100)
}

/// The 16-bit BCD encoding of a number below 10000.
pub open spec fn bcd16_encode(n: int) -> int {
    0x100 * bcd8_encode(n / 100) + bcd8_encode(n % 100)
}

/// The digits of a 16-bit value seen through its two bytes.
proof fn lemma_byte_digits(a: int)
    requires
        0 <= a < 0x1_0000,
    ensures
        a % 16 == a % 0x100 % 16,
        a / 16 % 16 == a % 0x100 / 16 % 16,
        a / 0x1000 % 16 == a / 0x100 / 16 % 16,
        (a >= 0x8000) == (a / 0x100 >= 0x80),
{
}

/// The second digit of a 16-bit add only sees the low bytes.
proof fn lemma_step_low(a: int, b: int, r: int)
    requires
        0 <= a < 0x1_0000,
        0 <= b < 0x1_0000,
    ensures
        dec_digit_step(a, b, r, 16) == dec_digit_step(a % 0x100, b % 0x100, r, 16),
{
    lemma_byte_digits(a);
    lemma_byte_digits(b);
}

/// The fourth digit of a 16-bit add is the second digit of the high bytes, shifted by a byte.
proof fn lemma_step_high(a: int, b: int, h: int, x: int)
    requires
        0 <= a < 0x1_0000,
        0 <= b < 0x1_0000,
        0 <= x < 0x100,
    ensures
        dec_digit_step(a, b, 0x100 * h + x, 0x1000) == 0x100 * dec_digit_step(a / 0x100, b / 0x100, h, 16) + x,
{
    lemma_byte_digits(a);
    lemma_byte_digits(b);
    assert((0x100 * h + x) % 0x1000 == 0x100 * (h % 16) + x);
}

/// A value with `x` as its low byte.
proof fn lemma_low_byte(h: int, x: int)
    requires
        0 <= x < 0x100,
    ensures
        (0x100 * h + x) % 0x100 == x,
        (0x100 * h + x) / 0x8000 == h / 0x80,
        (0x100 * h + x) % 0x1_0000 == 0x100 * (h % 0x100) + x,
{
}

/// The chip's 16-bit decimal add is two 8-bit decimal adds chained through the carry:
/// the low bytes first, then the high bytes (the overflow flag comes from the high bytes).
#[verifier::spinoff_prover]
pub proof fn lemma_dec_adc16_chains_bytes(a: int, b: int, c: bool)
    requires
        0 <= a < 0x1_0000,
        0 <= b < 0x1_0000,
    ensures
        ({
            let low = dec_adc8_spec(a % 0x100, b % 0x100, c);
            let high = dec_adc8_spec(a / 0x100, b / 0x100, low.1);
            dec_adc16_spec(a, b, c) == (0x100 * high.0 + low.0, high.1, high.2)
        }),
{
    lemma_byte_digits(a);
    lemma_byte_digits(b);
    let r0 = a % 16 + b % 16 + cv(c);
    let r1 = if r0 > 9 { r0 + 6 } else { r0 };
    lemma_step_low(a, b, r1);
    let r2 = dec_digit_step(a, b, r1, 16);
    let r3 = if r2 > 0x9F { r2 + 0x60 } else { r2 };
    let x = r3 % 0x100;
    let h0 = a / 0x100 % 16 + b / 0x100 % 16 + (if r3 >= 0x100 { 1int } else { 0 });
    let r4 = dec_digit_step(a, b, r3, 0x100);
    assert(r4 == 0x100 * h0 + x);
    let h1 = if h0 > 9 { h0 + 6 } else { h0 };
    let r5 = if r4 > 0x9FF { r4 + 0x600 } else { r4 };
    assert(r5 == 0x100 * h1 + x);
    lemma_step_high(a, b, h1, x);
    let h2 = dec_digit_step(a / 0x100, b / 0x100, h1, 16);
    let r6 = dec_digit_step(a, b, r5, 0x1000);
    lemma_low_byte(h2, x);
    let h3 = if h2 > 0x9F { h2 + 0x60 } else { h2 };
    let r7 = if r6 > 0x9FFF { r6 + 0x6000 } else { r6 };
    assert(r7 == 0x100 * h3 + x);
    lemma_low_byte(h3, x);
}

/// The chip's 16-bit decimal subtract (complemented operand) is two 8-bit decimal
/// subtracts chained through the carry, low bytes first.
#[verifier::spinoff_prover]
pub proof fn lemma_dec_sbc16_chains_bytes(a: int, b: int, c: bool)
    requires
        0 <= a < 0x1_0000,
        0 <= b < 0x1_0000,
    ensures
        ({
            let low = dec_sbc8_spec(a % 0x100, b % 0x100, c);
            let high = dec_sbc8_spec(a / 0x100, b / 0x100, low.1);
            dec_sbc16_spec(a, b, c) == (0x100 * high.0 + low.0, high.1, high.2)
        }),
{
    lemma_byte_digits(a);
    lemma_byte_digits(b);
    let r0 = a % 16 + b % 16 + cv(c);
    let r1 = if r0 <= 0xF { r0 - 6 } else { r0 };
    lemma_step_low(a, b, r1);
    let r2 = dec_digit_step(a, b, r1, 16);
    let r3 = if r2 <= 0xFF { r2 - 0x60 } else { r2 };
    let x = r3 % 0x100;
    let h0 = a / 0x100 % 16 + b / 0x100 % 16 + (if r3 > 0xFF { 1int } else { 0 });
    let r4 = dec_digit_step(a, b, r3, 0x100);
    assert(r4 == 0x100 * h0 + x);
    let h1 = if h0 <= 0xF { h0 - 6 } else { h0 };
    let r5 = if r4 <= 0xFFF { r4 - 0x600 } else { r4 };
    assert(r5 == 0x100 * h1 + x);
    lemma_step_high(a, b, h1, x);
    let h2 = dec_digit_step(a / 0x100, b / 0x100, h1, 16);
    let r6 = dec_digit_step(a, b, r5, 0x1000);
    lemma_low_byte(h2, x);
    let h3 = if h2 <= 0xFF { h2 - 0x60 } else { h2 };
    let r7 = if r6 <= 0xFFFF { r6 - 0x6000 } else { r6 };
    assert(r7 == 0x100 * h3 + x);
    lemma_low_byte(h3, x);
}

/// Arithmetic of a sum in hundreds: `100 * hs + l`, with the carry of `l` moved into the hundreds.
proof fn lemma_hundreds_carry(hs: int, l: int, k: int)
    requires
        0 <= hs <= 198,
        0 <= l < 200,
        k == (if l >= 100 { 1int } else { 0 }),
    ensures
        ({
            let t = 100 * hs + l;
            let h = hs + k;
            &&& t % 10000 == 100 * (h % 100) + l % 100
            &&& (t >= 10000) == (h >= 100)
            &&& bcd16_encode(t % 10000) == 0x100 * bcd8_encode(h % 100) + bcd8_encode(l % 100)
        }),
{
    let t = 100 * hs + l;
    let h = hs + k;
    assert(t == 100 * h + l % 100);
    assert(t % 10000 == 100 * (h % 100) + l % 100);
    assert((t % 10000) / 100 == h % 100 && (t % 10000) % 100 == l % 100);
}

/// Arithmetic of a difference in hundreds: `100 * hs + l`, with the borrow of `l` taken from the hundreds.
proof fn lemma_hundreds_borrow(hs: int, l: int, k: int)
    requires
        -99 <= hs <= 99,
        -100 <= l < 100,
        k == (if l >= 0 { 1int } else { 0 }),
    ensures
        ({
            let t = 100 * hs + l;
            let h = hs - 1 + k;
            &&& t % 10000 == 100 * (h % 100) + l % 100
            &&& (t >= 0) == (h >= 0)
            &&& bcd16_encode(t % 10000) == 0x100 * bcd8_encode(h % 100) + bcd8_encode(l % 100)
        }),
{
    let t = 100 * hs + l;
    let h = hs - 1 + k;
    assert(t == 100 * h + l % 100);
    assert(t % 10000 == 100 * (h % 100) + l % 100);
    assert((t % 10000) / 100 == h % 100 && (t % 10000) % 100 == l % 100);
}

/// In decimal mode, adding two 16-bit BCD numbers gives their BCD sum modulo 10000,
/// with carry set exactly when the sum reaches 10000.
pub proof fn lemma_dec_adc16_is_bcd_addition(a: int, b: int, c: bool)
    requires
        is_bcd16(a),
        is_bcd16(b),
    ensures
        ({
            let s = bcd16_value(a) + bcd16_value(b) + cv(c);
            let out = dec_adc16_spec(a, b, c);
            out.0 == bcd16_encode(s % 10000) && out.1 == (s >= 10000)
        }),
{
    lemma_dec_adc16_chains_bytes(a, b, c);
    let low = dec_adc8_spec(a % 0x100, b % 0x100, c);
    lemma_dec_adc8_is_bcd_addition(a % 0x100, b % 0x100, c);
    lemma_dec_adc8_is_bcd_addition(a / 0x100, b / 0x100, low.1);
    let sl = bcd8_value(a % 0x100) + bcd8_value(b % 0x100) + cv(c);
    let hs = bcd8_value(a / 0x100) + bcd8_value(b / 0x100);
    lemma_hundreds_carry(hs, sl, cv(low.1));
}

/// In decimal mode, subtracting a 16-bit BCD number (passed complemented, as SBC does)
/// gives the BCD difference modulo 10000, with carry set exactly when no borrow occurred.
pub proof fn lemma_dec_sbc16_is_bcd_subtraction(a: int, b: int, c: bool)
    requires
        is_bcd16(a),
        is_bcd16(b),
    ensures
        ({
            let d = bcd16_value(a) - bcd16_value(b) - 1 + cv(c);
            let out = dec_sbc16_spec(a, 0xFFFF - b, c);
            out.0 == bcd16_encode(d % 10000) && out.1 == (d >= 0)
        }),
{
    let nb = 0xFFFF - b;
    assert(nb % 0x100 == 0xFF - b % 0x100 && nb / 0x100 == 0xFF - b / 0x100);
    lemma_dec_sbc16_chains_bytes(a, nb, c);
    let low = dec_sbc8_spec(a % 0x100, nb % 0x100, c);
    lemma_dec_sbc8_is_bcd_subtraction(a % 0x100, b % 0x100, c);
    lemma_dec_sbc8_is_bcd_subtraction(a / 0x100, b / 0x100, low.1);
    let dl = bcd8_value(a % 0x100) - bcd8_value(b % 0x100) - 1 + cv(c);
    let hs = bcd8_value(a / 0x100) - bcd8_value(b / 0x100);
    lemma_hundreds_borrow(hs, dl, cv(low.1));
}

} // verus!
