use vstd::prelude::*;

verus! {

/// Whether the bit of value `m` (a power of two) is set in `x`.
pub open spec fn bit(x: u8, m: int) -> bool {
    (x as int / m) % 2 == 1
}

/// `x` with the bit of value `m` (a power of two) set to `v`.
pub open spec fn with_bit(x: u8, m: int, v: bool) -> u8 {
    if bit(x, m) == v {
        x
    } else if v {
        (x + m) as u8
    } else {
        (x - m) as u8
    }
}

/// One of the eight powers of two below 256.
pub open spec fn is_bit_mask(m: int) -> bool {
    m == 1 || m == 2 || m == 4 || m == 8 || m == 16 || m == 32 || m == 64 || m == 128
}

/// Sets or clears one bit of a byte.
pub fn set_bit(x: u8, m: u8, v: bool) -> (r: u8)
    requires
        is_bit_mask(m as int),
    ensures
        r == with_bit(x, m as int, v),
{
    let set = (x / m) % 2 == 1;
    if set == v {
        x
    } else if v {
        assert(x as int + m < 256) by (nonlinear_arith)
            requires
                is_bit_mask(m as int),
                (x as int / m as int) % 2 == 0,
                x < 256,
        ;
        x + m
    } else {
        assert(x >= m) by (nonlinear_arith)
            requires
                is_bit_mask(m as int),
                (x as int / m as int) % 2 == 1,
        ;
        x - m
    }
}

/// Setting a bit sets it and leaves the other bits alone.
pub proof fn lemma_with_bit(x: u8, m: int, v: bool, n: int)
    requires
        is_bit_mask(m),
        is_bit_mask(n),
    ensures
        bit(with_bit(x, m, v), n) == if n == m { v } else { bit(x, n) },
{
    assert(bit(with_bit(x, m, v), n) == if n == m { v } else { bit(x, n) }) by (nonlinear_arith)
        requires
            is_bit_mask(m),
            is_bit_mask(n),
            0 <= x < 256,
    {
    }
}

/// Masking never gives more than the mask.
pub proof fn lemma_and_le(x: usize, m: usize)
    ensures
        x & m <= m,
{
    assert(x & m <= m) by (bit_vector);
}

} // verus!
