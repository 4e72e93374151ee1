use vstd::prelude::*;

verus! {

/// The mode 7 matrix registers M7A and M7B, which double as a signed multiplier.
pub struct Mode7 {
    pub matrix_a: i16,
    pub matrix_b: i16,
    pub mode_7_latch: u8,
}

/// The signed 16-bit value of a high and a low byte.
pub open spec fn signed_word(high: u8, low: u8) -> i16 {
    (high * 256 + low) as i16
}

impl Mode7 {
    /// M7A times the low byte of M7B.
    pub open spec fn product(&self) -> i32 {
        (self.matrix_a as int * (self.matrix_b as int % 256)) as i32
    }

    pub fn new() -> (r: Self)
        ensures
            r.matrix_a == 0 && r.matrix_b == 0 && r.mode_7_latch == 0,
    {
        Self { matrix_a: 0, matrix_b: 0, mode_7_latch: 0 }
    }

    /// M7A: the written byte is the high byte, the previously written one the low byte.
    pub fn set_mode_7_matrix_a(&mut self, data: u8)
        ensures
            final(self).matrix_a == signed_word(data, old(self).mode_7_latch),
            final(self).matrix_b == old(self).matrix_b,
            final(self).mode_7_latch == data,
    {
        self.matrix_a = ((data as u16) * 256 + self.mode_7_latch as u16) as i16;
        self.mode_7_latch = data;
    }

    /// M7B, as M7A.
    pub fn set_mode_7_matrix_b(&mut self, data: u8)
        ensures
            final(self).matrix_b == signed_word(data, old(self).mode_7_latch),
            final(self).matrix_a == old(self).matrix_a,
            final(self).mode_7_latch == data,
    {
        self.matrix_b = ((data as u16) * 256 + self.mode_7_latch as u16) as i16;
        self.mode_7_latch = data;
    }

    /// MPY ($2134-$2136): M7A times the low byte of M7B.
    pub fn do_multiplication(&self) -> (r: i32)
        ensures
            r == self.matrix_a as int * (self.matrix_b as int % 256),
    {
        let low = ((self.matrix_b as i32 + 0x1_0000) % 256) as i32;
        assert(low == self.matrix_b as int % 256);
        assert(-32768 * 255 <= self.matrix_a as int * low <= 32767 * 255) by (nonlinear_arith)
            requires
                -32768 <= self.matrix_a <= 32767,
                0 <= low <= 255,
        ;
        self.matrix_a as i32 * low
    }
}

} // verus!
