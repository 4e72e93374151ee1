use vstd::prelude::*;

use crate::utils::int_traits::{hi, lo, word, ManipulateU16};

verus! {

/// The CPU's multiply and divide unit ($4202-$4206 in, $4214-$4217 out).
/// In hardware multiplication takes 8 cycles and division 16; here results are immediate.
pub struct Math {
    pub factor_a: u8,
    pub factor_b: u8,
    pub dividend: u16,
    pub divisor: u8,
    pub quotient: u16,
    pub result_or_remainder: u16,
}

impl Math {
    pub fn new() -> (r: Self)
        ensures
            r.factor_a == 0xFF && r.factor_b == 0,
            r.dividend == 0xFFFF && r.divisor == 0,
            r.quotient == 0 && r.result_or_remainder == 0,
    {
        Math {
            factor_a: 0xFF,
            factor_b: 0,
            dividend: 0xFFFF,
            divisor: 0,
            quotient: 0,
            result_or_remainder: 0,
        }
    }

    /// Multiplies the two factors into RDMPY.
    pub fn do_multiplication(&mut self)
        ensures
            final(self).result_or_remainder == old(self).factor_a * old(self).factor_b,
            final(self).factor_a == old(self).factor_a && final(self).factor_b == old(self).factor_b,
            final(self).dividend == old(self).dividend && final(self).divisor == old(self).divisor,
            final(self).quotient == old(self).quotient,
    {
        assert(self.factor_a * self.factor_b <= 255 * 255) by (nonlinear_arith)
            requires
                self.factor_a <= 255,
                self.factor_b <= 255,
        ;
        self.result_or_remainder = self.factor_a as u16 * self.factor_b as u16;
    }

    /// Divides the dividend by the divisor: quotient * divisor + remainder == dividend with the
    /// remainder below the divisor. Division by zero gives a quotient of $FFFF and the dividend
    /// as remainder.
    pub fn do_division(&mut self)
        ensures
            old(self).divisor == 0 ==> final(self).quotient == 0xFFFF && final(self).result_or_remainder == old(self).dividend,
            old(self).divisor != 0 ==> final(self).quotient == old(self).dividend / (old(self).divisor as u16)
                && final(self).result_or_remainder == old(self).dividend % (old(self).divisor as u16),
            old(self).divisor != 0 ==> final(self).quotient * old(self).divisor + final(self).result_or_remainder == old(self).dividend
                && final(self).result_or_remainder < old(self).divisor,
            final(self).factor_a == old(self).factor_a && final(self).factor_b == old(self).factor_b,
            final(self).dividend == old(self).dividend && final(self).divisor == old(self).divisor,
    {
        if self.divisor == 0 {
            self.quotient = 0xFFFF;
            self.result_or_remainder = self.dividend;
        } else {
            self.quotient = self.dividend / self.divisor as u16;
            self.result_or_remainder = self.dividend % self.divisor as u16;
            proof {
                let dd = self.dividend as int;
                let bb = self.divisor as int;
                assert(dd / bb * bb + dd % bb == dd && 0 <= dd % bb < bb) by (nonlinear_arith)
                    requires
                        bb > 0,
                        dd >= 0,
                ;
            }
        }
    }

    /// Reads RDDIV ($4214/$4215) and RDMPY ($4216/$4217); other addresses are open.
    /// The byte RDDIVL/RDDIVH/RDMPYL/RDMPYH ($4214-$4217) answer.
    pub open spec fn read_spec(&self, addr: u16) -> Option<u8> {
        match addr {
            0x4214 => Some(lo(self.quotient)),
            0x4215 => Some(hi(self.quotient)),
            0x4216 => Some(lo(self.result_or_remainder)),
            0x4217 => Some(hi(self.result_or_remainder)),
            _ => None::<u8>,
        }
    }

    pub fn read(&mut self, addr: u16) -> (r: Option<u8>)
        ensures
            r == old(self).read_spec(addr),
            *final(self) == *old(self),
    {
        match addr {
            0x4214 => Some(self.quotient.low_byte()),
            0x4215 => Some(self.quotient.high_byte()),
            0x4216 => Some(self.result_or_remainder.low_byte()),
            0x4217 => Some(self.result_or_remainder.high_byte()),
            _ => None,
        }
    }

    /// The unit after a write of `data` to one of its registers ($4202-$4206).
    pub open spec fn written(self, addr: u16, data: u8) -> Math {
        match addr {
            0x4202 => Math { factor_a: data, ..self },
            0x4203 => Math {
                factor_b: data,
                result_or_remainder: (self.factor_a * data) as u16,
                ..self
            },
            0x4204 => Math { dividend: word(data, hi(self.dividend)), ..self },
            0x4205 => Math { dividend: word(lo(self.dividend), data), ..self },
            _ => Math {
                divisor: data,
                quotient: if data == 0 { 0xFFFF } else { self.dividend / (data as u16) },
                result_or_remainder: if data == 0 { self.dividend } else { self.dividend % (data as u16) },
                ..self
            },
        }
    }

    /// Writes WRMPYA, WRMPYB (starts a multiplication), WRDIVL, WRDIVH and WRDIVB (starts a division).
    pub fn write(&mut self, addr: u16, data: u8)
        requires
            0x4202 <= addr <= 0x4206,
        ensures
            *final(self) == old(self).written(addr, data),
    {
        match addr {
            0x4202 => self.factor_a = data,
            0x4203 => {
                self.factor_b = data;
                self.do_multiplication();
            },
            0x4204 => self.dividend.set_low_byte(data),
            0x4205 => self.dividend.set_high_byte(data),
            _ => {
                self.divisor = data;
                self.do_division();
            },
        }
    }
}

/// The 16-bit value that the two result registers at `addr` and `addr + 1` read.
pub open spec fn read_word(m: Math, addr: u16) -> int {
    m.read_spec(addr).unwrap() + 256 * m.read_spec((addr + 1) as u16).unwrap()
}

/// Writing WRMPYB starts a multiplication: RDMPY then reads the product of the two factors.
pub proof fn lemma_multiplication_reads(m: Math, b: u8)
    ensures
        read_word(m.written(0x4203, b), 0x4216) == m.factor_a * b,
{
    assert(m.factor_a * b <= 255 * 255) by (nonlinear_arith)
        requires
            m.factor_a <= 255,
            b <= 255,
    ;
}

/// Writing WRDIVB starts a division: with a non-zero divisor RDDIV and RDMPY read a quotient
/// and remainder with quotient * divisor + remainder == dividend and remainder < divisor;
/// with a zero divisor they read $FFFF and the dividend.
pub proof fn lemma_division_reads(m: Math, b: u8)
    ensures
        ({
            let m2 = m.written(0x4206, b);
            let q = read_word(m2, 0x4214);
            let r = read_word(m2, 0x4216);
            &&& b != 0 ==> q * b + r == m.dividend && 0 <= r < b
            &&& b == 0 ==> q == 0xFFFF && r == m.dividend
        }),
{
    let m2 = m.written(0x4206, b);
    if b != 0 {
        let dd = m.dividend as int;
        let bb = b as int;
        assert(dd / bb * bb + dd % bb == dd && 0 <= dd % bb < bb) by (nonlinear_arith)
            requires
                bb > 0,
                dd >= 0,
        ;
        assert(m2.quotient == dd / bb && m2.result_or_remainder == dd % bb);
    }
}

} // verus!
