use vstd::prelude::*;

verus! {

/// Number of values of a register of the given width.
pub open spec fn modulus(wide: bool) -> int {
    if wide { 0x1_0000 } else { 0x100 }
}

/// Value of the sign (most significant) bit of a register of the given width.
pub open spec fn sign_bit(wide: bool) -> int {
    if wide { 0x8000 } else { 0x80 }
}

/// A register operand: 8 or 16 bits wide, as the M and X flags select.
pub trait RegSize: Copy + Sized {
    /// Whether the register is 16 bits wide.
    spec fn wide() -> bool;

    /// The numeric value, as a 16-bit word.
    spec fn val(self) -> u16;

    proof fn lemma_bounded(self)
        ensures
            self.val() < modulus(Self::wide()),
    ;

    fn is_u16() -> (b: bool)
        ensures
            b == Self::wide(),
    ;

    fn from_u16(value: u16) -> (r: Self)
        ensures
            r.val() == (value as int) % modulus(Self::wide()),
    ;

    fn from_u8(value: u8) -> (r: Self)
        ensures
            r.val() == value,
    ;

    fn as_u16(self) -> (r: u16)
        ensures
            r == self.val(),
    ;

    fn as_u8(self) -> (r: u8)
        ensures
            r == self.val() % 0x100,
    ;

    fn is_zero(self) -> (b: bool)
        ensures
            b == (self.val() == 0),
    ;

    fn is_negative(self) -> (b: bool)
        ensures
            b == (self.val() >= sign_bit(Self::wide())),
    ;

    /// The bit below the sign bit (bit 6 or bit 14).
    fn is_overflow(self) -> (b: bool)
        ensures
            b == ((self.val() as int / (sign_bit(Self::wide()) / 2)) % 2 == 1),
    ;

    fn wrapping_add(self, other: Self) -> (r: Self)
        ensures
            r.val() == (self.val() + other.val()) % modulus(Self::wide()),
    ;

    fn wrapping_sub(self, other: Self) -> (r: Self)
        ensures
            r.val() == (self.val() - other.val()) % modulus(Self::wide()),
    ;

    /// The bitwise complement.
    fn complement(self) -> (r: Self)
        ensures
            r.val() == modulus(Self::wide()) - 1 - self.val(),
    ;
}

impl RegSize for u8 {
    open spec fn wide() -> bool {
        false
    }

    open spec fn val(self) -> u16 {
        self as u16
    }

    proof fn lemma_bounded(self) {
    }

    fn is_u16() -> (b: bool) {
        false
    }

    fn from_u16(value: u16) -> (r: Self) {
        (value % 0x100) as u8
    }

    fn from_u8(value: u8) -> (r: Self) {
        value
    }

    fn as_u16(self) -> (r: u16) {
        self as u16
    }

    fn as_u8(self) -> (r: u8) {
        self
    }

    fn is_zero(self) -> (b: bool) {
        self == 0
    }

    fn is_negative(self) -> (b: bool) {
        self >= 0x80
    }

    fn is_overflow(self) -> (b: bool) {
        (self / 0x40) % 2 == 1
    }

    fn wrapping_add(self, other: Self) -> (r: Self) {
        ((self as u16 + other as u16) % 0x100) as u8
    }

    fn wrapping_sub(self, other: Self) -> (r: Self) {
        ((self as u16 + 0x100 - other as u16) % 0x100) as u8
    }

    fn complement(self) -> (r: Self) {
        0xFF - self
    }
}

impl RegSize for u16 {
    open spec fn wide() -> bool {
        true
    }

    open spec fn val(self) -> u16 {
        self
    }

    proof fn lemma_bounded(self) {
    }

    fn is_u16() -> (b: bool) {
        true
    }

    fn from_u16(value: u16) -> (r: Self) {
        value
    }

    fn from_u8(value: u8) -> (r: Self) {
        value as u16
    }

    fn as_u16(self) -> (r: u16) {
        self
    }

    fn as_u8(self) -> (r: u8) {
        (self % 0x100) as u8
    }

    fn is_zero(self) -> (b: bool) {
        self == 0
    }

    fn is_negative(self) -> (b: bool) {
        self >= 0x8000
    }

    fn is_overflow(self) -> (b: bool) {
        (self / 0x4000) % 2 == 1
    }

    fn wrapping_add(self, other: Self) -> (r: Self) {
        ((self as u32 + other as u32) % 0x1_0000) as u16
    }

    fn wrapping_sub(self, other: Self) -> (r: Self) {
        ((self as u32 + 0x1_0000 - other as u32) % 0x1_0000) as u16
    }

    fn complement(self) -> (r: Self) {
        0xFFFF - self
    }
}

} // verus!
