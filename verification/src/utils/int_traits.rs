use vstd::prelude::*;

verus! {

/// The low byte of a 16-bit word.
pub open spec fn lo(v: u16) -> u8 {
    (v % 256) as u8
}

/// The high byte of a 16-bit word.
pub open spec fn hi(v: u16) -> u8 {
    (v / 256) as u8
}

/// The 16-bit word made of a low and a high byte.
pub open spec fn word(low: u8, high: u8) -> u16 {
    (low + 256 * high) as u16
}

/// Byte access on 16-bit registers.
pub trait ManipulateU16: Sized {
    spec fn as_word(&self) -> u16;

    fn low_byte(self) -> (r: u8)
        ensures
            r == lo(self.as_word()),
    ;

    fn high_byte(self) -> (r: u8)
        ensures
            r == hi(self.as_word()),
    ;

    fn set_low_byte(&mut self, low: u8)
        ensures
            final(self).as_word() == word(low, hi(old(self).as_word())),
    ;

    fn set_high_byte(&mut self, high: u8)
        ensures
            final(self).as_word() == word(lo(old(self).as_word()), high),
    ;
}

impl ManipulateU16 for u16 {
    open spec fn as_word(&self) -> u16 {
        *self
    }

    fn low_byte(self) -> (r: u8) {
        (self % 256) as u8
    }

    fn high_byte(self) -> (r: u8) {
        (self / 256) as u8
    }

    fn set_low_byte(&mut self, low: u8) {
        *self = (*self / 256) * 256 + low as u16;
    }

    fn set_high_byte(&mut self, high: u8) {
        *self = (*self % 256) + (high as u16) * 256;
    }
}

/// Reading back a byte of a word gives the byte that built it.
pub proof fn lemma_word_bytes(low: u8, high: u8)
    ensures
        lo(word(low, high)) == low,
        hi(word(low, high)) == high,
{
}

/// A word is rebuilt from its two bytes.
pub proof fn lemma_bytes_word(v: u16)
    ensures
        word(lo(v), hi(v)) == v,
{
}

} // verus!
