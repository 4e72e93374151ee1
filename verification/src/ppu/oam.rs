use vstd::prelude::*;

use crate::utils::int_traits::{hi, lemma_bytes_word, lemma_word_bytes, lo, word, ManipulateU16};

verus! {

/// OBSEL ($2101).
#[derive(Clone, Copy)]
pub struct Objsel(pub u8);

impl Objsel {
    /// Bits 0-2.
    #[verifier::allow_in_spec]
    pub fn name_base_addr(&self) -> u8
        returns
            self.0 % 8,
    {
        self.0 % 8
    }

    /// Bits 3-4.
    #[verifier::allow_in_spec]
    pub fn name_select(&self) -> u8
        returns
            (self.0 / 8) % 4,
    {
        (self.0 / 8) % 4
    }

    /// Bits 5-7.
    #[verifier::allow_in_spec]
    pub fn object_size(&self) -> u8
        returns
            self.0 / 32,
    {
        self.0 / 32
    }
}

/// Sprite attribute memory: 512 bytes of low table and 32 of high table.
pub struct Oam {
    pub ram: [u8; 0x220],
    pub objsel: Objsel,
    pub oa_addr: u16,
    pub internal_addr: u16,
    pub latch: u8,
}

/// The byte address OAMADD selects: word address (9 bits) times two.
pub open spec fn internal_from(oa_addr: u16) -> u16 {
    ((oa_addr % 512) * 2) as u16
}

/// What the OAM port holds: the table, the word address, the byte address and the latch.
#[verifier::ext_equal]
pub struct OamPort {
    pub ram: Seq<u8>,
    pub oa_addr: u16,
    pub internal_addr: u16,
    pub latch: u8,
}

impl OamPort {
    /// After OAMADDL.
    pub open spec fn addr_low_set(self, data: u8) -> OamPort {
        let a = word(data, hi(self.oa_addr));
        OamPort { oa_addr: a, internal_addr: internal_from(a), ..self }
    }

    /// After OAMADDH.
    pub open spec fn addr_high_set(self, data: u8) -> OamPort {
        let a = word(lo(self.oa_addr), data);
        OamPort { oa_addr: a, internal_addr: internal_from(a), ..self }
    }

    /// After an OAMDATA write; past the end of the table it is ignored.
    pub open spec fn written(self, data: u8) -> OamPort {
        let a = self.internal_addr as int;
        if a >= 0x220 {
            self
        } else {
            OamPort {
                latch: if a % 2 == 0 { data } else { self.latch },
                ram: if a >= 0x200 {
                    self.ram.update(a, data)
                } else if a % 2 == 1 {
                    self.ram.update(a - 1, self.latch).update(a, data)
                } else {
                    self.ram
                },
                internal_addr: (a + 1) as u16,
                ..self
            }
        }
    }

    /// An OAMDATAREAD, with `mdr` on the open bus: the byte read and the port after it. Past
    /// the end of the table the open bus answers.
    pub open spec fn read(self, mdr: u8) -> (u8, OamPort) {
        let a = self.internal_addr as int;
        if a >= 0x220 {
            (mdr, self)
        } else {
            (self.ram[a], OamPort { internal_addr: (a + 1) as u16, ..self })
        }
    }
}

/// Two bytes written to OAM from a word address are read back, once the address is set to it
/// again: the low table takes them as one word, the high table byte by byte.
pub proof fn lemma_oam_write_read(p: OamPort, w: u16, b0: u8, b1: u8, mdr: u8)
    requires
        p.ram.len() == 0x220,
        internal_from(w) + 1 < 0x220,
    ensures
        ({
            let q = p.addr_low_set(lo(w)).addr_high_set(hi(w)).written(b0).written(b1)
                .addr_low_set(lo(w)).addr_high_set(hi(w));
            let (r0, q1) = q.read(mdr);
            let (r1, q2) = q1.read(r0);
            r0 == b0 && r1 == b1
        }),
{
    lemma_bytes_word(w);
    let q0 = p.addr_low_set(lo(w));
    lemma_word_bytes(lo(w), hi(p.oa_addr));
    let q1 = q0.addr_high_set(hi(w));
    assert(q1.oa_addr == w);
    let q3 = q1.written(b0).written(b1);
    lemma_word_bytes(lo(w), hi(q3.oa_addr));
    let q4 = q3.addr_low_set(lo(w));
    assert(q4.oa_addr == word(lo(w), hi(q3.oa_addr)));
    assert(q4.addr_high_set(hi(w)).oa_addr == w);
}

impl Oam {
    /// The OAM port.
    pub open spec fn port(self) -> OamPort {
        OamPort { ram: self.ram@, oa_addr: self.oa_addr, internal_addr: self.internal_addr, latch: self.latch }
    }

    pub fn new() -> (r: Self)
        ensures
            r.objsel.0 == 0 && r.oa_addr == 0 && r.internal_addr == 0 && r.latch == 0,
            forall|i: int| 0 <= i < 0x220 ==> r.ram[i] == 0,
    {
        Self { ram: [0; 0x220], objsel: Objsel(0), oa_addr: 0x0000, internal_addr: 0x0000, latch: 0x00 }
    }

    /// OAMADDL.
    pub fn oa_addl(&mut self, data: u8)
        ensures
            final(self).oa_addr == word(data, hi(old(self).oa_addr)),
            final(self).internal_addr == internal_from(final(self).oa_addr),
            final(self).ram == old(self).ram && final(self).latch == old(self).latch && final(self).objsel == old(self).objsel,
            final(self).port() == old(self).port().addr_low_set(data),
    {
        self.oa_addr.set_low_byte(data);
        self.internal_addr = (self.oa_addr % 512) * 2;
    }

    /// OAMADDH.
    pub fn oa_addh(&mut self, data: u8)
        ensures
            final(self).oa_addr == word(lo(old(self).oa_addr), data),
            final(self).internal_addr == internal_from(final(self).oa_addr),
            final(self).ram == old(self).ram && final(self).latch == old(self).latch && final(self).objsel == old(self).objsel,
            final(self).port() == old(self).port().addr_high_set(data),
    {
        self.oa_addr.set_high_byte(data);
        self.internal_addr = (self.oa_addr % 512) * 2;
    }

    /// OAMDATA write: the low table is written a word at a time (the even byte is latched),
    /// the high table a byte at a time.
    pub fn oa_addr_write(&mut self, data: u8)
        requires
            old(self).internal_addr < 0x220,
        ensures
            ({
                let a = old(self).internal_addr as int;
                &&& final(self).latch == if a % 2 == 0 { data } else { old(self).latch }
                &&& final(self).ram@ == if a >= 0x200 {
                    old(self).ram@.update(a, data)
                } else if a % 2 == 1 {
                    old(self).ram@.update(a - 1, old(self).latch).update(a, data)
                } else {
                    old(self).ram@
                }
                &&& final(self).internal_addr == a + 1
            }),
            final(self).oa_addr == old(self).oa_addr && final(self).objsel == old(self).objsel,
            final(self).port() == old(self).port().written(data),
    {
        if self.internal_addr % 2 == 0 {
            self.latch = data;
        }
        if self.internal_addr < 0x200 && self.internal_addr % 2 == 1 {
            self.ram[(self.internal_addr - 1) as usize] = self.latch;
            self.ram[self.internal_addr as usize] = data;
        }
        if self.internal_addr >= 0x200 {
            self.ram[self.internal_addr as usize] = data;
        }
        self.internal_addr = self.internal_addr + 1;
    }

    /// OAMDATAREAD.
    pub fn oa_addr_read(&mut self) -> (r: u8)
        requires
            old(self).internal_addr < 0x220,
        ensures
            r == old(self).ram[old(self).internal_addr as int],
            final(self).internal_addr == old(self).internal_addr + 1,
            final(self).ram == old(self).ram && final(self).latch == old(self).latch,
            final(self).oa_addr == old(self).oa_addr && final(self).objsel == old(self).objsel,
            (r, final(self).port()) == old(self).port().read(0),
    {
        let result = self.ram[self.internal_addr as usize];
        self.internal_addr = self.internal_addr + 1;
        result
    }
}

} // verus!
