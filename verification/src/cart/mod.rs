use vstd::prelude::*;
use vstd::arithmetic::power2::{lemma_pow2_unfold, pow2};

pub mod header;
pub mod info;

use crate::utils::bits::lemma_and_le;
use header::Header;
use info::{Mapper, Model};

verus! {

/// The cartridge: its header, ROM image and battery RAM.
pub struct Cart {
    pub header: Header,
    pub model: Model,
    pub rom: Vec<u8>,
    pub ram: Vec<u8>,
    pub rom_mask: usize,
    pub ram_mask: usize,
}

/// `m + 1` is the least 0x8000 * 2^k not below `len`.
pub open spec fn is_rom_mask(len: int, m: int) -> bool {
    exists|k: nat| {
        &&& m + 1 == 0x8000 * pow2(k)
        &&& len <= m + 1
        &&& (k == 0 || 2 * len > m + 1)
    }
}

/// The mirroring mask for a ROM of `len` bytes.
fn rom_mask(len: usize) -> (r: usize)
    requires
        len <= isize::MAX,
    ensures
        is_rom_mask(len as int, r as int),
{
    let mut mask: usize = 0x8000;
    let ghost mut k: nat = 0;
    proof {
        vstd::arithmetic::power2::lemma2_to64();
    }
    while len > mask
        invariant
            len <= isize::MAX,
            mask as int == 0x8000 * pow2(k),
            0x8000 <= mask,
            k == 0 || 2 * len > mask,
        decreases usize::MAX - mask,
    {
        proof {
            lemma_pow2_unfold(k + 1);
        }
        mask = mask * 2;
        proof {
            k = k + 1;
        }
    }
    assert((mask - 1) + 1 == 0x8000 * pow2(k) && len <= (mask - 1) + 1 && (k == 0 || 2 * len > (mask - 1) + 1));
    mask - 1
}

impl Cart {
    /// RAM covers its mask, and the mapper is one that is emulated. The ROM may be of any size:
    /// a read past its end answers nothing (the open bus).
    pub open spec fn wf(&self) -> bool {
        &&& self.header.chipset.has_ram ==> self.ram@.len() > self.ram_mask
        &&& (self.header.mapper == Mapper::LoROM || self.header.mapper == Mapper::HiROM)
    }

    /// Whether the cartridge is well formed: checked before a console is built around it.
    pub fn is_well_formed(&self) -> (r: bool)
        ensures
            r == self.wf(),
    {
        (!self.header.chipset.has_ram || self.ram.len() > self.ram_mask)
            && (self.header.mapper == Mapper::LoROM || self.header.mapper == Mapper::HiROM)
    }

    pub fn new(header: Header, rom: &[u8], ram: Vec<u8>) -> (r: Self)
        requires
            header.ram_size >= 1,
            rom@.len() <= isize::MAX,
        ensures
            is_rom_mask(rom@.len() as int, r.rom_mask as int),
            r.ram_mask == header.ram_size - 1,
            r.model == (if header.country.is_pal() { Model::Pal } else { Model::Ntsc }),
            r.header == header,
            r.rom@ == rom@,
            r.ram == ram,
    {
        let rom_mask = rom_mask(rom.len());
        let ram_mask = (header.ram_size - 1) as usize;
        let model = header.country.to_model();
        Cart { rom_mask, ram_mask, model, header, rom: vstd::slice::slice_to_vec(rom), ram }
    }

    /// The ROM byte at index `i`; nothing past the end of the ROM.
    pub open spec fn rom_byte(&self, i: int) -> Option<u8> {
        if 0 <= i < self.rom@.len() { Some(self.rom@[i]) } else { None }
    }

    /// The byte a LoROM cartridge answers at `bank:addr`, if any.
    pub open spec fn lorom_read_spec(&self, bank: usize, addr: usize) -> Option<u8> {
        if ((0x70 <= bank < 0x7E) || bank >= 0xF0) && (self.rom_mask < 0x20_0000 || addr < 0x8000)
            && self.header.chipset.has_ram {
            Some(self.ram@[((((bank & 0xF) << 15usize) | addr) & self.ram_mask) as int])
        } else if addr >= 0x8000 || (bank & 0x7F) >= 0x40 {
            self.rom_byte(((((bank & 0x7F) << 15usize) | (addr & 0x7FFF)) & self.rom_mask) as int)
        } else {
            None
        }
    }

    /// The byte a HiROM cartridge answers at `bank:addr`, if any.
    pub open spec fn hirom_read_spec(&self, bank: usize, addr: usize) -> Option<u8> {
        let b = bank & 0x7F;
        if b < 0x40 && (0x6000 <= addr < 0x8000) && self.header.chipset.has_ram {
            Some(self.ram@[((((b & 0x3F) << 13usize) | (addr & 0x1FFF)) & self.ram_mask) as int])
        } else if addr >= 0x8000 || b >= 0x40 {
            self.rom_byte(((((b & 0x3F) << 16usize) | addr) & self.rom_mask) as int)
        } else {
            None
        }
    }

    /// The RAM index a LoROM write at `bank:addr` stores to, if any.
    pub open spec fn lorom_write_index(&self, bank: usize, addr: usize) -> Option<int> {
        if ((0x70 <= bank < 0x7E) || bank >= 0xF0) && addr < 0x8000 && self.header.chipset.has_ram {
            Some(((((bank & 0xF) << 15usize) | addr) & self.ram_mask) as int)
        } else {
            None
        }
    }

    /// The RAM index a HiROM write at `bank:addr` stores to, if any.
    pub open spec fn hirom_write_index(&self, bank: usize, addr: usize) -> Option<int> {
        let b = bank & 0x7F;
        if b < 0x40 && (0x6000 <= addr < 0x8000) && self.header.chipset.has_ram {
            Some(((((b & 0x3F) << 13usize) | (addr & 0x1FFF)) & self.ram_mask) as int)
        } else {
            None
        }
    }

    /// The byte the cartridge answers at `bank:addr`, if any.
    pub open spec fn read_spec(&self, bank: usize, addr: usize) -> Option<u8> {
        if self.header.mapper == Mapper::LoROM {
            self.lorom_read_spec(bank, addr)
        } else {
            self.hirom_read_spec(bank, addr)
        }
    }

    /// The RAM index a write at `bank:addr` stores to, if any.
    pub open spec fn write_index(&self, bank: usize, addr: usize) -> Option<int> {
        if self.header.mapper == Mapper::LoROM {
            self.lorom_write_index(bank, addr)
        } else {
            self.hirom_write_index(bank, addr)
        }
    }

    pub fn read(&self, bank: usize, addr: usize) -> (r: Option<u8>)
        requires
            self.wf(),
        ensures
            r == self.read_spec(bank, addr),
    {
        match self.header.mapper {
            Mapper::LoROM => self.read_lorom(bank, addr),
            _ => self.read_hirom(bank, addr),
        }
    }

    pub fn write(&mut self, bank: usize, addr: usize, val: u8)
        requires
            old(self).wf(),
        ensures
            final(self).wf(),
            final(self).ram@ == match old(self).write_index(bank, addr) {
                Some(i) => old(self).ram@.update(i, val),
                None => old(self).ram@,
            },
            final(self).rom == old(self).rom && final(self).header == old(self).header,
            final(self).rom_mask == old(self).rom_mask && final(self).ram_mask == old(self).ram_mask,
            final(self).model == old(self).model,
    {
        match self.header.mapper {
            Mapper::LoROM => self.write_lorom(bank, addr, val),
            _ => self.write_hirom(bank, addr, val),
        }
    }

    pub fn read_lorom(&self, bank: usize, addr: usize) -> (r: Option<u8>)
        requires
            self.wf(),
        ensures
            r == self.lorom_read_spec(bank, addr),
    {
        if ((0x70 <= bank && bank < 0x7E) || bank >= 0xF0) && (self.rom_mask < 0x20_0000 || addr < 0x8000)
            && self.header.chipset.has_ram {
            let idx = (((bank & 0xF) << 15usize) | addr) & self.ram_mask;
            proof { lemma_and_le(((bank & 0xF) << 15usize) | addr, self.ram_mask); }
            return Some(self.ram[idx]);
        }
        let b = bank & 0x7F;
        if addr >= 0x8000 || b >= 0x40 {
            let idx = ((b << 15usize) | (addr & 0x7FFF)) & self.rom_mask;
            if idx < self.rom.len() {
                return Some(self.rom[idx]);
            }
            return None;
        }
        None
    }

    pub fn write_lorom(&mut self, bank: usize, addr: usize, val: u8)
        requires
            old(self).wf(),
        ensures
            final(self).wf(),
            final(self).ram@ == match old(self).lorom_write_index(bank, addr) {
                Some(i) => old(self).ram@.update(i, val),
                None => old(self).ram@,
            },
            final(self).rom == old(self).rom && final(self).header == old(self).header,
            final(self).rom_mask == old(self).rom_mask && final(self).ram_mask == old(self).ram_mask,
            final(self).model == old(self).model,
    {
        if ((0x70 <= bank && bank < 0x7E) || bank >= 0xF0) && addr < 0x8000 && self.header.chipset.has_ram {
            let idx = (((bank & 0xF) << 15usize) | addr) & self.ram_mask;
            proof { lemma_and_le(((bank & 0xF) << 15usize) | addr, self.ram_mask); }
            self.ram.set(idx, val);
        }
    }

    pub fn read_hirom(&self, bank: usize, addr: usize) -> (r: Option<u8>)
        requires
            self.wf(),
        ensures
            r == self.hirom_read_spec(bank, addr),
    {
        let b = bank & 0x7F;
        if b < 0x40 && (0x6000 <= addr && addr < 0x8000) && self.header.chipset.has_ram {
            let idx = (((b & 0x3F) << 13usize) | (addr & 0x1FFF)) & self.ram_mask;
            proof { lemma_and_le(((b & 0x3F) << 13usize) | (addr & 0x1FFF), self.ram_mask); }
            return Some(self.ram[idx]);
        }
        if addr >= 0x8000 || b >= 0x40 {
            let idx = (((b & 0x3F) << 16usize) | addr) & self.rom_mask;
            if idx < self.rom.len() {
                return Some(self.rom[idx]);
            }
            return None;
        }
        None
    }

    pub fn write_hirom(&mut self, bank: usize, addr: usize, val: u8)
        requires
            old(self).wf(),
        ensures
            final(self).wf(),
            final(self).ram@ == match old(self).hirom_write_index(bank, addr) {
                Some(i) => old(self).ram@.update(i, val),
                None => old(self).ram@,
            },
            final(self).rom == old(self).rom && final(self).header == old(self).header,
            final(self).rom_mask == old(self).rom_mask && final(self).ram_mask == old(self).ram_mask,
            final(self).model == old(self).model,
    {
        let b = bank & 0x7F;
        if b < 0x40 && (0x6000 <= addr && addr < 0x8000) && self.header.chipset.has_ram {
            let idx = (((b & 0x3F) << 13usize) | (addr & 0x1FFF)) & self.ram_mask;
            proof { lemma_and_le(((b & 0x3F) << 13usize) | (addr & 0x1FFF), self.ram_mask); }
            self.ram.set(idx, val);
        }
    }
}

/// A read at an address where a write stores to battery RAM gives back the byte written;
/// the write leaves every other address of battery RAM as it was.
pub proof fn lemma_sram_write_read(c: Cart, c2: Cart, bank: usize, addr: usize, val: u8)
    requires
        c.wf(),
        c.write_index(bank, addr) is Some,
        c2.ram@ == c.ram@.update(c.write_index(bank, addr).unwrap(), val),
        c2.rom == c.rom && c2.header == c.header,
        c2.rom_mask == c.rom_mask && c2.ram_mask == c.ram_mask,
    ensures
        c2.read_spec(bank, addr) == Some(val),
        forall|b2: usize, a2: usize| c.write_index(b2, a2) is Some
            && c.write_index(b2, a2) != c.write_index(bank, addr)
            ==> #[trigger] c2.read_spec(b2, a2) == c.read_spec(b2, a2),
{
    let i = c.write_index(bank, addr).unwrap();
    lemma_ram_index_in_bounds(c, bank, addr);
    assert forall|b2: usize, a2: usize| c.write_index(b2, a2) is Some
        && c.write_index(b2, a2) != c.write_index(bank, addr)
        implies #[trigger] c2.read_spec(b2, a2) == c.read_spec(b2, a2) by {
        lemma_ram_index_in_bounds(c, b2, a2);
    }
}

/// A RAM index that a write stores to is inside RAM, and a read at the same address reads it.
proof fn lemma_ram_index_in_bounds(c: Cart, bank: usize, addr: usize)
    requires
        c.wf(),
        c.write_index(bank, addr) is Some,
    ensures
        0 <= c.write_index(bank, addr).unwrap() < c.ram@.len(),
        c.read_spec(bank, addr) == Some(c.ram@[c.write_index(bank, addr).unwrap()]),
{
    if c.header.mapper == Mapper::LoROM {
        lemma_and_le(((bank & 0xF) << 15usize) | addr, c.ram_mask);
    } else {
        let b = bank & 0x7F;
        lemma_and_le(((b & 0x3F) << 13usize) | (addr & 0x1FFF), c.ram_mask);
    }
}

/// Banks $80-$FF mirror banks $00-$7F: in HiROM everywhere, in LoROM for all but banks
/// $FE-$FF, which answer battery RAM where $7E-$7F (work RAM on the console) answer ROM.
pub proof fn lemma_bank_mirror(c: Cart, bank: usize, addr: usize)
    requires
        bank < 0x80,
        c.header.mapper == Mapper::LoROM ==> bank < 0x7E,
    ensures
        c.read_spec((bank + 0x80) as usize, addr) == c.read_spec(bank, addr),
        c.write_index((bank + 0x80) as usize, addr) == c.write_index(bank, addr),
{
    let hb = (bank + 0x80) as usize;
    assert(hb & 0x7F == bank & 0x7F && hb & 0xF == bank & 0xF) by (bit_vector)
        requires
            bank < 0x80,
            hb == bank + 0x80,
    ;
}

} // verus!
