use vstd::prelude::*;

use crate::utils::int_traits::{hi, lo, word, ManipulateU16};
use crate::w65c816::addressing::{linear, Address};

verus! {

/// The 128 KiB work RAM with its B-bus port ($2180-$2183).
pub struct Wram {
    pub ram: [u8; 0x20000],
    pub wm_addr: Address,
}

/// The port address after one access: the next byte, wrapping at the end of WRAM.
pub open spec fn next_wm_addr(a: int) -> int {
    (a + 1) % 0x2_0000
}

impl Wram {
    /// The port address is inside WRAM.
    pub open spec fn wf(&self) -> bool {
        self.wm_addr.bank <= 1
    }

    /// The current port address.
    pub open spec fn port(&self) -> int {
        self.wm_addr@
    }

    /// What a write of `data` to port register `addr` ($2180-$2183) leaves: `new` after `self`.
    /// WMDATA stores the byte and steps the address; WMADDL/M/H set a part of it.
    pub open spec fn write_post(self, addr: u16, data: u8, new: Wram) -> bool {
        &&& addr == 0x2180 ==> new.ram@ == self.ram@.update(self.port(), data) && new.port() == next_wm_addr(self.port())
        &&& addr != 0x2180 ==> new.ram == self.ram
        &&& addr == 0x2181 ==> new.port() == linear(self.wm_addr.bank, word(data, hi(self.wm_addr.offset)))
        &&& addr == 0x2182 ==> new.port() == linear(self.wm_addr.bank, word(lo(self.wm_addr.offset), data))
        &&& addr == 0x2183 ==> new.port() == linear(data % 2, self.wm_addr.offset)
    }

    pub fn new() -> (r: Self)
        ensures
            r.wf(),
            r.port() == 0,
            forall|i: int| 0 <= i < 0x20000 ==> r.ram[i] == 0,
    {
        Self { ram: [0; 0x20000], wm_addr: Address::new(0, 0) }
    }

    fn advance(&mut self)
        requires
            old(self).wf(),
        ensures
            final(self).wf(),
            final(self).port() == next_wm_addr(old(self).port()),
            final(self).ram == old(self).ram,
    {
        let raw_addr = (u32::from(self.wm_addr) + 1) % 0x2_0000;
        self.wm_addr = Address::from(raw_addr);
    }

    /// WMDATA write: stores the byte at the port address and advances it.
    fn write_to_wm_addr(&mut self, data: u8)
        requires
            old(self).wf(),
        ensures
            final(self).wf(),
            final(self).ram@ == old(self).ram@.update(old(self).port(), data),
            final(self).port() == next_wm_addr(old(self).port()),
    {
        let idx = usize::from(self.wm_addr);
        self.ram[idx] = data;
        self.advance();
    }

    /// WMADDL: low byte of the port address.
    fn wm_addl(&mut self, data: u8)
        ensures
            final(self).wm_addr == (Address { offset: word(data, hi(old(self).wm_addr.offset)), ..old(self).wm_addr }),
            final(self).ram == old(self).ram,
    {
        self.wm_addr.offset.set_low_byte(data);
    }

    /// WMADDM: middle byte of the port address.
    fn wm_addm(&mut self, data: u8)
        ensures
            final(self).wm_addr == (Address { offset: word(lo(old(self).wm_addr.offset), data), ..old(self).wm_addr }),
            final(self).ram == old(self).ram,
    {
        self.wm_addr.offset.set_high_byte(data);
    }

    /// WMADDH: bit 0 selects the upper 64 KiB.
    fn wm_addh(&mut self, data: u8)
        ensures
            final(self).wm_addr == (Address { bank: data % 2, ..old(self).wm_addr }),
            final(self).ram == old(self).ram,
    {
        self.wm_addr.bank = data % 2;
    }

    /// WMDATA read: the byte at the port address; the port advances.
    pub fn read(&mut self, _addr: u16) -> (r: Option<u8>)
        requires
            old(self).wf(),
        ensures
            final(self).wf(),
            r == Some(old(self).ram[old(self).port()]),
            final(self).port() == next_wm_addr(old(self).port()),
            final(self).ram == old(self).ram,
    {
        let data = self.ram[usize::from(self.wm_addr)];
        self.advance();
        Some(data)
    }

    /// Writes WMDATA ($2180) and the three bytes of the port address ($2181-$2183).
    pub fn write(&mut self, addr: u16, data: u8)
        requires
            old(self).wf(),
            0x2180 <= addr <= 0x2183,
        ensures
            final(self).wf(),
            old(self).write_post(addr, data, *final(self)),
    {
        match addr {
            0x2180 => self.write_to_wm_addr(data),
            0x2181 => self.wm_addl(data),
            0x2182 => self.wm_addm(data),
            _ => self.wm_addh(data),
        }
    }
}

} // verus!
