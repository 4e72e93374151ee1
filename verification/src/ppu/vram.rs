use vstd::prelude::*;

use super::tile::BitPlane;
use crate::utils::int_traits::{hi, lemma_bytes_word, lemma_word_bytes, lo, word, ManipulateU16};

verus! {

/// VMAIN ($2115).
#[derive(Clone, Copy)]
pub struct VideoPortControl(pub u8);

impl VideoPortControl {
    /// Bits 0-1.
    #[verifier::allow_in_spec]
    pub fn increment_amount(&self) -> u8
        returns
            self.0 % 4,
    {
        self.0 % 4
    }

    /// Bits 2-3.
    #[verifier::allow_in_spec]
    pub fn addr_remapping(&self) -> u8
        returns
            (self.0 / 4) % 4,
    {
        (self.0 / 4) % 4
    }

    /// Bit 7: the address steps after the high byte instead of the low byte.
    #[verifier::allow_in_spec]
    pub fn increment_on_high_byte_access(&self) -> bool
        returns
            self.0 >= 128,
    {
        self.0 >= 128
    }
}

/// 64 KiB of video RAM as 32 K words, with its CPU port.
pub struct Vram {
    pub ram: [u16; 0x8000],
    pub video_port_control: VideoPortControl,
    pub vm_addr: u16,
    pub read_latch: u16,
}

/// What the port and video RAM hold: the words, VMAIN, the word address and the prefetched word.
#[verifier::ext_equal]
pub struct VramView {
    pub ram: Seq<u16>,
    pub control: u8,
    pub vm_addr: u16,
    pub read_latch: u16,
}

impl View for Vram {
    type V = VramView;

    open spec fn view(&self) -> VramView {
        VramView { ram: self.ram@, control: self.video_port_control.0, vm_addr: self.vm_addr, read_latch: self.read_latch }
    }
}

impl VramView {
    /// The word at a VRAM address; addresses wrap at 32 K words.
    pub open spec fn word_at(self, addr: int) -> u16 {
        self.ram[addr % 0x8000]
    }

    /// The port's current (remapped) word address.
    pub open spec fn port(self) -> int {
        remap_spec(self.vm_addr as int, (self.control / 4) % 4)
    }

    /// Whether the address steps after the high byte (else after the low byte).
    pub open spec fn steps_on_high(self) -> bool {
        self.control >= 128
    }

    /// The address after one step.
    pub open spec fn stepped(self) -> u16 {
        ((self.vm_addr + increment_spec(self.control % 4)) % 0x1_0000) as u16
    }

    /// After VMADDL: the low byte of the address set and the word there prefetched.
    pub open spec fn addr_low_set(self, data: u8) -> VramView {
        let v = VramView { vm_addr: word(data, hi(self.vm_addr)), ..self };
        VramView { read_latch: v.word_at(v.port()), ..v }
    }

    /// After VMADDH.
    pub open spec fn addr_high_set(self, data: u8) -> VramView {
        let v = VramView { vm_addr: word(lo(self.vm_addr), data), ..self };
        VramView { read_latch: v.word_at(v.port()), ..v }
    }

    /// After a VMDATAL write.
    pub open spec fn low_written(self, data: u8) -> VramView {
        let a = self.port();
        VramView {
            ram: self.ram.update(a % 0x8000, word(data, hi(self.word_at(a)))),
            vm_addr: if self.steps_on_high() { self.vm_addr } else { self.stepped() },
            ..self
        }
    }

    /// After a VMDATAH write.
    pub open spec fn high_written(self, data: u8) -> VramView {
        let a = self.port();
        VramView {
            ram: self.ram.update(a % 0x8000, word(lo(self.word_at(a)), data)),
            vm_addr: if self.steps_on_high() { self.stepped() } else { self.vm_addr },
            ..self
        }
    }

    /// A VMDATALREAD: the byte read and the port after it.
    pub open spec fn low_read(self) -> (u8, VramView) {
        (lo(self.read_latch), if self.steps_on_high() {
            self
        } else {
            VramView { read_latch: self.word_at(self.port()), vm_addr: self.stepped(), ..self }
        })
    }

    /// A VMDATAHREAD: the byte read and the port after it.
    pub open spec fn high_read(self) -> (u8, VramView) {
        (hi(self.read_latch), if self.steps_on_high() {
            VramView { read_latch: self.word_at(self.port()), vm_addr: self.stepped(), ..self }
        } else {
            self
        })
    }
}

/// The address step after a word access: the access that steps the port (the high byte with
/// VMAIN bit 7 set, else the low byte) moves the word address on by 1, by 32 (one row of a
/// 32-tile map) or by 128 words for increment settings 0, 1 and 2 or 3; the other byte leaves
/// it where it is.
pub proof fn lemma_vram_steps(v: VramView, d: u8)
    ensures
        ({
            let amount = v.control % 4;
            let step: int = if amount == 0 { 1 } else if amount == 1 { 32 } else { 128 };
            let next = (v.vm_addr + step) % 0x1_0000;
            &&& v.steps_on_high() ==> v.high_written(d).vm_addr == next && v.low_written(d).vm_addr == v.vm_addr
                && v.high_read().1.vm_addr == next && v.low_read().1.vm_addr == v.vm_addr
            &&& !v.steps_on_high() ==> v.low_written(d).vm_addr == next && v.high_written(d).vm_addr == v.vm_addr
                && v.low_read().1.vm_addr == next && v.high_read().1.vm_addr == v.vm_addr
        }),
{
}

/// A word written through the data ports, the byte that steps the address last, is read
/// back through them, in the same order, once the address is set to it again.
pub proof fn lemma_vram_write_read(v: VramView, low: u8, high: u8)
    requires
        v.ram.len() == 0x8000,
    ensures
        v.steps_on_high() ==> ({
            let r = v.low_written(low).high_written(high).addr_low_set(lo(v.vm_addr)).addr_high_set(hi(v.vm_addr));
            r.low_read().0 == low && r.low_read().1.high_read().0 == high
        }),
        !v.steps_on_high() ==> ({
            let r = v.high_written(high).low_written(low).addr_low_set(lo(v.vm_addr)).addr_high_set(hi(v.vm_addr));
            r.high_read().0 == high && r.high_read().1.low_read().0 == low
        }),
{
    lemma_bytes_word(v.vm_addr);
    let a = v.port();
    lemma_word_bytes(low, hi(v.word_at(a)));
    lemma_word_bytes(lo(v.word_at(a)), high);
    lemma_word_bytes(low, high);
    if v.steps_on_high() {
        let w = v.low_written(low).high_written(high);
        lemma_word_bytes(lo(w.vm_addr), hi(v.vm_addr));
        lemma_word_bytes(lo(v.vm_addr), hi(w.vm_addr));
        assert(w.ram[a % 0x8000] == word(low, high));
    } else {
        let w = v.high_written(high).low_written(low);
        lemma_word_bytes(lo(w.vm_addr), hi(v.vm_addr));
        lemma_word_bytes(lo(v.vm_addr), hi(w.vm_addr));
        assert(w.ram[a % 0x8000] == word(low, high));
    }
}

/// The word address after the VMAIN remapping.
pub open spec fn remap_spec(addr: int, mode: u8) -> int {
    if mode == 0 {
        addr
    } else if mode == 1 {
        (addr / 0x100) * 0x100 + (addr % 0x100) / 0x20 + (addr % 0x20) * 8
    } else if mode == 2 {
        (addr / 0x200) * 0x200 + (addr % 0x200) / 0x40 + (addr % 0x40) * 8
    } else {
        (addr / 0x400) * 0x400 + (addr % 0x400) / 0x80 + (addr % 0x80) * 8
    }
}

/// The address step VMAIN selects.
pub open spec fn increment_spec(amount: u8) -> u16 {
    if amount == 0 {
        1
    } else if amount == 1 {
        32
    } else {
        128
    }
}

impl Vram {
    /// The word at a VRAM address; addresses wrap at 32 K words.
    pub open spec fn word_at(&self, addr: int) -> u16 {
        self.ram[addr % 0x8000]
    }

    /// The port's current (remapped) word address.
    pub open spec fn port(&self) -> int {
        remap_spec(self.vm_addr as int, self.video_port_control.addr_remapping())
    }

    /// The port address after one step.
    pub open spec fn stepped(&self) -> u16 {
        ((self.vm_addr + increment_spec(self.video_port_control.increment_amount())) % 0x1_0000) as u16
    }

    pub fn new() -> (r: Self)
        ensures
            r.video_port_control.0 == 0 && r.vm_addr == 0 && r.read_latch == 0,
            forall|i: int| 0 <= i < 0x8000 ==> r.ram[i] == 0,
    {
        Self { ram: [0; 0x8000], video_port_control: VideoPortControl(0), vm_addr: 0x00, read_latch: 0x00 }
    }

    /// The word at a VRAM address; addresses wrap at 32 K words.
    pub fn get(&self, index: usize) -> (r: u16)
        ensures
            r == self.word_at(index as int),
    {
        self.ram[index % 0x8000]
    }

    fn set(&mut self, index: usize, value: u16)
        ensures
            final(self).ram@ == old(self).ram@.update(index as int % 0x8000, value),
            final(self).video_port_control == old(self).video_port_control,
            final(self).vm_addr == old(self).vm_addr && final(self).read_latch == old(self).read_latch,
    {
        self.ram[index % 0x8000] = value;
    }

    fn remap_vm_addr(&self) -> (r: usize)
        ensures
            r == self.port(),
    {
        let addr = self.vm_addr as usize;
        match self.video_port_control.addr_remapping() {
            0 => addr,
            1 => (addr / 0x100) * 0x100 + (addr % 0x100) / 0x20 + (addr % 0x20) * 8,
            2 => (addr / 0x200) * 0x200 + (addr % 0x200) / 0x40 + (addr % 0x40) * 8,
            _ => (addr / 0x400) * 0x400 + (addr % 0x400) / 0x80 + (addr % 0x80) * 8,
        }
    }

    fn get_increment_amount(&self) -> (r: u16)
        ensures
            r == increment_spec(self.video_port_control.increment_amount()),
    {
        match self.video_port_control.increment_amount() {
            0 => 1,
            1 => 32,
            _ => 128,
        }
    }

    /// VMADDL: sets the low byte of the address and prefetches the word there.
    pub fn vm_addl(&mut self, data: u8)
        ensures
            final(self).vm_addr == word(data, hi(old(self).vm_addr)),
            final(self).read_latch == old(self).word_at(final(self).port()),
            final(self).ram == old(self).ram && final(self).video_port_control == old(self).video_port_control,
            final(self)@ == old(self)@.addr_low_set(data),
    {
        self.vm_addr.set_low_byte(data);
        self.read_latch = self.get(self.remap_vm_addr());
    }

    /// VMADDH: sets the high byte of the address and prefetches the word there.
    pub fn vm_addh(&mut self, data: u8)
        ensures
            final(self).vm_addr == word(lo(old(self).vm_addr), data),
            final(self).read_latch == old(self).word_at(final(self).port()),
            final(self).ram == old(self).ram && final(self).video_port_control == old(self).video_port_control,
            final(self)@ == old(self)@.addr_high_set(data),
    {
        self.vm_addr.set_high_byte(data);
        self.read_latch = self.get(self.remap_vm_addr());
    }

    /// VMDATAL write.
    pub fn vm_addl_write(&mut self, data: u8)
        ensures
            ({
                let a = old(self).port();
                final(self).ram@ == old(self).ram@.update(a % 0x8000, word(data, hi(old(self).word_at(a))))
            }),
            final(self).vm_addr == if old(self).video_port_control.increment_on_high_byte_access() {
                old(self).vm_addr
            } else {
                old(self).stepped()
            },
            final(self).read_latch == old(self).read_latch,
            final(self).video_port_control == old(self).video_port_control,
            final(self)@ == old(self)@.low_written(data),
    {
        let addr = self.remap_vm_addr();
        let mut w = self.get(addr);
        w.set_low_byte(data);
        self.set(addr, w);
        if !self.video_port_control.increment_on_high_byte_access() {
            self.vm_addr = self.vm_addr.wrapping_add(self.get_increment_amount());
        }
    }

    /// VMDATAH write.
    pub fn vm_addh_write(&mut self, data: u8)
        ensures
            ({
                let a = old(self).port();
                final(self).ram@ == old(self).ram@.update(a % 0x8000, word(lo(old(self).word_at(a)), data))
            }),
            final(self).vm_addr == if old(self).video_port_control.increment_on_high_byte_access() {
                old(self).stepped()
            } else {
                old(self).vm_addr
            },
            final(self).read_latch == old(self).read_latch,
            final(self).video_port_control == old(self).video_port_control,
            final(self)@ == old(self)@.high_written(data),
    {
        let addr = self.remap_vm_addr();
        let mut w = self.get(addr);
        w.set_high_byte(data);
        self.set(addr, w);
        if self.video_port_control.increment_on_high_byte_access() {
            self.vm_addr = self.vm_addr.wrapping_add(self.get_increment_amount());
        }
    }

    /// VMDATALREAD: the low byte of the prefetched word; on the stepping access the latch
    /// reloads and the address steps.
    pub fn vm_addl_read(&mut self) -> (r: u8)
        ensures
            r == lo(old(self).read_latch),
            old(self).video_port_control.increment_on_high_byte_access() ==> final(self).vm_addr == old(self).vm_addr
                && final(self).read_latch == old(self).read_latch,
            !old(self).video_port_control.increment_on_high_byte_access() ==> final(self).vm_addr == old(self).stepped()
                && final(self).read_latch == old(self).word_at(old(self).port()),
            final(self).ram == old(self).ram && final(self).video_port_control == old(self).video_port_control,
            (r, final(self)@) == old(self)@.low_read(),
    {
        let result = self.read_latch.low_byte();
        if !self.video_port_control.increment_on_high_byte_access() {
            self.read_latch = self.get(self.remap_vm_addr());
            self.vm_addr = self.vm_addr.wrapping_add(self.get_increment_amount());
        }
        result
    }

    /// VMDATAHREAD.
    pub fn vm_addh_read(&mut self) -> (r: u8)
        ensures
            r == hi(old(self).read_latch),
            !old(self).video_port_control.increment_on_high_byte_access() ==> final(self).vm_addr == old(self).vm_addr
                && final(self).read_latch == old(self).read_latch,
            old(self).video_port_control.increment_on_high_byte_access() ==> final(self).vm_addr == old(self).stepped()
                && final(self).read_latch == old(self).word_at(old(self).port()),
            final(self).ram == old(self).ram && final(self).video_port_control == old(self).video_port_control,
            (r, final(self)@) == old(self)@.high_read(),
    {
        let result = self.read_latch.high_byte();
        if self.video_port_control.increment_on_high_byte_access() {
            self.read_latch = self.get(self.remap_vm_addr());
            self.vm_addr = self.vm_addr.wrapping_add(self.get_increment_amount());
        }
        result
    }

    /// Byte `j` of the bit planes of the tile row at `addr`: planes 2i and 2i+1 are the low
    /// and high byte of the word `8 * i` words after `addr`.
    pub open spec fn plane_byte(&self, addr: int, j: int) -> u8 {
        let w = self.word_at(addr + 8 * (j / 2));
        if j % 2 == 0 { lo(w) } else { hi(w) }
    }

    pub fn planes<T: BitPlane>(&self, addr: usize) -> (r: Vec<u8>)
        ensures
            r@.len() == T::planes_spec(),
            forall|j: int| 0 <= j < r@.len() ==> #[trigger] r@[j] == self.plane_byte(addr as int, j),
    {
        let n = T::planes();
        let base = addr % 0x8000;
        let mut planes: Vec<u8> = Vec::new();
        let mut index: usize = 0;
        while index < n / 2
            invariant
                n == T::planes_spec(),
                n == 2 || n == 4 || n == 8,
                base == addr % 0x8000,
                index <= n / 2,
                planes@.len() == 2 * index,
                forall|j: int| 0 <= j < planes@.len() ==> #[trigger] planes@[j] == self.plane_byte(addr as int, j),
            decreases n / 2 - index,
        {
            let bitplane = self.get(base + index * 8);
            proof {
                let k = index as int * 8;
                assert((base + k) % 0x8000 == (addr as int + k) % 0x8000) by (nonlinear_arith)
                    requires
                        base == addr as int % 0x8000,
                        k >= 0,
                ;
            }
            planes.push(bitplane.low_byte());
            planes.push(bitplane.high_byte());
            index = index + 1;
        }
        planes
    }
}

} // verus!
