use vstd::prelude::*;

use super::dma::{channel_index, channel_reg, channel_written, Dma};
use super::math::Math;
use super::wram::{next_wm_addr, Wram};
use super::{Bus, BusCycle};
use crate::cart::Cart;
use crate::ppu::{product_byte, Ppu};
use crate::ppu::counters::{Counters, Nmitimen, Rdnmi};
use crate::utils::bits::with_bit;
use crate::utils::int_traits::word;
use crate::utils::int_traits::{hi, lo};
use crate::scheduler::Scheduler;
use crate::utils::int_traits::ManipulateU16;
use crate::w65c816::addressing::{lemma_offset_of, linear, Address};

verus! {

/// Master-clock cycles of a fast access (3.58 MHz).
pub const FAST: u32 = 6;

/// Master-clock cycles of a slow access (2.68 MHz).
pub const SLOW: u32 = 8;

/// Master-clock cycles of an extra-slow access (1.79 MHz).
pub const XSLOW: u32 = 12;

/// The SNES address space as the main CPU and DMA see it.
pub struct SystemBus {
    pub mdr: u8,
    pub fast_rom_enabled: bool,
    pub scheduler: Scheduler,
    pub cart: Cart,
    pub dma: Dma,
    pub math: Math,
    pub ppu: Ppu,
    pub wram: Wram,
    pub dummy_apu: [u8; 4],
    /// Every access made through the CPU's bus interface.
    pub log: Ghost<Seq<BusCycle>>,
}

/// Banks $00-$3F and $80-$BF: the system area with WRAM, I/O and cartridge.
pub open spec fn system_bank(bank: u8) -> bool {
    bank < 0x40 || (0x80 <= bank < 0xC0)
}

/// Banks $7E-$7F: the whole of WRAM.
pub open spec fn wram_bank(bank: u8) -> bool {
    bank == 0x7E || bank == 0x7F
}

/// The master-clock cycles of one access at `bank:offset`.
pub open spec fn access_cycles(bank: u8, offset: u16, fast_rom: bool) -> u32 {
    if 0x40 <= bank < 0x80 {
        SLOW
    } else if bank >= 0xC0 {
        if fast_rom { FAST } else { SLOW }
    } else if offset < 0x2000 || (0x6000 <= offset < 0x8000) {
        SLOW
    } else if offset < 0x4000 || (0x4200 <= offset < 0x6000) {
        FAST
    } else if offset < 0x4200 {
        XSLOW
    } else if 0x80 <= bank < 0xBF && fast_rom {
        FAST
    } else {
        SLOW
    }
}

/// The clock after `n` more master cycles (it stops at its largest value).
pub open spec fn clock_after(cycles: u64, n: int) -> u64 {
    if cycles + n <= u64::MAX { (cycles + n) as u64 } else { u64::MAX }
}

/// The reset value of an audio port after the CPU has read it.
pub open spec fn apu_port_reset(ch: int) -> u8 {
    if ch == 0 { 0xAA } else if ch == 1 { 0xBB } else { 0 }
}

impl SystemBus {
    /// The components keep their own invariants.
    pub open spec fn wf(&self) -> bool {
        &&& self.cart.wf()
        &&& self.ppu.wf()
        &&& self.wram.wf()
        &&& self.scheduler.wf()
    }

    /// The byte a side-effect-free look at `bank:page` shows.
    pub open spec fn peek_spec_at(&self, bank: u8, page: u16) -> Option<u8> {
        if system_bank(bank) && page < 0x2000 {
            Some(self.wram.ram[page as int])
        } else if wram_bank(bank) {
            Some(self.wram.ram[linear(bank, page) % 0x2_0000])
        } else {
            self.cart.read_spec(bank as usize, page as usize)
        }
    }

    pub fn new(cart: Cart) -> (r: Self)
        requires
            cart.wf(),
        ensures
            r.wf(),
            r.cart == cart,
            r.mdr == 0 && !r.fast_rom_enabled,
            r.scheduler.cycles == 0 && r.scheduler.next_is_earliest() && r.scheduler.next_event_id == 0,
            forall|i: int| 0 <= i < 3 ==> #[trigger] r.scheduler.events[i].time == u64::MAX && r.scheduler.events[i].event is Ppu,
            r.dummy_apu@ == seq![0xAAu8, 0, 0, 0],
            r.log@ == Seq::<BusCycle>::empty(),
            !r.ppu.frame_ready,
            r.dma.enable_channels == 0,
    {
        let model = cart.model;
        Self {
            mdr: 0,
            fast_rom_enabled: false,
            scheduler: Scheduler::new(),
            ppu: Ppu::new(model),
            cart,
            dma: Dma::new(),
            math: Math::new(),
            wram: Wram::new(),
            dummy_apu: [0xAA, 0, 0, 0],
            log: Ghost(Seq::empty()),
        }
    }

    /// Advances the master clock by `cycles` (it stops at its largest value).
    pub fn add_cycles(&mut self, cycles: u64)
        ensures
            *final(self) == (SystemBus {
                scheduler: Scheduler { cycles: clock_after(old(self).scheduler.cycles, cycles as int), ..old(self).scheduler },
                ..*old(self)
            }),
    {
        if self.scheduler.cycles <= u64::MAX - cycles {
            self.scheduler.tick(cycles);
        } else {
            let rest = u64::MAX - self.scheduler.cycles;
            self.scheduler.tick(rest);
        }
    }

    /// What a read of B-bus register `addr` answers (`r`) and leaves (`new`).
    pub open spec fn b_read_post(self, addr: u16, new: SystemBus, r: u8) -> bool {
        &&& new.dma == self.dma && new.log == self.log && new.scheduler == self.scheduler
        &&& new.ppu.counters.nmi_requested == self.ppu.counters.nmi_requested
        &&& new.ppu.counters.in_irq == self.ppu.counters.in_irq
        &&& 0x34 <= addr % 256 <= 0x3F ==> new == (SystemBus { ppu: new.ppu, ..self })
            && self.ppu.read_post(addr, self.scheduler.cycles, new.ppu,
                if addr % 256 == 0x37 { None } else { Some(r) })
        &&& 0x34 <= addr % 256 <= 0x36 ==> r == product_byte(self.ppu.mode7.product(), addr % 256 - 0x34)
        &&& addr % 256 == 0x37 ==> r == self.mdr
        &&& addr % 256 == 0x38 ==> r == new.ppu.ppu1_mdr
        &&& addr % 256 == 0x39 ==> r == lo(self.ppu.vram.read_latch)
        &&& addr % 256 == 0x3A ==> r == hi(self.ppu.vram.read_latch)
        &&& addr % 256 == 0x3B || addr % 256 == 0x3C || addr % 256 == 0x3D || addr % 256 == 0x3F
            ==> r == new.ppu.ppu2_mdr
        &&& addr % 256 == 0x3E ==> r == self.ppu.ppu1_mdr
        &&& 0x40 <= addr % 256 <= 0x43 ==> r == self.dummy_apu[addr as int % 4]
            && new == (SystemBus {
                dummy_apu: new.dummy_apu,
                ..self
            })
            && new.dummy_apu@ == self.dummy_apu@.update(addr as int % 4, apu_port_reset(addr as int % 4))
        &&& addr % 256 == 0x80 ==> r == self.wram.ram[self.wram.port()]
            && new.wram.port() == next_wm_addr(self.wram.port())
            && new.wram.ram == self.wram.ram
            && new == (SystemBus { wram: new.wram, ..self })
        &&& !(0x34 <= addr % 256 <= 0x43) && addr % 256 != 0x80 ==> r == self.mdr && new == self
    }

    /// Reads a B-bus register ($2100-$21FF): PPU ports, the audio ports and the WRAM port.
    /// An unmapped register answers the open-bus value.
    pub fn read_b(&mut self, addr: u16) -> (r: u8)
        requires
            old(self).wf(),
            0x2100 <= addr < 0x2200,
        ensures
            final(self).wf(),
            old(self).b_read_post(addr, *final(self), r),
    {
        let reg = addr.low_byte();
        let val = if 0x34 <= reg && reg <= 0x3F {
            let time = self.scheduler.cycles;
            self.ppu.read(addr, time)
        } else if 0x40 <= reg && reg <= 0x43 {
            let ch = ((addr - 0x2140) % 4) as usize;
            let value = self.dummy_apu[ch];
            self.dummy_apu[ch] = if ch == 0 { 0xAA } else if ch == 1 { 0xBB } else { 0 };
            Some(value)
        } else if reg == 0x80 {
            self.wram.read(addr)
        } else {
            None
        };
        match val {
            Some(v) => v,
            None => self.mdr,
        }
    }

    /// What a write of `data` to B-bus register `addr` leaves: `new` after `self`.
    pub open spec fn b_write_post(self, addr: u16, data: u8, new: SystemBus) -> bool {
        &&& new.dma == self.dma && new.log == self.log && new.scheduler == self.scheduler
        &&& new.ppu.counters == self.ppu.counters
        &&& addr % 256 <= 0x33 ==> new == (SystemBus { ppu: new.ppu, ..self })
            && self.ppu.write_post(addr, data, new.ppu)
        &&& 0x80 <= addr % 256 <= 0x83 ==> self.wram.write_post(addr, data, new.wram)
        &&& 0x40 <= addr % 256 <= 0x43 ==> new == (SystemBus { dummy_apu: new.dummy_apu, ..self })
            && new.dummy_apu@ == self.dummy_apu@.update(addr as int % 4, data)
        &&& 0x80 <= addr % 256 <= 0x83 ==> new == (SystemBus { wram: new.wram, ..self })
        &&& !(addr % 256 <= 0x33) && !(0x40 <= addr % 256 <= 0x43) && !(0x80 <= addr % 256 <= 0x83) ==> new == self
    }

    /// Writes a B-bus register: PPU registers ($2100-$2133), the audio ports and the WRAM port.
    pub fn write_b(&mut self, addr: u16, data: u8)
        requires
            old(self).wf(),
            0x2100 <= addr < 0x2200,
        ensures
            final(self).wf(),
            old(self).b_write_post(addr, data, *final(self)),
    {
        let reg = addr.low_byte();
        if reg <= 0x33 {
            self.ppu.write(addr, data);
        } else if 0x40 <= reg && reg <= 0x43 {
            let ch = ((addr - 0x2140) % 4) as usize;
            self.dummy_apu[ch] = data;
        } else if 0x80 <= reg && reg <= 0x83 {
            self.wram.write(addr, data);
        }
    }

    /// Looks at a byte without side effects: WRAM or the cartridge (the I/O area is not looked at).
    pub fn peek(&self, addr: Address) -> (r: Option<u8>)
        requires
            self.wf(),
        ensures
            r == self.peek_spec_at(addr.bank, addr.offset),
    {
        let bank = addr.bank;
        let page = addr.offset;
        if (bank < 0x40 || (0x80 <= bank && bank < 0xC0)) && page < 0x2000 {
            return Some(self.wram.ram[page as usize]);
        }
        if bank == 0x7E || bank == 0x7F {
            let idx = (u32::from(addr) % 0x2_0000) as usize;
            return Some(self.wram.ram[idx]);
        }
        self.cart.read(bank as usize, page as usize)
    }

    /// What a read of CPU register `page` ($4000-$43FF) answers (`r`, `None` where nothing is
    /// readable) and leaves (`new`): RDNMI and TIMEUP acknowledge their flags.
    pub open spec fn io_read_post(self, page: u16, new: SystemBus, r: Option<u8>) -> bool {
        &&& page == 0x4210 ==> r == Some((self.ppu.counters.rdnmi.0 | (self.mdr & 0x70)) as u8)
            && new.ppu == (Ppu { counters: Counters { rdnmi: Rdnmi(with_bit(self.ppu.counters.rdnmi.0, 128, false)),
                ..self.ppu.counters }, ..self.ppu })
        &&& page == 0x4211 ==> r == Some(((if self.ppu.counters.in_irq { 0x80u8 } else { 0u8 }) | (self.mdr & 0x7F)) as u8)
            && new.ppu == (Ppu { counters: Counters { in_irq: false, ..self.ppu.counters }, ..self.ppu })
        &&& page == 0x4212 ==> r == Some((self.ppu.counters.hv_status.0 | (self.mdr & 0x3E)) as u8)
        &&& 0x4214 <= page <= 0x4217 ==> r == self.math.read_spec(page)
        &&& 0x4218 <= page <= 0x421F ==> r == Some(0u8)
        &&& 0x4300 <= page <= 0x437F ==> r == channel_reg(self.dma.channels[channel_index(page)], page as int % 16)
        &&& !(0x4210 <= page <= 0x4212) && !(0x4214 <= page <= 0x421F) && !(0x4300 <= page <= 0x437F) ==> r == None::<u8>
        &&& new == (SystemBus { ppu: new.ppu, ..self })
        &&& !(0x4210 <= page <= 0x4211) ==> new.ppu == self.ppu
    }

    /// The byte a CPU register read in $4000-$43FF answers, if the register is readable.
    fn read_io(&mut self, page: u16) -> (r: Option<u8>)
        requires
            old(self).wf(),
            0x4000 <= page < 0x4400,
        ensures
            final(self).wf(),
            old(self).io_read_post(page, *final(self), r),
    {
        if page == 0x4210 {
            let flag = self.ppu.read_nmi_flag();
            Some(flag | (self.mdr & 0x70))
        } else if page == 0x4211 {
            let flag = self.ppu.read_irq_flag();
            Some(flag | (self.mdr & 0x7F))
        } else if page == 0x4212 {
            Some(self.ppu.read_hv_status() | (self.mdr & 0x3E))
        } else if 0x4214 <= page && page <= 0x4217 {
            self.math.read(page)
        } else if 0x4218 <= page && page <= 0x421F {
            Some(0)
        } else if 0x4300 <= page && page <= 0x437F {
            self.dma.read(page)
        } else {
            None
        }
    }

    /// What a read at `addr` answers (`r`) and leaves (`new`); `dma` for a read by a DMA transfer.
    pub open spec fn a_read_post(self, dma: bool, addr: Address, new: SystemBus, r: u8) -> bool {
        &&& new.mdr == r
        &&& new.log == self.log && new.scheduler == self.scheduler
        &&& new.cart == self.cart && new.fast_rom_enabled == self.fast_rom_enabled
        &&& new.dma == self.dma
        &&& dma ==> new.ppu.counters.nmi_requested == self.ppu.counters.nmi_requested
            && new.ppu.counters.in_irq == self.ppu.counters.in_irq
        &&& ({
            let b = addr.bank;
            let p = addr.offset;
            let h = p / 256;
            let blocked = dma && system_bank(b) && (h == 0x21 || h == 0x40 || h == 0x42 || h == 0x43);
            let cart_or_open = match self.cart.read_spec(b as usize, p as usize) { Some(v) => v, None => self.mdr };
            &&& blocked ==> r == 0 && new == (SystemBus { mdr: 0, ..self })
            &&& !blocked && system_bank(b) && h < 0x20 ==> r == self.wram.ram[p as int] && new == (SystemBus { mdr: r, ..self })
            &&& !blocked && wram_bank(b) ==> r == self.wram.ram[addr@ % 0x2_0000] && new == (SystemBus { mdr: r, ..self })
            &&& !blocked && system_bank(b) && h == 0x21 ==> new == (SystemBus {
                    ppu: new.ppu, wram: new.wram, dummy_apu: new.dummy_apu, mdr: r, ..self })
                && self.b_read_post(p, SystemBus { mdr: self.mdr, ..new }, r)
            &&& !blocked && system_bank(b) && 0x40 <= h <= 0x43 ==> new == (SystemBus { ppu: new.ppu, mdr: r, ..self })
                && exists|o: Option<u8>| #[trigger] self.io_read_post(p, SystemBus { mdr: self.mdr, ..new }, o)
                    && r == match o { Some(v) => v, None => cart_or_open }
            &&& !system_bank(b) && !wram_bank(b) ==> r == cart_or_open && new == (SystemBus { mdr: r, ..self })
            &&& system_bank(b) && !(h < 0x20) && h != 0x21 && !(0x40 <= h <= 0x43)
                ==> r == cart_or_open && new == (SystemBus { mdr: r, ..self })
        })
    }

    /// Reads a byte. A DMA transfer cannot read the B bus or the CPU registers through the A bus
    /// (it reads 0). Every read sets the open-bus value to what it returns.
    pub fn read<const DMA: bool>(&mut self, addr: Address) -> (r: u8)
        requires
            old(self).wf(),
        ensures
            final(self).wf(),
            old(self).a_read_post(DMA, addr, *final(self), r),
    {
        let bank = addr.bank;
        let page = addr.offset;
        let h = page.high_byte();
        let sys = bank < 0x40 || (0x80 <= bank && bank < 0xC0);
        if DMA && sys && (h == 0x21 || h == 0x40 || h == 0x42 || h == 0x43) {
            self.mdr = 0;
            return self.mdr;
        }
        let val = if sys {
            if h < 0x20 {
                Some(self.wram.ram[page as usize])
            } else if h == 0x21 {
                Some(self.read_b(page))
            } else if 0x40 <= h && h <= 0x43 {
                self.read_io(page)
            } else {
                None
            }
        } else if bank == 0x7E || bank == 0x7F {
            proof { lemma_offset_of(addr); }
            Some(self.wram.ram[(u32::from(addr) % 0x2_0000) as usize])
        } else {
            None
        };
        match val {
            Some(v) => {
                self.mdr = v;
            },
            None => {
                if let Some(v) = self.cart.read(bank as usize, page as usize) {
                    self.mdr = v;
                }
            },
        }
        self.mdr
    }

    /// What a write of `data` to CPU register `page` ($4000-$43FF) leaves: `new` after `self`.
    /// NMITIMEN and the H/V timer targets go to the PPU's counters, WRMPYA-WRDIVB to the math
    /// unit, MDMAEN, HDMAEN and the channel registers to the DMA unit, MEMSEL to the ROM speed.
    pub open spec fn io_write_post(self, page: u16, data: u8, new: SystemBus) -> bool {
        let c = self.ppu.counters;
        &&& new == (SystemBus { ppu: new.ppu, math: new.math, dma: new.dma, fast_rom_enabled: new.fast_rom_enabled, ..self })
        &&& page == 0x4200 ==> new.ppu == (Ppu { counters: Counters { nmitimen: Nmitimen(data), ..c }, ..self.ppu })
        &&& page == 0x4207 ==> new.ppu == (Ppu { counters: Counters { h_timer_target: word(data, hi(c.h_timer_target)), ..c }, ..self.ppu })
        &&& page == 0x4208 ==> new.ppu == (Ppu { counters: Counters { h_timer_target: word(lo(c.h_timer_target), data), ..c }, ..self.ppu })
        &&& page == 0x4209 ==> new.ppu == (Ppu { counters: Counters { v_timer_target: word(data, hi(c.v_timer_target)), ..c }, ..self.ppu })
        &&& page == 0x420A ==> new.ppu == (Ppu { counters: Counters { v_timer_target: word(lo(c.v_timer_target), data), ..c }, ..self.ppu })
        &&& !(page == 0x4200 || 0x4207 <= page <= 0x420A) ==> new.ppu == self.ppu
        &&& 0x4202 <= page <= 0x4206 ==> new.math == self.math.written(page, data)
        &&& !(0x4202 <= page <= 0x4206) ==> new.math == self.math
        &&& page == 0x420B ==> new.dma == (Dma { enable_channels: data, ..self.dma })
        &&& page == 0x420C ==> new.dma == (Dma { h_enable_channels: data, ..self.dma })
        &&& 0x4300 <= page <= 0x437F ==> new.dma.enable_channels == self.dma.enable_channels
            && new.dma.h_enable_channels == self.dma.h_enable_channels
            && new.dma.channels@ == self.dma.channels@.update(channel_index(page),
                channel_written(self.dma.channels[channel_index(page)], page as int % 16, data))
        &&& !(page == 0x420B || page == 0x420C || 0x4300 <= page <= 0x437F) ==> new.dma == self.dma
        &&& page == 0x420D ==> new.fast_rom_enabled == (data % 2 == 1)
        &&& page != 0x420D ==> new.fast_rom_enabled == self.fast_rom_enabled
    }

    /// Writes a CPU register in $4000-$43FF.
    fn write_io(&mut self, page: u16, data: u8)
        requires
            old(self).wf(),
            0x4000 <= page < 0x4400,
        ensures
            final(self).wf(),
            old(self).io_write_post(page, data, *final(self)),
    {
        if page == 0x4200 {
            self.ppu.write_nmitien(data);
        } else if 0x4202 <= page && page <= 0x4206 {
            self.math.write(page, data);
        } else if page == 0x4207 {
            self.ppu.set_h_timer_low(data);
        } else if page == 0x4208 {
            self.ppu.set_h_timer_high(data);
        } else if page == 0x4209 {
            self.ppu.set_v_timer_low(data);
        } else if page == 0x420A {
            self.ppu.set_v_timer_high(data);
        } else if page == 0x420B || page == 0x420C || (0x4300 <= page && page <= 0x437F) {
            self.dma.write(page, data);
        } else if page == 0x420D {
            self.fast_rom_enabled = data % 2 == 1;
        }
    }

    /// What a write of `data` at `addr` leaves: `new` after `self`; `dma` for a write by a DMA transfer.
    pub open spec fn a_write_post(self, dma: bool, addr: Address, data: u8, new: SystemBus) -> bool {
        &&& new.mdr == data
        &&& new.log == self.log && new.scheduler == self.scheduler
        &&& dma ==> new.dma == self.dma && new.ppu == self.ppu
        &&& ({
            let b = addr.bank;
            let p = addr.offset;
            let h = p / 256;
            let cart_ram = match self.cart.write_index(b as usize, p as usize) {
                Some(i) => self.cart.ram@.update(i, data),
                None => self.cart.ram@,
            };
            &&& system_bank(b) && h < 0x20 ==> new.wram.ram@ == self.wram.ram@.update(p as int, data)
                && new == (SystemBus { wram: new.wram, mdr: data, ..self })
                && new.wram.wm_addr == self.wram.wm_addr
            &&& wram_bank(b) ==> new.wram.ram@ == self.wram.ram@.update(addr@ % 0x2_0000, data)
                && new == (SystemBus { wram: new.wram, mdr: data, ..self })
                && new.wram.wm_addr == self.wram.wm_addr
            &&& system_bank(b) && h == 0x21 && !dma ==> new == (SystemBus {
                    ppu: new.ppu, wram: new.wram, dummy_apu: new.dummy_apu, cart: new.cart,
                    mdr: data, ..self })
                && (SystemBus { mdr: data, ..self }).b_write_post(p, data, SystemBus { cart: self.cart, ..new })
                && new.cart.ram@ == cart_ram && new.cart.rom == self.cart.rom
            &&& system_bank(b) && 0x40 <= h <= 0x43 && !dma ==> new == (SystemBus {
                    ppu: new.ppu, math: new.math, dma: new.dma,
                    fast_rom_enabled: new.fast_rom_enabled, mdr: data, ..self })
                && (SystemBus { mdr: data, ..self }).io_write_post(p, data, new)
            &&& (!system_bank(b) && !wram_bank(b)) || (system_bank(b) && h >= 0x20 && (dma || !(h == 0x21 || 0x40 <= h <= 0x43)))
                ==> new == (SystemBus { cart: new.cart, mdr: data, ..self })
                    && new.cart.ram@ == cart_ram
                    && new.cart.rom == self.cart.rom
        })
    }

    /// Writes a byte. A DMA transfer cannot write the B bus or the CPU registers through the
    /// A bus. Every write sets the open-bus value.
    pub fn write<const DMA: bool>(&mut self, addr: Address, data: u8)
        requires
            old(self).wf(),
        ensures
            final(self).wf(),
            old(self).a_write_post(DMA, addr, data, *final(self)),
    {
        self.mdr = data;
        let bank = addr.bank;
        let page = addr.offset;
        let h = page.high_byte();
        let sys = bank < 0x40 || (0x80 <= bank && bank < 0xC0);
        if sys {
            if h < 0x20 {
                self.wram.ram[page as usize] = data;
                return;
            } else if h == 0x21 && !DMA {
                self.write_b(page, data);
            } else if 0x40 <= h && h <= 0x43 && !DMA {
                self.write_io(page, data);
                return;
            }
        } else if bank == 0x7E || bank == 0x7F {
            proof { lemma_offset_of(addr); }
            self.wram.ram[(u32::from(addr) % 0x2_0000) as usize] = data;
            return;
        }
        self.cart.write(bank as usize, page as usize, data);
    }

    /// The master-clock cycles of an access: by region, and for the fast ROM area by MEMSEL.
    pub fn memory_access_cycles(&self, addr: &Address) -> (r: u32)
        ensures
            r == access_cycles(addr.bank, addr.offset, self.fast_rom_enabled),
    {
        let bank = addr.bank;
        let offset = addr.offset;
        if 0x40 <= bank && bank < 0x80 {
            SLOW
        } else if bank >= 0xC0 {
            if self.fast_rom_enabled { FAST } else { SLOW }
        } else if offset < 0x2000 || (0x6000 <= offset && offset < 0x8000) {
            SLOW
        } else if offset < 0x4000 || (0x4200 <= offset && offset < 0x6000) {
            FAST
        } else if offset < 0x4200 {
            XSLOW
        } else if 0x80 <= bank && bank < 0xBF && self.fast_rom_enabled {
            FAST
        } else {
            SLOW
        }
    }
}

impl SystemBus {
    /// The bus after `n` master cycles (the clock stops at its largest value).
    pub open spec fn ticked(self, n: int) -> SystemBus {
        SystemBus { scheduler: Scheduler { cycles: clock_after(self.scheduler.cycles, n), ..self.scheduler }, ..self }
    }
}

/// Buses with the same agenda have the same scheduled events and the same frame flag.
pub proof fn lemma_same_agenda(a: SystemBus, b: SystemBus)
    requires
        a.agenda() == b.agenda(),
    ensures
        a.scheduler.agenda() == b.scheduler.agenda(),
        a.ppu.frame_ready == b.ppu.frame_ready,
{
    assert(a.scheduler.agenda() =~= a.agenda().drop_last());
    assert(b.scheduler.agenda() =~= b.agenda().drop_last());
    assert(a.scheduler.agenda().len() == 7 && b.scheduler.agenda().len() == 7);
    assert(a.agenda()[7] == (if a.ppu.frame_ready { 1u64 } else { 0u64 }));
    assert(b.agenda()[7] == (if b.ppu.frame_ready { 1u64 } else { 0u64 }));
    assert(a.agenda()[7] == b.agenda()[7]);
}

impl Bus for SystemBus {
    type Board = Cart;

    open spec fn board(&self) -> Cart {
        self.cart
    }

    open spec fn cycles(&self) -> Seq<BusCycle> {
        self.log@
    }

    open spec fn inv(&self) -> bool {
        self.wf()
    }

    open spec fn clock(&self) -> int {
        self.scheduler.cycles as int
    }

    /// The scheduled events, then whether the PPU has a frame ready (1) or not (0).
    open spec fn agenda(&self) -> Seq<u64> {
        self.scheduler.agenda().push(if self.ppu.frame_ready { 1u64 } else { 0u64 })
    }

    open spec fn nmi_line(&self) -> bool {
        self.ppu.counters.nmi_requested
    }

    open spec fn irq_line(&self) -> bool {
        self.ppu.counters.in_irq
    }

    open spec fn peek_spec(&self, addr: int) -> Option<u8> {
        self.peek_spec_at((addr / 0x1_0000) as u8, (addr % 0x1_0000) as u16)
    }

    fn peek_at(&self, addr: Address) -> (r: Option<u8>) {
        proof { lemma_offset_of(addr); }
        self.peek(addr)
    }

    fn read_and_tick(&mut self, addr: Address) -> (data: u8)
        ensures
            old(self).ticked(access_cycles(addr.bank, addr.offset, old(self).fast_rom_enabled) as int).a_read_post(
                false, addr, (SystemBus { log: old(self).log, ..*final(self) }), data),
    {
        let cycles = self.memory_access_cycles(&addr);
        self.add_cycles(cycles as u64);
        let data = self.read::<false>(addr);
        self.log = Ghost(self.log@.push(BusCycle::Read(addr@ as u32, data)));
        data
    }

    fn write_and_tick(&mut self, addr: Address, data: u8)
        ensures
            old(self).ticked(access_cycles(addr.bank, addr.offset, old(self).fast_rom_enabled) as int).a_write_post(
                false, addr, data, (SystemBus { log: old(self).log, ..*final(self) })),
    {
        let cycles = self.memory_access_cycles(&addr);
        self.add_cycles(cycles as u64);
        self.write::<false>(addr, data);
        self.log = Ghost(self.log@.push(BusCycle::Write(addr@ as u32, data)));
    }

    fn add_io_cycles(&mut self, cycles: usize)
        ensures
            (SystemBus { log: old(self).log, ..*final(self) }) == old(self).ticked(6 * cycles),
    {
        self.add_cycles(cycles as u64 * 6);
        self.log = Ghost(self.log@.push(BusCycle::Io(cycles)));
    }

    fn fired_nmi(&mut self) -> (fired: bool) {
        self.ppu.nmi_requested()
    }

    fn fired_irq(&mut self) -> (fired: bool) {
        self.ppu.is_in_irq()
    }
}

} // verus!
