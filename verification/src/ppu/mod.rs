use vstd::prelude::*;

pub mod background;
pub mod color;
pub mod counters;
pub mod mode7;
pub mod oam;
pub mod render;
pub mod tile;
pub mod vram;

use crate::cart::info::Model;
use crate::scheduler::{lemma_ppu_schedule_add, ppu_schedule, Event, PendingEvent, PpuEvent, Scheduler};
use crate::utils::bits::{bit, set_bit, with_bit};
use crate::utils::int_traits::{hi, lo, word, ManipulateU16};
use background::{Background, Bg, BgMode, BgSc, Mosaic};
use color::{Cgadsub, Cgwsel, Color, ColorData};
use counters::{h_dot_spec, ophct_value, opvct_value, status78_value, Counters, Stat78};
use mode7::{signed_word, Mode7};
use oam::{internal_from, Oam, Objsel};
use vram::{VideoPortControl, Vram};

verus! {

pub const SCANLINE_CYCLES: u16 = 1364;

pub const NTSC_SCANLINES: usize = 262;

pub const PAL_SCANLINES: usize = 312;

pub const WIDTH: usize = 256;

pub const NTSC_HEIGHT: usize = 224;

pub const PAL_HEIGHT: usize = 239;

/// Number of pixels in the frame buffer.
pub const FRAME_PIXELS: usize = 61184;

/// Dot at which a scanline's pixels are drawn.
pub const HDRAW_DOT: u64 = 22;

/// Dot at which horizontal blank starts.
pub const HBLANK_DOT: u64 = 274;

/// INIDISP ($2100).
#[derive(Clone, Copy)]
pub struct IniDisplay(pub u8);

impl IniDisplay {
    #[verifier::allow_in_spec]
    pub fn screen_brightness(&self) -> u8
        returns
            self.0 % 16,
    {
        self.0 % 16
    }

    #[verifier::allow_in_spec]
    pub fn force_blanking(&self) -> bool
        returns
            self.0 >= 128,
    {
        self.0 >= 128
    }
}

/// SETINI ($2133).
#[derive(Clone, Copy)]
pub struct SetIni(pub u8);

impl SetIni {
    #[verifier::allow_in_spec]
    pub fn screen_interlacing(&self) -> bool
        returns
            bit(self.0, 1),
    {
        self.0 % 2 == 1
    }

    #[verifier::allow_in_spec]
    pub fn obj_interlacing(&self) -> bool
        returns
            bit(self.0, 2),
    {
        (self.0 / 2) % 2 == 1
    }

    #[verifier::allow_in_spec]
    pub fn overscan_mode(&self) -> bool
        returns
            bit(self.0, 4),
    {
        (self.0 / 4) % 2 == 1
    }

    #[verifier::allow_in_spec]
    pub fn high_res_mode(&self) -> bool
        returns
            bit(self.0, 8),
    {
        (self.0 / 8) % 2 == 1
    }

    #[verifier::allow_in_spec]
    pub fn extbg_mode(&self) -> bool
        returns
            bit(self.0, 64),
    {
        (self.0 / 64) % 2 == 1
    }

    #[verifier::allow_in_spec]
    pub fn external_sync(&self) -> bool
        returns
            bit(self.0, 128),
    {
        self.0 >= 128
    }
}

/// The picture processing unit.
pub struct Ppu {
    pub background: Background,
    pub color: Color,
    pub counters: Counters,
    pub mode7: Mode7,
    pub oam: Oam,
    pub vram: Vram,
    pub ppu1_mdr: u8,
    pub ppu2_mdr: u8,
    pub ini_display: IniDisplay,
    pub set_ini: SetIni,
    pub screen_width: usize,
    pub screen_height: usize,
    /// RGB555 pixels, `WIDTH` per line.
    pub frame_buffer: Vec<u16>,
    pub frame_ready: bool,
}

/// The low byte of a 16-bit word shifted down by `k` bytes, for the signed 24-bit product.
pub open spec fn product_byte(p: i32, k: int) -> u8 {
    (((p as int) % 0x1_0000_0000) / (if k == 0 { 1int } else if k == 1 { 0x100 } else { 0x1_0000 }) % 0x100) as u8
}

/// The register a B-bus address selects: its low byte.
pub open spec fn ppu_reg(addr: u16) -> int {
    addr as int % 0x100
}

impl Ppu {
    pub open spec fn wf(&self) -> bool {
        &&& self.counters.wf()
        &&& self.frame_buffer@.len() == FRAME_PIXELS
        &&& self.screen_width == WIDTH || self.screen_width == 2 * WIDTH
    }

    pub fn new(model: Model) -> (r: Self)
        ensures
            r.wf(),
            r.counters.stat78.ppu2_version() == 2,
            r.counters.stat78.is_pal() == (model == Model::Pal),
            r.screen_width == WIDTH,
            r.screen_height == if model == Model::Pal { PAL_HEIGHT } else { NTSC_HEIGHT },
            !r.frame_ready,
            forall|i: int| 0 <= i < FRAME_PIXELS ==> r.frame_buffer@[i] == 0,
    {
        let stat78 = Stat78(0).with_ppu2_version(2).with_is_pal(model == Model::Pal);
        proof {
            crate::utils::bits::lemma_with_bit(2, 16, model == Model::Pal, 16);
        }
        Self {
            background: Background::new(),
            color: Color::new(),
            counters: Counters::new(stat78),
            mode7: Mode7::new(),
            oam: Oam::new(),
            vram: Vram::new(),
            ppu1_mdr: 0,
            ppu2_mdr: 0,
            ini_display: IniDisplay(0),
            set_ini: SetIni(0),
            screen_width: WIDTH,
            screen_height: if model == Model::Pal { PAL_HEIGHT } else { NTSC_HEIGHT },
            frame_buffer: vec![0; FRAME_PIXELS],
            frame_ready: false,
        }
    }

    /// SETINI: picture size follows the high-res, overscan and interlace bits.
    fn set_ini_write(&mut self, set_ini: SetIni)
        ensures
            final(self).screen_width == if set_ini.high_res_mode() { 2 * WIDTH } else { WIDTH as int },
            final(self).screen_height == (if set_ini.overscan_mode() { PAL_HEIGHT } else { NTSC_HEIGHT })
                * if set_ini.screen_interlacing() { 2int } else { 1 },
            final(self).set_ini == set_ini,
            final(self).counters == old(self).counters && final(self).frame_buffer == old(self).frame_buffer,
            final(self).frame_ready == old(self).frame_ready,
            final(self).background == old(self).background && final(self).color == old(self).color,
            final(self).mode7 == old(self).mode7 && final(self).oam == old(self).oam && final(self).vram == old(self).vram,
            final(self).ppu1_mdr == old(self).ppu1_mdr && final(self).ppu2_mdr == old(self).ppu2_mdr,
            final(self).ini_display == old(self).ini_display,
    {
        self.screen_width = if set_ini.high_res_mode() { WIDTH * 2 } else { WIDTH };
        self.screen_height = if set_ini.overscan_mode() { PAL_HEIGHT } else { NTSC_HEIGHT };
        if set_ini.screen_interlacing() {
            self.screen_height = self.screen_height * 2;
        }
        self.set_ini = set_ini;
    }

    /// TM: bits 0-3 enable BG1-BG4 on the main screen, bit 4 sprites.
    pub fn main_screen_layer_enable(&mut self, data: u8)
        ensures
            forall|i: int| 0 <= i < 4 ==> (#[trigger] final(self).background.backgrounds[i]).enabled_on_main_screen
                == ((data as int / (if i == 0 { 1int } else if i == 1 { 2 } else if i == 2 { 4 } else { 8 })) % 2 == 1),
            forall|i: int| 0 <= i < 4 ==> (#[trigger] final(self).background.backgrounds[i]).bg_sc
                == old(self).background.backgrounds[i].bg_sc,
            forall|i: int| 0 <= i < 4 ==> (#[trigger] final(self).background.backgrounds[i]).tileset_addr
                == old(self).background.backgrounds[i].tileset_addr,
            forall|i: int| 0 <= i < 4 ==> (#[trigger] final(self).background.backgrounds[i]).bg_hofs
                == old(self).background.backgrounds[i].bg_hofs,
            forall|i: int| 0 <= i < 4 ==> (#[trigger] final(self).background.backgrounds[i]).bg_vofs
                == old(self).background.backgrounds[i].bg_vofs,
            final(self).oam.objsel == old(self).oam.objsel,
            final(self).counters == old(self).counters && final(self).frame_buffer == old(self).frame_buffer,
            final(self).vram == old(self).vram && final(self).color == old(self).color,
            final(self).background.bg_mode == old(self).background.bg_mode,
            final(self).background.mosaic == old(self).background.mosaic,
            final(self).background.h_offset_latch == old(self).background.h_offset_latch,
            final(self).background.offset_latch == old(self).background.offset_latch,
            final(self).oam == old(self).oam && final(self).mode7 == old(self).mode7,
            final(self).ppu1_mdr == old(self).ppu1_mdr && final(self).ppu2_mdr == old(self).ppu2_mdr,
            final(self).ini_display == old(self).ini_display && final(self).set_ini == old(self).set_ini,
            final(self).screen_width == old(self).screen_width && final(self).screen_height == old(self).screen_height,
            final(self).frame_ready == old(self).frame_ready,
    {
        self.background.backgrounds[0].enabled_on_main_screen = data % 2 == 1;
        self.background.backgrounds[1].enabled_on_main_screen = (data / 2) % 2 == 1;
        self.background.backgrounds[2].enabled_on_main_screen = (data / 4) % 2 == 1;
        self.background.backgrounds[3].enabled_on_main_screen = (data / 8) % 2 == 1;
    }

    pub fn frame_counter(&self) -> (r: u64)
        ensures
            r == self.counters.frame_counter,
    {
        self.counters.frame_counter
    }

    pub fn frame_ready(&self) -> (r: bool)
        ensures
            r == self.frame_ready,
    {
        self.frame_ready
    }

    /// CGDATAREAD: low byte of the entry, then its high byte (bit 7 is open bus), stepping the address.
    pub fn cg_addr_read(&mut self) -> (r: u8)
        ensures
            (r, final(self).color.port()) == old(self).color.port().read(old(self).ppu2_mdr),
            final(self).ppu2_mdr == r,
            final(self).color.cgram == old(self).color.cgram,
            final(self).color.cgwsel == old(self).color.cgwsel && final(self).color.cgadsub == old(self).color.cgadsub,
            final(self).color.fixed_color == old(self).color.fixed_color,
            final(self).counters == old(self).counters && final(self).frame_buffer == old(self).frame_buffer,
            final(self).vram == old(self).vram && final(self).oam == old(self).oam,
            final(self).frame_ready == old(self).frame_ready,
            final(self).background == old(self).background && final(self).mode7 == old(self).mode7,
            final(self).ppu1_mdr == old(self).ppu1_mdr,
            final(self).ini_display == old(self).ini_display && final(self).set_ini == old(self).set_ini,
            final(self).screen_width == old(self).screen_width && final(self).screen_height == old(self).screen_height,
    {
        if let Some(high_byte) = self.color.latch {
            self.color.cg_addr = self.color.cg_addr.wrapping_add(1);
            self.color.latch = None;
            self.ppu2_mdr = (high_byte % 0x80) + (self.ppu2_mdr / 0x80) * 0x80;
            self.ppu2_mdr
        } else {
            let val = self.color.cgram[self.color.cg_addr as usize];
            self.color.latch = Some(val.high_byte());
            self.ppu2_mdr = val.low_byte();
            self.ppu2_mdr
        }
    }

    /// What a read of PPU register `addr` at master-clock time `time` answers (`r`) and leaves (`new`).
    pub open spec fn read_post(self, addr: u16, time: u64, new: Ppu, r: Option<u8>) -> bool {
        &&& new.frame_ready == self.frame_ready
        &&& ppu_reg(addr) == 0x34 ==> r == Some(product_byte(self.mode7.product(), 0))
        &&& ppu_reg(addr) == 0x35 ==> r == Some(product_byte(self.mode7.product(), 1))
        &&& ppu_reg(addr) == 0x36 ==> r == Some(product_byte(self.mode7.product(), 2))
        &&& ppu_reg(addr) == 0x37 ==> r == None::<u8>
        &&& ppu_reg(addr) == 0x37 && !self.counters.stat78.counter_latch()
            ==> new.counters.output_vertical_counter == self.counters.vertical_counter as u16
            && new.counters.output_horizontal_counter == h_dot_spec(time, self.counters.cycles_per_scanline)
        &&& ppu_reg(addr) == 0x37 ==> new.counters.stat78.counter_latch()
        &&& ppu_reg(addr) == 0x38 ==> r == Some(new.ppu1_mdr)
        &&& ppu_reg(addr) == 0x38 ==> r == Some(self.oam.port().read(self.ppu1_mdr).0)
            && new.oam.port() == self.oam.port().read(self.ppu1_mdr).1
        &&& ppu_reg(addr) == 0x38 && self.oam.internal_addr < 0x220
            ==> new.ppu1_mdr == self.oam.ram[self.oam.internal_addr as int]
        &&& ppu_reg(addr) == 0x38 && self.oam.internal_addr >= 0x220 ==> new.ppu1_mdr == self.ppu1_mdr
        &&& ppu_reg(addr) == 0x39 ==> r == Some(lo(self.vram.read_latch)) && new.ppu1_mdr == lo(self.vram.read_latch)
        &&& ppu_reg(addr) == 0x39 ==> r == Some(self.vram@.low_read().0) && new.vram@ == self.vram@.low_read().1
        &&& ppu_reg(addr) == 0x3A ==> r == Some(self.vram@.high_read().0) && new.vram@ == self.vram@.high_read().1
        &&& ppu_reg(addr) == 0x3A ==> r == Some(hi(self.vram.read_latch)) && new.ppu1_mdr == hi(self.vram.read_latch)
        &&& ppu_reg(addr) == 0x3B || ppu_reg(addr) == 0x3C || ppu_reg(addr) == 0x3D || ppu_reg(addr) == 0x3F
            ==> r == Some(new.ppu2_mdr)
        &&& ppu_reg(addr) == 0x3B ==> r == Some(self.color.port().read(self.ppu2_mdr).0)
            && new.color.port() == self.color.port().read(self.ppu2_mdr).1
        &&& ppu_reg(addr) == 0x3C ==> r == Some(ophct_value(self))
        &&& ppu_reg(addr) == 0x3D ==> r == Some(opvct_value(self))
        &&& ppu_reg(addr) == 0x3F ==> r == Some(status78_value(self))
        &&& (ppu_reg(addr) < 0x34 || ppu_reg(addr) == 0x3E) ==> r == Some(self.ppu1_mdr) && new == self
        &&& (0x34 <= ppu_reg(addr) <= 0x36) ==> new == self
        &&& ppu_reg(addr) != 0x38 ==> new.oam == self.oam
        &&& ppu_reg(addr) != 0x39 && ppu_reg(addr) != 0x3A ==> new.vram == self.vram
        &&& new.background == self.background && new.mode7 == self.mode7
        &&& new.frame_buffer == self.frame_buffer
        &&& new.counters.nmi_requested == self.counters.nmi_requested
        &&& new.counters.in_irq == self.counters.in_irq
    }

    /// Reads a PPU register ($2134-$213F, by the low byte of `addr`); `time` is the master clock.
    pub fn read(&mut self, addr: u16, time: u64) -> (r: Option<u8>)
        requires
            old(self).wf(),
        ensures
            final(self).wf(),
            old(self).read_post(addr, time, *final(self), r),
    {
        let reg = addr % 0x100;
        match reg {
            0x34 | 0x35 | 0x36 => {
                let p = self.mode7.do_multiplication();
                let u = ((p as i64 + 0x1_0000_0000) % 0x1_0000_0000) as u64;
                proof {
                    assert(u as int == (p as int) % 0x1_0000_0000) by (nonlinear_arith)
                        requires
                            u as int == (p as int + 0x1_0000_0000) % 0x1_0000_0000,
                            p as int + 0x1_0000_0000 >= 0,
                    ;
                }
                let d: u64 = if reg == 0x34 { 1 } else if reg == 0x35 { 0x100 } else { 0x1_0000 };
                Some(((u / d) % 0x100) as u8)
            },
            0x37 => {
                self.counters.software_latch(time);
                None
            },
            0x38 => {
                if self.oam.internal_addr < 0x220 {
                    self.ppu1_mdr = self.oam.oa_addr_read();
                }
                Some(self.ppu1_mdr)
            },
            0x39 => {
                self.ppu1_mdr = self.vram.vm_addl_read();
                Some(self.ppu1_mdr)
            },
            0x3A => {
                self.ppu1_mdr = self.vram.vm_addh_read();
                Some(self.ppu1_mdr)
            },
            0x3B => Some(self.cg_addr_read()),
            0x3C => Some(self.ophct_read()),
            0x3D => Some(self.opvct_read()),
            0x3F => Some(self.status78_read()),
            _ => Some(self.ppu1_mdr),
        }
    }

    /// What a write of `data` to PPU register `addr` leaves: `new` after `self`.
    pub open spec fn write_post(self, addr: u16, data: u8, new: Ppu) -> bool {
        &&& ppu_reg(addr) == 0x00 ==> new.ini_display == IniDisplay(data)
        &&& ppu_reg(addr) == 0x01 ==> new.oam.objsel == Objsel(data)
        &&& ppu_reg(addr) == 0x05 ==> new.background.bg_mode == BgMode(data)
        &&& ppu_reg(addr) == 0x06 ==> new.background.mosaic == Mosaic(data)
        &&& ppu_reg(addr) == 0x15 ==> new.vram.video_port_control == VideoPortControl(data)
        &&& ppu_reg(addr) == 0x30 ==> new.color.cgwsel == Cgwsel(data)
        &&& ppu_reg(addr) == 0x31 ==> new.color.cgadsub == Cgadsub(data)
        &&& ppu_reg(addr) == 0x33 ==> new.set_ini == SetIni(data)
        &&& ppu_reg(addr) == 0x02 ==> new.oam.port() == self.oam.port().addr_low_set(data)
        &&& ppu_reg(addr) == 0x03 ==> new.oam.port() == self.oam.port().addr_high_set(data)
        &&& ppu_reg(addr) == 0x04 ==> new.oam.port() == self.oam.port().written(data)
        &&& ppu_reg(addr) == 0x02 ==> new.oam.oa_addr == word(data, hi(self.oam.oa_addr))
            && new.oam.internal_addr == internal_from(new.oam.oa_addr) && new.oam.ram == self.oam.ram
        &&& ppu_reg(addr) == 0x03 ==> new.oam.oa_addr == word(lo(self.oam.oa_addr), data)
            && new.oam.internal_addr == internal_from(new.oam.oa_addr) && new.oam.ram == self.oam.ram
        &&& ppu_reg(addr) == 0x04 && self.oam.internal_addr >= 0x220 ==> new.oam == self.oam
        &&& ppu_reg(addr) == 0x04 && self.oam.internal_addr < 0x220 ==> ({
            let a = self.oam.internal_addr as int;
            &&& new.oam.latch == if a % 2 == 0 { data } else { self.oam.latch }
            &&& new.oam.ram@ == if a >= 0x200 {
                self.oam.ram@.update(a, data)
            } else if a % 2 == 1 {
                self.oam.ram@.update(a - 1, self.oam.latch).update(a, data)
            } else {
                self.oam.ram@
            }
            &&& new.oam.internal_addr == a + 1
        })
        &&& 0x07 <= ppu_reg(addr) <= 0x0A ==> new.background.backgrounds@ == self.background.backgrounds@.update(
            ppu_reg(addr) - 0x07, Bg { bg_sc: BgSc(data), ..self.background.backgrounds[ppu_reg(addr) - 0x07] })
        &&& ppu_reg(addr) == 0x0B || ppu_reg(addr) == 0x0C ==> ({
            let i = if ppu_reg(addr) == 0x0B { 0int } else { 2 };
            new.background.backgrounds@ == self.background.backgrounds@
                .update(i, Bg { tileset_addr: ((data % 16) as int * 0x1000) as u16, ..self.background.backgrounds[i] })
                .update(i + 1, Bg { tileset_addr: ((data / 16) as int * 0x1000) as u16, ..self.background.backgrounds[i + 1] })
        })
        &&& ppu_reg(addr) == 0x0D || ppu_reg(addr) == 0x0F || ppu_reg(addr) == 0x11 || ppu_reg(addr) == 0x13 ==> ({
            let i = (ppu_reg(addr) - 0x0D) / 2;
            let b = self.background;
            let hofs = ((data as u16) << 8u16) | (b.offset_latch & !7u16) | (b.h_offset_latch & 7u16);
            &&& new.background.backgrounds@ == b.backgrounds@.update(i, Bg { bg_hofs: hofs, ..b.backgrounds[i] })
            &&& new.background.h_offset_latch == data && new.background.offset_latch == data
        })
        &&& ppu_reg(addr) == 0x0E || ppu_reg(addr) == 0x10 || ppu_reg(addr) == 0x12 || ppu_reg(addr) == 0x14 ==> ({
            let i = (ppu_reg(addr) - 0x0E) / 2;
            let b = self.background;
            &&& new.background.backgrounds@ == b.backgrounds@.update(
                i, Bg { bg_vofs: ((data as u16) << 8u16) | b.offset_latch, ..b.backgrounds[i] })
            &&& new.background.offset_latch == data
        })
        &&& ppu_reg(addr) == 0x16 ==> new.vram@ == self.vram@.addr_low_set(data)
        &&& ppu_reg(addr) == 0x17 ==> new.vram@ == self.vram@.addr_high_set(data)
        &&& ppu_reg(addr) == 0x18 ==> new.vram@ == self.vram@.low_written(data)
        &&& ppu_reg(addr) == 0x19 ==> new.vram@ == self.vram@.high_written(data)
        &&& ppu_reg(addr) == 0x16 ==> new.vram.vm_addr == word(data, hi(self.vram.vm_addr))
            && new.vram.read_latch == self.vram.word_at(new.vram.port()) && new.vram.ram == self.vram.ram
        &&& ppu_reg(addr) == 0x17 ==> new.vram.vm_addr == word(lo(self.vram.vm_addr), data)
            && new.vram.read_latch == self.vram.word_at(new.vram.port()) && new.vram.ram == self.vram.ram
        &&& ppu_reg(addr) == 0x18 ==> ({
            let v = self.vram;
            &&& new.vram.ram@ == v.ram@.update(v.port() % 0x8000, word(data, hi(v.word_at(v.port()))))
            &&& new.vram.vm_addr == if v.video_port_control.increment_on_high_byte_access() { v.vm_addr } else { v.stepped() }
        })
        &&& ppu_reg(addr) == 0x19 ==> ({
            let v = self.vram;
            &&& new.vram.ram@ == v.ram@.update(v.port() % 0x8000, word(lo(v.word_at(v.port())), data))
            &&& new.vram.vm_addr == if v.video_port_control.increment_on_high_byte_access() { v.stepped() } else { v.vm_addr }
        })
        &&& ppu_reg(addr) == 0x1B ==> new.mode7.matrix_a == signed_word(data, self.mode7.mode_7_latch)
            && new.mode7.mode_7_latch == data
        &&& ppu_reg(addr) == 0x1C ==> new.mode7.matrix_b == signed_word(data, self.mode7.mode_7_latch)
            && new.mode7.mode_7_latch == data
        &&& ppu_reg(addr) == 0x21 ==> new.color == (Color { cg_addr: data, latch: None, ..self.color })
        &&& ppu_reg(addr) == 0x21 ==> new.color.port() == self.color.port().addr_set(data)
        &&& ppu_reg(addr) == 0x22 ==> new.color.port() == self.color.port().written(data)
        &&& ppu_reg(addr) == 0x22 ==> match self.color.latch {
            None => new.color == (Color { latch: Some(data), ..self.color }),
            Some(byte) => {
                &&& new.color.cgram@ == self.color.cgram@.update(self.color.cg_addr as int, word(byte, data))
                &&& new.color.cg_addr == (self.color.cg_addr + 1) % 256
                &&& new.color.latch.is_none()
            },
        }
        &&& ppu_reg(addr) == 0x2C ==> forall|i: int| 0 <= i < 4 ==> (#[trigger] new.background.backgrounds[i]).enabled_on_main_screen
            == ((data as int / (if i == 0 { 1int } else if i == 1 { 2 } else if i == 2 { 4 } else { 8 })) % 2 == 1)
        &&& ppu_reg(addr) != 0x00 ==> new.ini_display == self.ini_display
        &&& ppu_reg(addr) != 0x33 ==> new.set_ini == self.set_ini
            && new.screen_width == self.screen_width
            && new.screen_height == self.screen_height
        &&& !(0x01 <= ppu_reg(addr) <= 0x04) ==> new.oam == self.oam
        &&& !(0x05 <= ppu_reg(addr) <= 0x14 || ppu_reg(addr) == 0x2C) ==> new.background == self.background
        &&& !(0x15 <= ppu_reg(addr) <= 0x19) ==> new.vram == self.vram
        &&& !(ppu_reg(addr) == 0x1B || ppu_reg(addr) == 0x1C) ==> new.mode7 == self.mode7
        &&& !(ppu_reg(addr) == 0x21 || ppu_reg(addr) == 0x22 || (0x30 <= ppu_reg(addr) <= 0x32)) ==> new.color == self.color
        &&& new.counters == self.counters
        &&& new.frame_buffer == self.frame_buffer
        &&& new.frame_ready == self.frame_ready
        &&& new.ppu1_mdr == self.ppu1_mdr && new.ppu2_mdr == self.ppu2_mdr
    }

    /// Whether the HDraw event of line `y` renders it: a visible line in a tile mode (0-4)
    /// whose pixels fit in the frame buffer (the last PAL line does not in high-res mode).
    pub open spec fn line_drawn(self, y: int) -> bool {
        &&& 1 <= y < self.counters.vblank_start
        &&& self.background.bg_mode.bg_mode() < 5
        &&& (y - 1) * WIDTH + self.screen_width <= FRAME_PIXELS
    }

    /// Writes a PPU register ($2100-$2133, by the low byte of `addr`); other addresses are ignored.
    pub fn write(&mut self, addr: u16, data: u8)
        requires
            old(self).wf(),
        ensures
            final(self).wf(),
            old(self).write_post(addr, data, *final(self)),
    {
        let nibble = (addr % 0x100) as usize;
        match nibble {
            0x00 => self.ini_display = IniDisplay(data),
            0x01 => self.oam.objsel = Objsel(data),
            0x02 => self.oam.oa_addl(data),
            0x03 => self.oam.oa_addh(data),
            0x04 => {
                if self.oam.internal_addr < 0x220 {
                    self.oam.oa_addr_write(data);
                }
            },
            0x05 => self.background.bg_mode = BgMode(data),
            0x06 => self.background.mosaic = Mosaic(data),
            0x07 | 0x08 | 0x09 | 0x0A => self.background.set_bg_sc(nibble, data),
            0x0B => self.background.set_bg_tileset_addr(0, data),
            0x0C => self.background.set_bg_tileset_addr(2, data),
            0x0D | 0x0F | 0x11 | 0x13 => self.background.set_bg_h_scroll_offset(nibble, data as u16),
            0x0E | 0x10 | 0x12 | 0x14 => self.background.set_bg_v_scroll_offset(nibble, data as u16),
            0x15 => self.vram.video_port_control = VideoPortControl(data),
            0x16 => self.vram.vm_addl(data),
            0x17 => self.vram.vm_addh(data),
            0x18 => self.vram.vm_addl_write(data),
            0x19 => self.vram.vm_addh_write(data),
            0x1B => self.mode7.set_mode_7_matrix_a(data),
            0x1C => self.mode7.set_mode_7_matrix_b(data),
            0x21 => self.color.cg_addr(data),
            0x22 => self.color.cg_addr_write(data),
            0x2C => self.main_screen_layer_enable(data),
            0x30 => self.color.cgwsel = Cgwsel(data),
            0x31 => self.color.cgadsub = Cgadsub(data),
            0x32 => self.color.color_data_write(ColorData(data)),
            0x33 => self.set_ini_write(SetIni(data)),
            _ => {},
        }
    }
}

/// The time `d` master cycles after `t` (the clock stops at its largest value).
pub open spec fn later(t: u64, d: int) -> u64 {
    if t + d <= u64::MAX { (t + d) as u64 } else { u64::MAX }
}

fn later_exec(t: u64, d: u64) -> (r: u64)
    ensures
        r == later(t, d as int),
{
    if t <= u64::MAX - d { t + d } else { u64::MAX }
}

impl Ppu {
    /// Handles a PPU event due at `time` and schedules the next one. A scanline starts
    /// (NewScanline), is drawn at dot 22 (HDraw), and enters horizontal blank at dot 274
    /// (HBlankStart). The line after the last one of the frame starts a new frame; the line at
    /// the start of vblank enters vblank and makes the frame ready.
    pub fn handle_event(&mut self, scheduler: &mut Scheduler, event: PpuEvent, time: u64)
        requires
            old(self).wf(),
            old(scheduler).wf(),
        ensures
            final(self).wf(),
            final(scheduler).wf(),
            final(scheduler).cycles == old(scheduler).cycles,
            ppu_schedule(*old(scheduler)) ==> ppu_schedule(*final(scheduler)),
            event == PpuEvent::NewScanline ==> ({
                let next = if old(self).counters.vertical_counter + 1 == old(self).counters.vblank_end {
                    0
                } else {
                    old(self).counters.vertical_counter + 1
                };
                &&& final(self).counters.vertical_counter == next
                &&& final(self).frame_ready == (old(self).frame_ready || next == final(self).counters.vblank_start)
                &&& final(self).counters.nmi_requested == (old(self).counters.nmi_requested
                    || (next == final(self).counters.vblank_start && old(self).counters.nmitimen.nmi_enabled()))
                &&& final(self).counters.in_irq == final(self).counters.timer_hit(time)
                &&& final(scheduler).events@[1] == (PendingEvent { event: Event::Ppu(PpuEvent::HDraw), time: later(time, 4 * HDRAW_DOT as int) })
                &&& final(self).frame_buffer == old(self).frame_buffer
            }),
            event == PpuEvent::HDraw ==> ({
                let y = old(self).counters.vertical_counter;
                &&& final(self).counters.vertical_counter == y
                &&& final(self).counters.nmi_requested == old(self).counters.nmi_requested
                &&& final(self).counters.in_irq == old(self).counters.timer_hit(time)
                &&& final(self).frame_ready == old(self).frame_ready
                &&& final(scheduler).events@[1] == (PendingEvent {
                        event: Event::Ppu(PpuEvent::HBlankStart),
                        time: later(time, 4 * (HBLANK_DOT - HDRAW_DOT) as int),
                    })
                &&& old(self).line_drawn(y as int)
                    ==> forall|x: int| 0 <= x < old(self).screen_width ==> #[trigger] final(self).frame_buffer@[(y - 1) * WIDTH + x]
                        == render::row_pixel(*old(self), y as int, x)
                &&& old(self).line_drawn(y as int)
                    ==> forall|i: int| 0 <= i < FRAME_PIXELS && !((y - 1) * WIDTH <= i < (y - 1) * WIDTH + old(self).screen_width)
                        ==> #[trigger] final(self).frame_buffer@[i] == old(self).frame_buffer@[i]
                &&& !old(self).line_drawn(y as int) ==> final(self).frame_buffer == old(self).frame_buffer
            }),
            event == PpuEvent::HBlankStart ==> ({
                &&& final(self).counters.vertical_counter == old(self).counters.vertical_counter
                &&& bit(final(self).counters.hv_status.0, 64)
                &&& final(self).counters.nmi_requested == old(self).counters.nmi_requested
                &&& final(self).counters.in_irq == old(self).counters.timer_hit(time)
                &&& final(self).frame_ready == old(self).frame_ready
                &&& final(scheduler).events@[1] == (PendingEvent {
                        event: Event::Ppu(PpuEvent::NewScanline),
                        time: later(time, old(self).counters.cycles_per_scanline - 4 * HBLANK_DOT as int),
                    })
                &&& final(self).frame_buffer == old(self).frame_buffer
            }),
    {
        match event {
            PpuEvent::NewScanline => {
                self.counters.set_hblank(false);
                let next = self.counters.vertical_counter + 1;
                if next == self.counters.vblank_end {
                    let overscan = self.set_ini.overscan_mode();
                    let interlacing = self.set_ini.screen_interlacing();
                    self.counters.start_frame(overscan, interlacing);
                } else {
                    self.counters.vertical_counter = next;
                }
                let interlacing = self.set_ini.screen_interlacing();
                self.counters.start_scanline(interlacing);
                if self.counters.vertical_counter == self.counters.vblank_start {
                    self.counters.enter_vblank();
                    self.frame_ready = true;
                }
                self.counters.check_counters_timer_hit(time);
                let at = later_exec(time, 4 * HDRAW_DOT);
                let ghost s0 = *scheduler;
                scheduler.add_event(Event::Ppu(PpuEvent::HDraw), at);
                proof {
                    if ppu_schedule(*old(scheduler)) {
                        lemma_ppu_schedule_add(s0, *scheduler, Event::Ppu(PpuEvent::HDraw), at);
                    }
                }
            },
            PpuEvent::HDraw => {
                let y = self.counters.vertical_counter;
                if 1 <= y && y < self.counters.vblank_start && self.background.bg_mode.bg_mode() < 5
                    && (y - 1) * WIDTH + self.screen_width <= FRAME_PIXELS {
                    self.render_scanline(y);
                }
                self.counters.check_counters_timer_hit(time);
                let at = later_exec(time, 4 * (HBLANK_DOT - HDRAW_DOT));
                let ghost s0 = *scheduler;
                scheduler.add_event(Event::Ppu(PpuEvent::HBlankStart), at);
                proof {
                    if ppu_schedule(*old(scheduler)) {
                        lemma_ppu_schedule_add(s0, *scheduler, Event::Ppu(PpuEvent::HBlankStart), at);
                    }
                }
            },
            PpuEvent::HBlankStart => {
                self.counters.set_hblank(true);
                self.counters.check_counters_timer_hit(time);
                let rest = self.counters.cycles_per_scanline as u64 - 4 * HBLANK_DOT;
                let at = later_exec(time, rest);
                let ghost s0 = *scheduler;
                scheduler.add_event(Event::Ppu(PpuEvent::NewScanline), at);
                proof {
                    if ppu_schedule(*old(scheduler)) {
                        lemma_ppu_schedule_add(s0, *scheduler, Event::Ppu(PpuEvent::NewScanline), at);
                    }
                }
            },
        }
    }
}

} // verus!
