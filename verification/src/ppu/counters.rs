use vstd::prelude::*;

use super::{Ppu, NTSC_HEIGHT, NTSC_SCANLINES, PAL_HEIGHT, PAL_SCANLINES, SCANLINE_CYCLES};
use crate::utils::bits::{bit, set_bit, with_bit};
use crate::utils::int_traits::{hi, lo, word, ManipulateU16};

verus! {

/// NMITIMEN ($4200).
#[derive(Clone, Copy)]
pub struct Nmitimen(pub u8);

impl Nmitimen {
    #[verifier::allow_in_spec]
    pub fn joypad_enable(&self) -> bool
        returns
            bit(self.0, 1),
    {
        self.0 % 2 == 1
    }

    /// Bits 4-5: 0 no timer IRQ, 1 on H, 2 on V, 3 on H and V.
    #[verifier::allow_in_spec]
    pub fn hv_timer_mode(&self) -> u8
        returns
            (self.0 / 16) % 4,
    {
        (self.0 / 16) % 4
    }

    #[verifier::allow_in_spec]
    pub fn nmi_enabled(&self) -> bool
        returns
            bit(self.0, 128),
    {
        self.0 >= 128
    }
}

/// RDNMI ($4210).
#[derive(Clone, Copy)]
pub struct Rdnmi(pub u8);

impl Rdnmi {
    #[verifier::allow_in_spec]
    pub fn cpu_version(&self) -> u8
        returns
            self.0 % 16,
    {
        self.0 % 16
    }

    #[verifier::allow_in_spec]
    pub fn in_nmi(&self) -> bool
        returns
            bit(self.0, 128),
    {
        self.0 >= 128
    }

    pub fn set_in_nmi(&mut self, v: bool)
        ensures
            final(self).0 == with_bit(old(self).0, 128, v),
    {
        self.0 = set_bit(self.0, 128, v);
    }
}

/// HVBJOY ($4212).
#[derive(Clone, Copy)]
pub struct HvStatus(pub u8);

impl HvStatus {
    #[verifier::allow_in_spec]
    pub fn in_hblank(&self) -> bool
        returns
            bit(self.0, 64),
    {
        (self.0 / 64) % 2 == 1
    }

    #[verifier::allow_in_spec]
    pub fn in_vblank(&self) -> bool
        returns
            bit(self.0, 128),
    {
        self.0 >= 128
    }

    pub fn set_in_hblank(&mut self, v: bool)
        ensures
            final(self).0 == with_bit(old(self).0, 64, v),
    {
        self.0 = set_bit(self.0, 64, v);
    }

    pub fn set_in_vblank(&mut self, v: bool)
        ensures
            final(self).0 == with_bit(old(self).0, 128, v),
    {
        self.0 = set_bit(self.0, 128, v);
    }
}

/// STAT78 ($213F).
#[derive(Clone, Copy)]
pub struct Stat78(pub u8);

impl Stat78 {
    #[verifier::allow_in_spec]
    pub fn ppu2_version(&self) -> u8
        returns
            self.0 % 16,
    {
        self.0 % 16
    }

    #[verifier::allow_in_spec]
    pub fn is_pal(&self) -> bool
        returns
            bit(self.0, 16),
    {
        (self.0 / 16) % 2 == 1
    }

    #[verifier::allow_in_spec]
    pub fn counter_latch(&self) -> bool
        returns
            bit(self.0, 64),
    {
        (self.0 / 64) % 2 == 1
    }

    #[verifier::allow_in_spec]
    pub fn odd_frame(&self) -> bool
        returns
            bit(self.0, 128),
    {
        self.0 >= 128
    }

    /// With the low nibble (the PPU2 version) replaced.
    pub fn with_ppu2_version(self, v: u8) -> (r: Self)
        requires
            v < 16,
        ensures
            r.0 == self.0 - self.0 % 16 + v,
    {
        Stat78(self.0 - self.0 % 16 + v)
    }

    pub fn with_is_pal(self, v: bool) -> (r: Self)
        ensures
            r.0 == with_bit(self.0, 16, v),
    {
        Stat78(set_bit(self.0, 16, v))
    }

    pub fn set_counter_latch(&mut self, v: bool)
        ensures
            final(self).0 == with_bit(old(self).0, 64, v),
    {
        self.0 = set_bit(self.0, 64, v);
    }

    pub fn set_odd_frame(&mut self, v: bool)
        ensures
            final(self).0 == with_bit(old(self).0, 128, v),
    {
        self.0 = set_bit(self.0, 128, v);
    }
}

/// The beam counters, timers and interrupt flags.
pub struct Counters {
    pub vertical_counter: usize,
    pub vblank_start: usize,
    pub vblank_end: usize,
    pub cycles_per_scanline: u16,
    pub frame_counter: u64,
    pub ophct_latch: bool,
    pub opvct_latch: bool,
    pub output_horizontal_counter: u16,
    pub output_vertical_counter: u16,
    pub h_timer_target: u16,
    pub v_timer_target: u16,
    pub nmitimen: Nmitimen,
    pub rdnmi: Rdnmi,
    pub stat78: Stat78,
    pub hv_status: HvStatus,
    pub in_irq: bool,
    pub nmi_requested: bool,
}

/// The dot (4 master cycles) of the scanline at a master-clock time.
pub open spec fn h_dot_spec(time: u64, cycles_per_scanline: u16) -> int {
    (time as int % cycles_per_scanline as int) / 4
}

impl Counters {

    /// Whether the H/V timer fires at master-clock time `time` (bits 4-5 of NMITIMEN choose
    /// no timer, the H position, the start of the V line, or both).
    pub open spec fn timer_hit(self, time: u64) -> bool {
        let h = h_dot_spec(time, self.cycles_per_scanline);
        let v_hit = self.vertical_counter as u16 == self.v_timer_target;
        let mode = self.nmitimen.hv_timer_mode();
        if mode == 0 {
            false
        } else if mode == 1 {
            h == self.h_timer_target
        } else if mode == 2 {
            v_hit && h == 0
        } else {
            v_hit && h == self.h_timer_target
        }
    }
    /// A scanline lasts a positive, bounded number of cycles; the line counter is below the
    /// last line of the frame, and vblank starts inside the picture area.
    pub open spec fn wf(&self) -> bool {
        &&& SCANLINE_CYCLES - 4 <= self.cycles_per_scanline <= SCANLINE_CYCLES + 4
        &&& self.vertical_counter < self.vblank_end <= PAL_SCANLINES + 1
        &&& self.vblank_start <= PAL_HEIGHT + 1
    }

    pub fn new(stat78: Stat78) -> (r: Self)
        ensures
            r.wf(),
            r.vblank_start == if stat78.is_pal() { PAL_HEIGHT + 1 } else { NTSC_HEIGHT + 1 },
            r.vblank_end == if stat78.is_pal() { PAL_SCANLINES } else { NTSC_SCANLINES },
            r.vertical_counter == 0 && r.frame_counter == 0,
            r.cycles_per_scanline == SCANLINE_CYCLES,
            r.h_timer_target == 0x1FF && r.v_timer_target == 0x1FF,
            r.nmitimen.0 == 0 && r.rdnmi.0 == 2 && r.hv_status.0 == 0 && r.stat78 == stat78,
            !r.ophct_latch && !r.opvct_latch && !r.in_irq && !r.nmi_requested,
            r.output_horizontal_counter == 0 && r.output_vertical_counter == 0,
    {
        let (vblank_start, vblank_end) = if stat78.is_pal() {
            (PAL_HEIGHT + 1, PAL_SCANLINES)
        } else {
            (NTSC_HEIGHT + 1, NTSC_SCANLINES)
        };
        Self {
            vertical_counter: 0,
            vblank_start,
            vblank_end,
            cycles_per_scanline: SCANLINE_CYCLES,
            frame_counter: 0,
            ophct_latch: false,
            opvct_latch: false,
            output_horizontal_counter: 0,
            output_vertical_counter: 0,
            h_timer_target: 0x1FF,
            v_timer_target: 0x1FF,
            nmitimen: Nmitimen(0),
            rdnmi: Rdnmi(0x2),
            stat78,
            hv_status: HvStatus(0),
            in_irq: false,
            nmi_requested: false,
        }
    }

    pub fn set_hblank(&mut self, in_hblank: bool)
        ensures
            *final(self) == (Counters { hv_status: HvStatus(with_bit(old(self).hv_status.0, 64, in_hblank)), ..*old(self) }),
    {
        self.hv_status.set_in_hblank(in_hblank);
    }

    pub fn h_dot(&self, time: u64) -> (r: u16)
        requires
            self.wf(),
        ensures
            r == h_dot_spec(time, self.cycles_per_scanline),
    {
        let as_master_cycles = time % (self.cycles_per_scanline as u64);
        (as_master_cycles / 4) as u16
    }

    /// Latches the beam position (SLHV read), unless a latch is already held.
    pub fn software_latch(&mut self, time: u64)
        requires
            old(self).wf(),
        ensures
            final(self).wf(),
            !old(self).stat78.counter_latch() ==> final(self).output_vertical_counter == old(self).vertical_counter as u16
                && final(self).output_horizontal_counter == h_dot_spec(time, old(self).cycles_per_scanline),
            old(self).stat78.counter_latch() ==> final(self).output_vertical_counter == old(self).output_vertical_counter
                && final(self).output_horizontal_counter == old(self).output_horizontal_counter,
            final(self).stat78.0 == with_bit(old(self).stat78.0, 64, true),
            final(self).vertical_counter == old(self).vertical_counter,
            final(self).cycles_per_scanline == old(self).cycles_per_scanline,
            final(self).frame_counter == old(self).frame_counter,
            final(self).in_irq == old(self).in_irq && final(self).nmi_requested == old(self).nmi_requested,
            final(self).ophct_latch == old(self).ophct_latch && final(self).opvct_latch == old(self).opvct_latch,
    {
        if !self.stat78.counter_latch() {
            self.output_vertical_counter = self.vertical_counter as u16;
            self.output_horizontal_counter = self.h_dot(time);
        }
        self.stat78.set_counter_latch(true);
    }

    pub fn reset_latches(&mut self)
        ensures
            *final(self) == (Counters {
                ophct_latch: false,
                opvct_latch: false,
                stat78: Stat78(with_bit(old(self).stat78.0, 64, false)),
                ..*old(self)
            }),
    {
        self.ophct_latch = false;
        self.opvct_latch = false;
        self.stat78.set_counter_latch(false);
    }

    /// Raises the timer IRQ when the beam is at the H and/or V target, as NMITIMEN selects.
    pub fn check_counters_timer_hit(&mut self, time: u64)
        requires
            old(self).wf(),
        ensures
            final(self).in_irq == old(self).timer_hit(time),
            ({
                let h = h_dot_spec(time, old(self).cycles_per_scanline);
                let v_hit = old(self).vertical_counter as u16 == old(self).v_timer_target;
                let mode = old(self).nmitimen.hv_timer_mode();
                *final(self) == (Counters {
                    in_irq: if mode == 0 {
                        false
                    } else if mode == 1 {
                        h == old(self).h_timer_target
                    } else if mode == 2 {
                        v_hit && h == 0
                    } else {
                        v_hit && h == old(self).h_timer_target
                    },
                    ..*old(self)
                })
            }),
    {
        let h_dot = self.h_dot(time);
        let v = self.vertical_counter as u16;
        self.in_irq = match self.nmitimen.hv_timer_mode() {
            0 => false,
            1 => h_dot == self.h_timer_target,
            2 => v == self.v_timer_target && h_dot == 0,
            _ => v == self.v_timer_target && h_dot == self.h_timer_target,
        };
    }

    /// Starts a frame: counts it, toggles the field, leaves vblank and sets where the next
    /// vblank starts and ends.
    pub fn start_frame(&mut self, overscan: bool, interlacing: bool)
        requires
            old(self).wf(),
        ensures
            final(self).wf(),
            final(self).frame_counter == (old(self).frame_counter + 1) % 0x1_0000_0000_0000_0000,
            final(self).stat78.0 == with_bit(old(self).stat78.0, 128, final(self).frame_counter % 2 == 1),
            final(self).vertical_counter == 0,
            final(self).rdnmi.0 == with_bit(old(self).rdnmi.0, 128, false),
            final(self).hv_status.0 == with_bit(old(self).hv_status.0, 128, false),
            final(self).vblank_start == if overscan { PAL_HEIGHT + 1 } else { NTSC_HEIGHT + 1 },
            final(self).vblank_end == (if old(self).stat78.is_pal() { PAL_SCANLINES } else { NTSC_SCANLINES })
                + if interlacing && !final(self).stat78.odd_frame() { 1int } else { 0 },
            final(self).cycles_per_scanline == old(self).cycles_per_scanline,
            final(self).nmitimen == old(self).nmitimen,
            final(self).in_irq == old(self).in_irq && final(self).nmi_requested == old(self).nmi_requested,
            final(self).h_timer_target == old(self).h_timer_target && final(self).v_timer_target == old(self).v_timer_target,
    {
        self.frame_counter = self.frame_counter.wrapping_add(1);
        self.stat78.set_odd_frame(self.frame_counter % 2 == 1);
        self.vertical_counter = 0;
        self.rdnmi.set_in_nmi(false);
        self.hv_status.set_in_vblank(false);
        self.vblank_start = if overscan { PAL_HEIGHT } else { NTSC_HEIGHT } + 1;
        proof {
            crate::utils::bits::lemma_with_bit(old(self).stat78.0, 128, self.frame_counter % 2 == 1, 16);
        }
        self.vblank_end = if self.stat78.is_pal() { PAL_SCANLINES } else { NTSC_SCANLINES } + if interlacing
            && !self.stat78.odd_frame() {
            1
        } else {
            0
        };
    }

    /// Sets the length of the scanline that starts: one is 4 cycles longer on odd interlaced
    /// PAL frames, one 4 cycles shorter on odd non-interlaced NTSC frames.
    pub fn start_scanline(&mut self, interlacing: bool)
        requires
            old(self).wf(),
        ensures
            final(self).wf(),
            *final(self) == (Counters {
                cycles_per_scanline: if old(self).vertical_counter == 311 && old(self).stat78.odd_frame()
                    && old(self).stat78.is_pal() && interlacing {
                    (SCANLINE_CYCLES + 4) as u16
                } else if old(self).vertical_counter == 240 && old(self).stat78.odd_frame()
                    && !old(self).stat78.is_pal() && !interlacing {
                    (SCANLINE_CYCLES - 4) as u16
                } else {
                    SCANLINE_CYCLES
                },
                ..*old(self)
            }),
    {
        if self.vertical_counter == 311 && self.stat78.odd_frame() && self.stat78.is_pal() && interlacing {
            self.cycles_per_scanline = SCANLINE_CYCLES + 4;
        } else if self.vertical_counter == 240 && self.stat78.odd_frame() && !self.stat78.is_pal() && !interlacing {
            self.cycles_per_scanline = SCANLINE_CYCLES - 4;
        } else {
            self.cycles_per_scanline = SCANLINE_CYCLES;
        }
    }

    /// Enters vblank: sets the vblank and NMI flags, and requests an NMI when enabled.
    pub fn enter_vblank(&mut self)
        ensures
            *final(self) == (Counters {
                hv_status: HvStatus(with_bit(old(self).hv_status.0, 128, true)),
                rdnmi: Rdnmi(with_bit(old(self).rdnmi.0, 128, true)),
                nmi_requested: old(self).nmi_requested || old(self).nmitimen.nmi_enabled(),
                ..*old(self)
            }),
    {
        self.hv_status.set_in_vblank(true);
        self.rdnmi.set_in_nmi(true);

        if self.nmitimen.nmi_enabled() {
            self.nmi_requested = true;
        }
    }
}


/// Counters other than `field`-selected ones are equal: the state a PPU register access leaves
/// outside the counters.
pub open spec fn ppu_unchanged_except_counters(a: Ppu, b: Ppu) -> bool {
    &&& a.background == b.background && a.color == b.color && a.mode7 == b.mode7
    &&& a.oam == b.oam && a.vram == b.vram && a.ppu1_mdr == b.ppu1_mdr
    &&& a.ini_display == b.ini_display && a.set_ini == b.set_ini
    &&& a.screen_width == b.screen_width && a.screen_height == b.screen_height
    &&& a.frame_buffer == b.frame_buffer && a.frame_ready == b.frame_ready
}

/// What OPHCT gives: the low byte of the latched H counter, or, on the second read,
/// its bit 8 under the open-bus bits 1-7.
pub open spec fn ophct_value(p: Ppu) -> u8 {
    if p.counters.ophct_latch {
        ((p.ppu2_mdr / 2) * 2 + hi(p.counters.output_horizontal_counter) % 2) as u8
    } else {
        lo(p.counters.output_horizontal_counter)
    }
}

/// What OPVCT gives, as `ophct_value` for the V counter.
pub open spec fn opvct_value(p: Ppu) -> u8 {
    if p.counters.opvct_latch {
        ((p.ppu2_mdr / 2) * 2 + hi(p.counters.output_vertical_counter) % 2) as u8
    } else {
        lo(p.counters.output_vertical_counter)
    }
}

/// What STAT78 gives: the status byte, with bit 5 also set where the open bus has it.
pub open spec fn status78_value(p: Ppu) -> u8 {
    if bit(p.ppu2_mdr, 32) {
        with_bit(p.counters.stat78.0, 32, true)
    } else {
        p.counters.stat78.0
    }
}

impl Ppu {
    /// OPHCT: low byte of the latched H counter, then its bit 8 (other bits open bus).
    pub fn ophct_read(&mut self) -> (r: u8)
        ensures
            r == ophct_value(*old(self)),
            final(self).ppu2_mdr == r,
            final(self).counters == (Counters { ophct_latch: !old(self).counters.ophct_latch, ..old(self).counters }),
            ppu_unchanged_except_counters(*final(self), *old(self)),
    {
        if self.counters.ophct_latch {
            self.ppu2_mdr = (self.ppu2_mdr / 2) * 2 + self.counters.output_horizontal_counter.high_byte() % 2;
        } else {
            self.ppu2_mdr = self.counters.output_horizontal_counter.low_byte();
        }
        self.counters.ophct_latch = !self.counters.ophct_latch;
        self.ppu2_mdr
    }

    /// OPVCT: low byte of the latched V counter, then its bit 8 (other bits open bus).
    pub fn opvct_read(&mut self) -> (r: u8)
        ensures
            r == opvct_value(*old(self)),
            final(self).ppu2_mdr == r,
            final(self).counters == (Counters { opvct_latch: !old(self).counters.opvct_latch, ..old(self).counters }),
            ppu_unchanged_except_counters(*final(self), *old(self)),
    {
        if self.counters.opvct_latch {
            self.ppu2_mdr = (self.ppu2_mdr / 2) * 2 + self.counters.output_vertical_counter.high_byte() % 2;
        } else {
            self.ppu2_mdr = self.counters.output_vertical_counter.low_byte();
        }
        self.counters.opvct_latch = !self.counters.opvct_latch;
        self.ppu2_mdr
    }

    /// HTIMEL.
    pub fn set_h_timer_low(&mut self, val: u8)
        ensures
            final(self).counters == (Counters { h_timer_target: word(val, hi(old(self).counters.h_timer_target)), ..old(self).counters }),
            ppu_unchanged_except_counters(*final(self), *old(self)),
            final(self).ppu2_mdr == old(self).ppu2_mdr,
    {
        self.counters.h_timer_target.set_low_byte(val);
    }

    /// HTIMEH.
    pub fn set_h_timer_high(&mut self, val: u8)
        ensures
            final(self).counters == (Counters { h_timer_target: word(lo(old(self).counters.h_timer_target), val), ..old(self).counters }),
            ppu_unchanged_except_counters(*final(self), *old(self)),
            final(self).ppu2_mdr == old(self).ppu2_mdr,
    {
        self.counters.h_timer_target.set_high_byte(val);
    }

    /// VTIMEL.
    pub fn set_v_timer_low(&mut self, val: u8)
        ensures
            final(self).counters == (Counters { v_timer_target: word(val, hi(old(self).counters.v_timer_target)), ..old(self).counters }),
            ppu_unchanged_except_counters(*final(self), *old(self)),
            final(self).ppu2_mdr == old(self).ppu2_mdr,
    {
        self.counters.v_timer_target.set_low_byte(val);
    }

    /// VTIMEH.
    pub fn set_v_timer_high(&mut self, val: u8)
        ensures
            final(self).counters == (Counters { v_timer_target: word(lo(old(self).counters.v_timer_target), val), ..old(self).counters }),
            ppu_unchanged_except_counters(*final(self), *old(self)),
            final(self).ppu2_mdr == old(self).ppu2_mdr,
    {
        self.counters.v_timer_target.set_high_byte(val);
    }

    /// NMITIMEN.
    pub fn write_nmitien(&mut self, val: u8)
        ensures
            final(self).counters == (Counters { nmitimen: Nmitimen(val), ..old(self).counters }),
            ppu_unchanged_except_counters(*final(self), *old(self)),
            final(self).ppu2_mdr == old(self).ppu2_mdr,
    {
        self.counters.nmitimen = Nmitimen(val);
    }

    /// RDNMI: returns the flag byte and acknowledges the NMI flag.
    pub fn read_nmi_flag(&mut self) -> (r: u8)
        ensures
            r == old(self).counters.rdnmi.0,
            final(self).counters == (Counters { rdnmi: Rdnmi(with_bit(old(self).counters.rdnmi.0, 128, false)), ..old(self).counters }),
            ppu_unchanged_except_counters(*final(self), *old(self)),
            final(self).ppu2_mdr == old(self).ppu2_mdr,
    {
        let result = self.counters.rdnmi.0;
        self.counters.rdnmi.set_in_nmi(false);
        result
    }

    /// HVBJOY.
    pub fn read_hv_status(&self) -> (r: u8)
        ensures
            r == self.counters.hv_status.0,
    {
        self.counters.hv_status.0
    }

    /// TIMEUP: bit 7 is the timer IRQ flag, which the read acknowledges.
    pub fn read_irq_flag(&mut self) -> (r: u8)
        ensures
            r == if old(self).counters.in_irq { 0x80u8 } else { 0 },
            final(self).counters == (Counters { in_irq: false, ..old(self).counters }),
            ppu_unchanged_except_counters(*final(self), *old(self)),
            final(self).ppu2_mdr == old(self).ppu2_mdr,
    {
        let result: u8 = if self.counters.in_irq { 0x80 } else { 0 };
        self.counters.in_irq = false;
        result
    }

    /// STAT78: the status byte with bit 5 open bus; resets the counter latches.
    pub fn status78_read(&mut self) -> (r: u8)
        ensures
            r == status78_value(*old(self)),
            final(self).ppu2_mdr == r,
            final(self).counters == (Counters {
                ophct_latch: false,
                opvct_latch: false,
                stat78: Stat78(with_bit(old(self).counters.stat78.0, 64, false)),
                ..old(self).counters
            }),
            ppu_unchanged_except_counters(*final(self), *old(self)),
    {
        let open_bus = (self.ppu2_mdr / 32) % 2 == 1;
        let status = self.counters.stat78.0;
        self.ppu2_mdr = if open_bus { set_bit(status, 32, true) } else { status };
        self.counters.reset_latches();
        self.ppu2_mdr
    }

    /// Takes the pending NMI request.
    pub fn nmi_requested(&mut self) -> (r: bool)
        ensures
            r == old(self).counters.nmi_requested,
            final(self).counters == (Counters { nmi_requested: false, ..old(self).counters }),
            ppu_unchanged_except_counters(*final(self), *old(self)),
            final(self).ppu2_mdr == old(self).ppu2_mdr,
    {
        let nmi_requested = self.counters.nmi_requested;
        self.counters.nmi_requested = false;
        nmi_requested
    }

    /// Takes the pending timer IRQ.
    pub fn is_in_irq(&mut self) -> (r: bool)
        ensures
            r == old(self).counters.in_irq,
            final(self).counters == (Counters { in_irq: false, ..old(self).counters }),
            ppu_unchanged_except_counters(*final(self), *old(self)),
            final(self).ppu2_mdr == old(self).ppu2_mdr,
    {
        let in_irq = self.counters.in_irq;
        self.counters.in_irq = false;
        in_irq
    }
}

} // verus!
