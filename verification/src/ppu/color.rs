use vstd::prelude::*;

use super::tile::BitPlane;
use crate::utils::int_traits::{hi, lemma_word_bytes, lo, word};

verus! {

/// CGWSEL ($2130).
#[derive(Clone, Copy)]
pub struct Cgwsel(pub u8);

impl Cgwsel {
    /// Bit 0: 8-bpp pixels give their color directly.
    #[verifier::allow_in_spec]
    pub fn direct_color_mode(&self) -> bool
        returns
            self.0 % 2 == 1,
    {
        self.0 % 2 == 1
    }

    /// Bit 1: color math adds the sub screen instead of the fixed color.
    #[verifier::allow_in_spec]
    pub fn addend_is_sub_screen(&self) -> bool
        returns
            (self.0 / 2) % 2 == 1,
    {
        (self.0 / 2) % 2 == 1
    }

    /// Bits 4-5.
    #[verifier::allow_in_spec]
    pub fn sub_screen_transparent_region(&self) -> u8
        returns
            (self.0 / 16) % 4,
    {
        (self.0 / 16) % 4
    }

    /// Bits 6-7.
    #[verifier::allow_in_spec]
    pub fn main_screen_black_region(&self) -> u8
        returns
            self.0 / 64,
    {
        self.0 / 64
    }
}

/// CGADSUB ($2131).
#[derive(Clone, Copy)]
pub struct Cgadsub(pub u8);

impl Cgadsub {
    /// Bits 0-5: color math on BG1-BG4, sprites and the backdrop.
    #[verifier::allow_in_spec]
    pub fn color_math_enabled(&self, layer: u8) -> bool
        returns
            (self.0 as int / (if layer == 0 { 1int } else if layer == 1 { 2 } else if layer == 2 { 4 } else if layer == 3 { 8 } else if layer == 4 { 16 } else { 32 })) % 2 == 1,
    {
        let d: u8 = if layer == 0 { 1 } else if layer == 1 { 2 } else if layer == 2 { 4 } else if layer == 3 { 8 } else if layer == 4 { 16 } else { 32 };
        (self.0 / d) % 2 == 1
    }

    /// Bit 6.
    #[verifier::allow_in_spec]
    pub fn halve_color_math_result(&self) -> bool
        returns
            (self.0 / 64) % 2 == 1,
    {
        (self.0 / 64) % 2 == 1
    }

    /// Bit 7.
    #[verifier::allow_in_spec]
    pub fn operation_is_sub(&self) -> bool
        returns
            self.0 >= 128,
    {
        self.0 >= 128
    }
}

/// COLDATA ($2132).
#[derive(Clone, Copy)]
pub struct ColorData(pub u8);

impl ColorData {
    /// Bits 0-4: the intensity.
    #[verifier::allow_in_spec]
    pub fn val(&self) -> u8
        returns
            self.0 % 32,
    {
        self.0 % 32
    }

    /// Bit 5.
    #[verifier::allow_in_spec]
    pub fn write_to_red_channel(&self) -> bool
        returns
            (self.0 / 32) % 2 == 1,
    {
        (self.0 / 32) % 2 == 1
    }

    /// Bit 6.
    #[verifier::allow_in_spec]
    pub fn write_to_green_channel(&self) -> bool
        returns
            (self.0 / 64) % 2 == 1,
    {
        (self.0 / 64) % 2 == 1
    }

    /// Bit 7.
    #[verifier::allow_in_spec]
    pub fn write_to_blue_channel(&self) -> bool
        returns
            self.0 >= 128,
    {
        self.0 >= 128
    }
}

/// Palette memory, its port and the color math registers.
pub struct Color {
    pub cgram: [u16; 0x100],
    pub cg_addr: u8,
    pub latch: Option<u8>,
    pub cgwsel: Cgwsel,
    pub cgadsub: Cgadsub,
    pub fixed_color: u16,
}

/// What the CGRAM port holds: the palette, the palette address and the byte latch.
#[verifier::ext_equal]
pub struct CgramPort {
    pub cgram: Seq<u16>,
    pub cg_addr: u8,
    pub latch: Option<u8>,
}

impl CgramPort {
    /// After CGADD.
    pub open spec fn addr_set(self, data: u8) -> CgramPort {
        CgramPort { cg_addr: data, latch: None, ..self }
    }

    /// After a CGDATA write: the first byte is latched, the second completes the entry and
    /// steps the address.
    pub open spec fn written(self, data: u8) -> CgramPort {
        match self.latch {
            None => CgramPort { latch: Some(data), ..self },
            Some(byte) => CgramPort {
                cgram: self.cgram.update(self.cg_addr as int, word(byte, data)),
                cg_addr: ((self.cg_addr + 1) % 256) as u8,
                latch: None,
            },
        }
    }

    /// A CGDATAREAD, with `mdr` on the open bus: the byte read and the port after it. The
    /// second read gives the high byte with bit 7 from the open bus.
    pub open spec fn read(self, mdr: u8) -> (u8, CgramPort) {
        match self.latch {
            None => (lo(self.cgram[self.cg_addr as int]), CgramPort { latch: Some(hi(self.cgram[self.cg_addr as int])), ..self }),
            Some(high) => (((high % 0x80) + (mdr / 0x80) * 0x80) as u8, CgramPort {
                cg_addr: ((self.cg_addr + 1) % 256) as u8,
                latch: None,
                ..self
            }),
        }
    }
}

/// A color written to CGRAM (low byte, then high byte) is read back, once the address is set
/// to it again: the low byte, then the high byte with bit 7 from the open bus, which the
/// first read left holding the low byte.
pub proof fn lemma_cgram_write_read(p: CgramPort, a: u8, low: u8, high: u8, mdr: u8)
    requires
        p.cgram.len() == 0x100,
    ensures
        ({
            let q = p.addr_set(a).written(low).written(high).addr_set(a);
            let (r1, q1) = q.read(mdr);
            let (r2, q2) = q1.read(r1);
            &&& r1 == low
            &&& r2 == (high % 0x80) + (low / 0x80) * 0x80
            &&& q2.cg_addr == (a + 1) % 256
        }),
{
    lemma_word_bytes(low, high);
}

impl Color {
    /// The CGRAM port of the color unit.
    pub open spec fn port(self) -> CgramPort {
        CgramPort { cgram: self.cgram@, cg_addr: self.cg_addr, latch: self.latch }
    }
}

/// An RGB555 color with one 5-bit channel (0 red, 1 green, 2 blue) replaced.
pub open spec fn with_channel(c: u16, channel: int, v: u8) -> u16 {
    let w: int = if channel == 0 { 1 } else if channel == 1 { 32 } else { 1024 };
    ((v as int % 32) * w + (c as int % w) + (c as int / (w * 32)) * (w * 32)) as u16
}

/// Replaces one 5-bit channel (0 red, 1 green, 2 blue) of a BGR555 color.
fn replace_channel(c: u16, channel: u8, v: u8) -> (r: u16)
    requires
        channel < 3,
    ensures
        r == with_channel(c, channel as int, v),
{
    let v5 = (v % 32) as u16;
    if channel == 0 {
        assert((c as int / 32) * 32 <= 65504) by (nonlinear_arith)
            requires
                c < 65536,
        ;
        v5 + (c / 32) * 32
    } else if channel == 1 {
        assert((c as int / 1024) * 1024 <= 64512 && c as int % 32 < 32) by (nonlinear_arith)
            requires
                c < 65536,
        ;
        v5 * 32 + c % 32 + (c / 1024) * 1024
    } else {
        assert((c as int / 0x8000) * 0x8000 <= 0x8000 && c as int % 1024 < 1024) by (nonlinear_arith)
            requires
                c < 65536,
        ;
        v5 * 1024 + c % 1024 + (c / 0x8000) * 0x8000
    }
}

/// The first palette entry a background uses, for a tile format with `planes` bit planes.
pub open spec fn palette_start(planes: int, num_colors: int, bg_mode: u8, bg_index: u8, palette: u8) -> int {
    if planes == 2 && bg_mode == 0 {
        bg_index * 32 + palette * num_colors
    } else if planes == 8 {
        0
    } else {
        palette * num_colors
    }
}

/// Direct color: palette bits `bgr` and index `BBGGGRRR` give BBb00:GGGg0:RRRr0.
pub open spec fn direct_color_spec(palette: u8, index: u8) -> u16 {
    let p = palette as int;
    let i = index as int;
    ((i / 64) * 0x2000 + ((p / 4) % 2) * 0x1000 + ((i / 8) % 8) * 0x80 + ((p / 2) % 2) * 0x40
        + (i % 8) * 4 + (p % 2) * 2) as u16
}

impl Color {
    /// The color of a background pixel in a tile format with `planes` bit planes.
    pub open spec fn pixel_color_spec(&self, planes: int, bg_mode: u8, bg_index: u8, palette: u8, index: u8) -> u16 {
        if planes == 8 && self.cgwsel.direct_color_mode() {
            direct_color_spec(palette, index)
        } else {
            self.cgram[palette_start(planes, if planes == 2 { 4 } else if planes == 4 { 16 } else { 255 }, bg_mode, bg_index, palette) + index]
        }
    }

    pub fn new() -> (r: Self)
        ensures
            r.cg_addr == 0 && r.latch.is_none() && r.cgwsel.0 == 0 && r.cgadsub.0 == 0 && r.fixed_color == 0,
            forall|i: int| 0 <= i < 0x100 ==> r.cgram[i] == 0,
    {
        Self { cgram: [0; 0x100], cg_addr: 0x00, latch: None, cgwsel: Cgwsel(0), cgadsub: Cgadsub(0), fixed_color: 0 }
    }

    /// CGADD: sets the palette address and resets the byte latch.
    pub fn cg_addr(&mut self, data: u8)
        ensures
            *final(self) == (Color { cg_addr: data, latch: None, ..*old(self) }),
            final(self).port() == old(self).port().addr_set(data),
    {
        self.cg_addr = data;
        self.latch = None;
    }

    /// CGDATA write: the first byte is latched, the second completes the entry and steps the address.
    pub fn cg_addr_write(&mut self, data: u8)
        ensures
            match old(self).latch {
                None => *final(self) == (Color { latch: Some(data), ..*old(self) }),
                Some(byte) => {
                    &&& final(self).cgram@ == old(self).cgram@.update(old(self).cg_addr as int, word(byte, data))
                    &&& final(self).cg_addr == (old(self).cg_addr + 1) % 256
                    &&& final(self).latch.is_none()
                    &&& final(self).cgwsel == old(self).cgwsel && final(self).cgadsub == old(self).cgadsub
                    &&& final(self).fixed_color == old(self).fixed_color
                },
            },
            final(self).port() == old(self).port().written(data),
    {
        match self.latch {
            None => self.latch = Some(data),
            Some(byte) => {
                self.cgram[self.cg_addr as usize] = byte as u16 + (data as u16) * 256;
                self.cg_addr = self.cg_addr.wrapping_add(1);
                self.latch = None;
            },
        }
    }

    /// COLDATA: sets the intensity of the selected channels of the fixed color.
    pub fn color_data_write(&mut self, color_data: ColorData)
        ensures
            ({
                let v = color_data.val();
                let c0 = old(self).fixed_color;
                let c1 = if color_data.write_to_red_channel() { with_channel(c0, 0, v) } else { c0 };
                let c2 = if color_data.write_to_green_channel() { with_channel(c1, 1, v) } else { c1 };
                let c3 = if color_data.write_to_blue_channel() { with_channel(c2, 2, v) } else { c2 };
                *final(self) == (Color { fixed_color: c3, ..*old(self) })
            }),
    {
        let v = color_data.val();
        if color_data.write_to_red_channel() {
            self.fixed_color = replace_channel(self.fixed_color, 0, v);
        }
        if color_data.write_to_green_channel() {
            self.fixed_color = replace_channel(self.fixed_color, 1, v);
        }
        if color_data.write_to_blue_channel() {
            self.fixed_color = replace_channel(self.fixed_color, 2, v);
        }
    }

    /// The color of a background pixel; index 0 is handled by the caller as transparent.
    pub fn pixel_color<T: BitPlane>(&self, bg_mode: u8, bg_index: u8, palette: u8, index: u8) -> (r: u16)
        requires
            bg_index < 4,
            palette < 8,
            T::planes_spec() == 2 ==> index < 4,
            T::planes_spec() == 4 ==> index < 16,
        ensures
            r == self.pixel_color_spec(T::planes_spec(), bg_mode, bg_index, palette, index),
    {
        let planes = T::planes();
        let num_colors = T::num_colors();
        let starting_palette_entry: u8 = if planes == 2 && bg_mode == 0 {
            bg_index * 32 + palette * num_colors
        } else if planes == 8 {
            0
        } else {
            palette * num_colors
        };

        if planes == 8 && self.cgwsel.direct_color_mode() {
            Self::direct_color(palette, index)
        } else {
            self.cgram[(starting_palette_entry + index) as usize]
        }
    }

    /// Direct color: palette bits `bgr` and index `BBGGGRRR` give the RGB555 color BBb00:GGGg0:RRRr0.
    pub fn direct_color(palette: u8, index: u8) -> (r: u16)
        ensures
            r == direct_color_spec(palette, index),
    {
        let p = palette as u16;
        let i = index as u16;
        (i / 64) * 0x2000 + ((p / 4) % 2) * 0x1000 + ((i / 8) % 8) * 0x80 + ((p / 2) % 2) * 0x40 + (i % 8) * 4 + (p % 2) * 2
    }
}

/// An RGB555 channel widened to 8 bits: 0 stays 0 and 31 becomes 255.
pub open spec fn widen5(v: int) -> int {
    v * 8 + v / 4
}

/// Converts an RGB555 color to 8-bit red, green and blue.
pub fn rgb555_to_rgb888(value: u16) -> (r: [u8; 3])
    ensures
        r[0] == widen5(value as int % 32),
        r[1] == widen5((value as int / 32) % 32),
        r[2] == widen5((value as int / 1024) % 32),
{
    let red = value % 32;
    let green = (value / 32) % 32;
    let blue = (value / 1024) % 32;
    [(red * 8 + red / 4) as u8, (green * 8 + green / 4) as u8, (blue * 8 + blue / 4) as u8]
}

/// Which CGRAM entry a background pixel reads. In mode 0 each of the four 2bpp backgrounds has
/// its own 32-entry block: background b, palette p, index i reads entry 32b + 4p + i, so pixels
/// of different backgrounds with the same palette and index read different entries. Other 2bpp
/// backgrounds read entry 4p + i, 4bpp ones 16p + i, and 8bpp ones (without direct color) entry i.
pub proof fn lemma_palette_entries(c: Color, b: u8, b2: u8, p: u8, i: u8)
    requires
        b < 4 && b2 < 4 && p < 8,
    ensures
        i < 4 ==> c.pixel_color_spec(2, 0, b, p, i) == c.cgram[32 * b + 4 * p + i],
        i < 4 && b != b2 ==> 32 * b + 4 * p + i != 32 * b2 + 4 * p + i,
        i < 4 ==> forall|m: u8| m != 0 ==> c.pixel_color_spec(2, m, b, p, i) == c.cgram[4 * p + i],
        i < 16 ==> forall|m: u8| c.pixel_color_spec(4, m, b, p, i) == c.cgram[16 * p + i],
        !c.cgwsel.direct_color_mode() ==> forall|m: u8| c.pixel_color_spec(8, m, b, p, i) == c.cgram[i as int],
{
}

} // verus!
