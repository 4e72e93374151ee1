use vstd::prelude::*;

use super::background::Bg;
use super::tile::{pixel, pixel_spec, BitPlane, Bpp2, Bpp4, Bpp8, TileMapEntry};
use super::{Ppu, FRAME_PIXELS, PAL_HEIGHT, WIDTH};

verus! {

/// The four background layers.
#[derive(Clone, Copy, Debug, PartialEq, Eq, Structural)]
pub enum BackgroundId {
    BG1,
    BG2,
    BG3,
    BG4,
}

impl BackgroundId {
    pub open spec fn index_spec(self) -> int {
        match self {
            BackgroundId::BG1 => 0,
            BackgroundId::BG2 => 1,
            BackgroundId::BG3 => 2,
            BackgroundId::BG4 => 3,
        }
    }

    pub fn index(self) -> (r: usize)
        ensures
            r == self.index_spec(),
    {
        match self {
            BackgroundId::BG1 => 0,
            BackgroundId::BG2 => 1,
            BackgroundId::BG3 => 2,
            BackgroundId::BG4 => 3,
        }
    }
}

/// A layer in priority order: a background at high (true) or low priority, or a sprite priority.
#[derive(Clone, Copy, Debug, PartialEq, Eq, Structural)]
pub enum Layer {
    Background(BackgroundId, bool),
    Object(u8),
}

/// The layers of a background mode, front to back.
pub open spec fn layer_order(mode: u8, bg3_priority: bool) -> Seq<Layer> {
    let s0 = Layer::Object(0);
    let s1 = Layer::Object(1);
    let s2 = Layer::Object(2);
    let s3 = Layer::Object(3);
    let l1 = Layer::Background(BackgroundId::BG1, false);
    let l2 = Layer::Background(BackgroundId::BG2, false);
    let l3 = Layer::Background(BackgroundId::BG3, false);
    let l4 = Layer::Background(BackgroundId::BG4, false);
    let h1 = Layer::Background(BackgroundId::BG1, true);
    let h2 = Layer::Background(BackgroundId::BG2, true);
    let h3 = Layer::Background(BackgroundId::BG3, true);
    let h4 = Layer::Background(BackgroundId::BG4, true);
    if mode == 0 {
        seq![s3, h1, h2, s2, l1, l2, s1, h3, h4, s0, l3, l4]
    } else if mode == 1 {
        if bg3_priority {
            seq![h3, s3, h1, h2, s2, l1, l2, s1, s0, l3]
        } else {
            seq![s3, h1, h2, s2, l1, l2, s1, h3, s0, l3]
        }
    } else {
        seq![s3, h1, s2, h2, s1, l1, s0, l2]
    }
}

/// How many bit planes a background uses in a mode; 0 when the mode does not draw it.
pub open spec fn bg_planes(mode: u8, bg: int) -> int {
    if mode == 0 {
        2
    } else if mode == 1 {
        if bg < 2 { 4 } else if bg == 2 { 2 } else { 0 }
    } else if mode == 2 {
        if bg < 2 { 4 } else { 0 }
    } else if mode == 3 {
        if bg == 0 { 8 } else if bg == 1 { 4 } else { 0 }
    } else {
        if bg == 0 { 8 } else if bg == 1 { 2 } else { 0 }
    }
}

/// The (color, priority) a background gives screen pixel `x` of line `screen_y`
/// with a tile format of `planes` bit planes; color 0 is transparent.
pub open spec fn bg_pixel(ppu: Ppu, planes: int, bg_idx: int, screen_y: int, x: int) -> (u16, bool) {
    let bg = ppu.background.backgrounds[bg_idx];
    let xx = x + bg.bg_hofs;
    let yy = screen_y + bg.bg_vofs;
    let tile = TileMapEntry(ppu.vram.word_at(bg.tile_map_addr_spec(xx / 8, yy / 8)));
    let col = if tile.flip_horizontal() { xx % 8 } else { 7 - xx % 8 };
    let row = if tile.flip_vertical() { 7 - yy % 8 } else { yy % 8 };
    let tile_addr = bg.tileset_addr + tile.tile_index() * (planes / 2) * 8;
    let bytes = Seq::new(planes as nat, |j: int| ppu.vram.plane_byte(tile_addr + row, j));
    let raw = pixel_spec(bytes, planes, col);
    let color = if raw == 0 {
        0
    } else {
        ppu.color.pixel_color_spec(planes, ppu.background.bg_mode.bg_mode(), bg_idx as u8, tile.palette_selection(), raw as u8)
    };
    (color, tile.priority())
}

/// What a background gives a pixel in the current mode; disabled or undrawn layers give nothing.
pub open spec fn layer_data(ppu: Ppu, bg_idx: int, screen_y: int, x: int) -> (u16, bool) {
    let planes = bg_planes(ppu.background.bg_mode.bg_mode(), bg_idx);
    if planes == 0 || !ppu.background.backgrounds[bg_idx].enabled_on_main_screen {
        (0, false)
    } else {
        bg_pixel(ppu, planes, bg_idx, screen_y, x)
    }
}

/// The color a layer shows at a pixel, if it is visible there.
pub open spec fn shown(ppu: Ppu, layer: Layer, screen_y: int, x: int) -> Option<u16> {
    match layer {
        Layer::Background(id, prio) => {
            let d = layer_data(ppu, id.index_spec(), screen_y, x);
            if ppu.background.backgrounds[id.index_spec()].enabled_on_main_screen && d.1 == prio && d.0 > 0 {
                Some(d.0)
            } else {
                None
            }
        },
        Layer::Object(_) => None,
    }
}

/// The frontmost visible layer among `layers[k..]` at a pixel, or the backdrop color.
pub open spec fn front_pixel(ppu: Ppu, layers: Seq<Layer>, k: int, screen_y: int, x: int) -> u16
    decreases layers.len() - k,
{
    if k >= layers.len() {
        ppu.color.cgram[0]
    } else {
        match shown(ppu, layers[k], screen_y, x) {
            Some(c) => c,
            None => front_pixel(ppu, layers, k + 1, screen_y, x),
        }
    }
}

/// The color line `screen_y` gets at column `x`.
pub open spec fn line_pixel(ppu: Ppu, screen_y: int, x: int) -> u16 {
    if ppu.ini_display.screen_brightness() == 0 || ppu.ini_display.force_blanking() {
        0
    } else {
        front_pixel(ppu, layer_order(ppu.background.bg_mode.bg_mode(), ppu.background.bg_mode.bg3_has_priority()), 0, screen_y, x)
    }
}

/// Pixel `x` of a rendered line of `screen_width` pixels: the backgrounds give the first
/// `WIDTH`; past them (in high-res mode) the backdrop shows, or black while blanked.
pub open spec fn row_pixel(ppu: Ppu, screen_y: int, x: int) -> u16 {
    if x < WIDTH {
        line_pixel(ppu, screen_y, x)
    } else if ppu.ini_display.screen_brightness() == 0 || ppu.ini_display.force_blanking() {
        0
    } else {
        ppu.color.cgram[0]
    }
}

impl Ppu {
    /// Renders line `screen_y` (1-based) into the frame buffer: `screen_width` pixels from the
    /// start of the line.
    pub fn render_scanline(&mut self, screen_y: usize)
        requires
            old(self).wf(),
            1 <= screen_y <= PAL_HEIGHT,
            (screen_y - 1) * WIDTH + old(self).screen_width <= FRAME_PIXELS,
            old(self).background.bg_mode.bg_mode() < 5,
        ensures
            final(self).wf(),
            ({
                let start = (screen_y - 1) * WIDTH;
                let w = old(self).screen_width as int;
                &&& forall|x: int| 0 <= x < w ==> #[trigger] final(self).frame_buffer@[start + x]
                    == row_pixel(*old(self), screen_y as int, x)
                &&& forall|i: int| 0 <= i < final(self).frame_buffer@.len() && !(start <= i < start + w)
                    ==> #[trigger] final(self).frame_buffer@[i] == old(self).frame_buffer@[i]
            }),
            final(self).background == old(self).background && final(self).color == old(self).color,
            final(self).vram == old(self).vram && final(self).counters == old(self).counters,
            final(self).oam == old(self).oam && final(self).mode7 == old(self).mode7,
            final(self).ini_display == old(self).ini_display && final(self).set_ini == old(self).set_ini,
            final(self).ppu1_mdr == old(self).ppu1_mdr && final(self).ppu2_mdr == old(self).ppu2_mdr,
            final(self).screen_width == old(self).screen_width && final(self).screen_height == old(self).screen_height,
            final(self).frame_ready == old(self).frame_ready,
    {
        let fb_line_start = (screen_y - 1) * WIDTH;
        let ghost old_ppu = *self;

        if self.ini_display.screen_brightness() == 0 || self.ini_display.force_blanking() {
            let width = self.screen_width;
            let mut x: usize = 0;
            while x < width
                invariant
                    fb_line_start == (screen_y - 1) * WIDTH,
                    1 <= screen_y <= PAL_HEIGHT,
                    width == old_ppu.screen_width,
                    fb_line_start + width <= FRAME_PIXELS,
                    x <= width,
                    self.wf(),
                    self.frame_buffer@.len() == old_ppu.frame_buffer@.len(),
                    forall|j: int| 0 <= j < x ==> #[trigger] self.frame_buffer@[fb_line_start + j] == 0,
                    forall|i: int| 0 <= i < self.frame_buffer@.len() && !(fb_line_start <= i < fb_line_start + x)
                        ==> #[trigger] self.frame_buffer@[i] == old_ppu.frame_buffer@[i],
                    self.background == old_ppu.background && self.color == old_ppu.color && self.vram == old_ppu.vram,
                    self.counters == old_ppu.counters && self.oam == old_ppu.oam && self.mode7 == old_ppu.mode7,
                    self.ini_display == old_ppu.ini_display && self.set_ini == old_ppu.set_ini,
                    self.ppu1_mdr == old_ppu.ppu1_mdr && self.ppu2_mdr == old_ppu.ppu2_mdr,
                    self.screen_width == old_ppu.screen_width && self.screen_height == old_ppu.screen_height,
                    self.frame_ready == old_ppu.frame_ready,
                    old_ppu.ini_display.screen_brightness() == 0 || old_ppu.ini_display.force_blanking(),
                decreases width - x,
            {
                self.frame_buffer.set(fb_line_start + x, 0);
                x = x + 1;
            }
            return;
        }

        let bg_data = self.decode_bg_mode(screen_y);
        let layers = self.layers();
        let backdrop = self.color.cgram[0];

        let mut x: usize = 0;
        while x < WIDTH
            invariant
                fb_line_start == (screen_y - 1) * WIDTH,
                1 <= screen_y <= PAL_HEIGHT,
                x <= WIDTH,
                self.wf(),
                *self == (Ppu { frame_buffer: self.frame_buffer, ..old_ppu }),
                self.frame_buffer@.len() == old_ppu.frame_buffer@.len(),
                bg_data@.len() == 4,
                forall|b: int, c: int| 0 <= b < 4 && 0 <= c < WIDTH ==> #[trigger] bg_data@[b]@[c] == layer_data(old_ppu, b, screen_y as int, c),
                forall|b: int| 0 <= b < 4 ==> (#[trigger] bg_data@[b])@.len() == WIDTH,
                layers@ == layer_order(old_ppu.background.bg_mode.bg_mode(), old_ppu.background.bg_mode.bg3_has_priority()),
                backdrop == old_ppu.color.cgram[0],
                !(old_ppu.ini_display.screen_brightness() == 0 || old_ppu.ini_display.force_blanking()),
                fb_line_start + old_ppu.screen_width <= FRAME_PIXELS,
                forall|j: int| 0 <= j < x ==> #[trigger] self.frame_buffer@[fb_line_start + j] == row_pixel(old_ppu, screen_y as int, j),
                forall|i: int| 0 <= i < self.frame_buffer@.len() && !(fb_line_start <= i < fb_line_start + x)
                    ==> #[trigger] self.frame_buffer@[i] == old_ppu.frame_buffer@[i],
            decreases WIDTH - x,
        {
            let mut color = backdrop;
            let mut k = layers.len();
            while k > 0
                invariant
                    k <= layers@.len(),
                    x < WIDTH,
                    1 <= screen_y <= PAL_HEIGHT,
                    bg_data@.len() == 4,
                    forall|b: int, c: int| 0 <= b < 4 && 0 <= c < WIDTH ==> #[trigger] bg_data@[b]@[c] == layer_data(old_ppu, b, screen_y as int, c),
                    forall|b: int| 0 <= b < 4 ==> (#[trigger] bg_data@[b])@.len() == WIDTH,
                    color == front_pixel(old_ppu, layers@, k as int, screen_y as int, x as int),
                    self.background == old_ppu.background,
                decreases k,
            {
                k = k - 1;
                match layers[k] {
                    Layer::Background(id, layer_priority) => {
                        let i = id.index();
                        if self.background.backgrounds[i].enabled_on_main_screen {
                            let (px, priority) = bg_data[i][x];
                            if layer_priority == priority && px > 0 {
                                color = px;
                            }
                        }
                    },
                    Layer::Object(_) => {},
                }
            }
            self.frame_buffer.set(fb_line_start + x, color);
            x = x + 1;
        }
        let width = self.screen_width;
        while x < width
            invariant
                fb_line_start == (screen_y - 1) * WIDTH,
                1 <= screen_y <= PAL_HEIGHT,
                WIDTH <= x <= width,
                width == old_ppu.screen_width,
                fb_line_start + width <= FRAME_PIXELS,
                self.wf(),
                *self == (Ppu { frame_buffer: self.frame_buffer, ..old_ppu }),
                self.frame_buffer@.len() == old_ppu.frame_buffer@.len(),
                backdrop == old_ppu.color.cgram[0],
                !(old_ppu.ini_display.screen_brightness() == 0 || old_ppu.ini_display.force_blanking()),
                forall|j: int| 0 <= j < x ==> #[trigger] self.frame_buffer@[fb_line_start + j] == row_pixel(old_ppu, screen_y as int, j),
                forall|i: int| 0 <= i < self.frame_buffer@.len() && !(fb_line_start <= i < fb_line_start + x)
                    ==> #[trigger] self.frame_buffer@[i] == old_ppu.frame_buffer@[i],
            decreases width - x,
        {
            self.frame_buffer.set(fb_line_start + x, backdrop);
            x = x + 1;
        }
    }

    /// The layers of the current mode, front to back.
    fn layers(&self) -> (r: Vec<Layer>)
        requires
            self.background.bg_mode.bg_mode() < 5,
        ensures
            r@ == layer_order(self.background.bg_mode.bg_mode(), self.background.bg_mode.bg3_has_priority()),
    {
        let s0 = Layer::Object(0);
        let s1 = Layer::Object(1);
        let s2 = Layer::Object(2);
        let s3 = Layer::Object(3);
        let l1 = Layer::Background(BackgroundId::BG1, false);
        let l2 = Layer::Background(BackgroundId::BG2, false);
        let l3 = Layer::Background(BackgroundId::BG3, false);
        let l4 = Layer::Background(BackgroundId::BG4, false);
        let h1 = Layer::Background(BackgroundId::BG1, true);
        let h2 = Layer::Background(BackgroundId::BG2, true);
        let h3 = Layer::Background(BackgroundId::BG3, true);
        let h4 = Layer::Background(BackgroundId::BG4, true);
        let mode = self.background.bg_mode.bg_mode();
        let r = if mode == 0 {
            vec![s3, h1, h2, s2, l1, l2, s1, h3, h4, s0, l3, l4]
        } else if mode == 1 {
            if self.background.bg_mode.bg3_has_priority() {
                vec![h3, s3, h1, h2, s2, l1, l2, s1, s0, l3]
            } else {
                vec![s3, h1, h2, s2, l1, l2, s1, h3, s0, l3]
            }
        } else {
            vec![s3, h1, s2, h2, s1, l1, s0, l2]
        };
        assert(r@ =~= layer_order(mode, self.background.bg_mode.bg3_has_priority()));
        r
    }

    /// Draws the backgrounds of the current mode for one line.
    fn decode_bg_mode(&self, screen_y: usize) -> (r: Vec<Vec<(u16, bool)>>)
        requires
            1 <= screen_y <= PAL_HEIGHT,
            self.background.bg_mode.bg_mode() < 5,
        ensures
            r@.len() == 4,
            forall|b: int| 0 <= b < 4 ==> (#[trigger] r@[b])@.len() == WIDTH,
            forall|b: int, c: int| 0 <= b < 4 && 0 <= c < WIDTH ==> #[trigger] r@[b]@[c] == layer_data(*self, b, screen_y as int, c),
    {
        let mode = self.background.bg_mode.bg_mode();
        let d0 = if mode == 0 {
            self.draw_background::<Bpp2>(screen_y, BackgroundId::BG1)
        } else if mode <= 2 {
            self.draw_background::<Bpp4>(screen_y, BackgroundId::BG1)
        } else {
            self.draw_background::<Bpp8>(screen_y, BackgroundId::BG1)
        };
        let d1 = if mode == 0 || mode == 4 {
            self.draw_background::<Bpp2>(screen_y, BackgroundId::BG2)
        } else {
            self.draw_background::<Bpp4>(screen_y, BackgroundId::BG2)
        };
        let d2 = if mode <= 1 {
            self.draw_background::<Bpp2>(screen_y, BackgroundId::BG3)
        } else {
            Self::empty_line()
        };
        let d3 = if mode == 0 {
            self.draw_background::<Bpp2>(screen_y, BackgroundId::BG4)
        } else {
            Self::empty_line()
        };
        let r = vec![d0, d1, d2, d3];
        assert forall|b: int, c: int| 0 <= b < 4 && 0 <= c < WIDTH implies #[trigger] r@[b]@[c] == layer_data(*self, b, screen_y as int, c) by {
            if b == 0 {
                assert(r@[b] == d0);
            } else if b == 1 {
                assert(r@[b] == d1);
            } else if b == 2 {
                assert(r@[b] == d2);
            } else {
                assert(r@[b] == d3);
            }
        }
        r
    }

    /// A line with nothing drawn.
    fn empty_line() -> (r: Vec<(u16, bool)>)
        ensures
            r@.len() == WIDTH,
            forall|c: int| 0 <= c < WIDTH ==> #[trigger] r@[c] == (0u16, false),
    {
        let mut v: Vec<(u16, bool)> = Vec::new();
        let mut x: usize = 0;
        while x < WIDTH
            invariant
                x <= WIDTH,
                v@.len() == x,
                forall|c: int| 0 <= c < x ==> #[trigger] v@[c] == (0u16, false),
            decreases WIDTH - x,
        {
            v.push((0, false));
            x = x + 1;
        }
        v
    }

    /// One background's (color, priority) for each pixel of a line.
    fn draw_background<BPP: BitPlane>(&self, screen_y: usize, bg_idx: BackgroundId) -> (r: Vec<(u16, bool)>)
        requires
            1 <= screen_y <= PAL_HEIGHT,
        ensures
            r@.len() == WIDTH,
            forall|c: int| 0 <= c < WIDTH ==> #[trigger] r@[c] == if !self.background.backgrounds[bg_idx.index_spec()].enabled_on_main_screen {
                (0u16, false)
            } else {
                bg_pixel(*self, BPP::planes_spec(), bg_idx.index_spec(), screen_y as int, c)
            },
    {
        let i = bg_idx.index();
        let bg = self.background.backgrounds[i];
        if !bg.enabled_on_main_screen {
            return Self::empty_line();
        }
        let mut v: Vec<(u16, bool)> = Vec::new();
        let y = screen_y + bg.bg_vofs as usize;
        let mut screen_x: usize = 0;
        while screen_x < WIDTH
            invariant
                screen_x <= WIDTH,
                v@.len() == screen_x,
                i == bg_idx.index_spec(),
                bg == self.background.backgrounds[i as int],
                bg.enabled_on_main_screen,
                y == screen_y + bg.bg_vofs,
                1 <= screen_y <= PAL_HEIGHT,
                forall|c: int| 0 <= c < screen_x ==> #[trigger] v@[c] == bg_pixel(*self, BPP::planes_spec(), i as int, screen_y as int, c),
            decreases WIDTH - screen_x,
        {
            let x = screen_x + bg.bg_hofs as usize;
            let tile_map_addr = bg.tile_map_addr(x / 8, y / 8);
            let tile = TileMapEntry(self.vram.get(tile_map_addr));
            let (col, row) = tile.adjust_coords_to_flipping(x, y);
            let wpr = BPP::words_per_row();
            let t = tile.tile_index() as usize;
            assert(t * wpr * 8 <= 1023 * 4 * 8) by (nonlinear_arith)
                requires
                    t < 1024,
                    1 <= wpr <= 4,
            ;
            let tile_addr = bg.tileset_addr as usize + t * wpr * 8;
            let planes = self.vram.planes::<BPP>(tile_addr + row);
            let ghost bytes = Seq::new(BPP::planes_spec() as nat, |j: int| self.vram.plane_byte((tile_addr + row) as int, j));
            assert(planes@ =~= bytes);
            let raw_pixel = pixel(planes.as_slice(), col);
            let px = if raw_pixel == 0 {
                0
            } else {
                proof {
                    crate::ppu::tile::lemma_pixel_bound(bytes, BPP::planes_spec(), col as int);
                    vstd::arithmetic::power2::lemma2_to64();
                }
                self.color.pixel_color::<BPP>(self.background.bg_mode.bg_mode(), i as u8, tile.palette_selection(), raw_pixel)
            };
            v.push((px, tile.priority()));
            screen_x = screen_x + 1;
        }
        v
    }
}

} // verus!
