use vstd::prelude::*;

verus! {

/// BGMODE ($2105).
#[derive(Clone, Copy)]
pub struct BgMode(pub u8);

impl BgMode {
    /// Bits 0-2: the background mode.
    #[verifier::allow_in_spec]
    pub fn bg_mode(&self) -> u8
        returns
            self.0 % 8,
    {
        self.0 % 8
    }

    /// Bit 3: BG3 tiles of high priority go on top in mode 1.
    #[verifier::allow_in_spec]
    pub fn bg3_has_priority(&self) -> bool
        returns
            (self.0 / 8) % 2 == 1,
    {
        (self.0 / 8) % 2 == 1
    }

    /// Bits 4-7: 16x16 tiles for BG1-BG4.
    #[verifier::allow_in_spec]
    pub fn bg_tile_size(&self, bg: u8) -> bool
        returns
            (self.0 as int / (if bg == 0 { 16int } else if bg == 1 { 32 } else if bg == 2 { 64 } else { 128 })) % 2 == 1,
    {
        let d: u8 = if bg == 0 { 16 } else if bg == 1 { 32 } else if bg == 2 { 64 } else { 128 };
        (self.0 / d) % 2 == 1
    }
}

/// MOSAIC ($2106).
#[derive(Clone, Copy)]
pub struct Mosaic(pub u8);

impl Mosaic {
    /// Bits 0-3: mosaic on BG1-BG4.
    #[verifier::allow_in_spec]
    pub fn bg_enabled(&self, bg: u8) -> bool
        returns
            (self.0 as int / (if bg == 0 { 1int } else if bg == 1 { 2 } else if bg == 2 { 4 } else { 8 })) % 2 == 1,
    {
        let d: u8 = if bg == 0 { 1 } else if bg == 1 { 2 } else if bg == 2 { 4 } else { 8 };
        (self.0 / d) % 2 == 1
    }

    /// Bits 4-7: block size minus one.
    #[verifier::allow_in_spec]
    pub fn mosaic_size(&self) -> u8
        returns
            self.0 / 16,
    {
        self.0 / 16
    }
}

/// BGnSC ($2107-$210A): tile map base and size.
#[derive(Clone, Copy)]
pub struct BgSc(pub u8);

impl BgSc {
    /// Bit 0: two tile maps side by side.
    #[verifier::allow_in_spec]
    pub fn h_tilemap_count(&self) -> bool
        returns
            self.0 % 2 == 1,
    {
        self.0 % 2 == 1
    }

    /// Bit 1: two tile maps stacked.
    #[verifier::allow_in_spec]
    pub fn v_tilemap_count(&self) -> bool
        returns
            (self.0 / 2) % 2 == 1,
    {
        (self.0 / 2) % 2 == 1
    }

    /// Bits 2-7: tile map base in 1 K-word units.
    #[verifier::allow_in_spec]
    pub fn tilemap_addr(&self) -> u8
        returns
            self.0 / 4,
    {
        self.0 / 4
    }
}

/// One background layer.
#[derive(Clone, Copy)]
pub struct Bg {
    pub bg_sc: BgSc,
    pub tileset_addr: u16,
    pub bg_hofs: u16,
    pub bg_vofs: u16,
    pub enabled_on_main_screen: bool,
}

/// Which of the (up to four) 32x32 tile maps holds a tile.
pub open spec fn tilemap_index(sc: BgSc, tile_x: int, tile_y: int) -> int {
    let h = (tile_x / 32) % 2;
    let v = (tile_y / 32) % 2;
    if sc.h_tilemap_count() && sc.v_tilemap_count() {
        h + v * 2
    } else if sc.h_tilemap_count() {
        h
    } else if sc.v_tilemap_count() {
        v
    } else {
        0
    }
}

impl Bg {
    /// The VRAM word address of the tile map entry for a tile.
    pub open spec fn tile_map_addr_spec(&self, tile_x: int, tile_y: int) -> int {
        self.bg_sc.tilemap_addr() * 1024 + tilemap_index(self.bg_sc, tile_x, tile_y) * 1024
            + (tile_y % 32) * 32 + tile_x % 32
    }

    /// The VRAM word address of the tile map entry for a tile.
    pub fn tile_map_addr(&self, tile_x: usize, tile_y: usize) -> (r: usize)
        ensures
            r == self.tile_map_addr_spec(tile_x as int, tile_y as int),
            r < 0x1_1000,
    {
        let tilemap_idx = if self.bg_sc.h_tilemap_count() && self.bg_sc.v_tilemap_count() {
            (tile_x / 32) % 2 + ((tile_y / 32) % 2) * 2
        } else if self.bg_sc.h_tilemap_count() {
            (tile_x / 32) % 2
        } else if self.bg_sc.v_tilemap_count() {
            (tile_y / 32) % 2
        } else {
            0
        };
        let tile_idx = tilemap_idx * 1024 + (tile_y % 32) * 32 + (tile_x % 32);
        let tilemap_addr = (self.bg_sc.tilemap_addr() as usize) * 1024;
        tilemap_addr + tile_idx
    }
}

/// The four background layers with BGMODE, MOSAIC and the scroll latches.
pub struct Background {
    pub backgrounds: [Bg; 4],
    pub bg_mode: BgMode,
    pub mosaic: Mosaic,
    pub h_offset_latch: u16,
    pub offset_latch: u16,
}

impl Background {
    pub fn new() -> (r: Self)
        ensures
            r.bg_mode.0 == 0 && r.mosaic.0 == 0 && r.h_offset_latch == 0 && r.offset_latch == 0,
            forall|i: int| 0 <= i < 4 ==> (#[trigger] r.backgrounds[i]) == (Bg {
                bg_sc: BgSc(0),
                tileset_addr: 0,
                bg_hofs: 0,
                bg_vofs: 0,
                enabled_on_main_screen: false,
            }),
    {
        let bg = Bg { bg_sc: BgSc(0), tileset_addr: 0, bg_hofs: 0, bg_vofs: 0, enabled_on_main_screen: false };
        Self { backgrounds: [bg, bg, bg, bg], bg_mode: BgMode(0), mosaic: Mosaic(0), h_offset_latch: 0, offset_latch: 0 }
    }

    /// BGnSC: `addr_low_byte` is $07-$0A.
    pub fn set_bg_sc(&mut self, addr_low_byte: usize, data: u8)
        requires
            0x07 <= addr_low_byte <= 0x0A,
        ensures
            final(self).backgrounds@ == old(self).backgrounds@.update(
                addr_low_byte - 0x07,
                Bg { bg_sc: BgSc(data), ..old(self).backgrounds[addr_low_byte - 0x07] },
            ),
            final(self).bg_mode == old(self).bg_mode && final(self).mosaic == old(self).mosaic,
            final(self).h_offset_latch == old(self).h_offset_latch && final(self).offset_latch == old(self).offset_latch,
    {
        let idx = addr_low_byte - 0x07;
        self.backgrounds[idx].bg_sc = BgSc(data);
    }

    /// BG12NBA / BG34NBA: the low nibble is the tile base of BG `idx`, the high one of BG `idx + 1`,
    /// in 4 K-word units.
    pub fn set_bg_tileset_addr(&mut self, idx: usize, data: u8)
        requires
            idx == 0 || idx == 2,
        ensures
            final(self).backgrounds@ == old(self).backgrounds@
                .update(idx as int, Bg { tileset_addr: ((data % 16) as int * 0x1000) as u16, ..old(self).backgrounds[idx as int] })
                .update(idx + 1, Bg { tileset_addr: ((data / 16) as int * 0x1000) as u16, ..old(self).backgrounds[idx + 1] }),
            final(self).bg_mode == old(self).bg_mode && final(self).mosaic == old(self).mosaic,
            final(self).h_offset_latch == old(self).h_offset_latch && final(self).offset_latch == old(self).offset_latch,
    {
        self.backgrounds[idx].tileset_addr = ((data % 16) as u16) * 0x1000;
        self.backgrounds[idx + 1].tileset_addr = ((data / 16) as u16) * 0x1000;
    }

    /// BGnHOFS: `addr_low_byte` is $0D, $0F, $11 or $13; the write goes through the shared latches.
    pub fn set_bg_h_scroll_offset(&mut self, addr_low_byte: usize, data: u16)
        requires
            addr_low_byte == 0x0D || addr_low_byte == 0x0F || addr_low_byte == 0x11 || addr_low_byte == 0x13,
        ensures
            ({
                let idx = (addr_low_byte - 0x0D) / 2;
                let hofs = (data << 8u16) | (old(self).offset_latch & !7u16) | (old(self).h_offset_latch & 7u16);
                final(self).backgrounds@ == old(self).backgrounds@.update(idx, Bg { bg_hofs: hofs, ..old(self).backgrounds[idx] })
            }),
            final(self).h_offset_latch == data && final(self).offset_latch == data,
            final(self).bg_mode == old(self).bg_mode && final(self).mosaic == old(self).mosaic,
    {
        let idx = (addr_low_byte - 0x0D) / 2;
        self.backgrounds[idx].bg_hofs = (data << 8u16) | (self.offset_latch & !7u16) | (self.h_offset_latch & 7u16);
        self.h_offset_latch = data;
        self.offset_latch = data;
    }

    /// BGnVOFS: `addr_low_byte` is $0E, $10, $12 or $14.
    pub fn set_bg_v_scroll_offset(&mut self, addr_low_byte: usize, data: u16)
        requires
            addr_low_byte == 0x0E || addr_low_byte == 0x10 || addr_low_byte == 0x12 || addr_low_byte == 0x14,
        ensures
            ({
                let idx = (addr_low_byte - 0x0E) / 2;
                final(self).backgrounds@ == old(self).backgrounds@.update(
                    idx,
                    Bg { bg_vofs: (data << 8u16) | old(self).offset_latch, ..old(self).backgrounds[idx] },
                )
            }),
            final(self).offset_latch == data,
            final(self).h_offset_latch == old(self).h_offset_latch,
            final(self).bg_mode == old(self).bg_mode && final(self).mosaic == old(self).mosaic,
    {
        let idx = (addr_low_byte - 0x0E) / 2;
        self.backgrounds[idx].bg_vofs = (data << 8u16) | self.offset_latch;
        self.offset_latch = data;
    }
}

} // verus!
