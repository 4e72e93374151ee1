use vstd::prelude::*;

pub mod apu;
pub mod bus;
pub mod cart;
pub mod emu;
pub mod ppu;
pub mod scheduler;
pub mod utils;
pub mod w65c816;

use cart::header::{found_layout, guess_sizes_ok, header_found, header_window, Header};
use cart::{is_rom_mask, Cart};
use cart::info::Model;

verus! {

/// A RAM size byte below 22 gives a RAM size that fits in 32 bits and is not zero.
proof fn lemma_ram_size_nonzero(e: u8)
    requires
        e < 22,
    ensures
        (0x400u32 << e) >= 1,
{
    assert((0x400u32 << e) >= 1) by (bit_vector)
        requires
            e < 22,
    ;
}

/// Builds a cartridge from a ROM image: finds its header (ExHiROM, HiROM, then LoROM) and
/// takes the model from its region; the ROM is addressed through the least power-of-two mask that covers it.
pub fn load_cart(rom: &[u8], ram: Vec<u8>) -> (r: Cart)
    requires
        0x8000 <= rom@.len() <= isize::MAX,
        guess_sizes_ok(rom@),
        header_found(rom@),
        header_window(rom@, found_layout(rom@))[0x28] < 22,
    ensures
        r.header.mapper.base_spec() == found_layout(rom@),
        r.header.parsed_from(header_window(rom@, found_layout(rom@))),
        r.header.ram_size == 0x400u32 << header_window(rom@, found_layout(rom@))[0x28],
        r.model == (if r.header.country.is_pal() { Model::Pal } else { Model::Ntsc }),
        r.rom@ == rom@,
        r.ram == ram,
        is_rom_mask(rom@.len() as int, r.rom_mask as int),
        r.ram_mask == r.header.ram_size - 1,
{
    let image = vstd::slice::slice_to_vec(rom);
    let found = Header::guess_from_rom(&image);
    let header = match found {
        Some(h) => h,
        None => vstd::pervasive::unreached(),
    };
    proof {
        lemma_ram_size_nonzero(header_window(rom@, found_layout(rom@))[0x28]);
    }
    Cart::new(header, rom, ram)
}

/// Builds a cartridge from a ROM image when it can be loaded (see `loadable`); `None` otherwise.
pub fn try_load_cart(rom: &[u8], ram: Vec<u8>) -> (r: Option<Cart>)
    ensures
        r.is_some() == loadable_spec(rom@),
        r matches Some(c) ==> c.rom@ == rom@ && c.ram == ram && c.header.mapper.base_spec() == found_layout(rom@)
            && c.header.parsed_from(header_window(rom@, found_layout(rom@)))
            && c.model == (if c.header.country.is_pal() { Model::Pal } else { Model::Ntsc }),
{
    if cart::header::loadable(rom) {
        Some(load_cart(rom, ram))
    } else {
        None
    }
}

/// The inputs `load_cart` accepts.
pub open spec fn loadable_spec(rom: Seq<u8>) -> bool {
    0x8000 <= rom.len() <= isize::MAX && guess_sizes_ok(rom) && header_found(rom)
        && header_window(rom, found_layout(rom))[0x28] < 22
}

} // verus!
