use vstd::prelude::*;
use vstd::string::*;
use vstd::utf8::{decode_utf8, valid_utf8};

use super::info::{Chipset, Mapper, Region};

verus! {

/// Whether a character has the Unicode White_Space property.
pub open spec fn white_space(c: char) -> bool {
    let v = c as u32;
    ||| 0x09 <= v <= 0x0D
    ||| v == 0x20 || v == 0x85 || v == 0xA0 || v == 0x1680
    ||| 0x2000 <= v <= 0x200A
    ||| v == 0x2028 || v == 0x2029 || v == 0x202F || v == 0x205F || v == 0x3000
}

/// Whether `r` is `s` without its trailing whitespace: the longest prefix of `s` after which
/// only White_Space characters remain.
pub open spec fn trimmed_end_of(s: Seq<char>, r: Seq<char>) -> bool {
    &&& r.len() <= s.len()
    &&& r == s.subrange(0, r.len() as int)
    &&& forall|i: int| r.len() <= i < s.len() ==> white_space(#[trigger] s[i])
    &&& r.len() == 0 || !white_space(r.last())
}

/// `std::str::from_utf8`: succeeds exactly on valid UTF-8, and the string decodes those bytes.
#[verifier::external_body]
fn str_from_utf8(bytes: &[u8]) -> (r: Option<&str>)
    ensures
        r.is_some() == valid_utf8(bytes@),
        r matches Some(s) ==> s@ == decode_utf8(bytes@),
{
    std::str::from_utf8(bytes).ok()
}

/// `str::trim_end`: as std documents it, the string with trailing whitespace (the Unicode
/// White_Space characters) removed, which is a prefix of it.
#[verifier::external_body]
fn str_trim_end<'a>(s: &'a str) -> (r: &'a str)
    ensures
        trimmed_end_of(s@, r@),
{
    s.trim_end()
}

/// The cartridge header, read from the 0x50 bytes that end the header page.
pub struct Header {
    pub title: String,
    pub fast_rom: bool,
    pub mapper: Mapper,
    pub chipset: Chipset,
    pub rom_size: u32,
    pub ram_size: u32,
    pub country: Region,
    pub dev_id: u8,
    pub version: u8,
}

/// The mapper a map-mode byte names, if any.
pub open spec fn mapper_from_code(raw: u8) -> Option<Mapper> {
    let code = raw % 16;
    if code == 0 {
        Some(Mapper::LoROM)
    } else if code == 1 {
        Some(Mapper::HiROM)
    } else if code == 2 {
        Some(Mapper::SDD1ROM)
    } else if code == 3 {
        Some(Mapper::SA1ROM)
    } else if code == 5 {
        Some(Mapper::ExHiROM)
    } else {
        None
    }
}

/// The 21 title bytes of a header.
pub open spec fn title_bytes(bytes: Seq<u8>) -> Seq<u8> {
    bytes.subrange(0x10, 0x25)
}

/// Whether header bytes describe a cartridge laid out as `expected`:
/// a UTF-8 title and a known map mode whose base layout is `expected`.
pub open spec fn header_recognized(bytes: Seq<u8>, expected: Mapper) -> bool {
    &&& valid_utf8(title_bytes(bytes))
    &&& mapper_from_code(bytes[0x25]) matches Some(m)
    &&& m.base_spec() == expected
}

/// Whether the ROM and RAM size exponents of a header can be shifted into a `u32`.
pub open spec fn sizes_in_range(bytes: Seq<u8>) -> bool {
    bytes[0x27] < 32 && bytes[0x28] < 32
}

impl Header {
    /// Whether this header is the one the header bytes give: the title without its trailing
    /// whitespace, the map mode, the ROM speed, the two sizes, the region, the developer id
    /// and the version (the chipset byte is not decoded).
    pub open spec fn parsed_from(self, bytes: Seq<u8>) -> bool {
        &&& trimmed_end_of(decode_utf8(title_bytes(bytes)), self.title@)
        &&& Some(self.mapper) == mapper_from_code(bytes[0x25])
        &&& self.fast_rom == ((bytes[0x25] / 16) % 2 == 1)
        &&& !self.chipset.has_coprocessor && !self.chipset.has_ram && !self.chipset.has_battery
        &&& self.rom_size == 0x400u32 << bytes[0x27]
        &&& self.ram_size == 0x400u32 << bytes[0x28]
        &&& self.country == Region::from_code_spec(bytes[0x29])
        &&& self.dev_id == bytes[0x2A]
        &&& self.version == bytes[0x2B]
    }

    /// Parses a header; `None` when the title is not UTF-8, the map mode is unknown or it
    /// does not match `expected_mapper`.
    pub fn new(bytes: &[u8], expected_mapper: Mapper) -> (r: Option<Self>)
        requires
            bytes@.len() >= 0x2C,
            header_recognized(bytes@, expected_mapper) ==> sizes_in_range(bytes@),
        ensures
            r.is_some() == header_recognized(bytes@, expected_mapper),
            r matches Some(h) ==> h.parsed_from(bytes@),
    {
        let title_slice = &bytes[0x10..0x25];
        let title_str = match str_from_utf8(title_slice) {
            Some(s) => s,
            None => return None,
        };
        let title = str_trim_end(title_str).to_owned();

        let raw_mapper = bytes[0x25];
        let mapper = match raw_mapper % 16 {
            0 => Mapper::LoROM,
            1 => Mapper::HiROM,
            2 => Mapper::SDD1ROM,
            3 => Mapper::SA1ROM,
            5 => Mapper::ExHiROM,
            _ => return None,
        };
        if mapper.get_base_mapper() != expected_mapper {
            return None;
        }
        let fast_rom = (raw_mapper / 16) % 2 == 1;

        // The chipset byte (0x26) is not decoded yet.
        let chipset = Chipset { has_coprocessor: false, has_ram: false, has_battery: false };

        let rom_size = 0x400u32 << bytes[0x27];
        let ram_size = 0x400u32 << bytes[0x28];

        let country = Region::from_code(bytes[0x29]);

        let dev_id = bytes[0x2A];
        let version = bytes[0x2B];

        Some(Header { title, fast_rom, mapper, chipset, rom_size, ram_size, country, dev_id, version })
    }

    /// Finds the header: ExHiROM at $40FFB0, then HiROM at $FFB0, then LoROM at $7FB0.
    pub fn guess_from_rom(rom: &Vec<u8>) -> (r: Option<Self>)
        requires
            rom@.len() >= 0x8000,
            guess_sizes_ok(rom@),
        ensures
            r == None::<Self> <==> !header_found(rom@),
            r matches Some(h) ==> h.mapper.base_spec() == found_layout(rom@),
            r matches Some(h) ==> h.parsed_from(header_window(rom@, found_layout(rom@))),
    {
        if rom.len() >= 0x41_0000 {
            let h = Header::new(&rom.as_slice()[0x40_FFB0..0x41_0000], Mapper::ExHiROM);
            if h.is_some() {
                return h;
            }
        }
        if rom.len() >= 0x1_0000 {
            let h = Header::new(&rom.as_slice()[0xFFB0..0x1_0000], Mapper::HiROM);
            if h.is_some() {
                return h;
            }
        }
        Header::new(&rom.as_slice()[0x7FB0..0x8000], Mapper::LoROM)
    }
}

/// The header window of a layout inside a ROM image.
pub open spec fn header_window(rom: Seq<u8>, layout: Mapper) -> Seq<u8> {
    match layout {
        Mapper::ExHiROM => rom.subrange(0x40_FFB0, 0x41_0000),
        Mapper::HiROM => rom.subrange(0xFFB0, 0x1_0000),
        _ => rom.subrange(0x7FB0, 0x8000),
    }
}

/// Whether a ROM image holds a header for a layout, looking at that layout's window.
pub open spec fn has_header(rom: Seq<u8>, layout: Mapper) -> bool {
    &&& match layout {
        Mapper::ExHiROM => rom.len() >= 0x41_0000,
        Mapper::HiROM => rom.len() >= 0x1_0000,
        _ => rom.len() >= 0x8000,
    }
    &&& header_recognized(header_window(rom, layout), layout)
}

/// Whether any header is found in a ROM image.
pub open spec fn header_found(rom: Seq<u8>) -> bool {
    has_header(rom, Mapper::ExHiROM) || has_header(rom, Mapper::HiROM) || has_header(rom, Mapper::LoROM)
}

/// The layout whose header is taken: ExHiROM first, then HiROM, then LoROM.
pub open spec fn found_layout(rom: Seq<u8>) -> Mapper {
    if has_header(rom, Mapper::ExHiROM) {
        Mapper::ExHiROM
    } else if has_header(rom, Mapper::HiROM) {
        Mapper::HiROM
    } else {
        Mapper::LoROM
    }
}

/// The header that is taken, if any, has size exponents that fit (windows passed over are not
/// parsed, so theirs do not matter).
pub open spec fn guess_sizes_ok(rom: Seq<u8>) -> bool {
    header_found(rom) ==> sizes_in_range(header_window(rom, found_layout(rom)))
}

/// Whether header bytes are recognised for a layout, without parsing them.
fn is_recognized(bytes: &[u8], expected: Mapper) -> (r: bool)
    requires
        bytes@.len() >= 0x2C,
    ensures
        r == header_recognized(bytes@, expected),
{
    let title_ok = str_from_utf8(&bytes[0x10..0x25]).is_some();
    proof {
        assert(bytes@.subrange(0x10, 0x25) == title_bytes(bytes@));
    }
    let mapper = match bytes[0x25] % 16 {
        0 => Mapper::LoROM,
        1 => Mapper::HiROM,
        2 => Mapper::SDD1ROM,
        3 => Mapper::SA1ROM,
        5 => Mapper::ExHiROM,
        _ => return false,
    };
    title_ok && mapper.get_base_mapper() == expected
}

/// Whether a ROM image can be loaded: it is at least 32 KiB (and, as any slice, at most
/// `isize::MAX` bytes), a header is found, and the header taken has a ROM size exponent that
/// fits and gives a RAM size that fits in 32 bits.
pub fn loadable(rom: &[u8]) -> (r: bool)
    ensures
        r == (0x8000 <= rom@.len() <= isize::MAX && guess_sizes_ok(rom@) && header_found(rom@)
            && header_window(rom@, found_layout(rom@))[0x28] < 22),
{
    if rom.len() < 0x8000 || rom.len() > isize::MAX as usize {
        return false;
    }
    let ex = rom.len() >= 0x41_0000 && is_recognized(&rom[0x40_FFB0..0x41_0000], Mapper::ExHiROM);
    let hi = rom.len() >= 0x1_0000 && is_recognized(&rom[0xFFB0..0x1_0000], Mapper::HiROM);
    let lo = is_recognized(&rom[0x7FB0..0x8000], Mapper::LoROM);
    proof {
        if rom@.len() >= 0x41_0000 {
            assert(rom@.subrange(0x40_FFB0, 0x41_0000) == header_window(rom@, Mapper::ExHiROM));
        }
        if rom@.len() >= 0x1_0000 {
            assert(rom@.subrange(0xFFB0, 0x1_0000) == header_window(rom@, Mapper::HiROM));
        }
        assert(rom@.subrange(0x7FB0, 0x8000) == header_window(rom@, Mapper::LoROM));
        assert(ex == has_header(rom@, Mapper::ExHiROM));
        assert(hi == has_header(rom@, Mapper::HiROM));
        assert(lo == has_header(rom@, Mapper::LoROM));
    }
    if ex {
        rom[0x40_FFB0 + 0x27] < 32 && rom[0x40_FFB0 + 0x28] < 22
    } else if hi {
        rom[0xFFB0 + 0x27] < 32 && rom[0xFFB0 + 0x28] < 22
    } else if lo {
        rom[0x7FB0 + 0x27] < 32 && rom[0x7FB0 + 0x28] < 22
    } else {
        false
    }
}

} // verus!
