use vstd::prelude::*;

verus! {

/// How the cartridge maps its ROM into the address space.
#[derive(Clone, Copy, Debug, PartialEq, Eq, Structural)]
pub enum Mapper {
    LoROM,
    HiROM,
    SA1ROM,
    SDD1ROM,
    ExHiROM,
}

impl Mapper {
    /// The layout a mapper's header is found in: SA-1 and S-DD1 carts use the LoROM one.
    pub open spec fn base_spec(self) -> Mapper {
        match self {
            Mapper::LoROM | Mapper::SA1ROM | Mapper::SDD1ROM => Mapper::LoROM,
            Mapper::HiROM => Mapper::HiROM,
            Mapper::ExHiROM => Mapper::ExHiROM,
        }
    }

    pub fn get_base_mapper(self) -> (r: Self)
        ensures
            r == self.base_spec(),
    {
        match self {
            Self::LoROM | Self::SA1ROM | Self::SDD1ROM => Self::LoROM,
            Self::HiROM => Self::HiROM,
            Self::ExHiROM => Self::ExHiROM,
        }
    }
}

/// The extra hardware on the cartridge.
#[derive(Clone, Copy)]
pub struct Chipset {
    pub has_coprocessor: bool,
    pub has_ram: bool,
    pub has_battery: bool,
}

/// The destination code of the header.
#[derive(Clone, Copy, Debug, PartialEq, Eq, Structural)]
pub enum Region {
    Japan,
    NorthAmerica,
    Europe,
    Sweden,
    Finland,
    Denmark,
    France,
    Netherlands,
    Spain,
    Germany,
    Italy,
    China,
    Indonesia,
    SouthKorea,
    International,
    Canada,
    Brazil,
    Australia,
    Unknown(u8),
}

/// The video standard of the console.
#[derive(Clone, Copy, Debug, PartialEq, Eq, Structural)]
pub enum Model {
    Ntsc,
    Pal,
}

impl Region {
    /// Regions sold with 50 Hz PAL consoles.
    pub open spec fn is_pal(self) -> bool {
        match self {
            Region::Europe | Region::Sweden | Region::Finland | Region::Denmark | Region::France
            | Region::Netherlands | Region::Spain | Region::Germany | Region::Italy | Region::China
            | Region::Indonesia | Region::Australia => true,
            _ => false,
        }
    }

    pub fn to_model(&self) -> (r: Model)
        ensures
            r == (if self.is_pal() { Model::Pal } else { Model::Ntsc }),
    {
        match self {
            Region::Europe | Region::Sweden | Region::Finland | Region::Denmark | Region::France
            | Region::Netherlands | Region::Spain | Region::Germany | Region::Italy | Region::China
            | Region::Indonesia | Region::Australia => Model::Pal,
            _ => Model::Ntsc,
        }
    }

    /// The destination code byte that stands for a region in a header.
    pub open spec fn code(self) -> u8 {
        match self {
            Region::Japan => 0x00,
            Region::NorthAmerica => 0x01,
            Region::Europe => 0x02,
            Region::Sweden => 0x03,
            Region::Finland => 0x04,
            Region::Denmark => 0x05,
            Region::France => 0x06,
            Region::Netherlands => 0x07,
            Region::Spain => 0x08,
            Region::Germany => 0x09,
            Region::Italy => 0x0A,
            Region::China => 0x0B,
            Region::Indonesia => 0x0C,
            Region::SouthKorea => 0x0D,
            Region::International => 0x0E,
            Region::Canada => 0x0F,
            Region::Brazil => 0x10,
            Region::Australia => 0x11,
            Region::Unknown(c) => c,
        }
    }

    /// The region of a header's destination code.
    pub open spec fn from_code_spec(code: u8) -> Region {
        if code == 0x00 { Region::Japan }
        else if code == 0x01 { Region::NorthAmerica }
        else if code == 0x02 { Region::Europe }
        else if code == 0x03 { Region::Sweden }
        else if code == 0x04 { Region::Finland }
        else if code == 0x05 { Region::Denmark }
        else if code == 0x06 { Region::France }
        else if code == 0x07 { Region::Netherlands }
        else if code == 0x08 { Region::Spain }
        else if code == 0x09 { Region::Germany }
        else if code == 0x0A { Region::Italy }
        else if code == 0x0B { Region::China }
        else if code == 0x0C { Region::Indonesia }
        else if code == 0x0D { Region::SouthKorea }
        else if code == 0x0E { Region::International }
        else if code == 0x0F { Region::Canada }
        else if code == 0x10 { Region::Brazil }
        else if code == 0x11 { Region::Australia }
        else { Region::Unknown(code) }
    }

    pub fn from_code(code: u8) -> (r: Region)
        ensures
            r == Self::from_code_spec(code),
    {
        match code {
            0x00 => Region::Japan,
            0x01 => Region::NorthAmerica,
            0x02 => Region::Europe,
            0x03 => Region::Sweden,
            0x04 => Region::Finland,
            0x05 => Region::Denmark,
            0x06 => Region::France,
            0x07 => Region::Netherlands,
            0x08 => Region::Spain,
            0x09 => Region::Germany,
            0x0A => Region::Italy,
            0x0B => Region::China,
            0x0C => Region::Indonesia,
            0x0D => Region::SouthKorea,
            0x0E => Region::International,
            0x0F => Region::Canada,
            0x10 => Region::Brazil,
            0x11 => Region::Australia,
            other => Region::Unknown(other),
        }
    }
}

/// Decoding a destination code agrees with the region table: every listed code 0x00-0x11
/// decodes to the region whose code it is, every other code decodes to `Unknown` with that
/// code, and a named region is what its own code decodes to.
pub proof fn lemma_region_codes(c: u8, r: Region)
    ensures
        Region::from_code_spec(c).code() == c,
        (Region::from_code_spec(c) is Unknown) <==> c > 0x11,
        !(r is Unknown) ==> r.code() <= 0x11 && Region::from_code_spec(r.code()) == r,
{
}

/// The regions sold with PAL consoles are Europe and its countries (0x02-0x0A), China,
/// Indonesia and Australia; a German cart is PAL and a Japanese or North American one is not.
pub proof fn lemma_pal_regions(c: u8)
    ensures
        Region::from_code_spec(c).is_pal() <==> (0x02 <= c <= 0x0C || c == 0x11),
{
}

} // verus!
