use aliusnes::bus::dma::Dma;
use aliusnes::bus::system_bus::SystemBus;
use aliusnes::cart::header::Header;
use aliusnes::cart::info::{Mapper, Model, Region};
use aliusnes::cart::header::loadable;
use aliusnes::{load_cart, try_load_cart};
use aliusnes::w65c816::addressing::Address;

fn lorom_image() -> Vec<u8> {
    let mut rom = vec![0u8; 0x8000];
    for (i, b) in rom.iter_mut().enumerate().take(0x7F00) {
        *b = (i % 251) as u8;
    }
    rom[0x7FC0..0x7FD5].copy_from_slice(b"TEST ROM             ");
    rom[0x7FD5] = 0x30;
    rom[0x7FD7] = 0x08;
    rom[0x7FD8] = 0x03;
    rom[0x7FD9] = 0x02;
    rom[0x7FDA] = 0x33;
    rom[0x7FDB] = 0x01;
    rom
}

fn hirom_image() -> Vec<u8> {
    let mut rom = vec![0u8; 0x1_0000];
    rom[0xFFC0..0xFFD5].copy_from_slice(b"HIGH                 ");
    rom[0xFFD5] = 0x21;
    rom[0xFFD7] = 0x09;
    rom[0xFFD8] = 0x00;
    rom[0xFFD9] = 0x00;
    rom
}

#[test]
fn lorom_header_is_found_and_parsed() {
    let rom = lorom_image();
    let h = Header::guess_from_rom(&rom).unwrap();
    assert_eq!(h.title, "TEST ROM");
    assert_eq!(h.mapper, Mapper::LoROM);
    assert!(h.fast_rom);
    assert_eq!(h.rom_size, 0x400 << 8);
    assert_eq!(h.ram_size, 0x400 << 3);
    assert_eq!(h.country, Region::Europe);
    assert_eq!(h.dev_id, 0x33);
    assert_eq!(h.version, 0x01);
}

#[test]
fn hirom_header_wins_over_lorom() {
    let rom = hirom_image();
    let h = Header::guess_from_rom(&rom).unwrap();
    assert_eq!(h.mapper, Mapper::HiROM);
    assert_eq!(h.title, "HIGH");
    assert_eq!(h.country, Region::Japan);
}

#[test]
fn unrecognised_header_is_none() {
    let rom = vec![0xFFu8; 0x8000];
    assert!(Header::guess_from_rom(&rom).is_none());
    let mut bad_title = lorom_image();
    bad_title[0x7FC0] = 0xFF;
    assert!(Header::guess_from_rom(&bad_title).is_none());
}

#[test]
fn region_codes_and_models() {
    assert_eq!(Region::from_code(0x01), Region::NorthAmerica);
    assert_eq!(Region::from_code(0x11), Region::Australia);
    assert_eq!(Region::from_code(0x42), Region::Unknown(0x42));
    assert_eq!(Region::Germany.to_model(), Model::Pal);
    assert_eq!(Region::Japan.to_model(), Model::Ntsc);
    assert_eq!(Mapper::ExHiROM.get_base_mapper(), Mapper::ExHiROM);
    assert_eq!(Mapper::SDD1ROM.get_base_mapper(), Mapper::LoROM);
    assert_eq!(Mapper::SA1ROM.get_base_mapper(), Mapper::LoROM);
}

#[test]
fn lorom_cart_mirrors_rom() {
    let rom = lorom_image();
    let cart = load_cart(&rom, vec![0; 0x2000]);
    assert_eq!(cart.model, Model::Pal);
    assert_eq!(cart.rom_mask, 0x7FFF);
    assert_eq!(cart.ram_mask, 0x1FFF);
    assert_eq!(cart.read(0x00, 0x8000), Some(rom[0]));
    assert_eq!(cart.read(0x80, 0x8123), Some(rom[0x123]));
    assert_eq!(cart.read(0x01, 0x8005), Some(rom[5]));
    assert_eq!(cart.read(0x40, 0x0010), Some(rom[0x10]));
    assert_eq!(cart.read(0x00, 0x1000), None);
}

#[test]
fn hirom_cart_maps_whole_banks() {
    let mut rom = hirom_image();
    rom[0x1234] = 0x5A;
    let cart = load_cart(&rom, vec![0; 0x400]);
    assert_eq!(cart.read(0xC0, 0x1234), Some(0x5A));
    assert_eq!(cart.read(0x00, 0x9234), Some(rom[0x9234]));
    assert_eq!(cart.read(0x00, 0x1234), None);
}

fn system_bus() -> SystemBus {
    SystemBus::new(load_cart(&lorom_image(), vec![0; 0x2000]))
}

#[test]
fn wram_is_mirrored_in_the_system_banks() {
    let mut bus = system_bus();
    bus.write::<false>(Address::new(0x0123, 0x80), 0x77);
    assert_eq!(bus.wram.ram[0x0123], 0x77);
    assert_eq!(bus.read::<false>(Address::new(0x0123, 0x7E)), 0x77);
    assert_eq!(bus.read::<false>(Address::new(0x0123, 0x3F)), 0x77);
    bus.write::<false>(Address::new(0x8000, 0x7F), 0x12);
    assert_eq!(bus.wram.ram[0x1_8000], 0x12);
    assert_eq!(bus.peek(Address::new(0x8000, 0x7F)), Some(0x12));
}

#[test]
fn open_bus_keeps_the_last_value() {
    let mut bus = system_bus();
    bus.write::<false>(Address::new(0x0000, 0x00), 0x5C);
    assert_eq!(bus.read::<false>(Address::new(0x0000, 0x00)), 0x5C);
    assert_eq!(bus.read::<false>(Address::new(0x2000, 0x00)), 0x5C);
    assert_eq!(bus.mdr, 0x5C);
}

#[test]
fn dma_cannot_read_b_bus_through_the_a_bus() {
    let mut bus = system_bus();
    bus.mdr = 0x99;
    assert_eq!(bus.read::<true>(Address::new(0x2100, 0x00)), 0);
    assert_eq!(bus.mdr, 0);
}

#[test]
fn math_unit_multiplies_and_divides() {
    let mut bus = system_bus();
    bus.write::<false>(Address::new(0x4202, 0x00), 12);
    bus.write::<false>(Address::new(0x4203, 0x00), 34);
    assert_eq!(bus.read::<false>(Address::new(0x4216, 0x00)), (408 % 256) as u8);
    assert_eq!(bus.read::<false>(Address::new(0x4217, 0x00)), (408 / 256) as u8);
    bus.write::<false>(Address::new(0x4204, 0x00), 0xE8);
    bus.write::<false>(Address::new(0x4205, 0x00), 0x03);
    bus.write::<false>(Address::new(0x4206, 0x00), 7);
    assert_eq!(bus.read::<false>(Address::new(0x4214, 0x00)), (1000 / 7) as u8);
    assert_eq!(bus.read::<false>(Address::new(0x4216, 0x00)), (1000 % 7) as u8);
    bus.write::<false>(Address::new(0x4206, 0x00), 0);
    assert_eq!(bus.read::<false>(Address::new(0x4214, 0x00)), 0xFF);
    assert_eq!(bus.read::<false>(Address::new(0x4215, 0x00)), 0xFF);
}

#[test]
fn wram_port_reads_and_writes_sequentially() {
    let mut bus = system_bus();
    bus.write::<false>(Address::new(0x2181, 0x00), 0x00);
    bus.write::<false>(Address::new(0x2182, 0x00), 0x10);
    bus.write::<false>(Address::new(0x2183, 0x00), 0x01);
    bus.write::<false>(Address::new(0x2180, 0x00), 0xAA);
    bus.write::<false>(Address::new(0x2180, 0x00), 0xBB);
    assert_eq!(bus.wram.ram[0x1_1000], 0xAA);
    assert_eq!(bus.wram.ram[0x1_1001], 0xBB);
    bus.write::<false>(Address::new(0x2182, 0x00), 0x10);
    bus.write::<false>(Address::new(0x2181, 0x00), 0x01);
    assert_eq!(bus.read::<false>(Address::new(0x2180, 0x00)), 0xBB);
}

#[test]
fn apu_ports_answer_the_boot_handshake() {
    let mut bus = system_bus();
    assert_eq!(bus.read::<false>(Address::new(0x2140, 0x00)), 0xAA);
    assert_eq!(bus.read::<false>(Address::new(0x2141, 0x00)), 0x00);
    assert_eq!(bus.read::<false>(Address::new(0x2141, 0x00)), 0xBB);
    bus.write::<false>(Address::new(0x2142, 0x00), 0x33);
    assert_eq!(bus.read::<false>(Address::new(0x2142, 0x00)), 0x33);
    assert_eq!(bus.read::<false>(Address::new(0x2142, 0x00)), 0x00);
}

#[test]
fn dma_copies_wram_to_vram() {
    let mut bus = system_bus();
    bus.wram.ram[0x0000] = 0x34;
    bus.wram.ram[0x0001] = 0x12;
    bus.write::<false>(Address::new(0x2115, 0x00), 0x80);
    bus.write::<false>(Address::new(0x2116, 0x00), 0x00);
    bus.write::<false>(Address::new(0x2117, 0x00), 0x00);
    bus.write::<false>(Address::new(0x4300, 0x00), 0x01);
    bus.write::<false>(Address::new(0x4301, 0x00), 0x18);
    bus.write::<false>(Address::new(0x4302, 0x00), 0x00);
    bus.write::<false>(Address::new(0x4303, 0x00), 0x00);
    bus.write::<false>(Address::new(0x4304, 0x00), 0x7E);
    bus.write::<false>(Address::new(0x4305, 0x00), 0x02);
    bus.write::<false>(Address::new(0x4306, 0x00), 0x00);
    bus.write::<false>(Address::new(0x420B, 0x00), 0x01);
    let clock = bus.scheduler.cycles;
    Dma::do_dma(&mut bus);
    assert_eq!(bus.ppu.vram.get(0), 0x1234);
    assert_eq!(bus.dma.enable_channels, 0);
    assert_eq!(bus.dma.channels[0].byte_count_or_h_indirect_addr, 0);
    assert_eq!(bus.dma.channels[0].a_addr_or_h_table_addr, 2);
    assert_eq!(bus.scheduler.cycles, clock + 8 + 16 + 2);
    assert_eq!(bus.read::<false>(Address::new(0x4301, 0x00)), 0x18);
}

#[test]
fn memory_speed_by_region() {
    let mut bus = system_bus();
    assert_eq!(bus.memory_access_cycles(&Address::new(0x0000, 0x00)), 8);
    assert_eq!(bus.memory_access_cycles(&Address::new(0x2100, 0x00)), 6);
    assert_eq!(bus.memory_access_cycles(&Address::new(0x4016, 0x00)), 12);
    assert_eq!(bus.memory_access_cycles(&Address::new(0x8000, 0x80)), 8);
    assert_eq!(bus.memory_access_cycles(&Address::new(0x0000, 0xC0)), 8);
    bus.write::<false>(Address::new(0x420D, 0x00), 0x01);
    assert!(bus.fast_rom_enabled);
    assert_eq!(bus.memory_access_cycles(&Address::new(0x8000, 0x80)), 6);
    assert_eq!(bus.memory_access_cycles(&Address::new(0x0000, 0xC0)), 6);
    assert_eq!(bus.memory_access_cycles(&Address::new(0x8000, 0x00)), 8);
}

#[test]
fn loadable_checks_before_loading() {
    assert!(loadable(&lorom_image()));
    assert!(loadable(&hirom_image()));
    assert!(!loadable(&vec![0xFFu8; 0x8000]));
    assert!(!loadable(&vec![0u8; 0x4000]));
    let mut huge_ram = lorom_image();
    huge_ram[0x7FD8] = 22;
    assert!(!loadable(&huge_ram));
    let mut bad_size = lorom_image();
    bad_size[0x7FD7] = 40;
    assert!(!loadable(&bad_size));
    assert!(try_load_cart(&vec![0xFFu8; 0x8000], vec![]).is_none());
    let cart = try_load_cart(&lorom_image(), vec![]).unwrap();
    assert!(cart.is_well_formed());
    let mut odd = lorom_image();
    odd.extend_from_slice(&[0u8; 0x100]);
    let cart = try_load_cart(&odd, vec![]).unwrap();
    assert!(cart.is_well_formed());
    assert_eq!(cart.rom_mask, 0xFFFF);
    // Past the end of a ROM that is not a power of two, nothing answers.
    assert_eq!(cart.read(0x01, 0x8000), Some(0x00));
    assert_eq!(cart.read(0x01, 0x8100), None);
}

#[test]
fn battery_ram_reads_back_what_was_written() {
    let rom = lorom_image();
    let mut cart = load_cart(&rom, vec![0; 0x2000]);
    // Headers do not declare battery RAM yet; a board with it is wired by hand.
    cart.header.chipset.has_ram = true;
    cart.write(0x70, 0x0123, 0xAB);
    assert_eq!(cart.read(0x70, 0x0123), Some(0xAB));
    assert_eq!(cart.read(0xF0, 0x0123), Some(0xAB));
    assert_eq!(cart.read(0x70, 0x0124), Some(0x00));
    // Outside battery RAM a write changes nothing.
    cart.write(0x00, 0x8000, 0x11);
    assert_eq!(cart.read(0x00, 0x8000), Some(rom[0]));
}

#[test]
fn high_banks_mirror_low_banks() {
    let rom = lorom_image();
    let cart = load_cart(&rom, vec![0; 0x2000]);
    for bank in [0x00usize, 0x01, 0x3F, 0x40, 0x6F, 0x70, 0x7D] {
        for addr in [0x0000usize, 0x1234, 0x7FFF, 0x8000, 0xFFFF] {
            assert_eq!(cart.read(bank + 0x80, addr), cart.read(bank, addr));
        }
    }
    let mut hi = hirom_image();
    hi[0x4321] = 0x3C;
    let cart = load_cart(&hi, vec![0; 0x400]);
    for bank in [0x00usize, 0x3F, 0x40, 0x7F] {
        for addr in [0x0000usize, 0x4321, 0x6000, 0xC321] {
            assert_eq!(cart.read(bank + 0x80, addr), cart.read(bank, addr));
        }
    }
}

#[test]
fn division_reads_satisfy_the_identity() {
    let mut bus = system_bus();
    bus.write::<false>(Address::new(0x4204, 0x00), 0x39);
    bus.write::<false>(Address::new(0x4205, 0x00), 0x30);
    bus.write::<false>(Address::new(0x4206, 0x00), 0x0B);
    let q = bus.read::<false>(Address::new(0x4214, 0x00)) as u32
        + 256 * bus.read::<false>(Address::new(0x4215, 0x00)) as u32;
    let r = bus.read::<false>(Address::new(0x4216, 0x00)) as u32
        + 256 * bus.read::<false>(Address::new(0x4217, 0x00)) as u32;
    assert_eq!(q * 11 + r, 0x3039);
    assert!(r < 11);
    assert_eq!(q, 1122);
    assert_eq!(r, 3);
}

#[test]
fn dma_from_wram_to_the_wram_port_is_skipped() {
    let mut bus = system_bus();
    bus.wram.ram[0x0010] = 0x99;
    bus.write::<false>(Address::new(0x4300, 0x00), 0x00);
    bus.write::<false>(Address::new(0x4301, 0x00), 0x80);
    bus.write::<false>(Address::new(0x4302, 0x00), 0x10);
    bus.write::<false>(Address::new(0x4303, 0x00), 0x00);
    bus.write::<false>(Address::new(0x4304, 0x00), 0x7E);
    bus.write::<false>(Address::new(0x4305, 0x00), 0x03);
    bus.write::<false>(Address::new(0x4306, 0x00), 0x00);
    bus.write::<false>(Address::new(0x420B, 0x00), 0x01);
    Dma::do_dma(&mut bus);
    // Every unit is skipped: the A-bus address stays, the count is spent.
    assert_eq!(bus.dma.channels[0].a_addr_or_h_table_addr, 0x0010);
    assert_eq!(bus.dma.channels[0].byte_count_or_h_indirect_addr, 0);
    assert_eq!(bus.wram.ram[0x0000], 0x00);
}

#[test]
fn dma_copies_wram_words_into_vram() {
    let mut bus = system_bus();
    bus.wram.ram[0x0100] = 0x34;
    bus.wram.ram[0x0101] = 0x12;
    bus.wram.ram[0x0102] = 0x78;
    bus.wram.ram[0x0103] = 0x56;
    // VMAIN: step after the high byte; VRAM word address 0x0800.
    bus.write::<false>(Address::new(0x2115, 0x00), 0x80);
    bus.write::<false>(Address::new(0x2116, 0x00), 0x00);
    bus.write::<false>(Address::new(0x2117, 0x00), 0x08);
    // Channel 0: A to B, pattern 1 ($2118/$2119), from $7E:0100, four bytes.
    bus.write::<false>(Address::new(0x4300, 0x00), 0x01);
    bus.write::<false>(Address::new(0x4301, 0x00), 0x18);
    bus.write::<false>(Address::new(0x4302, 0x00), 0x00);
    bus.write::<false>(Address::new(0x4303, 0x00), 0x01);
    bus.write::<false>(Address::new(0x4304, 0x00), 0x7E);
    bus.write::<false>(Address::new(0x4305, 0x00), 0x04);
    bus.write::<false>(Address::new(0x4306, 0x00), 0x00);
    bus.write::<false>(Address::new(0x420B, 0x00), 0x01);
    Dma::do_dma(&mut bus);
    assert_eq!(bus.ppu.vram.get(0x0800), 0x1234);
    assert_eq!(bus.ppu.vram.get(0x0801), 0x5678);
    assert_eq!(bus.ppu.vram.vm_addr, 0x0802);
    assert_eq!(bus.dma.channels[0].a_addr_or_h_table_addr, 0x0104);
    assert_eq!(bus.dma.enable_channels, 0);
}

#[test]
fn dma_reads_vram_into_wram() {
    let mut bus = system_bus();
    bus.write::<false>(Address::new(0x2115, 0x00), 0x80);
    bus.write::<false>(Address::new(0x2116, 0x00), 0x20);
    bus.write::<false>(Address::new(0x2117, 0x00), 0x00);
    bus.write::<false>(Address::new(0x2118, 0x00), 0xAA);
    bus.write::<false>(Address::new(0x2119, 0x00), 0xBB);
    bus.write::<false>(Address::new(0x2116, 0x00), 0x20);
    bus.write::<false>(Address::new(0x2117, 0x00), 0x00);
    // Channel 1: B to A, pattern 1 ($2139/$213A), into $00:0200, two bytes.
    bus.write::<false>(Address::new(0x4310, 0x00), 0x81);
    bus.write::<false>(Address::new(0x4311, 0x00), 0x39);
    bus.write::<false>(Address::new(0x4312, 0x00), 0x00);
    bus.write::<false>(Address::new(0x4313, 0x00), 0x02);
    bus.write::<false>(Address::new(0x4314, 0x00), 0x00);
    bus.write::<false>(Address::new(0x4315, 0x00), 0x02);
    bus.write::<false>(Address::new(0x4316, 0x00), 0x00);
    bus.write::<false>(Address::new(0x420B, 0x00), 0x02);
    Dma::do_dma(&mut bus);
    assert_eq!(bus.wram.ram[0x0200], 0xAA);
    assert_eq!(bus.wram.ram[0x0201], 0xBB);
}

#[test]
fn division_gives_quotient_and_remainder() {
    let mut m = aliusnes::bus::math::Math::new();
    m.dividend = 1000;
    m.divisor = 7;
    m.do_division();
    assert_eq!(m.quotient, 142);
    assert_eq!(m.result_or_remainder, 6);
    m.divisor = 0;
    m.do_division();
    assert_eq!(m.quotient, 0xFFFF);
    assert_eq!(m.result_or_remainder, 1000);
    m.factor_a = 12;
    m.factor_b = 11;
    m.do_multiplication();
    assert_eq!(m.result_or_remainder, 132);
}

#[test]
fn a_window_passed_over_is_not_checked() {
    let mut rom = hirom_image();
    // The LoROM window also looks like a header, with a size byte no header could hold; the
    // HiROM header is found first, so the LoROM window is never parsed.
    rom[0x7FD5] = 0x20;
    rom[0x7FD7] = 40;
    assert!(loadable(&rom));
    let cart = try_load_cart(&rom, vec![]).unwrap();
    assert_eq!(cart.header.mapper, Mapper::HiROM);
}
