use aliusnes::emu::Emu;
use aliusnes::load_cart;
use aliusnes::w65c816::addressing::Address;

fn looping_rom() -> Vec<u8> {
    let mut rom = vec![0u8; 0x8000];
    rom[0] = 0x80;
    rom[1] = 0xFE;
    rom[0x7FC0..0x7FD5].copy_from_slice(b"LOOP                 ");
    rom[0x7FD5] = 0x20;
    rom[0x7FD7] = 0x08;
    rom[0x7FD8] = 0x00;
    rom[0x7FD9] = 0x01;
    rom[0x7FFC] = 0x00;
    rom[0x7FFD] = 0x80;
    rom
}

#[test]
fn new_console_is_reset() {
    let emu = Emu::new(load_cart(&looping_rom(), vec![0; 0x400]));
    assert_eq!(emu.w65c816.cpu.program_counter, 0x8000);
    assert!(emu.w65c816.cpu.emulation_mode);
    assert!(!emu.frame_ready());
    assert_eq!(emu.frame_width(), 256);
    assert_eq!(emu.frame_height(), 224);
    assert_eq!(emu.frame().len(), 256 * 239);
}

#[test]
fn a_frame_ends_at_vblank() {
    let mut emu = Emu::new(load_cart(&looping_rom(), vec![0; 0x400]));
    emu.run_frame();
    assert!(!emu.frame_ready());
    assert_eq!(emu.bus.ppu.counters.vertical_counter, 225);
    assert_eq!(emu.bus.ppu.counters.frame_counter, 0);
    emu.run_for_frames(2);
    assert_eq!(emu.bus.ppu.counters.frame_counter, 2);
    assert_eq!(emu.w65c816.cpu.program_counter, 0x8000);
}

#[test]
fn stepping_advances_the_clock() {
    let mut emu = Emu::new(load_cart(&looping_rom(), vec![0; 0x400]));
    let before = emu.bus.scheduler.cycles;
    emu.step();
    assert!(emu.bus.scheduler.cycles > before);
    emu.run_cpu_until_next_event();
    assert!(emu.bus.scheduler.cycles >= emu.bus.scheduler.events[1].time);
}

#[test]
fn a_started_dma_runs_before_the_cpu_step() {
    let mut emu = Emu::new(load_cart(&looping_rom(), vec![0; 0x400]));
    emu.bus.wram.ram[0x0100] = 0x34;
    emu.bus.wram.ram[0x0101] = 0x12;
    emu.bus.write::<false>(Address::new(0x2115, 0x00), 0x80);
    emu.bus.write::<false>(Address::new(0x2116, 0x00), 0x00);
    emu.bus.write::<false>(Address::new(0x2117, 0x00), 0x04);
    emu.bus.write::<false>(Address::new(0x4300, 0x00), 0x01);
    emu.bus.write::<false>(Address::new(0x4301, 0x00), 0x18);
    emu.bus.write::<false>(Address::new(0x4302, 0x00), 0x00);
    emu.bus.write::<false>(Address::new(0x4303, 0x00), 0x01);
    emu.bus.write::<false>(Address::new(0x4304, 0x00), 0x7E);
    emu.bus.write::<false>(Address::new(0x4305, 0x00), 0x02);
    emu.bus.write::<false>(Address::new(0x4306, 0x00), 0x00);
    emu.bus.write::<false>(Address::new(0x420B, 0x00), 0x01);
    emu.step();
    assert_eq!(emu.bus.dma.enable_channels, 0);
    assert_eq!(emu.bus.ppu.vram.get(0x0400), 0x1234);
    assert_eq!(emu.w65c816.cpu.program_counter, 0x8000);
}
