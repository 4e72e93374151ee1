use aliusnes::apu::dsp::Dsp;
use aliusnes::apu::spc700::{AddressingMode, Cpu as Spc700Cpu, Status as Spc700Status};
use aliusnes::apu::timer::Timer;
use aliusnes::apu::voice::Voice;
use aliusnes::apu::ApuBus;
use aliusnes::cart::info::Model;
use aliusnes::ppu::color::{rgb555_to_rgb888, Color, ColorData};
use aliusnes::ppu::mode7::Mode7;
use aliusnes::ppu::tile::{pixel, TileMapEntry};
use aliusnes::ppu::vram::Vram;
use aliusnes::ppu::Ppu;
use aliusnes::scheduler::{Event, PpuEvent, Scheduler};

#[test]
fn vram_port_round_trip() {
    let mut vram = Vram::new();
    vram.video_port_control.0 = 0x80;
    vram.vm_addl(0x00);
    vram.vm_addh(0x10);
    vram.vm_addl_write(0x34);
    vram.vm_addh_write(0x12);
    assert_eq!(vram.get(0x1000), 0x1234);
    assert_eq!(vram.vm_addr, 0x1001);
    vram.vm_addl(0x00);
    assert_eq!(vram.vm_addl_read(), 0x34);
    assert_eq!(vram.vm_addh_read(), 0x12);
    assert_eq!(vram.vm_addr, 0x1001);
}

#[test]
fn rgb555_widens_channels() {
    assert_eq!(rgb555_to_rgb888(0x7FFF), [255, 255, 255]);
    assert_eq!(rgb555_to_rgb888(0x0000), [0, 0, 0]);
    assert_eq!(rgb555_to_rgb888(0x001F), [255, 0, 0]);
    assert_eq!(rgb555_to_rgb888(0x0010), [132, 0, 0]);
}

#[test]
fn cgram_write_takes_two_bytes() {
    let mut color = Color::new();
    color.cg_addr(5);
    color.cg_addr_write(0x34);
    color.cg_addr_write(0x12);
    assert_eq!(color.cgram[5], 0x1234);
    assert_eq!(color.cg_addr, 6);
}

#[test]
fn fixed_color_channels() {
    let mut color = Color::new();
    color.color_data_write(ColorData(0x20 | 0x1F));
    assert_eq!(color.fixed_color, 0x001F);
    color.color_data_write(ColorData(0xC0 | 0x01));
    assert_eq!(color.fixed_color, 0x001F | (1 << 5) | (1 << 10));
}

#[test]
fn mode7_product_is_signed() {
    let mut m = Mode7::new();
    m.set_mode_7_matrix_a(0x00);
    m.set_mode_7_matrix_a(0xFF);
    m.set_mode_7_matrix_b(0x10);
    assert_eq!(m.matrix_a, -256);
    assert_eq!(m.matrix_b, 0x10FF);
    assert_eq!(m.do_multiplication(), -256 * 0xFF);
}

#[test]
fn ppu_product_registers() {
    let mut ppu = Ppu::new(Model::Ntsc);
    ppu.write(0x211B, 0x02);
    ppu.write(0x211B, 0x00);
    ppu.write(0x211C, 0x03);
    ppu.write(0x211C, 0x00);
    assert_eq!(ppu.read(0x2134, 0), Some(6));
    assert_eq!(ppu.read(0x2135, 0), Some(0));
    assert_eq!(ppu.read(0x2136, 0), Some(0));
}

#[test]
fn tile_pixels_and_flips() {
    assert_eq!(pixel(&[0b1000_0000, 0b1000_0000], 7), 3);
    assert_eq!(pixel(&[0b0000_0010, 0b0000_0000], 1), 1);
    assert_eq!(pixel(&[0b0000_0000, 0b0000_0001, 0, 0], 0), 2);
    assert_eq!(pixel(&[0, 0], 3), 0);
    let entry = TileMapEntry(0xC000);
    assert_eq!(entry.adjust_coords_to_flipping(1, 2), (1, 5));
    let plain = TileMapEntry(0x0000);
    assert_eq!(plain.adjust_coords_to_flipping(1, 2), (6, 2));
}

#[test]
fn scanline_events_chain() {
    let mut ppu = Ppu::new(Model::Ntsc);
    let mut s = Scheduler::new();
    ppu.handle_event(&mut s, PpuEvent::NewScanline, 0);
    assert_eq!(ppu.counters.vertical_counter, 1);
    assert_eq!(s.events[1].event, Event::Ppu(PpuEvent::HDraw));
    assert_eq!(s.events[1].time, 88);
    ppu.handle_event(&mut s, PpuEvent::HDraw, 88);
    assert_eq!(s.events[1].event, Event::Ppu(PpuEvent::HBlankStart));
    assert_eq!(s.events[1].time, 88 + 1008);
    ppu.handle_event(&mut s, PpuEvent::HBlankStart, 1096);
    assert_eq!(s.events[1].event, Event::Ppu(PpuEvent::NewScanline));
    assert_eq!(s.events[1].time, 1364);
}

#[test]
fn vblank_makes_the_frame_ready() {
    let mut ppu = Ppu::new(Model::Ntsc);
    let mut s = Scheduler::new();
    let mut t = 0u64;
    while !ppu.frame_ready {
        ppu.handle_event(&mut s, PpuEvent::NewScanline, t);
        t += 1364;
    }
    assert_eq!(ppu.counters.vertical_counter, 225);
    assert!(ppu.counters.nmi_requested == false);
    assert_eq!(ppu.read_nmi_flag() & 0x80, 0x80);
}

#[test]
fn scheduler_pops_the_earliest_due_event() {
    let mut s = Scheduler::new();
    s.add_event(Event::Ppu(PpuEvent::HDraw), 100);
    assert_eq!(s.pop_event(), None);
    s.tick(99);
    assert!(s.waiting_for_next_event());
    s.tick(1);
    assert_eq!(s.pop_event(), Some((Event::Ppu(PpuEvent::HDraw), 100)));
    assert_eq!(s.pop_event(), None);
}

#[test]
fn dsp_registers_read_back() {
    let mut dsp = Dsp::new();
    dsp.set_dsp_addr(0x12);
    dsp.write(0x34);
    assert_eq!(dsp.read(), 0x34);
    assert_eq!(dsp.voices[1].sample_pitch, 0x34);
    dsp.set_dsp_addr(0x92);
    dsp.write(0x99);
    assert_eq!(dsp.read(), 0x34);
    assert_eq!(dsp.read_dsp_addr(), 0x92);
    dsp.set_dsp_addr(0x0C);
    dsp.write(0x80);
    assert_eq!(dsp.left_main_channel_volume, -128);
    assert_eq!(dsp.read(), 0x80);
    dsp.set_dsp_addr(0x7C);
    dsp.write(0xFF);
    assert_eq!(dsp.read(), 0x00);
    dsp.set_dsp_addr(0x0A);
    assert_eq!(dsp.read(), 0x00);
}

#[test]
fn voice_registers() {
    let mut v = Voice::new();
    v.write(3, 0x12);
    v.write(2, 0x34);
    assert_eq!(v.read(2), 0x34);
    assert_eq!(v.read(3), 0x12);
    v.write(0, 0xF0);
    assert_eq!(v.left_channel_volume, -16);
    assert_eq!(v.read(0), 0xF0);
}

#[test]
fn timers_and_apu_bus() {
    let mut t = Timer::new();
    t.set_timer_target(9);
    assert_eq!(t.timer_output(), 9);
    let mut bus = ApuBus::new();
    bus.write(0x1234, 0x56);
    assert_eq!(bus.read(0x1234), 0x56);
    bus.write(0xFFC0, 0x77);
    assert_eq!(bus.read(0xFFC0), 0x00);
    bus.write(0xF1, 0x80 | 0x01);
    assert!(bus.timers[0].enabled);
    assert_eq!(bus.read(0xFFC0), 0x00);
    bus.write(0xF1, 0x00);
    assert_eq!(bus.read(0xFFC0), 0x77);
    bus.write(0xF5, 0x42);
    assert_eq!(bus.cpuio[1], 0x42);
    bus.write(0xFB, 0x10);
    assert_eq!(bus.read(0xFE), 0x10);
    bus.write(0xF2, 0x4C);
    bus.write(0xF3, 0x01);
    assert_eq!(bus.read(0xF3), 0x01);
    assert_eq!(bus.read(0xF0), 0);
}

#[test]
fn spc700_arithmetic() {
    let mut cpu = Spc700Cpu::new();
    cpu.accumulator = 0x34;
    cpu.index_y = 0x12;
    assert_eq!(cpu.ya(), 0x1234);
    let r = cpu.do_adc(0x0F, 0x01);
    assert_eq!(r, 0x10);
    assert!(cpu.status.half_carry());
    assert!(!cpu.status.carry());
    let r = cpu.do_adc(0x7F, 0x01);
    assert_eq!(r, 0x80);
    assert!(cpu.status.overflow() && cpu.status.negative());
    cpu.status = Spc700Status(0);
    let r = cpu.do_adc(0xFF, 0x01);
    assert_eq!(r, 0x00);
    assert!(cpu.status.carry() && cpu.status.zero());
    cpu.do_compare(0x10, 0x20);
    assert!(!cpu.status.carry() && cpu.status.negative());
    assert!(AddressingMode::Psw.is_register_access());
    assert!(!AddressingMode::DirectPage.is_register_access());
}

#[test]
fn vblank_requests_nmi_when_enabled() {
    let mut ppu = Ppu::new(Model::Ntsc);
    let mut s = Scheduler::new();
    ppu.write_nmitien(0x80);
    let mut t = 0u64;
    while !ppu.frame_ready {
        assert!(!ppu.counters.nmi_requested);
        ppu.handle_event(&mut s, PpuEvent::NewScanline, t);
        t += 1364;
    }
    assert!(ppu.counters.nmi_requested);
    assert!(ppu.nmi_requested());
    assert!(!ppu.counters.nmi_requested);
}

#[test]
fn h_timer_raises_irq_at_its_dot() {
    let mut ppu = Ppu::new(Model::Ntsc);
    let mut s = Scheduler::new();
    ppu.write_nmitien(0x10);
    ppu.set_h_timer_low(22);
    ppu.set_h_timer_high(0);
    ppu.handle_event(&mut s, PpuEvent::HDraw, 88);
    assert!(ppu.counters.in_irq);
    ppu.handle_event(&mut s, PpuEvent::HBlankStart, 1096);
    assert!(!ppu.counters.in_irq);
}

#[test]
fn latched_counters_read_low_then_high() {
    let mut ppu = Ppu::new(Model::Ntsc);
    let mut s = Scheduler::new();
    ppu.handle_event(&mut s, PpuEvent::NewScanline, 0);
    assert_eq!(ppu.read(0x2137, 400), None);
    assert_eq!(ppu.read(0x213C, 0), Some(100));
    assert_eq!(ppu.read(0x213C, 0), Some(100));
    assert_eq!(ppu.read(0x213D, 0), Some(1));
    let status = ppu.read(0x213F, 0).unwrap();
    assert_eq!(status & 0x40, 0x40);
    assert_eq!(ppu.read(0x213C, 0), Some(100));
}

#[test]
fn oam_bytes_read_back_through_the_ports() {
    let mut ppu = Ppu::new(Model::Ntsc);
    ppu.write(0x2102, 0x10);
    ppu.write(0x2103, 0x00);
    ppu.write(0x2104, 0xAB);
    ppu.write(0x2104, 0xCD);
    ppu.write(0x2102, 0x10);
    ppu.write(0x2103, 0x00);
    assert_eq!(ppu.read(0x2138, 0), Some(0xAB));
    assert_eq!(ppu.read(0x2138, 0), Some(0xCD));
    // High table: word address 0x100 is byte 0x200, written byte by byte.
    ppu.write(0x2102, 0x00);
    ppu.write(0x2103, 0x01);
    ppu.write(0x2104, 0x5A);
    ppu.write(0x2102, 0x00);
    ppu.write(0x2103, 0x01);
    assert_eq!(ppu.read(0x2138, 0), Some(0x5A));
}

#[test]
fn cgram_color_reads_back_with_open_bus_bit() {
    let mut ppu = Ppu::new(Model::Ntsc);
    ppu.write(0x2121, 0x20);
    ppu.write(0x2122, 0x9C);
    ppu.write(0x2122, 0x7F);
    ppu.write(0x2121, 0x20);
    assert_eq!(ppu.read(0x213B, 0), Some(0x9C));
    // Bit 7 of the high byte comes from the open bus, which holds 0x9C.
    assert_eq!(ppu.read(0x213B, 0), Some(0xFF));
    ppu.write(0x2121, 0x21);
    ppu.write(0x2122, 0x01);
    ppu.write(0x2122, 0x80);
    ppu.write(0x2121, 0x21);
    assert_eq!(ppu.read(0x213B, 0), Some(0x01));
    assert_eq!(ppu.read(0x213B, 0), Some(0x00));
}

#[test]
fn vram_word_reads_back_in_both_step_modes() {
    let mut ppu = Ppu::new(Model::Ntsc);
    ppu.write(0x2115, 0x80);
    ppu.write(0x2116, 0x40);
    ppu.write(0x2117, 0x02);
    ppu.write(0x2118, 0x11);
    ppu.write(0x2119, 0x22);
    ppu.write(0x2116, 0x40);
    ppu.write(0x2117, 0x02);
    assert_eq!(ppu.read(0x2139, 0), Some(0x11));
    assert_eq!(ppu.read(0x213A, 0), Some(0x22));
    ppu.write(0x2115, 0x00);
    ppu.write(0x2116, 0x41);
    ppu.write(0x2117, 0x02);
    ppu.write(0x2119, 0x44);
    ppu.write(0x2118, 0x33);
    ppu.write(0x2116, 0x41);
    ppu.write(0x2117, 0x02);
    assert_eq!(ppu.read(0x213A, 0), Some(0x44));
    assert_eq!(ppu.read(0x2139, 0), Some(0x33));
}

#[test]
fn starting_a_timer_resets_its_output() {
    let mut t = Timer::new();
    t.set_timer_target(5);
    assert_eq!(t.timer_output(), 5);
    t.set_enabled(true);
    assert!(t.enabled);
    assert_eq!(t.timer_output(), 0);
    t.set_timer_target(7);
    t.set_enabled(true);
    assert_eq!(t.timer_output(), 7);
}

#[test]
fn high_res_lines_fill_the_screen_width() {
    let mut ppu = Ppu::new(Model::Ntsc);
    ppu.write(0x2121, 0x00);
    ppu.write(0x2122, 0x1F);
    ppu.write(0x2122, 0x00);
    ppu.write(0x2100, 0x0F);
    ppu.write(0x2133, 0x08);
    assert_eq!(ppu.screen_width, 512);
    ppu.render_scanline(1);
    assert!(ppu.frame_buffer[..512].iter().all(|&p| p == 0x001F));
    assert_eq!(ppu.frame_buffer[512], 0);
}
