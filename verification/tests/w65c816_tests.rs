use aliusnes::bus::system_bus::SystemBus;
use aliusnes::load_cart;
use aliusnes::w65c816::addressing::{Address, AddressingMode};
use aliusnes::w65c816::cpu::{Cpu, Status};
use aliusnes::w65c816::functions::{do_bin_adc, do_dec_adc, do_dec_sbc};
use aliusnes::w65c816::regsize::RegSize;
use aliusnes::w65c816::{opcode_meta, W65C816};

/// A 32 KiB LoROM image with `program` at $00:8000 and `extra` blocks at their CPU addresses.
fn rom_with(program: &[u8], extra: &[(u16, &[u8])]) -> Vec<u8> {
    let mut rom = vec![0u8; 0x8000];
    rom[..program.len()].copy_from_slice(program);
    for (addr, bytes) in extra {
        let at = (*addr as usize) & 0x7FFF;
        rom[at..at + bytes.len()].copy_from_slice(bytes);
    }
    let title = b"TEST ROM             ";
    rom[0x7FC0..0x7FD5].copy_from_slice(title);
    rom[0x7FD5] = 0x20;
    rom[0x7FD7] = 0x08;
    rom[0x7FD8] = 0x00;
    rom[0x7FD9] = 0x01;
    rom
}

fn bus_with(program: &[u8], extra: &[(u16, &[u8])]) -> SystemBus {
    let rom = rom_with(program, extra);
    SystemBus::new(load_cart(&rom, vec![0; 0x400]))
}

fn cpu_at(pc: u16) -> W65C816 {
    let mut w = W65C816::new();
    w.cpu.program_counter = pc;
    w.cpu.stack_pointer = 0x01FF;
    w.cpu.status = Status(0x34);
    w
}

#[test]
fn lda_immediate_loads_the_low_byte_and_sets_flags() {
    let mut w = cpu_at(0x8000);
    w.cpu.accumulator = 0x1200;
    let mut bus = bus_with(&[0xA9, 0x80], &[]);
    w.step(&mut bus);
    assert_eq!(w.cpu.accumulator, 0x1280);
    assert_eq!(w.cpu.program_counter, 0x8002);
    assert!(w.cpu.status.negative());
    assert!(!w.cpu.status.zero());
}

#[test]
fn native_mode_sixteen_bit_load() {
    let mut w = cpu_at(0x8000);
    // CLC; XCE; REP #$30; LDA #$1234
    let mut bus = bus_with(&[0x18, 0xFB, 0xC2, 0x30, 0xA9, 0x34, 0x12], &[]);
    for _ in 0..4 {
        w.step(&mut bus);
    }
    assert!(!w.cpu.emulation_mode);
    assert!(!w.cpu.status.a_reg_size());
    assert_eq!(w.cpu.accumulator, 0x1234);
    assert_eq!(w.cpu.program_counter, 0x8007);
}

#[test]
fn jsr_then_rts_returns_after_the_call() {
    let mut w = cpu_at(0x8000);
    let mut bus = bus_with(&[0x20, 0x00, 0x90], &[(0x9000, &[0x60])]);
    w.step(&mut bus);
    assert_eq!(w.cpu.program_counter, 0x9000);
    assert_eq!(w.cpu.stack_pointer, 0x01FD);
    assert_eq!(bus.wram.ram[0x01FF], 0x80);
    assert_eq!(bus.wram.ram[0x01FE], 0x02);
    w.step(&mut bus);
    assert_eq!(w.cpu.program_counter, 0x8003);
    assert_eq!(w.cpu.stack_pointer, 0x01FF);
}

#[test]
fn bra_backwards_by_two_loops_on_itself() {
    let mut w = cpu_at(0x8000);
    let mut bus = bus_with(&[0x80, 0xFE], &[]);
    w.step(&mut bus);
    assert_eq!(w.cpu.program_counter, 0x8000);
}

#[test]
fn branch_not_taken_skips_the_offset() {
    let mut w = cpu_at(0x8000);
    w.cpu.status.set_zero(false);
    let mut bus = bus_with(&[0xF0, 0x10], &[]);
    w.step(&mut bus);
    assert_eq!(w.cpu.program_counter, 0x8002);
}

#[test]
fn pha_pla_round_trip() {
    let mut w = cpu_at(0x8000);
    w.cpu.accumulator = 0x0042;
    // PHA; LDA #$00; PLA
    let mut bus = bus_with(&[0x48, 0xA9, 0x00, 0x68], &[]);
    for _ in 0..3 {
        w.step(&mut bus);
    }
    assert_eq!(w.cpu.accumulator, 0x0042);
    assert_eq!(w.cpu.stack_pointer, 0x01FF);
}

#[test]
fn sta_absolute_writes_the_data_bank() {
    let mut w = cpu_at(0x8000);
    w.cpu.accumulator = 0x00AB;
    w.cpu.dbr = 0x7E;
    let mut bus = bus_with(&[0x8D, 0x34, 0x12], &[]);
    w.step(&mut bus);
    assert_eq!(bus.wram.ram[0x1234], 0xAB);
}

#[test]
fn inc_in_memory_wraps() {
    let mut w = cpu_at(0x8000);
    let mut bus = bus_with(&[0xE6, 0x10], &[]);
    bus.wram.ram[0x10] = 0xFF;
    w.step(&mut bus);
    assert_eq!(bus.wram.ram[0x10], 0x00);
    assert!(w.cpu.status.zero());
}

#[test]
fn mvn_moves_until_the_count_wraps() {
    let mut w = cpu_at(0x8000);
    w.cpu.index_x = 0x10;
    w.cpu.index_y = 0x20;
    w.cpu.accumulator = 0x0001;
    let mut bus = bus_with(&[0x54, 0x7E, 0x7F], &[]);
    bus.wram.ram[0x1_0010] = 0xAB;
    bus.wram.ram[0x1_0011] = 0xCD;
    w.step(&mut bus);
    assert_eq!(w.cpu.program_counter, 0x8000);
    assert_eq!(w.cpu.dbr, 0x7E);
    w.step(&mut bus);
    assert_eq!(w.cpu.program_counter, 0x8003);
    assert_eq!(bus.wram.ram[0x0020], 0xAB);
    assert_eq!(bus.wram.ram[0x0021], 0xCD);
    assert_eq!(w.cpu.index_x, 0x12);
    assert_eq!(w.cpu.index_y, 0x22);
    assert_eq!(w.cpu.accumulator, 0xFFFF);
}

#[test]
fn nmi_pushes_state_and_jumps_through_the_vector() {
    let mut w = cpu_at(0x8000);
    w.cpu.status = Status(0x00);
    let mut bus = bus_with(&[], &[(0xFFFA, &[0x00, 0x90]), (0x9000, &[0xEA])]);
    bus.ppu.counters.nmi_requested = true;
    w.step(&mut bus);
    assert_eq!(w.cpu.program_counter, 0x9001);
    assert!(w.cpu.status.irq_disable());
    assert_eq!(bus.wram.ram[0x01FF], 0x80);
    assert_eq!(bus.wram.ram[0x01FE], 0x00);
    assert_eq!(bus.wram.ram[0x01FD], 0x00);
    assert!(!bus.ppu.counters.nmi_requested);
}

#[test]
fn reset_reads_the_reset_vector() {
    let mut w = W65C816::new();
    let mut bus = bus_with(&[], &[(0xFFFC, &[0x34, 0x92])]);
    w.reset(&mut bus);
    assert_eq!(w.cpu.program_counter, 0x9234);
    assert_eq!(w.cpu.stack_pointer, 0x01FF);
    assert!(w.cpu.emulation_mode);
    assert!(w.cpu.status.irq_disable());
}

#[test]
fn stopped_cpu_does_nothing() {
    let mut w = cpu_at(0x8000);
    let mut bus = bus_with(&[0xDB, 0xEA], &[]);
    w.step(&mut bus);
    assert!(w.cpu.stopped);
    let clock = bus.scheduler.cycles;
    w.step(&mut bus);
    assert_eq!(bus.scheduler.cycles, clock);
    assert_eq!(w.cpu.program_counter, 0x8001);
}

#[test]
fn jmp_indirect_reads_the_pointer_in_bank_zero() {
    let mut w = cpu_at(0x8000);
    let mut bus = bus_with(&[0x6C, 0x00, 0x02], &[]);
    bus.wram.ram[0x0200] = 0x78;
    bus.wram.ram[0x0201] = 0x56;
    w.step(&mut bus);
    assert_eq!(w.cpu.program_counter, 0x5678);
}

#[test]
fn brl_branches_by_a_word() {
    let mut w = cpu_at(0x8000);
    let mut bus = bus_with(&[0x82, 0x00, 0x10], &[]);
    w.step(&mut bus);
    assert_eq!(w.cpu.program_counter, 0x9003);
}

#[test]
fn ror_accumulator_rotates_through_carry() {
    let mut w = cpu_at(0x8000);
    w.cpu.accumulator = 0x0001;
    w.cpu.status.set_carry(true);
    let mut bus = bus_with(&[0x6A], &[]);
    w.step(&mut bus);
    assert_eq!(w.cpu.accumulator & 0xFF, 0x80);
    assert!(w.cpu.status.carry());
    assert!(w.cpu.status.negative());
}

#[test]
fn cmp_sets_carry_when_not_below() {
    let mut w = cpu_at(0x8000);
    w.cpu.accumulator = 0x0040;
    let mut bus = bus_with(&[0xC9, 0x40, 0xC9, 0x41], &[]);
    w.step(&mut bus);
    assert!(w.cpu.status.carry() && w.cpu.status.zero());
    w.step(&mut bus);
    assert!(!w.cpu.status.carry() && w.cpu.status.negative());
}

#[test]
fn decimal_add_is_bcd_addition() {
    let mut cpu = Cpu::new();
    cpu.accumulator = 0x15;
    cpu.status = Status(0x28);
    do_dec_adc::<u8>(&mut cpu, 0x27);
    assert_eq!(cpu.accumulator, 0x42);
    assert!(!cpu.status.carry());
    cpu.accumulator = 0x99;
    do_dec_adc::<u8>(&mut cpu, 0x01);
    assert_eq!(cpu.accumulator & 0xFF, 0x00);
    assert!(cpu.status.carry());
    assert!(cpu.status.zero());
}

#[test]
fn decimal_subtract_is_bcd_subtraction() {
    let mut cpu = Cpu::new();
    cpu.accumulator = 0x42;
    cpu.status = Status(0x29);
    do_dec_sbc::<u8>(&mut cpu, 0x15u8.complement());
    assert_eq!(cpu.accumulator & 0xFF, 0x27);
    assert!(cpu.status.carry());
}

#[test]
fn sixteen_bit_decimal_add() {
    let mut cpu = Cpu::new();
    cpu.accumulator = 0x1234;
    cpu.status = Status(0x08);
    do_dec_adc::<u16>(&mut cpu, 0x8766);
    assert_eq!(cpu.accumulator, 0x0000);
    assert!(cpu.status.carry());
}

#[test]
fn binary_add_sets_overflow() {
    let mut cpu = Cpu::new();
    cpu.accumulator = 0x7FFF;
    cpu.status = Status(0x00);
    do_bin_adc::<u16>(&mut cpu, 1);
    assert_eq!(cpu.accumulator, 0x8000);
    assert!(cpu.status.overflow());
    assert!(cpu.status.negative());
    assert!(!cpu.status.carry());
}

#[test]
fn address_arithmetic_wraps() {
    let a = Address::new(0xFFFF, 0x12).wrapping_add(1);
    assert_eq!((a.bank, a.offset), (0x13, 0x0000));
    let b = Address::new(0xFFFF, 0x12).wrapping_offset_add(1);
    assert_eq!((b.bank, b.offset), (0x12, 0x0000));
    assert_eq!(u32::from(Address::new(0x3456, 0x12)), 0x123456);
    let c = Address::from(0xFF_FFFFu32).wrapping_add(2);
    assert_eq!(u32::from(c), 0x000001);
}

#[test]
fn opcode_table_entries() {
    let m = opcode_meta(0xA9);
    assert_eq!(m.code, 0xA9);
    assert_eq!(m.mnemonic, "LDA");
    assert_eq!(m.mode, AddressingMode::Immediate);
    assert_eq!(opcode_meta(0xDC).mnemonic, "JML");
    assert_eq!(opcode_meta(0xFF).mode, AddressingMode::AbsoluteLongX);
}

#[test]
fn peek_opcode_reads_without_ticking() {
    let w = cpu_at(0x8000);
    let bus = bus_with(&[0x4C], &[]);
    let m = w.peek_opcode(&bus);
    assert_eq!(m.mnemonic, "JMP");
    assert_eq!(bus.scheduler.cycles, 0);
}

#[test]
fn sixteen_bit_decimal_subtract() {
    let mut cpu = Cpu::new();
    cpu.accumulator = 0x1000;
    cpu.status = Status(0x09);
    do_dec_sbc::<u16>(&mut cpu, 0x0001u16.complement());
    assert_eq!(cpu.accumulator, 0x0999);
    assert!(cpu.status.carry());
    cpu.accumulator = 0x0000;
    cpu.status = Status(0x09);
    do_dec_sbc::<u16>(&mut cpu, 0x0001u16.complement());
    assert_eq!(cpu.accumulator, 0x9999);
    assert!(!cpu.status.carry());
}

#[test]
fn sixteen_bit_decimal_add_carries_between_bytes() {
    let mut cpu = Cpu::new();
    cpu.accumulator = 0x0199;
    cpu.status = Status(0x09);
    do_dec_adc::<u16>(&mut cpu, 0x0001);
    assert_eq!(cpu.accumulator, 0x0201);
    assert!(!cpu.status.carry());
}

#[test]
fn sixteen_bit_push_pull_round_trip() {
    let mut w = cpu_at(0x8000);
    w.cpu.emulation_mode = false;
    w.cpu.status = Status(0x04);
    w.cpu.accumulator = 0xBEEF;
    // PHA; LDA #$0000; PLA
    let mut bus = bus_with(&[0x48, 0xA9, 0x00, 0x00, 0x68], &[]);
    w.step(&mut bus);
    assert_eq!(w.cpu.stack_pointer, 0x01FD);
    assert_eq!(bus.wram.ram[0x01FF], 0xBE);
    assert_eq!(bus.wram.ram[0x01FE], 0xEF);
    w.step(&mut bus);
    assert_eq!(w.cpu.accumulator, 0x0000);
    w.step(&mut bus);
    assert_eq!(w.cpu.accumulator, 0xBEEF);
    assert_eq!(w.cpu.stack_pointer, 0x01FF);
}

#[test]
fn tcs_in_emulation_mode_keeps_the_stack_in_page_one() {
    let mut w = cpu_at(0x8000);
    w.cpu.accumulator = 0x12AB;
    let mut bus = bus_with(&[0x1B], &[]);
    w.step(&mut bus);
    assert_eq!(w.cpu.stack_pointer, 0x01AB);
    assert_eq!(w.cpu.accumulator, 0x12AB);
}

#[test]
fn tcs_and_txs_in_native_mode_move_all_sixteen_bits() {
    let mut w = cpu_at(0x8000);
    w.cpu.accumulator = 0x12AB;
    // CLC; XCE; TCS
    let mut bus = bus_with(&[0x18, 0xFB, 0x1B], &[]);
    for _ in 0..3 {
        w.step(&mut bus);
    }
    assert_eq!(w.cpu.stack_pointer, 0x12AB);
    let mut w = cpu_at(0x8000);
    w.cpu.index_x = 0x0042;
    let mut bus = bus_with(&[0x9A], &[]);
    w.step(&mut bus);
    assert_eq!(w.cpu.stack_pointer, 0x0142);
}
