use aliusnes::apu::spc700::instructions::Spc700;
use aliusnes::apu::spc700::table::opcode_meta;
use aliusnes::apu::spc700::AddressingMode;
use aliusnes::apu::{Apu, ApuBus};
use aliusnes::cart::info::Model;
use aliusnes::scheduler::{Event, Scheduler};

/// A sound bus with `program` at $0200 and the SPC700 pointed at it.
fn machine(program: &[u8]) -> (Spc700, ApuBus) {
    let mut bus = ApuBus::new();
    for (i, b) in program.iter().enumerate() {
        bus.aram[0x200 + i] = *b;
    }
    let mut spc = Spc700::new();
    spc.cpu.program_counter = 0x200;
    spc.cpu.stack_pointer = 0xEF;
    (spc, bus)
}

#[test]
fn immediate_moves_and_register_transfers() {
    // MOV Y,#$12; MOV A,X (X = 0); MOV X,A
    let (mut spc, mut bus) = machine(&[0x8D, 0x12, 0x7D, 0x5D]);
    spc.cpu.index_x = 0x80;
    assert!(spc.step(&mut bus));
    assert_eq!(spc.cpu.index_y, 0x12);
    assert!(spc.step(&mut bus));
    assert_eq!(spc.cpu.accumulator, 0x80);
    assert!(spc.cpu.status.negative());
    assert!(spc.step(&mut bus));
    assert_eq!(spc.cpu.index_x, 0x80);
    assert_eq!(spc.cpu.program_counter, 0x204);
}

#[test]
fn adc_and_cmp_set_the_flags() {
    // ADC A,#$0F; CMP A,#$20
    let (mut spc, mut bus) = machine(&[0x88, 0x0F, 0x68, 0x20]);
    spc.cpu.accumulator = 0x11;
    spc.step(&mut bus);
    assert_eq!(spc.cpu.accumulator, 0x20);
    assert!(spc.cpu.status.half_carry());
    assert!(!spc.cpu.status.carry());
    spc.step(&mut bus);
    assert!(spc.cpu.status.zero());
    assert!(spc.cpu.status.carry());
}

#[test]
fn call_and_ret_round_trip() {
    // CALL $0300 ... at $0300: RET
    let (mut spc, mut bus) = machine(&[0x3F, 0x00, 0x03]);
    bus.aram[0x300] = 0x6F;
    spc.step(&mut bus);
    assert_eq!(spc.cpu.program_counter, 0x300);
    assert_eq!(spc.cpu.stack_pointer, 0xED);
    assert_eq!(bus.aram[0x1EF], 0x02);
    assert_eq!(bus.aram[0x1EE], 0x03);
    spc.step(&mut bus);
    assert_eq!(spc.cpu.program_counter, 0x203);
    assert_eq!(spc.cpu.stack_pointer, 0xEF);
}

#[test]
fn push_and_pop_round_trip() {
    // PUSH A; MOV A,X; POP A
    let (mut spc, mut bus) = machine(&[0x2D, 0x7D, 0xAE]);
    spc.cpu.accumulator = 0x5A;
    spc.step(&mut bus);
    spc.step(&mut bus);
    assert_eq!(spc.cpu.accumulator, 0x00);
    spc.step(&mut bus);
    assert_eq!(spc.cpu.accumulator, 0x5A);
    assert_eq!(spc.cpu.stack_pointer, 0xEF);
}

#[test]
fn direct_page_word_operations() {
    // MOV $10,#$FF; INCW $10; MOVW YA,$10
    let (mut spc, mut bus) = machine(&[0x8F, 0xFF, 0x10, 0x3A, 0x10, 0xBA, 0x10]);
    spc.step(&mut bus);
    assert_eq!(bus.aram[0x10], 0xFF);
    spc.step(&mut bus);
    assert_eq!(bus.aram[0x10], 0x00);
    assert_eq!(bus.aram[0x11], 0x01);
    spc.step(&mut bus);
    assert_eq!(spc.cpu.accumulator, 0x00);
    assert_eq!(spc.cpu.index_y, 0x01);
    assert!(!spc.cpu.status.zero());
}

#[test]
fn divide_multiply_and_nibble_swap() {
    // DIV YA,X; XCN A
    let (mut spc, mut bus) = machine(&[0x9E, 0x9F]);
    spc.cpu.index_y = 0x00;
    spc.cpu.accumulator = 100;
    spc.cpu.index_x = 7;
    spc.step(&mut bus);
    assert_eq!(spc.cpu.accumulator, 14);
    assert_eq!(spc.cpu.index_y, 2);
    spc.step(&mut bus);
    assert_eq!(spc.cpu.accumulator, 0xE0);
    let mut cpu = Spc700::new().cpu;
    cpu.index_y = 0x12;
    cpu.accumulator = 0x34;
    let mut bus = ApuBus::new();
    Spc700::mul(&mut cpu, &mut bus);
    assert_eq!(cpu.ya(), 0x12 * 0x34);
}

#[test]
fn branch_and_bit_branches() {
    // BRA +2 (skipping two bytes); SET1 $20.3; BBS $20.3,+1
    let (mut spc, mut bus) = machine(&[0x2F, 0x02, 0xFF, 0xFF, 0x62, 0x20, 0x63, 0x20, 0x01]);
    spc.step(&mut bus);
    assert_eq!(spc.cpu.program_counter, 0x204);
    spc.step(&mut bus);
    assert_eq!(bus.aram[0x20], 0x08);
    spc.step(&mut bus);
    assert_eq!(spc.cpu.program_counter, 0x20A);
}

#[test]
fn decimal_adjust_after_addition() {
    // ADC A,#$27 then DAA on $15: 0x3C -> 0x42
    let (mut spc, mut bus) = machine(&[0x88, 0x27, 0xDF]);
    spc.cpu.accumulator = 0x15;
    spc.step(&mut bus);
    assert_eq!(spc.cpu.accumulator, 0x3C);
    let mut cpu = spc.cpu;
    Spc700::daa(&mut cpu, &mut bus);
    assert_eq!(cpu.accumulator, 0x42);
}

#[test]
fn opcodes_without_a_table_entry_only_fetch() {
    let (mut spc, mut bus) = machine(&[0xE8, 0x12]);
    let before = bus.cycles;
    assert!(!spc.step(&mut bus));
    assert_eq!(spc.cpu.program_counter, 0x201);
    assert_eq!(bus.cycles, before + 1);
    assert_eq!(opcode_meta(0x8D).mnemonic, "MOV");
    assert!(opcode_meta(0x8D).mode == AddressingMode::Immediate);
}

#[test]
fn sound_unit_catches_up_with_the_master_clock() {
    let mut apu = Apu::new(Model::Ntsc);
    apu.catch_up_to_master(21_477_270 / 100);
    assert!(apu.bus.cycles >= 10_239);
    assert!(apu.bus.cycles < 10_239 + 16);
    let mut scheduler = Scheduler::new();
    apu.handle_event(&mut scheduler, 1000);
    assert!(scheduler.events[0].event == Event::Apu);
    assert_eq!(scheduler.events[0].time, 1000 + 671);
    apu.write(0x2141, 0x99, 2000);
    assert_eq!(apu.bus.apuio[1], 0x99);
    apu.bus.cpuio[2] = 0x33;
    assert_eq!(apu.read(0x2142, 2000), Some(0x33));
}
