use gestalt::bus::Bus;
use gestalt::cpu::{adc, adc_decimal, compare, sbc, sbc_decimal, CPU};
use gestalt::decode::{generate_decoder, lookup, DecodeEntry, DecodeTable};
use gestalt::address_mode::AddressMode;
use gestalt::error::CpuError;
use gestalt::gestalt::Gestalt;
use gestalt::instruction::Instruction;
use gestalt::register::{
    Register, BREAK, CARRY, INTERRUPT_DISABLE, NEGATIVE, OVERFLOW, UNUSED, ZERO,
};

/// A processor with `program` at 0x0200, the program counter there and the
/// stack pointer at 0xFD.
fn machine(program: &[u8]) -> (CPU, Bus) {
    let mut cpu = CPU::new();
    let mut bus = Bus::new();
    bus.load(0x0200, &program.to_vec());
    cpu.register.program_counter = 0x0200;
    cpu.register.stack_pointer = 0xFD;
    (cpu, bus)
}

fn run(cpu: &mut CPU, bus: &mut Bus, steps: usize) -> Vec<u8> {
    (0..steps).map(|_| cpu.step(bus).unwrap()).collect()
}

#[test]
fn decode_table_has_each_legal_opcode_once() {
    let table = generate_decoder().unwrap();
    let mapped = (0..=255u8).filter(|op| table.get(*op).is_some()).count();
    assert_eq!(mapped, 151);
    for op in 0..=255u8 {
        assert_eq!(table.get(op), lookup(op));
    }
}

#[test]
fn decode_table_documented_entries() {
    let t = DecodeTable::new();
    let e = |i, m, c| Some(DecodeEntry { instruction: i, mode: m, cycles: c });
    assert_eq!(t.get(0x69), e(Instruction::ADC, AddressMode::Immediate, 2));
    assert_eq!(t.get(0x00), e(Instruction::BRK, AddressMode::Implied, 7));
    assert_eq!(t.get(0x01), e(Instruction::ORA, AddressMode::IndirectX, 6));
    assert_eq!(t.get(0x2D), e(Instruction::AND, AddressMode::Absolute, 4));
    assert_eq!(t.get(0x3D), e(Instruction::AND, AddressMode::AbsoluteX, 4));
    assert_eq!(t.get(0x4A), e(Instruction::LSR, AddressMode::Accumulator, 2));
    assert_eq!(t.get(0x2A), e(Instruction::ROL, AddressMode::Accumulator, 2));
    assert_eq!(t.get(0x3E), e(Instruction::ROL, AddressMode::AbsoluteX, 7));
    assert_eq!(t.get(0x6C), e(Instruction::JMP, AddressMode::Indirect, 5));
    assert_eq!(t.get(0x8E), e(Instruction::STX, AddressMode::Absolute, 4));
    assert_eq!(t.get(0x8C), e(Instruction::STY, AddressMode::Absolute, 4));
    assert_eq!(t.get(0x9A), e(Instruction::TXS, AddressMode::Implied, 2));
    assert_eq!(t.get(0x91), e(Instruction::STA, AddressMode::IndirectY, 6));
    assert_eq!(t.get(0x02), None);
    assert_eq!(t.get(0xFF), None);
}

#[test]
fn new_cpu_is_zeroed() {
    let cpu = CPU::new();
    assert_eq!(cpu.register, Register::new());
    assert_eq!(cpu.register.accumulator, 0);
    assert_eq!(cpu.register.status, 0);
    assert!(!cpu.nmi_pending && !cpu.irq_pending);
    let g = Gestalt::new();
    assert_eq!(g.cpu.register.program_counter, 0);
    assert_eq!(g.bus.read(0xFFFF), 0);
}

#[test]
fn adc_signed_overflow() {
    // LDA #$50; ADC #$50 with Carry clear
    let (mut cpu, mut bus) = machine(&[0xA9, 0x50, 0x69, 0x50]);
    assert_eq!(run(&mut cpu, &mut bus, 2), vec![2, 2]);
    let r = cpu.register;
    assert_eq!(r.accumulator, 0xA0);
    assert!(r.get_flag(OVERFLOW));
    assert!(r.get_flag(NEGATIVE));
    assert!(!r.get_flag(CARRY));
    assert!(!r.get_flag(ZERO));
    assert_eq!(r.program_counter, 0x0204);
}

#[test]
fn sbc_borrows_when_carry_clear() {
    // LDA #$00; CLC; SBC #$01
    let (mut cpu, mut bus) = machine(&[0xA9, 0x00, 0x18, 0xE9, 0x01]);
    run(&mut cpu, &mut bus, 3);
    let r = cpu.register;
    assert_eq!(r.accumulator, 0xFE);
    assert!(!r.get_flag(CARRY));
    assert!(r.get_flag(NEGATIVE));
    assert!(!r.get_flag(ZERO));
}

#[test]
fn arithmetic_formulas() {
    assert_eq!(adc(0x50, 0x50, false), (0xA0, false, true));
    assert_eq!(adc(0xFF, 0x01, false), (0x00, true, false));
    assert_eq!(adc(0x80, 0x80, true), (0x01, true, true));
    assert_eq!(sbc(0x00, 0x01, false), (0xFE, false, false));
    assert_eq!(sbc(0x05, 0x03, true), (0x02, true, false));
    assert_eq!(sbc(0x80, 0x01, true), (0x7F, true, true));
    assert_eq!(compare(0, 0x10, 0x10), CARRY | ZERO);
    assert_eq!(compare(0, 0x10, 0x20), NEGATIVE);
    assert_eq!(compare(NEGATIVE | ZERO, 0x20, 0x10), CARRY);
}

#[test]
fn branch_cycles() {
    // LDX #$01; BNE +2 (taken, same page)
    let (mut cpu, mut bus) = machine(&[0xA2, 0x01, 0xD0, 0x02]);
    assert_eq!(run(&mut cpu, &mut bus, 2), vec![2, 3]);
    assert_eq!(cpu.register.program_counter, 0x0206);
    // LDX #$00; BNE +2 (not taken)
    let (mut cpu, mut bus) = machine(&[0xA2, 0x00, 0xD0, 0x02]);
    assert_eq!(run(&mut cpu, &mut bus, 2), vec![2, 2]);
    assert_eq!(cpu.register.program_counter, 0x0204);
    // LDX #$01; BNE -6 (taken, to the previous page)
    let (mut cpu, mut bus) = machine(&[0xA2, 0x01, 0xD0, 0xFA]);
    assert_eq!(run(&mut cpu, &mut bus, 2), vec![2, 4]);
    assert_eq!(cpu.register.program_counter, 0x01FE);
}

#[test]
fn indexed_read_page_cross_costs_one_cycle() {
    // LDX #$01; LDA $02FF,X; STA $02FF,X
    let (mut cpu, mut bus) = machine(&[0xA2, 0x01, 0xBD, 0xFF, 0x02, 0x9D, 0xFF, 0x02]);
    bus.write(0x0300, 0x42);
    assert_eq!(run(&mut cpu, &mut bus, 3), vec![2, 5, 5]);
    assert_eq!(cpu.register.accumulator, 0x42);
    // LDY #$01; LDA ($10),Y with the pointer at 0x10 = 0x12FF
    let (mut cpu, mut bus) = machine(&[0xA0, 0x01, 0xB1, 0x10]);
    bus.write(0x10, 0xFF);
    bus.write(0x11, 0x12);
    bus.write(0x1300, 0x77);
    assert_eq!(run(&mut cpu, &mut bus, 2), vec![2, 6]);
    assert_eq!(cpu.register.accumulator, 0x77);
}

#[test]
fn stack_round_trip_restores_pointer() {
    // LDA #1; PHA; LDA #2; PHA; LDA #3; PHA; PLA; TAX; PLA; TAY; PLA
    let (mut cpu, mut bus) = machine(&[
        0xA9, 1, 0x48, 0xA9, 2, 0x48, 0xA9, 3, 0x48, 0x68, 0xAA, 0x68, 0xA8, 0x68,
    ]);
    run(&mut cpu, &mut bus, 6);
    assert_eq!(cpu.register.stack_pointer, 0xFA);
    assert_eq!(bus.read(0x01FD), 1);
    assert_eq!(bus.read(0x01FB), 3);
    run(&mut cpu, &mut bus, 5);
    assert_eq!(cpu.register.x, 3);
    assert_eq!(cpu.register.y, 2);
    assert_eq!(cpu.register.accumulator, 1);
    assert_eq!(cpu.register.stack_pointer, 0xFD);
}

#[test]
fn stack_pointer_wraps_within_page() {
    // LDA #$AB; PHA; PLA with the stack pointer at 0x00
    let (mut cpu, mut bus) = machine(&[0xA9, 0xAB, 0x48, 0x68]);
    cpu.register.stack_pointer = 0x00;
    run(&mut cpu, &mut bus, 2);
    assert_eq!(cpu.register.stack_pointer, 0xFF);
    assert_eq!(bus.read(0x0100), 0xAB);
    assert_eq!(bus.read(0x0200 - 1), 0);
    cpu.register.accumulator = 0;
    run(&mut cpu, &mut bus, 1);
    assert_eq!(cpu.register.stack_pointer, 0x00);
    assert_eq!(cpu.register.accumulator, 0xAB);
}

#[test]
fn indirect_jump_page_wrap() {
    // JMP ($02FF)
    let (mut cpu, mut bus) = machine(&[0x6C, 0xFF, 0x02]);
    bus.write(0x02FF, 0x34);
    bus.write(0x0300, 0x56);
    bus.write(0x0200, 0x6C);
    assert_eq!(run(&mut cpu, &mut bus, 1), vec![5]);
    // high byte from 0x0200 (0x6C), not from 0x0300
    assert_eq!(cpu.register.program_counter, 0x6C34);
}

#[test]
fn indirect_jump_within_page() {
    // JMP ($0300)
    let (mut cpu, mut bus) = machine(&[0x6C, 0x00, 0x03]);
    bus.write(0x0300, 0x34);
    bus.write(0x0301, 0x12);
    run(&mut cpu, &mut bus, 1);
    assert_eq!(cpu.register.program_counter, 0x1234);
}

#[test]
fn irq_masked_while_interrupt_disable_set() {
    // SEI; NOP; CLI; NOP
    let (mut cpu, mut bus) = machine(&[0x78, 0xEA, 0x58, 0xEA]);
    bus.write(0xFFFE, 0x00);
    bus.write(0xFFFF, 0x90);
    run(&mut cpu, &mut bus, 1);
    cpu.trigger_irq();
    assert_eq!(run(&mut cpu, &mut bus, 2), vec![2, 2]);
    assert!(cpu.irq_pending);
    assert_eq!(cpu.register.program_counter, 0x0203);
    // InterruptDisable now clear: the IRQ is taken at the next boundary
    assert_eq!(run(&mut cpu, &mut bus, 1), vec![7]);
    assert!(!cpu.irq_pending);
    assert_eq!(cpu.register.program_counter, 0x9000);
    assert!(cpu.register.get_flag(INTERRUPT_DISABLE));
    assert_eq!(cpu.register.stack_pointer, 0xFA);
    assert_eq!(bus.read(0x01FD), 0x02);
    assert_eq!(bus.read(0x01FC), 0x03);
    assert_eq!(bus.read(0x01FB) & BREAK, 0);
    assert_eq!(bus.read(0x01FB) & UNUSED, UNUSED);
}

#[test]
fn nmi_serviced_regardless_of_interrupt_disable() {
    let (mut cpu, mut bus) = machine(&[0x78, 0xEA]);
    bus.write(0xFFFA, 0x00);
    bus.write(0xFFFB, 0x80);
    run(&mut cpu, &mut bus, 1);
    cpu.trigger_nmi();
    assert_eq!(run(&mut cpu, &mut bus, 1), vec![7]);
    assert!(!cpu.nmi_pending);
    assert_eq!(cpu.register.program_counter, 0x8000);
    assert!(cpu.register.get_flag(INTERRUPT_DISABLE));
}

#[test]
fn reset_loads_vector() {
    let mut cpu = CPU::new();
    let mut bus = Bus::new();
    bus.write(0xFFFC, 0x00);
    bus.write(0xFFFD, 0xC0);
    cpu.register.stack_pointer = 0x42;
    cpu.trigger_irq();
    cpu.reset(&bus);
    assert_eq!(cpu.register.program_counter, 0xC000);
    assert!(cpu.register.get_flag(INTERRUPT_DISABLE));
    assert_eq!(cpu.register.stack_pointer, 0x42);
    assert!(!cpu.irq_pending);
}

#[test]
fn unmapped_opcode_is_reported() {
    let (mut cpu, mut bus) = machine(&[0xEA, 0x02]);
    run(&mut cpu, &mut bus, 1);
    let before = cpu.register;
    assert_eq!(
        cpu.step(&mut bus),
        Err(CpuError::UnmappedOpcode { opcode: 0x02, program_counter: 0x0201 })
    );
    assert_eq!(cpu.register, before);
}

#[test]
fn jsr_and_rts() {
    // JSR $0210 ... at 0x0210: RTS
    let (mut cpu, mut bus) = machine(&[0x20, 0x10, 0x02]);
    bus.write(0x0210, 0x60);
    assert_eq!(run(&mut cpu, &mut bus, 1), vec![6]);
    assert_eq!(cpu.register.program_counter, 0x0210);
    assert_eq!(bus.read(0x01FD), 0x02);
    assert_eq!(bus.read(0x01FC), 0x02);
    assert_eq!(run(&mut cpu, &mut bus, 1), vec![6]);
    assert_eq!(cpu.register.program_counter, 0x0203);
    assert_eq!(cpu.register.stack_pointer, 0xFD);
}

#[test]
fn brk_and_rti() {
    // BRK at 0x0200; handler at 0x0300: RTI
    let (mut cpu, mut bus) = machine(&[0x00, 0xEA, 0xEA]);
    bus.write(0xFFFE, 0x00);
    bus.write(0xFFFF, 0x03);
    bus.write(0x0300, 0x40);
    cpu.register.status = CARRY;
    assert_eq!(run(&mut cpu, &mut bus, 1), vec![7]);
    assert_eq!(cpu.register.program_counter, 0x0300);
    assert!(cpu.register.get_flag(INTERRUPT_DISABLE));
    assert_eq!(bus.read(0x01FB), CARRY | BREAK | UNUSED);
    assert_eq!(run(&mut cpu, &mut bus, 1), vec![6]);
    assert_eq!(cpu.register.program_counter, 0x0202);
    assert_eq!(cpu.register.status, CARRY | UNUSED);
}

#[test]
fn shifts_and_rotates() {
    // SEC; LDA #$81; ROL A; ROR A; ASL A; LSR A
    let (mut cpu, mut bus) = machine(&[0x38, 0xA9, 0x81, 0x2A, 0x6A, 0x0A, 0x4A]);
    run(&mut cpu, &mut bus, 3);
    assert_eq!(cpu.register.accumulator, 0x03);
    assert!(cpu.register.get_flag(CARRY));
    run(&mut cpu, &mut bus, 1);
    assert_eq!(cpu.register.accumulator, 0x81);
    assert!(cpu.register.get_flag(CARRY));
    run(&mut cpu, &mut bus, 1);
    assert_eq!(cpu.register.accumulator, 0x02);
    assert!(cpu.register.get_flag(CARRY));
    run(&mut cpu, &mut bus, 1);
    assert_eq!(cpu.register.accumulator, 0x01);
    assert!(!cpu.register.get_flag(CARRY));
}

#[test]
fn zero_page_indexing_wraps() {
    // LDX #$10; LDA $F8,X (reads 0x0008); INC $F8,X
    let (mut cpu, mut bus) = machine(&[0xA2, 0x10, 0xB5, 0xF8, 0xF6, 0xF8]);
    bus.write(0x0008, 0x7F);
    assert_eq!(run(&mut cpu, &mut bus, 3), vec![2, 4, 6]);
    assert_eq!(cpu.register.accumulator, 0x7F);
    assert_eq!(bus.read(0x0008), 0x80);
    assert_eq!(bus.read(0x0108), 0);
}

#[test]
fn bit_and_compare_flags() {
    // LDA #$01; BIT $10 (0xC0); CMP #$01
    let (mut cpu, mut bus) = machine(&[0xA9, 0x01, 0x24, 0x10, 0xC9, 0x01]);
    bus.write(0x10, 0xC0);
    run(&mut cpu, &mut bus, 2);
    assert!(cpu.register.get_flag(ZERO));
    assert!(cpu.register.get_flag(OVERFLOW));
    assert!(cpu.register.get_flag(NEGATIVE));
    run(&mut cpu, &mut bus, 1);
    assert!(cpu.register.get_flag(ZERO));
    assert!(cpu.register.get_flag(CARRY));
    assert!(!cpu.register.get_flag(NEGATIVE));
}

#[test]
fn set_flag_changes_one_bit() {
    let mut r = Register::new();
    r.set_flag(CARRY, true);
    r.set_flag(OVERFLOW, true);
    assert_eq!(r.status, CARRY | OVERFLOW);
    r.set_flag(CARRY, false);
    assert_eq!(r.status, OVERFLOW);
}

#[test]
fn decimal_mode_on_a_decimal_capable_part() {
    // SED; CLC; LDA #$09; ADC #$01
    let (mut cpu, mut bus) = machine(&[0xF8, 0x18, 0xA9, 0x09, 0x69, 0x01]);
    cpu.decimal_capable = true;
    run(&mut cpu, &mut bus, 4);
    assert_eq!(cpu.register.accumulator, 0x10);
    assert!(!cpu.register.get_flag(CARRY));
    // SED; SEC; LDA #$10; SBC #$01
    let (mut cpu, mut bus) = machine(&[0xF8, 0x38, 0xA9, 0x10, 0xE9, 0x01]);
    cpu.decimal_capable = true;
    run(&mut cpu, &mut bus, 4);
    assert_eq!(cpu.register.accumulator, 0x09);
    assert!(cpu.register.get_flag(CARRY));
}

#[test]
fn decimal_flag_ignored_by_the_console_part() {
    // SED; CLC; LDA #$09; ADC #$01
    let (mut cpu, mut bus) = machine(&[0xF8, 0x18, 0xA9, 0x09, 0x69, 0x01]);
    run(&mut cpu, &mut bus, 4);
    assert_eq!(cpu.register.accumulator, 0x0A);
    assert!(cpu.register.get_flag(gestalt::register::DECIMAL));
}

#[test]
fn decimal_formulas() {
    assert_eq!(adc_decimal(0x99, 0x01, false), (0x00, true, false, true, false));
    assert_eq!(adc_decimal(0x25, 0x48, true), (0x74, false, false, false, false));
    assert_eq!(adc_decimal(0x58, 0x46, true), (0x05, true, true, true, false));
    assert_eq!(sbc_decimal(0x00, 0x01, true), 0x99);
    assert_eq!(sbc_decimal(0x46, 0x12, true), 0x34);
    assert_eq!(sbc_decimal(0x40, 0x13, false), 0x26);
}
