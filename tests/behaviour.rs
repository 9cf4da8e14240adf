use cpu6502::{decode, AddressingMode, Flag, Instruction, Operand, StepOutcome, Status, BUS, CPU, RAM};

fn cpu_with(program: Vec<u8>) -> CPU {
    let mut cpu = CPU::init();
    cpu.load_to_memory(0x8000, program);
    cpu.set_pc(0x8000);
    cpu
}

fn run(program: Vec<u8>) -> CPU {
    let mut cpu = CPU::init();
    cpu.load_to_memory(0x8000, program);
    cpu.start(0x8000);
    cpu
}

#[test]
fn zero_and_negative_follow_loaded_value() {
    for (v, zero, negative) in [(0x00u8, true, false), (0x7F, false, false), (0x80, false, true), (0xFF, false, true)] {
        let cpu = run(vec![0xA9, v, 0x00]);
        assert_eq!(cpu.get_a(), v);
        assert_eq!(cpu.get_flag(Flag::Zero), zero);
        assert_eq!(cpu.get_flag(Flag::Negative), negative);
    }
}

#[test]
fn zero_and_negative_follow_transfer_and_logic() {
    // LDX #$80; TXA: the transfer sets N from the copied value.
    let cpu = run(vec![0xA2, 0x80, 0x8A, 0x00]);
    assert_eq!(cpu.get_a(), 0x80);
    assert!(cpu.get_flag(Flag::Negative));
    assert!(!cpu.get_flag(Flag::Zero));
    // LDA #$F0; AND #$0F gives 0.
    let cpu = run(vec![0xA9, 0xF0, 0x29, 0x0F, 0x00]);
    assert_eq!(cpu.get_a(), 0x00);
    assert!(cpu.get_flag(Flag::Zero));
    assert!(!cpu.get_flag(Flag::Negative));
    // LDA #$0F; ORA #$F0; EOR #$0F gives 0xF0.
    let cpu = run(vec![0xA9, 0x0F, 0x09, 0xF0, 0x49, 0x0F, 0x00]);
    assert_eq!(cpu.get_a(), 0xF0);
    assert!(cpu.get_flag(Flag::Negative));
}

#[test]
fn loads_do_not_touch_carry_or_overflow() {
    // SEC; LDA #$00; TAX: Carry stays set.
    let cpu = run(vec![0x38, 0xA9, 0x00, 0xAA, 0x00]);
    assert!(cpu.get_flag(Flag::Carry));
    assert!(!cpu.get_flag(Flag::Overflow));
}

#[test]
fn adc_signed_overflow_without_carry() {
    // LDA #$7F; ADC #$01
    let cpu = run(vec![0xA9, 0x7F, 0x69, 0x01, 0x00]);
    assert_eq!(cpu.get_a(), 0x80);
    assert!(cpu.get_flag(Flag::Overflow));
    assert!(!cpu.get_flag(Flag::Carry));
    assert!(cpu.get_flag(Flag::Negative));
}

#[test]
fn adc_carry_without_overflow() {
    // LDA #$FF; ADC #$01
    let cpu = run(vec![0xA9, 0xFF, 0x69, 0x01, 0x00]);
    assert_eq!(cpu.get_a(), 0x00);
    assert!(cpu.get_flag(Flag::Carry));
    assert!(!cpu.get_flag(Flag::Overflow));
    assert!(cpu.get_flag(Flag::Zero));
}

#[test]
fn adc_adds_carry_in() {
    // SEC; LDA #$10; ADC #$20
    let cpu = run(vec![0x38, 0xA9, 0x10, 0x69, 0x20, 0x00]);
    assert_eq!(cpu.get_a(), 0x31);
    assert!(!cpu.get_flag(Flag::Carry));
    // LDA #$80; ADC #$80: both negative, result positive.
    let cpu = run(vec![0xA9, 0x80, 0x69, 0x80, 0x00]);
    assert_eq!(cpu.get_a(), 0x00);
    assert!(cpu.get_flag(Flag::Carry));
    assert!(cpu.get_flag(Flag::Overflow));
}

#[test]
fn sbc_borrow_and_overflow() {
    // SEC; LDA #$05; SBC #$03 = 2, no borrow.
    let cpu = run(vec![0x38, 0xA9, 0x05, 0xE9, 0x03, 0x00]);
    assert_eq!(cpu.get_a(), 0x02);
    assert!(cpu.get_flag(Flag::Carry));
    assert!(!cpu.get_flag(Flag::Overflow));
    // CLC; LDA #$05; SBC #$05 = -1 with the borrow.
    let cpu = run(vec![0x18, 0xA9, 0x05, 0xE9, 0x05, 0x00]);
    assert_eq!(cpu.get_a(), 0xFF);
    assert!(!cpu.get_flag(Flag::Carry));
    assert!(cpu.get_flag(Flag::Negative));
    // SEC; LDA #$80; SBC #$01 = 0x7F: signed overflow.
    let cpu = run(vec![0x38, 0xA9, 0x80, 0xE9, 0x01, 0x00]);
    assert_eq!(cpu.get_a(), 0x7F);
    assert!(cpu.get_flag(Flag::Carry));
    assert!(cpu.get_flag(Flag::Overflow));
}

#[test]
fn stack_round_trip_at_wrap_points() {
    for sp in [0x00u8, 0xFF, 0x80] {
        let mut cpu = CPU::init();
        cpu.set_sp(sp);
        cpu.push_byte_to_stack(0x5A);
        assert_eq!(cpu.get_sp(), sp.wrapping_sub(1));
        assert_eq!(cpu.read_byte_from_memory(0x0100 + sp as u16), 0x5A);
        assert_eq!(cpu.pop_byte_from_stack(), 0x5A);
        assert_eq!(cpu.get_sp(), sp);
    }
}

#[test]
fn stack_word_round_trip() {
    let mut cpu = CPU::init();
    cpu.set_sp(0xFF);
    cpu.push_2_bytes_to_stack(0x1234);
    assert_eq!(cpu.get_sp(), 0xFD);
    assert_eq!(cpu.read_byte_from_memory(0x01FF), 0x12);
    assert_eq!(cpu.read_byte_from_memory(0x01FE), 0x34);
    assert_eq!(cpu.pop_2_bytes_from_stack(), 0x1234);
    assert_eq!(cpu.get_sp(), 0xFF);
}

#[test]
fn jsr_then_rts_resumes_after_call() {
    let mut cpu = cpu_with(vec![0x20, 0x00, 0x90]);
    cpu.set_sp(0xFF);
    cpu.write_byte_to_memory(0x9000, 0x60);
    cpu.step();
    assert_eq!(cpu.get_pc(), 0x9000);
    assert_eq!(cpu.get_sp(), 0xFD);
    assert_eq!(cpu.read_byte_from_memory(0x01FF), 0x80);
    assert_eq!(cpu.read_byte_from_memory(0x01FE), 0x02);
    cpu.step();
    assert_eq!(cpu.get_pc(), 0x8003);
    assert_eq!(cpu.get_sp(), 0xFF);
}

#[test]
fn zero_page_x_wraps_within_zero_page() {
    let mut cpu = cpu_with(vec![0xFF]);
    cpu.set_x(0x02);
    assert_eq!(cpu.handle_addressing_mode(AddressingMode::ZeroPageX), Operand::Address(0x0001));
    assert_eq!(cpu.get_pc(), 0x8001);
}

#[test]
fn zero_page_y_wraps_within_zero_page() {
    let mut cpu = cpu_with(vec![0xFF]);
    cpu.set_y(0x02);
    assert_eq!(cpu.handle_addressing_mode(AddressingMode::ZeroPageY), Operand::Address(0x0001));
    // LDA $FF,X with X = 2 reads address 0x0001.
    let mut cpu = cpu_with(vec![0xB5, 0xFF, 0x00]);
    cpu.write_byte_to_memory(0x0001, 0x42);
    cpu.write_byte_to_memory(0x0101, 0x99);
    cpu.set_x(0x02);
    cpu.step();
    assert_eq!(cpu.get_a(), 0x42);
}

#[test]
fn operand_widths_of_every_mode() {
    let modes = [
        (AddressingMode::Implicit, 0u16),
        (AddressingMode::Accumulator, 0),
        (AddressingMode::Invalid, 0),
        (AddressingMode::Immediate, 1),
        (AddressingMode::ZeroPage, 1),
        (AddressingMode::ZeroPageX, 1),
        (AddressingMode::ZeroPageY, 1),
        (AddressingMode::Relative, 1),
        (AddressingMode::IndirectX, 1),
        (AddressingMode::IndirectY, 1),
        (AddressingMode::Absolute, 2),
        (AddressingMode::AbsoluteX, 2),
        (AddressingMode::AbsoluteY, 2),
        (AddressingMode::Indirect, 2),
    ];
    for (mode, width) in modes {
        let mut cpu = cpu_with(vec![0x10, 0x20, 0x30]);
        cpu.handle_addressing_mode(mode);
        assert_eq!(cpu.get_pc(), 0x8000 + width);
    }
}

#[test]
fn addressing_mode_effective_addresses() {
    let mut cpu = cpu_with(vec![0x34, 0x12]);
    cpu.set_x(0x01);
    cpu.set_y(0x02);
    assert_eq!(cpu.handle_addressing_mode(AddressingMode::Immediate), Operand::Address(0x8000));
    cpu.set_pc(0x8000);
    assert_eq!(cpu.handle_addressing_mode(AddressingMode::ZeroPage), Operand::Address(0x0034));
    cpu.set_pc(0x8000);
    assert_eq!(cpu.handle_addressing_mode(AddressingMode::Absolute), Operand::Address(0x1234));
    cpu.set_pc(0x8000);
    assert_eq!(cpu.handle_addressing_mode(AddressingMode::AbsoluteX), Operand::Address(0x1235));
    cpu.set_pc(0x8000);
    assert_eq!(cpu.handle_addressing_mode(AddressingMode::AbsoluteY), Operand::Address(0x1236));
    cpu.set_pc(0x8000);
    assert_eq!(cpu.handle_addressing_mode(AddressingMode::Accumulator), Operand::Accumulator);
    assert_eq!(cpu.handle_addressing_mode(AddressingMode::Implicit), Operand::Implied);
    assert_eq!(cpu.get_pc(), 0x8000);
}

#[test]
fn absolute_indexed_wraps_at_top_of_memory() {
    let mut cpu = cpu_with(vec![0xFF, 0xFF]);
    cpu.set_x(0x02);
    assert_eq!(cpu.handle_addressing_mode(AddressingMode::AbsoluteX), Operand::Address(0x0001));
}

#[test]
fn indirect_modes_dereference_pointers() {
    let mut cpu = cpu_with(vec![0x20, 0x30]);
    cpu.write_byte_to_memory(0x3020, 0xCD);
    cpu.write_byte_to_memory(0x3021, 0xAB);
    assert_eq!(cpu.handle_addressing_mode(AddressingMode::Indirect), Operand::Address(0xABCD));
    // (zp,X): 0x20 + 4 = 0x24 holds the pointer.
    cpu.set_pc(0x8000);
    cpu.set_x(0x04);
    cpu.write_byte_to_memory(0x0024, 0x78);
    cpu.write_byte_to_memory(0x0025, 0x56);
    assert_eq!(cpu.handle_addressing_mode(AddressingMode::IndirectX), Operand::Address(0x5678));
    // (zp),Y: pointer at 0x20, then Y added.
    cpu.set_pc(0x8000);
    cpu.set_y(0x10);
    cpu.write_byte_to_memory(0x0020, 0x00);
    cpu.write_byte_to_memory(0x0021, 0x40);
    assert_eq!(cpu.handle_addressing_mode(AddressingMode::IndirectY), Operand::Address(0x4010));
    assert_eq!(cpu.get_pc(), 0x8001);
}

#[test]
fn indirect_x_pointer_wraps_in_zero_page() {
    let mut cpu = cpu_with(vec![0xFE]);
    cpu.set_x(0x01);
    cpu.write_byte_to_memory(0x00FF, 0x11);
    cpu.write_byte_to_memory(0x0000, 0x22);
    cpu.write_byte_to_memory(0x0100, 0x33);
    assert_eq!(cpu.handle_addressing_mode(AddressingMode::IndirectX), Operand::Address(0x2211));
}

#[test]
fn relative_targets_forward_and_backward() {
    let mut cpu = cpu_with(vec![0x05]);
    assert_eq!(cpu.handle_addressing_mode(AddressingMode::Relative), Operand::Address(0x8006));
    let mut cpu = cpu_with(vec![0xFC]);
    assert_eq!(cpu.handle_addressing_mode(AddressingMode::Relative), Operand::Address(0x7FFD));
}

#[test]
fn end_to_end_load_transfer_increment() {
    let mut cpu = CPU::init();
    cpu.load_to_memory(0x8000, vec![0xA9, 0x05, 0xAA, 0xE8, 0x00]);
    cpu.start(0x8000);
    assert_eq!(cpu.get_a(), 0x05);
    assert_eq!(cpu.get_x(), 0x06);
    assert!(!cpu.get_flag(Flag::Zero));
    assert!(!cpu.get_flag(Flag::Negative));
    assert!(cpu.get_flag(Flag::Break));
    assert_eq!(cpu.get_pc(), 0x8005);
}

#[test]
fn end_to_end_without_terminator() {
    let mut cpu = cpu_with(vec![0xA9, 0xFF, 0xAA]);
    let step_limit = 2;
    let mut outcomes = Vec::new();
    for _ in 0..step_limit {
        outcomes.push(cpu.step());
    }
    assert_eq!(outcomes, vec![StepOutcome::Executed(Instruction::Lda), StepOutcome::Executed(Instruction::Tax)]);
    assert_eq!(cpu.get_a(), 0xFF);
    assert_eq!(cpu.get_x(), 0xFF);
    assert!(cpu.get_flag(Flag::Negative));
    assert!(!cpu.get_flag(Flag::Zero));
    assert!(!cpu.get_flag(Flag::Break));
}

#[test]
fn write_then_read_has_no_register_effects() {
    let mut cpu = CPU::init();
    cpu.write_byte_to_memory(0x00A1, 0x41);
    assert_eq!(cpu.read_byte_from_memory(0x00A1), 0x41);
    assert_eq!(cpu.get_pc(), 0);
    assert_eq!(cpu.get_sp(), 0);
    assert_eq!(cpu.get_a(), 0);
    assert_eq!(cpu.get_x(), 0);
    assert_eq!(cpu.get_y(), 0);
    assert_eq!(cpu.get_ps(), 0);
}

#[test]
fn unimplemented_opcode_is_skipped() {
    let mut cpu = cpu_with(vec![0x02, 0xA9, 0x07, 0x00]);
    assert_eq!(cpu.step(), StepOutcome::Unimplemented(0x02));
    assert_eq!(cpu.get_pc(), 0x8001);
    cpu.start(0x8000);
    assert_eq!(cpu.get_a(), 0x07);
}

#[test]
fn decode_table_entries() {
    assert_eq!(decode(0xA9), (Instruction::Lda, AddressingMode::Immediate));
    assert_eq!(decode(0x6C), (Instruction::Jmp, AddressingMode::Indirect));
    assert_eq!(decode(0xB6), (Instruction::Ldx, AddressingMode::ZeroPageY));
    assert_eq!(decode(0x84), (Instruction::Sty, AddressingMode::ZeroPage));
    assert_eq!(decode(0x0A), (Instruction::Asl, AddressingMode::Accumulator));
    assert_eq!(decode(0x91), (Instruction::Sta, AddressingMode::IndirectY));
    assert_eq!(decode(0xFF), (Instruction::Unimplemented, AddressingMode::Invalid));
    let defined = (0..=255u8).filter(|op| decode(*op).0 != Instruction::Unimplemented).count();
    assert_eq!(defined, 151);
}

#[test]
fn shifts_set_flags_from_result() {
    // LDA #$81; ASL A: carry out, result 0x02.
    let cpu = run(vec![0xA9, 0x81, 0x0A, 0x00]);
    assert_eq!(cpu.get_a(), 0x02);
    assert!(cpu.get_flag(Flag::Carry));
    assert!(!cpu.get_flag(Flag::Negative));
    // LDA #$01; LSR A: result 0, carry out.
    let cpu = run(vec![0xA9, 0x01, 0x4A, 0x00]);
    assert_eq!(cpu.get_a(), 0x00);
    assert!(cpu.get_flag(Flag::Carry));
    assert!(cpu.get_flag(Flag::Zero));
    // SEC; LDA #$40; ROL A: carry fed into bit 0.
    let cpu = run(vec![0x38, 0xA9, 0x40, 0x2A, 0x00]);
    assert_eq!(cpu.get_a(), 0x81);
    assert!(!cpu.get_flag(Flag::Carry));
    assert!(cpu.get_flag(Flag::Negative));
    // SEC; LDA #$02; ROR A: carry fed into bit 7.
    let cpu = run(vec![0x38, 0xA9, 0x02, 0x6A, 0x00]);
    assert_eq!(cpu.get_a(), 0x81);
    assert!(!cpu.get_flag(Flag::Carry));
}

#[test]
fn shift_on_memory_leaves_accumulator() {
    // LDA #$00; ASL $10 with $10 = 0x40.
    let mut cpu = cpu_with(vec![0xA9, 0x00, 0x06, 0x10, 0x00]);
    cpu.write_byte_to_memory(0x0010, 0x40);
    cpu.start(0x8000);
    assert_eq!(cpu.read_byte_from_memory(0x0010), 0x80);
    assert_eq!(cpu.get_a(), 0x00);
    assert!(cpu.get_flag(Flag::Negative));
    assert!(!cpu.get_flag(Flag::Zero));
}

#[test]
fn compare_flags() {
    // LDA #$10; CMP #$10
    let cpu = run(vec![0xA9, 0x10, 0xC9, 0x10, 0x00]);
    assert!(cpu.get_flag(Flag::Carry));
    assert!(cpu.get_flag(Flag::Zero));
    assert!(!cpu.get_flag(Flag::Negative));
    // LDX #$05; CPX #$10
    let cpu = run(vec![0xA2, 0x05, 0xE0, 0x10, 0x00]);
    assert!(!cpu.get_flag(Flag::Carry));
    assert!(!cpu.get_flag(Flag::Zero));
    assert!(cpu.get_flag(Flag::Negative));
    // LDY #$20; CPY #$10
    let cpu = run(vec![0xA0, 0x20, 0xC0, 0x10, 0x00]);
    assert!(cpu.get_flag(Flag::Carry));
    assert!(!cpu.get_flag(Flag::Zero));
    assert_eq!(cpu.get_y(), 0x20);
}

#[test]
fn increments_and_decrements_wrap() {
    let mut cpu = cpu_with(vec![0xE6, 0x10, 0xC6, 0x11, 0x88, 0xCA, 0xC8, 0x00]);
    cpu.write_byte_to_memory(0x0010, 0xFF);
    cpu.write_byte_to_memory(0x0011, 0x00);
    cpu.start(0x8000);
    assert_eq!(cpu.read_byte_from_memory(0x0010), 0x00);
    assert_eq!(cpu.read_byte_from_memory(0x0011), 0xFF);
    assert_eq!(cpu.get_x(), 0xFF);
    assert_eq!(cpu.get_y(), 0x00);
    assert!(cpu.get_flag(Flag::Zero));
}

#[test]
fn branches_taken_and_not_taken() {
    // LDA #$00; BEQ +2; LDA #$01; BRK -> skipped load.
    let cpu = run(vec![0xA9, 0x00, 0xF0, 0x02, 0xA9, 0x01, 0x00]);
    assert_eq!(cpu.get_a(), 0x00);
    assert_eq!(cpu.get_pc(), 0x8007);
    // LDA #$00; BNE +2; LDA #$01; BRK -> not taken.
    let cpu = run(vec![0xA9, 0x00, 0xD0, 0x02, 0xA9, 0x01, 0x00]);
    assert_eq!(cpu.get_a(), 0x01);
    // A countdown loop: LDX #$03; DEX; BNE -3; BRK.
    let cpu = run(vec![0xA2, 0x03, 0xCA, 0xD0, 0xFD, 0x00]);
    assert_eq!(cpu.get_x(), 0x00);
    assert_eq!(cpu.get_pc(), 0x8006);
}

#[test]
fn branches_on_each_flag() {
    // SEC; BCS +1; BRK; CLC; BCC +1; BRK; LDA #$80; BMI +1; BRK; BVC +1; BRK; LDA #$01; BPL +1; BRK; LDY #$07; BRK
    let cpu = run(vec![
        0x38, 0xB0, 0x01, 0x00, 0x18, 0x90, 0x01, 0x00, 0xA9, 0x80, 0x30, 0x01, 0x00, 0x50, 0x01,
        0x00, 0xA9, 0x01, 0x10, 0x01, 0x00, 0xA0, 0x07, 0x00,
    ]);
    assert_eq!(cpu.get_y(), 0x07);
    // LDA #$40; BIT on $40 sets V; BVS +1; BRK; LDY #$09; BRK
    let mut cpu = cpu_with(vec![0x24, 0x30, 0x70, 0x01, 0x00, 0xA0, 0x09, 0x00]);
    cpu.write_byte_to_memory(0x0030, 0x40);
    cpu.start(0x8000);
    assert_eq!(cpu.get_y(), 0x09);
}

#[test]
fn bit_test_flags() {
    let mut cpu = cpu_with(vec![0xA9, 0x01, 0x2C, 0x00, 0x20, 0x00]);
    cpu.write_byte_to_memory(0x2000, 0xC0);
    cpu.start(0x8000);
    assert!(cpu.get_flag(Flag::Zero));
    assert!(cpu.get_flag(Flag::Negative));
    assert!(cpu.get_flag(Flag::Overflow));
    assert_eq!(cpu.get_a(), 0x01);
}

#[test]
fn jumps_absolute_and_indirect() {
    // JMP $8010 skips LDA; at 0x8010: LDA #$33; BRK.
    let mut cpu = cpu_with(vec![0x4C, 0x10, 0x80, 0xA9, 0x11, 0x00]);
    cpu.load_to_memory(0x8010, vec![0xA9, 0x33, 0x00]);
    cpu.start(0x8000);
    assert_eq!(cpu.get_a(), 0x33);
    // JMP ($0200) with $0200 = 0x8010.
    let mut cpu = cpu_with(vec![0x6C, 0x00, 0x02, 0x00]);
    cpu.write_2_bytes_to_memory(0x0200, 0x8010);
    cpu.load_to_memory(0x8010, vec![0xA9, 0x44, 0x00]);
    cpu.start(0x8000);
    assert_eq!(cpu.get_a(), 0x44);
}

#[test]
fn push_and_pull_registers() {
    // LDX #$FF; TXS; LDA #$80; PHA; LDA #$00; PLA; BRK
    let cpu = run(vec![0xA2, 0xFF, 0x9A, 0xA9, 0x80, 0x48, 0xA9, 0x00, 0x68, 0x00]);
    assert_eq!(cpu.get_a(), 0x80);
    assert!(cpu.get_flag(Flag::Negative));
    assert_eq!(cpu.get_sp(), 0xFF);
    // SEC; SED; PHP; CLC; CLD; PLP: status restored verbatim.
    let mut cpu = cpu_with(vec![0x38, 0xF8, 0x08, 0x18, 0xD8, 0x28]);
    cpu.set_sp(0xFF);
    for _ in 0..6 {
        cpu.step();
    }
    assert_eq!(cpu.get_ps(), 0x09);
}

#[test]
fn transfers_between_registers() {
    // LDA #$42; TAY; LDX #$00; TXS; TSX; TYA
    let mut cpu = cpu_with(vec![0xA9, 0x42, 0xA8, 0xA2, 0x07, 0x9A, 0xA2, 0x00, 0xBA, 0x98]);
    for _ in 0..7 {
        cpu.step();
    }
    assert_eq!(cpu.get_y(), 0x42);
    assert_eq!(cpu.get_sp(), 0x07);
    assert_eq!(cpu.get_x(), 0x07);
    assert_eq!(cpu.get_a(), 0x42);
}

#[test]
fn stores_write_registers() {
    let mut cpu = cpu_with(vec![0xA9, 0x01, 0xA2, 0x02, 0xA0, 0x03, 0x8D, 0x00, 0x30, 0x8E, 0x01, 0x30, 0x8C, 0x02, 0x30, 0x00]);
    cpu.start(0x8000);
    assert_eq!(cpu.read_byte_from_memory(0x3000), 0x01);
    assert_eq!(cpu.read_byte_from_memory(0x3001), 0x02);
    assert_eq!(cpu.read_byte_from_memory(0x3002), 0x03);
}

#[test]
fn flag_instructions_touch_one_flag() {
    let mut cpu = cpu_with(vec![0x38, 0x78, 0xF8]);
    for _ in 0..3 {
        cpu.step();
    }
    assert_eq!(cpu.get_ps(), 0x0D);
    cpu.set_flag(Flag::Overflow, true);
    cpu.load_to_memory(0x8003, vec![0x18, 0x58, 0xD8, 0xB8]);
    for _ in 0..4 {
        cpu.step();
    }
    assert_eq!(cpu.get_ps(), 0x00);
}

#[test]
fn rti_restores_status_and_pc() {
    let mut cpu = cpu_with(vec![0x40]);
    cpu.set_sp(0xFF);
    cpu.push_2_bytes_to_stack(0x1234);
    cpu.push_byte_to_stack(0xC3);
    cpu.step();
    assert_eq!(cpu.get_ps(), 0xC3);
    assert_eq!(cpu.get_pc(), 0x1234);
    assert_eq!(cpu.get_sp(), 0xFF);
}

#[test]
fn nop_only_advances_past_itself() {
    let mut cpu = cpu_with(vec![0xEA]);
    assert_eq!(cpu.step(), StepOutcome::Executed(Instruction::Nop));
    assert_eq!(cpu.get_pc(), 0x8001);
    assert_eq!(cpu.get_ps(), 0);
}

#[test]
fn brk_sets_both_break_bits() {
    let cpu = run(vec![0x00]);
    assert_eq!(cpu.get_ps() & 0x30, 0x30);
    assert!(cpu.get_flag(Flag::Break));
}

#[test]
fn status_flag_operations() {
    let mut s = Status { bits: 0 };
    s.set(Flag::Break);
    assert_eq!(s.bits, 0x30);
    assert!(s.is_set(Flag::Break));
    s.set(Flag::Carry);
    s.clear(Flag::Break);
    assert_eq!(s.bits, 0x01);
    s.update_zero_and_negative(0x80);
    assert_eq!(s.bits, 0x81);
    s.update_zero_and_negative(0x00);
    assert_eq!(s.bits, 0x03);
    assert_eq!(Flag::Negative.mask(), 0x80);
}

#[test]
fn load_wraps_at_top_of_memory() {
    let mut cpu = CPU::init();
    cpu.load_to_memory(0xFFFF, vec![0x11, 0x22]);
    assert_eq!(cpu.read_byte_from_memory(0xFFFF), 0x11);
    assert_eq!(cpu.read_byte_from_memory(0x0000), 0x22);
    assert_eq!(cpu.read_2_bytes_from_memory(0xFFFF), 0x2211);
}

#[test]
fn ram_and_bus_read_back_writes() {
    let mut ram = RAM::init();
    assert_eq!(ram.read_u8(0xFFFF), 0);
    ram.write_u8(0xFFFF, 7);
    assert_eq!(ram.read_u8(0xFFFF), 7);
    let mut bus = BUS::init();
    bus.write_memory_byte(0x1234, 9);
    assert_eq!(bus.read_memory_byte(0x1234), 9);
    assert_eq!(bus.read_memory_byte(0x1235), 0);
}
