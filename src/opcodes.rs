use vstd::prelude::*;

verus! {

/// How an instruction finds its operand.
#[derive(Debug, Clone, Copy, PartialEq, Eq, Structural)]
pub enum AddressingMode {
    Implicit,
    Accumulator,
    Immediate,
    ZeroPage,
    ZeroPageX,
    ZeroPageY,
    Relative,
    Absolute,
    AbsoluteX,
    AbsoluteY,
    Indirect,
    IndirectX,
    IndirectY,
    /// The mode of an opcode byte that the instruction set leaves unassigned.
    Invalid,
}

/// The operations of the instruction set, and the outcome for an opcode
/// byte that names none of them.
#[derive(Debug, Clone, Copy, PartialEq, Eq, Structural)]
pub enum Instruction {
    Adc,
    And,
    Asl,
    Bcc,
    Bcs,
    Beq,
    Bit,
    Bmi,
    Bne,
    Bpl,
    Brk,
    Bvc,
    Bvs,
    Clc,
    Cld,
    Cli,
    Clv,
    Cmp,
    Cpx,
    Cpy,
    Dec,
    Dex,
    Dey,
    Eor,
    Inc,
    Inx,
    Iny,
    Jmp,
    Jsr,
    Lda,
    Ldx,
    Ldy,
    Lsr,
    Nop,
    Ora,
    Pha,
    Php,
    Pla,
    Plp,
    Rol,
    Ror,
    Rti,
    Rts,
    Sbc,
    Sec,
    Sed,
    Sei,
    Sta,
    Stx,
    Sty,
    Tax,
    Tay,
    Tsx,
    Txa,
    Txs,
    Tya,
    Unimplemented,
}

/// The addressing mode that each opcode byte fixes.
pub open spec fn mode_of(opcode: u8) -> AddressingMode {
    match opcode {
        0x00 | 0x08 | 0x18 | 0x28 | 0x38 | 0x40 | 0x48 | 0x58 | 0x60 | 0x68 | 0x78
        | 0x88 | 0x8A | 0x98 | 0x9A | 0xA8 | 0xAA | 0xB8 | 0xBA | 0xC8 | 0xCA | 0xD8
        | 0xE8 | 0xEA | 0xF8 => AddressingMode::Implicit,
        0x0A | 0x2A | 0x4A | 0x6A => AddressingMode::Accumulator,
        0x09 | 0x29 | 0x49 | 0x69 | 0xA0 | 0xA2 | 0xA9 | 0xC0 | 0xC9 | 0xE0 | 0xE9 => AddressingMode::Immediate,
        0x05 | 0x06 | 0x24 | 0x25 | 0x26 | 0x45 | 0x46 | 0x65 | 0x66 | 0x84 | 0x85
        | 0x86 | 0xA4 | 0xA5 | 0xA6 | 0xC4 | 0xC5 | 0xC6 | 0xE4 | 0xE5 | 0xE6 => AddressingMode::ZeroPage,
        0x15 | 0x16 | 0x35 | 0x36 | 0x55 | 0x56 | 0x75 | 0x76 | 0x94 | 0x95 | 0xB4
        | 0xB5 | 0xD5 | 0xD6 | 0xF5 | 0xF6 => AddressingMode::ZeroPageX,
        0x96 | 0xB6 => AddressingMode::ZeroPageY,
        0x10 | 0x30 | 0x50 | 0x70 | 0x90 | 0xB0 | 0xD0 | 0xF0 => AddressingMode::Relative,
        0x0D | 0x0E | 0x20 | 0x2C | 0x2D | 0x2E | 0x4C | 0x4D | 0x4E | 0x6D | 0x6E
        | 0x8C | 0x8D | 0x8E | 0xAC | 0xAD | 0xAE | 0xCC | 0xCD | 0xCE | 0xEC | 0xED
        | 0xEE => AddressingMode::Absolute,
        0x1D | 0x1E | 0x3D | 0x3E | 0x5D | 0x5E | 0x7D | 0x7E | 0x9D | 0xBC | 0xBD
        | 0xDD | 0xDE | 0xFD | 0xFE => AddressingMode::AbsoluteX,
        0x19 | 0x39 | 0x59 | 0x79 | 0x99 | 0xB9 | 0xBE | 0xD9 | 0xF9 => AddressingMode::AbsoluteY,
        0x6C => AddressingMode::Indirect,
        0x01 | 0x21 | 0x41 | 0x61 | 0x81 | 0xA1 | 0xC1 | 0xE1 => AddressingMode::IndirectX,
        0x11 | 0x31 | 0x51 | 0x71 | 0x91 | 0xB1 | 0xD1 | 0xF1 => AddressingMode::IndirectY,
        _ => AddressingMode::Invalid,
    }
}

/// The operation that each opcode byte fixes.
pub open spec fn instruction_of(opcode: u8) -> Instruction {
    match opcode {
        0x61 | 0x65 | 0x69 | 0x6D | 0x71 | 0x75 | 0x79 | 0x7D => Instruction::Adc,
        0x21 | 0x25 | 0x29 | 0x2D | 0x31 | 0x35 | 0x39 | 0x3D => Instruction::And,
        0x06 | 0x0A | 0x0E | 0x16 | 0x1E => Instruction::Asl,
        0x90 => Instruction::Bcc,
        0xB0 => Instruction::Bcs,
        0xF0 => Instruction::Beq,
        0x24 | 0x2C => Instruction::Bit,
        0x30 => Instruction::Bmi,
        0xD0 => Instruction::Bne,
        0x10 => Instruction::Bpl,
        0x00 => Instruction::Brk,
        0x50 => Instruction::Bvc,
        0x70 => Instruction::Bvs,
        0x18 => Instruction::Clc,
        0xD8 => Instruction::Cld,
        0x58 => Instruction::Cli,
        0xB8 => Instruction::Clv,
        0xC1 | 0xC5 | 0xC9 | 0xCD | 0xD1 | 0xD5 | 0xD9 | 0xDD => Instruction::Cmp,
        0xE0 | 0xE4 | 0xEC => Instruction::Cpx,
        0xC0 | 0xC4 | 0xCC => Instruction::Cpy,
        0xC6 | 0xCE | 0xD6 | 0xDE => Instruction::Dec,
        0xCA => Instruction::Dex,
        0x88 => Instruction::Dey,
        0x41 | 0x45 | 0x49 | 0x4D | 0x51 | 0x55 | 0x59 | 0x5D => Instruction::Eor,
        0xE6 | 0xEE | 0xF6 | 0xFE => Instruction::Inc,
        0xE8 => Instruction::Inx,
        0xC8 => Instruction::Iny,
        0x4C | 0x6C => Instruction::Jmp,
        0x20 => Instruction::Jsr,
        0xA1 | 0xA5 | 0xA9 | 0xAD | 0xB1 | 0xB5 | 0xB9 | 0xBD => Instruction::Lda,
        0xA2 | 0xA6 | 0xAE | 0xB6 | 0xBE => Instruction::Ldx,
        0xA0 | 0xA4 | 0xAC | 0xB4 | 0xBC => Instruction::Ldy,
        0x46 | 0x4A | 0x4E | 0x56 | 0x5E => Instruction::Lsr,
        0xEA => Instruction::Nop,
        0x01 | 0x05 | 0x09 | 0x0D | 0x11 | 0x15 | 0x19 | 0x1D => Instruction::Ora,
        0x48 => Instruction::Pha,
        0x08 => Instruction::Php,
        0x68 => Instruction::Pla,
        0x28 => Instruction::Plp,
        0x26 | 0x2A | 0x2E | 0x36 | 0x3E => Instruction::Rol,
        0x66 | 0x6A | 0x6E | 0x76 | 0x7E => Instruction::Ror,
        0x40 => Instruction::Rti,
        0x60 => Instruction::Rts,
        0xE1 | 0xE5 | 0xE9 | 0xED | 0xF1 | 0xF5 | 0xF9 | 0xFD => Instruction::Sbc,
        0x38 => Instruction::Sec,
        0xF8 => Instruction::Sed,
        0x78 => Instruction::Sei,
        0x81 | 0x85 | 0x8D | 0x91 | 0x95 | 0x99 | 0x9D => Instruction::Sta,
        0x86 | 0x8E | 0x96 => Instruction::Stx,
        0x84 | 0x8C | 0x94 => Instruction::Sty,
        0xAA => Instruction::Tax,
        0xA8 => Instruction::Tay,
        0xBA => Instruction::Tsx,
        0x8A => Instruction::Txa,
        0x9A => Instruction::Txs,
        0x98 => Instruction::Tya,
        _ => Instruction::Unimplemented,
    }
}
/// How many operand bytes follow the opcode in each mode.
pub open spec fn operand_width(mode: AddressingMode) -> nat {
    match mode {
        AddressingMode::Implicit | AddressingMode::Accumulator | AddressingMode::Invalid => 0,
        AddressingMode::Immediate | AddressingMode::ZeroPage | AddressingMode::ZeroPageX
        | AddressingMode::ZeroPageY | AddressingMode::Relative | AddressingMode::IndirectX
        | AddressingMode::IndirectY => 1,
        AddressingMode::Absolute | AddressingMode::AbsoluteX | AddressingMode::AbsoluteY
        | AddressingMode::Indirect => 2,
    }
}

/// Maps an opcode byte to its operation and addressing mode. Unassigned bytes
/// give `(Instruction::Unimplemented, AddressingMode::Invalid)`.
#[verifier::rlimit(40)]
pub fn decode(opcode: u8) -> (r: (Instruction, AddressingMode))
    ensures
        r == (instruction_of(opcode), mode_of(opcode)),
{
    match opcode {
        0x00 => (Instruction::Brk, AddressingMode::Implicit),
        0x01 => (Instruction::Ora, AddressingMode::IndirectX),
        0x05 => (Instruction::Ora, AddressingMode::ZeroPage),
        0x06 => (Instruction::Asl, AddressingMode::ZeroPage),
        0x08 => (Instruction::Php, AddressingMode::Implicit),
        0x09 => (Instruction::Ora, AddressingMode::Immediate),
        0x0A => (Instruction::Asl, AddressingMode::Accumulator),
        0x0D => (Instruction::Ora, AddressingMode::Absolute),
        0x0E => (Instruction::Asl, AddressingMode::Absolute),
        0x10 => (Instruction::Bpl, AddressingMode::Relative),
        0x11 => (Instruction::Ora, AddressingMode::IndirectY),
        0x15 => (Instruction::Ora, AddressingMode::ZeroPageX),
        0x16 => (Instruction::Asl, AddressingMode::ZeroPageX),
        0x18 => (Instruction::Clc, AddressingMode::Implicit),
        0x19 => (Instruction::Ora, AddressingMode::AbsoluteY),
        0x1D => (Instruction::Ora, AddressingMode::AbsoluteX),
        0x1E => (Instruction::Asl, AddressingMode::AbsoluteX),
        0x20 => (Instruction::Jsr, AddressingMode::Absolute),
        0x21 => (Instruction::And, AddressingMode::IndirectX),
        0x24 => (Instruction::Bit, AddressingMode::ZeroPage),
        0x25 => (Instruction::And, AddressingMode::ZeroPage),
        0x26 => (Instruction::Rol, AddressingMode::ZeroPage),
        0x28 => (Instruction::Plp, AddressingMode::Implicit),
        0x29 => (Instruction::And, AddressingMode::Immediate),
        0x2A => (Instruction::Rol, AddressingMode::Accumulator),
        0x2C => (Instruction::Bit, AddressingMode::Absolute),
        0x2D => (Instruction::And, AddressingMode::Absolute),
        0x2E => (Instruction::Rol, AddressingMode::Absolute),
        0x30 => (Instruction::Bmi, AddressingMode::Relative),
        0x31 => (Instruction::And, AddressingMode::IndirectY),
        0x35 => (Instruction::And, AddressingMode::ZeroPageX),
        0x36 => (Instruction::Rol, AddressingMode::ZeroPageX),
        0x38 => (Instruction::Sec, AddressingMode::Implicit),
        0x39 => (Instruction::And, AddressingMode::AbsoluteY),
        0x3D => (Instruction::And, AddressingMode::AbsoluteX),
        0x3E => (Instruction::Rol, AddressingMode::AbsoluteX),
        0x40 => (Instruction::Rti, AddressingMode::Implicit),
        0x41 => (Instruction::Eor, AddressingMode::IndirectX),
        0x45 => (Instruction::Eor, AddressingMode::ZeroPage),
        0x46 => (Instruction::Lsr, AddressingMode::ZeroPage),
        0x48 => (Instruction::Pha, AddressingMode::Implicit),
        0x49 => (Instruction::Eor, AddressingMode::Immediate),
        0x4A => (Instruction::Lsr, AddressingMode::Accumulator),
        0x4C => (Instruction::Jmp, AddressingMode::Absolute),
        0x4D => (Instruction::Eor, AddressingMode::Absolute),
        0x4E => (Instruction::Lsr, AddressingMode::Absolute),
        0x50 => (Instruction::Bvc, AddressingMode::Relative),
        0x51 => (Instruction::Eor, AddressingMode::IndirectY),
        0x55 => (Instruction::Eor, AddressingMode::ZeroPageX),
        0x56 => (Instruction::Lsr, AddressingMode::ZeroPageX),
        0x58 => (Instruction::Cli, AddressingMode::Implicit),
        0x59 => (Instruction::Eor, AddressingMode::AbsoluteY),
        0x5D => (Instruction::Eor, AddressingMode::AbsoluteX),
        0x5E => (Instruction::Lsr, AddressingMode::AbsoluteX),
        0x60 => (Instruction::Rts, AddressingMode::Implicit),
        0x61 => (Instruction::Adc, AddressingMode::IndirectX),
        0x65 => (Instruction::Adc, AddressingMode::ZeroPage),
        0x66 => (Instruction::Ror, AddressingMode::ZeroPage),
        0x68 => (Instruction::Pla, AddressingMode::Implicit),
        0x69 => (Instruction::Adc, AddressingMode::Immediate),
        0x6A => (Instruction::Ror, AddressingMode::Accumulator),
        0x6C => (Instruction::Jmp, AddressingMode::Indirect),
        0x6D => (Instruction::Adc, AddressingMode::Absolute),
        0x6E => (Instruction::Ror, AddressingMode::Absolute),
        0x70 => (Instruction::Bvs, AddressingMode::Relative),
        0x71 => (Instruction::Adc, AddressingMode::IndirectY),
        0x75 => (Instruction::Adc, AddressingMode::ZeroPageX),
        0x76 => (Instruction::Ror, AddressingMode::ZeroPageX),
        0x78 => (Instruction::Sei, AddressingMode::Implicit),
        0x79 => (Instruction::Adc, AddressingMode::AbsoluteY),
        0x7D => (Instruction::Adc, AddressingMode::AbsoluteX),
        0x7E => (Instruction::Ror, AddressingMode::AbsoluteX),
        0x81 => (Instruction::Sta, AddressingMode::IndirectX),
        0x84 => (Instruction::Sty, AddressingMode::ZeroPage),
        0x85 => (Instruction::Sta, AddressingMode::ZeroPage),
        0x86 => (Instruction::Stx, AddressingMode::ZeroPage),
        0x88 => (Instruction::Dey, AddressingMode::Implicit),
        0x8A => (Instruction::Txa, AddressingMode::Implicit),
        0x8C => (Instruction::Sty, AddressingMode::Absolute),
        0x8D => (Instruction::Sta, AddressingMode::Absolute),
        0x8E => (Instruction::Stx, AddressingMode::Absolute),
        0x90 => (Instruction::Bcc, AddressingMode::Relative),
        0x91 => (Instruction::Sta, AddressingMode::IndirectY),
        0x94 => (Instruction::Sty, AddressingMode::ZeroPageX),
        0x95 => (Instruction::Sta, AddressingMode::ZeroPageX),
        0x96 => (Instruction::Stx, AddressingMode::ZeroPageY),
        0x98 => (Instruction::Tya, AddressingMode::Implicit),
        0x99 => (Instruction::Sta, AddressingMode::AbsoluteY),
        0x9A => (Instruction::Txs, AddressingMode::Implicit),
        0x9D => (Instruction::Sta, AddressingMode::AbsoluteX),
        0xA0 => (Instruction::Ldy, AddressingMode::Immediate),
        0xA1 => (Instruction::Lda, AddressingMode::IndirectX),
        0xA2 => (Instruction::Ldx, AddressingMode::Immediate),
        0xA4 => (Instruction::Ldy, AddressingMode::ZeroPage),
        0xA5 => (Instruction::Lda, AddressingMode::ZeroPage),
        0xA6 => (Instruction::Ldx, AddressingMode::ZeroPage),
        0xA8 => (Instruction::Tay, AddressingMode::Implicit),
        0xA9 => (Instruction::Lda, AddressingMode::Immediate),
        0xAA => (Instruction::Tax, AddressingMode::Implicit),
        0xAC => (Instruction::Ldy, AddressingMode::Absolute),
        0xAD => (Instruction::Lda, AddressingMode::Absolute),
        0xAE => (Instruction::Ldx, AddressingMode::Absolute),
        0xB0 => (Instruction::Bcs, AddressingMode::Relative),
        0xB1 => (Instruction::Lda, AddressingMode::IndirectY),
        0xB4 => (Instruction::Ldy, AddressingMode::ZeroPageX),
        0xB5 => (Instruction::Lda, AddressingMode::ZeroPageX),
        0xB6 => (Instruction::Ldx, AddressingMode::ZeroPageY),
        0xB8 => (Instruction::Clv, AddressingMode::Implicit),
        0xB9 => (Instruction::Lda, AddressingMode::AbsoluteY),
        0xBA => (Instruction::Tsx, AddressingMode::Implicit),
        0xBC => (Instruction::Ldy, AddressingMode::AbsoluteX),
        0xBD => (Instruction::Lda, AddressingMode::AbsoluteX),
        0xBE => (Instruction::Ldx, AddressingMode::AbsoluteY),
        0xC0 => (Instruction::Cpy, AddressingMode::Immediate),
        0xC1 => (Instruction::Cmp, AddressingMode::IndirectX),
        0xC4 => (Instruction::Cpy, AddressingMode::ZeroPage),
        0xC5 => (Instruction::Cmp, AddressingMode::ZeroPage),
        0xC6 => (Instruction::Dec, AddressingMode::ZeroPage),
        0xC8 => (Instruction::Iny, AddressingMode::Implicit),
        0xC9 => (Instruction::Cmp, AddressingMode::Immediate),
        0xCA => (Instruction::Dex, AddressingMode::Implicit),
        0xCC => (Instruction::Cpy, AddressingMode::Absolute),
        0xCD => (Instruction::Cmp, AddressingMode::Absolute),
        0xCE => (Instruction::Dec, AddressingMode::Absolute),
        0xD0 => (Instruction::Bne, AddressingMode::Relative),
        0xD1 => (Instruction::Cmp, AddressingMode::IndirectY),
        0xD5 => (Instruction::Cmp, AddressingMode::ZeroPageX),
        0xD6 => (Instruction::Dec, AddressingMode::ZeroPageX),
        0xD8 => (Instruction::Cld, AddressingMode::Implicit),
        0xD9 => (Instruction::Cmp, AddressingMode::AbsoluteY),
        0xDD => (Instruction::Cmp, AddressingMode::AbsoluteX),
        0xDE => (Instruction::Dec, AddressingMode::AbsoluteX),
        0xE0 => (Instruction::Cpx, AddressingMode::Immediate),
        0xE1 => (Instruction::Sbc, AddressingMode::IndirectX),
        0xE4 => (Instruction::Cpx, AddressingMode::ZeroPage),
        0xE5 => (Instruction::Sbc, AddressingMode::ZeroPage),
        0xE6 => (Instruction::Inc, AddressingMode::ZeroPage),
        0xE8 => (Instruction::Inx, AddressingMode::Implicit),
        0xE9 => (Instruction::Sbc, AddressingMode::Immediate),
        0xEA => (Instruction::Nop, AddressingMode::Implicit),
        0xEC => (Instruction::Cpx, AddressingMode::Absolute),
        0xED => (Instruction::Sbc, AddressingMode::Absolute),
        0xEE => (Instruction::Inc, AddressingMode::Absolute),
        0xF0 => (Instruction::Beq, AddressingMode::Relative),
        0xF1 => (Instruction::Sbc, AddressingMode::IndirectY),
        0xF5 => (Instruction::Sbc, AddressingMode::ZeroPageX),
        0xF6 => (Instruction::Inc, AddressingMode::ZeroPageX),
        0xF8 => (Instruction::Sed, AddressingMode::Implicit),
        0xF9 => (Instruction::Sbc, AddressingMode::AbsoluteY),
        0xFD => (Instruction::Sbc, AddressingMode::AbsoluteX),
        0xFE => (Instruction::Inc, AddressingMode::AbsoluteX),
        _ => (Instruction::Unimplemented, AddressingMode::Invalid),
    }
}

} // verus!
