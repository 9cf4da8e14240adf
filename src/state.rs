use vstd::prelude::*;
use crate::status::{Flag, flag_set};
use crate::opcodes::AddressingMode;

verus! {

/// What an addressing mode hands to an instruction.
#[derive(Debug, Clone, Copy, PartialEq, Eq, Structural)]
pub enum Operand {
    /// The instruction takes no operand.
    Implied,
    /// The instruction works on the accumulator.
    Accumulator,
    /// The effective address of the operand.
    Address(u16),
}

impl Operand {
    pub fn address(&self) -> (r: u16)
        ensures
            r == self.addr(),
    {
        match self {
            Operand::Address(a) => *a,
            _ => 0,
        }
    }

    /// The effective address; 0 for an operand that has none.
    pub open spec fn addr(self) -> u16 {
        match self {
            Operand::Address(a) => a,
            _ => 0,
        }
    }
}

/// The architectural state of the processor: its registers and the bytes
/// of the whole address space.
pub struct CpuState {
    pub pc: u16,
    pub sp: u8,
    pub a: u8,
    pub x: u8,
    pub y: u8,
    pub ps: u8,
    pub mem: Seq<u8>,
}

/// The first address of the stack page.
pub const STACK_BASE: u16 = 0x0100;

/// `v` reduced modulo 2^16.
pub open spec fn wrap16(v: int) -> u16 {
    (v % 0x10000) as u16
}

/// `v` reduced modulo 2^8.
pub open spec fn wrap8(v: int) -> u8 {
    (v % 0x100) as u8
}

/// A byte read as a two's-complement signed number.
pub open spec fn signed(v: u8) -> int {
    if v < 0x80 {
        v as int
    } else {
        v - 0x100
    }
}

/// The 16-bit value with low byte `lo` and high byte `hi`.
pub open spec fn word(lo: u8, hi: u8) -> u16 {
    (hi * 0x100 + lo) as u16
}

pub open spec fn low_byte(w: u16) -> u8 {
    (w % 0x100) as u8
}

pub open spec fn high_byte(w: u16) -> u8 {
    (w / 0x100) as u8
}

/// The little-endian word at `addr`; the second byte's address wraps at 2^16.
pub open spec fn read_word(mem: Seq<u8>, addr: u16) -> u16 {
    word(mem[addr as int], mem[wrap16(addr + 1) as int])
}

/// The little-endian word at a zero-page address; the second byte's address
/// wraps within the zero page.
pub open spec fn read_zp_word(mem: Seq<u8>, zp: u8) -> u16 {
    word(mem[zp as int], mem[wrap8(zp + 1) as int])
}

impl CpuState {
    /// The memory covers the whole 16-bit address space.
    pub open spec fn wf(self) -> bool {
        self.mem.len() == 0x10000
    }

    pub open spec fn flag(self, f: Flag) -> bool {
        flag_set(self.ps, f)
    }

    /// The run loop stops once the Break flag is set.
    pub open spec fn halted(self) -> bool {
        self.flag(Flag::Break)
    }

    /// The state with `pc` moved forward by `n` bytes.
    pub open spec fn advance(self, n: int) -> CpuState {
        CpuState { pc: wrap16(self.pc + n), ..self }
    }

    pub open spec fn write(self, addr: u16, v: u8) -> CpuState {
        CpuState { mem: self.mem.update(addr as int, v), ..self }
    }

    /// The state after pushing `v`: it is written at `0x0100 + sp`, then `sp`
    /// moves down by one, wrapping within the stack page.
    pub open spec fn push(self, v: u8) -> CpuState {
        CpuState {
            mem: self.mem.update(STACK_BASE + self.sp, v),
            sp: wrap8(self.sp - 1),
            ..self
        }
    }

    /// The state after a pop and the byte popped: `sp` moves up by one,
    /// wrapping, then the byte at `0x0100 + sp` is read.
    pub open spec fn pop(self) -> (CpuState, u8) {
        let sp = wrap8(self.sp + 1);
        (CpuState { sp, ..self }, self.mem[STACK_BASE + sp])
    }

    /// Pushes a word, high byte first, so that its low byte ends up at the
    /// lower address.
    pub open spec fn push_word(self, w: u16) -> CpuState {
        self.push(high_byte(w)).push(low_byte(w))
    }

    /// Pops a word pushed by `push_word`: low byte first, then high byte.
    pub open spec fn pop_word(self) -> (CpuState, u16) {
        let (s1, lo) = self.pop();
        let (s2, hi) = s1.pop();
        (s2, word(lo, hi))
    }

    /// The operand that `mode` denotes when `pc` stands on the first byte
    /// after the opcode.
    pub open spec fn resolve(self, mode: AddressingMode) -> Operand {
        let b = self.mem[self.pc as int];
        let abs = word(b, self.mem[wrap16(self.pc + 1) as int]);
        match mode {
            AddressingMode::Implicit | AddressingMode::Invalid => Operand::Implied,
            AddressingMode::Accumulator => Operand::Accumulator,
            AddressingMode::Immediate => Operand::Address(self.pc),
            AddressingMode::ZeroPage => Operand::Address(b as u16),
            AddressingMode::ZeroPageX => Operand::Address(wrap8(b + self.x) as u16),
            AddressingMode::ZeroPageY => Operand::Address(wrap8(b + self.y) as u16),
            AddressingMode::Relative => Operand::Address(wrap16(self.pc + 1 + signed(b))),
            AddressingMode::Absolute => Operand::Address(abs),
            AddressingMode::AbsoluteX => Operand::Address(wrap16(abs + self.x)),
            AddressingMode::AbsoluteY => Operand::Address(wrap16(abs + self.y)),
            AddressingMode::Indirect => Operand::Address(read_word(self.mem, abs)),
            AddressingMode::IndirectX => Operand::Address(read_zp_word(self.mem, wrap8(b + self.x))),
            AddressingMode::IndirectY => Operand::Address(wrap16(read_zp_word(self.mem, b) + self.y)),
        }
    }
}

} // verus!
