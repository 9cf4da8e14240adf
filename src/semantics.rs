use vstd::prelude::*;
use crate::status::{Flag, with_flag, with_zn};
use crate::opcodes::{Instruction, instruction_of, mode_of, operand_width};
use crate::state::{CpuState, Operand, wrap8, wrap16, signed};

verus! {

/// 1 when the flag is set, 0 otherwise.
pub open spec fn bit_of(s: CpuState, f: Flag) -> int {
    if s.flag(f) {
        1
    } else {
        0
    }
}

pub open spec fn load_a(s: CpuState, v: u8) -> CpuState {
    CpuState { a: v, ps: with_zn(s.ps, v), ..s }
}

pub open spec fn load_x(s: CpuState, v: u8) -> CpuState {
    CpuState { x: v, ps: with_zn(s.ps, v), ..s }
}

pub open spec fn load_y(s: CpuState, v: u8) -> CpuState {
    CpuState { y: v, ps: with_zn(s.ps, v), ..s }
}

/// The status byte with one flag written.
pub open spec fn set_flag(s: CpuState, f: Flag, on: bool) -> CpuState {
    CpuState { ps: with_flag(s.ps, f, on), ..s }
}

/// Add with carry: `a + m + C`. Carry is set when the unsigned sum exceeds
/// 255, Overflow when the signed sum leaves -128..=127.
pub open spec fn add_with_carry(s: CpuState, m: u8) -> CpuState {
    let c = bit_of(s, Flag::Carry);
    let sum = s.a + m + c;
    let ssum = signed(s.a) + signed(m) + c;
    let ps = with_flag(with_flag(s.ps, Flag::Carry, sum > 0xFF), Flag::Overflow, !(-128 <= ssum <= 127));
    CpuState { a: wrap8(sum), ps: with_zn(ps, wrap8(sum)), ..s }
}

/// Subtract with borrow: `a - m - (1 - C)`. Carry is set when no borrow is
/// needed, Overflow when the signed difference leaves -128..=127.
pub open spec fn subtract_with_carry(s: CpuState, m: u8) -> CpuState {
    let borrow = 1 - bit_of(s, Flag::Carry);
    let diff = s.a - m - borrow;
    let sdiff = signed(s.a) - signed(m) - borrow;
    let ps = with_flag(with_flag(s.ps, Flag::Carry, diff >= 0), Flag::Overflow, !(-128 <= sdiff <= 127));
    CpuState { a: wrap8(diff), ps: with_zn(ps, wrap8(diff)), ..s }
}

/// Compares a register with `m`: Carry when `reg >= m`, Zero and Negative
/// from `reg - m`; nothing is stored.
pub open spec fn compare(s: CpuState, reg: u8, m: u8) -> CpuState {
    CpuState { ps: with_zn(with_flag(s.ps, Flag::Carry, reg >= m), wrap8(reg - m)), ..s }
}

/// Bit test: Zero from `a & m`, Negative from bit 7 of `m`, Overflow from bit 6.
pub open spec fn bit_test(s: CpuState, m: u8) -> CpuState {
    let ps = with_flag(s.ps, Flag::Zero, s.a & m == 0);
    let ps = with_flag(ps, Flag::Negative, m >= 0x80);
    CpuState { ps: with_flag(ps, Flag::Overflow, m % 0x80 >= 0x40), ..s }
}

/// The byte that a read-modify-write instruction works on.
pub open spec fn target_value(s: CpuState, t: Operand) -> u8 {
    match t {
        Operand::Accumulator => s.a,
        _ => s.mem[t.addr() as int],
    }
}

/// Stores the result of a read-modify-write instruction back into its
/// target, with Zero and Negative from the result.
pub open spec fn store_target(s: CpuState, t: Operand, r: u8) -> CpuState {
    let s1 = match t {
        Operand::Accumulator => CpuState { a: r, ..s },
        _ => s.write(t.addr(), r),
    };
    CpuState { ps: with_zn(s1.ps, r), ..s1 }
}

/// A shift or rotate: `r` is the new byte, `carry` the bit shifted out.
pub open spec fn shift_result(s: CpuState, t: Operand, r: u8, carry: bool) -> CpuState {
    store_target(set_flag(s, Flag::Carry, carry), t, r)
}

pub open spec fn shift_left(s: CpuState, t: Operand) -> CpuState {
    let v = target_value(s, t);
    shift_result(s, t, wrap8(v * 2), v >= 0x80)
}

pub open spec fn shift_right(s: CpuState, t: Operand) -> CpuState {
    let v = target_value(s, t);
    shift_result(s, t, v / 2, v % 2 == 1)
}

pub open spec fn rotate_left(s: CpuState, t: Operand) -> CpuState {
    let v = target_value(s, t);
    shift_result(s, t, wrap8(v * 2 + bit_of(s, Flag::Carry)), v >= 0x80)
}

pub open spec fn rotate_right(s: CpuState, t: Operand) -> CpuState {
    let v = target_value(s, t);
    shift_result(s, t, (v / 2 + 0x80 * bit_of(s, Flag::Carry)) as u8, v % 2 == 1)
}

/// Adds `delta` to the byte at `addr`, wrapping.
pub open spec fn step_memory(s: CpuState, addr: u16, delta: int) -> CpuState {
    store_target(s, Operand::Address(addr), wrap8(s.mem[addr as int] + delta))
}

/// A conditional branch: `pc` becomes `target` when `f` reads as `when`.
pub open spec fn branch(s: CpuState, f: Flag, when: bool, target: u16) -> CpuState {
    if s.flag(f) == when {
        CpuState { pc: target, ..s }
    } else {
        s
    }
}

/// Jump to subroutine: pushes the address of the call's last byte, then jumps.
pub open spec fn jump_subroutine(s: CpuState, target: u16) -> CpuState {
    CpuState { pc: target, ..s.push_word(wrap16(s.pc - 1)) }
}

/// Return from subroutine: pops the pushed address and continues after it.
pub open spec fn return_subroutine(s: CpuState) -> CpuState {
    let (s1, w) = s.pop_word();
    CpuState { pc: wrap16(w + 1), ..s1 }
}

/// Return from interrupt: pops the status byte, then the program counter.
pub open spec fn return_interrupt(s: CpuState) -> CpuState {
    let (s1, p) = s.pop();
    let (s2, w) = s1.pop_word();
    CpuState { ps: p, pc: w, ..s2 }
}

pub open spec fn pull_a(s: CpuState) -> CpuState {
    let (s1, v) = s.pop();
    load_a(s1, v)
}

pub open spec fn pull_status(s: CpuState) -> CpuState {
    let (s1, v) = s.pop();
    CpuState { ps: v, ..s1 }
}

/// The effect of an instruction on its resolved operand.
pub open spec fn execute(s: CpuState, i: Instruction, op: Operand) -> CpuState {
    let addr = op.addr();
    let m = s.mem[addr as int];
    match i {
        Instruction::Adc => add_with_carry(s, m),
        Instruction::And => load_a(s, s.a & m),
        Instruction::Asl => shift_left(s, op),
        Instruction::Bcc => branch(s, Flag::Carry, false, addr),
        Instruction::Bcs => branch(s, Flag::Carry, true, addr),
        Instruction::Beq => branch(s, Flag::Zero, true, addr),
        Instruction::Bit => bit_test(s, m),
        Instruction::Bmi => branch(s, Flag::Negative, true, addr),
        Instruction::Bne => branch(s, Flag::Zero, false, addr),
        Instruction::Bpl => branch(s, Flag::Negative, false, addr),
        Instruction::Brk => set_flag(s, Flag::Break, true),
        Instruction::Bvc => branch(s, Flag::Overflow, false, addr),
        Instruction::Bvs => branch(s, Flag::Overflow, true, addr),
        Instruction::Clc => set_flag(s, Flag::Carry, false),
        Instruction::Cld => set_flag(s, Flag::DecimalMode, false),
        Instruction::Cli => set_flag(s, Flag::InterruptDisable, false),
        Instruction::Clv => set_flag(s, Flag::Overflow, false),
        Instruction::Cmp => compare(s, s.a, m),
        Instruction::Cpx => compare(s, s.x, m),
        Instruction::Cpy => compare(s, s.y, m),
        Instruction::Dec => step_memory(s, addr, -1),
        Instruction::Dex => load_x(s, wrap8(s.x - 1)),
        Instruction::Dey => load_y(s, wrap8(s.y - 1)),
        Instruction::Eor => load_a(s, s.a ^ m),
        Instruction::Inc => step_memory(s, addr, 1),
        Instruction::Inx => load_x(s, wrap8(s.x + 1)),
        Instruction::Iny => load_y(s, wrap8(s.y + 1)),
        Instruction::Jmp => CpuState { pc: addr, ..s },
        Instruction::Jsr => jump_subroutine(s, addr),
        Instruction::Lda => load_a(s, m),
        Instruction::Ldx => load_x(s, m),
        Instruction::Ldy => load_y(s, m),
        Instruction::Lsr => shift_right(s, op),
        Instruction::Nop => s,
        Instruction::Ora => load_a(s, s.a | m),
        Instruction::Pha => s.push(s.a),
        Instruction::Php => s.push(s.ps),
        Instruction::Pla => pull_a(s),
        Instruction::Plp => pull_status(s),
        Instruction::Rol => rotate_left(s, op),
        Instruction::Ror => rotate_right(s, op),
        Instruction::Rti => return_interrupt(s),
        Instruction::Rts => return_subroutine(s),
        Instruction::Sbc => subtract_with_carry(s, m),
        Instruction::Sec => set_flag(s, Flag::Carry, true),
        Instruction::Sed => set_flag(s, Flag::DecimalMode, true),
        Instruction::Sei => set_flag(s, Flag::InterruptDisable, true),
        Instruction::Sta => s.write(addr, s.a),
        Instruction::Stx => s.write(addr, s.x),
        Instruction::Sty => s.write(addr, s.y),
        Instruction::Tax => load_x(s, s.a),
        Instruction::Tay => load_y(s, s.a),
        Instruction::Tsx => load_x(s, s.sp),
        Instruction::Txa => load_a(s, s.x),
        Instruction::Txs => CpuState { sp: s.x, ..s },
        Instruction::Tya => load_a(s, s.y),
        Instruction::Unimplemented => s,
    }
}

/// One fetch-decode-execute cycle: the opcode at `pc` is read and skipped,
/// the operand bytes of its mode are consumed, and the instruction runs.
pub open spec fn step(s: CpuState) -> CpuState {
    let opcode = s.mem[s.pc as int];
    let s1 = s.advance(1);
    let mode = mode_of(opcode);
    let op = s1.resolve(mode);
    execute(s1.advance(operand_width(mode) as int), instruction_of(opcode), op)
}

/// At most `n` cycles, stopping early once the processor has halted.
pub open spec fn run(s: CpuState, n: nat) -> CpuState
    decreases n,
{
    if n == 0 {
        s
    } else {
        let p = run(s, (n - 1) as nat);
        if p.halted() {
            p
        } else {
            step(p)
        }
    }
}

} // verus!
