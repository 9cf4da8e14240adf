use vstd::prelude::*;
use crate::status::{Flag, flag_set, with_flag, with_zn, is_negative, lemma_with_flag, lemma_with_zn};
use crate::opcodes::{Instruction, AddressingMode};
use crate::state::{CpuState, Operand, wrap8, wrap16, signed, read_word, word, low_byte, high_byte};
use crate::semantics::{execute, step, add_with_carry, subtract_with_carry, bit_of, target_value};

verus! {

/// The value that a result-producing instruction leaves behind, read from
/// the state after it ran; `None` for instructions that produce no result.
pub open spec fn result_of(after: CpuState, i: Instruction, op: Operand) -> Option<u8> {
    match i {
        Instruction::Lda | Instruction::Txa | Instruction::Tya | Instruction::Pla
        | Instruction::And | Instruction::Ora | Instruction::Eor | Instruction::Adc
        | Instruction::Sbc => Some(after.a),
        Instruction::Ldx | Instruction::Tax | Instruction::Tsx | Instruction::Inx
        | Instruction::Dex => Some(after.x),
        Instruction::Ldy | Instruction::Tay | Instruction::Iny | Instruction::Dey => Some(after.y),
        Instruction::Inc | Instruction::Dec => Some(after.mem[op.addr() as int]),
        Instruction::Asl | Instruction::Lsr | Instruction::Rol | Instruction::Ror => Some(
            target_value(after, op),
        ),
        _ => None,
    }
}

/// Every load, transfer, logic, arithmetic, increment, decrement, shift and
/// rotate sets Zero exactly when its result is 0 and Negative exactly when
/// bit 7 of its result is 1.
pub proof fn lemma_zero_negative_follow_result(s: CpuState, i: Instruction, op: Operand)
    requires
        s.wf(),
        result_of(execute(s, i, op), i, op) is Some,
    ensures
        ({
            let after = execute(s, i, op);
            let v = result_of(after, i, op)->0;
            &&& after.flag(Flag::Zero) == (v == 0)
            &&& after.flag(Flag::Negative) == is_negative(v)
        }),
{
    let after = execute(s, i, op);
    let v = result_of(after, i, op)->0;
    assert forall|p: u8| #[trigger] with_zn(p, v) == with_zn(p, v) implies flag_set(with_zn(p, v), Flag::Zero) == (v == 0)
        && flag_set(with_zn(p, v), Flag::Negative) == is_negative(v) by {
        lemma_with_zn(p, v, Flag::Zero);
    }
}

/// Loads and transfers leave Carry and Overflow as they were.
pub proof fn lemma_loads_keep_carry_overflow(s: CpuState, i: Instruction, op: Operand, f: Flag)
    requires
        s.wf(),
        i == Instruction::Lda || i == Instruction::Ldx || i == Instruction::Ldy
            || i == Instruction::Tax || i == Instruction::Tay || i == Instruction::Tsx
            || i == Instruction::Txa || i == Instruction::Tya || i == Instruction::Txs,
        f == Flag::Carry || f == Flag::Overflow,
    ensures
        execute(s, i, op).flag(f) == s.flag(f),
{
    lemma_with_zn(s.ps, execute(s, i, op).a, f);
    lemma_with_zn(s.ps, execute(s, i, op).x, f);
    lemma_with_zn(s.ps, execute(s, i, op).y, f);
}

/// ADC follows the two's-complement table: the sum is taken modulo 256,
/// Carry is set exactly when `a + m + C` exceeds 255, and Overflow exactly
/// when both operands have the same sign and the result's sign differs.
pub proof fn lemma_adc_carry_overflow(s: CpuState, m: u8)
    ensures
        ({
            let c = bit_of(s, Flag::Carry);
            let r = add_with_carry(s, m);
            &&& r.a == wrap8(s.a + m + c)
            &&& r.flag(Flag::Carry) == (s.a + m + c > 0xFF)
            &&& r.flag(Flag::Overflow) == (is_negative(s.a) == is_negative(m) && is_negative(r.a)
                != is_negative(s.a))
        }),
{
    let c = bit_of(s, Flag::Carry);
    let sum = s.a + m + c;
    let r = add_with_carry(s, m);
    let ov = !(-128 <= signed(s.a) + signed(m) + c <= 127);
    let ps_c = with_flag(s.ps, Flag::Carry, sum > 0xFF);
    let ps_cv = with_flag(ps_c, Flag::Overflow, ov);
    lemma_with_zn(ps_cv, r.a, Flag::Carry);
    lemma_with_zn(ps_cv, r.a, Flag::Overflow);
    lemma_with_flag(ps_c, Flag::Overflow, ov, Flag::Carry);
    lemma_with_flag(ps_c, Flag::Overflow, ov, Flag::Overflow);
    lemma_with_flag(s.ps, Flag::Carry, sum > 0xFF, Flag::Carry);
    if sum > 0xFF {
        assert(wrap8(sum) == sum - 0x100);
    } else {
        assert(wrap8(sum) == sum);
    }
}

/// SBC follows the two's-complement table: the difference is taken modulo
/// 256, Carry is set exactly when no borrow occurs (`a >= m + (1 - C)`), and
/// Overflow exactly when the operands' signs differ and the result's sign
/// differs from that of `a`.
pub proof fn lemma_sbc_carry_overflow(s: CpuState, m: u8)
    ensures
        ({
            let borrow = 1 - bit_of(s, Flag::Carry);
            let r = subtract_with_carry(s, m);
            &&& r.a == wrap8(s.a - m - borrow)
            &&& r.flag(Flag::Carry) == (s.a >= m + borrow)
            &&& r.flag(Flag::Overflow) == (is_negative(s.a) != is_negative(m) && is_negative(r.a)
                != is_negative(s.a))
        }),
{
    let borrow = 1 - bit_of(s, Flag::Carry);
    let diff = s.a - m - borrow;
    let r = subtract_with_carry(s, m);
    let ov = !(-128 <= signed(s.a) - signed(m) - borrow <= 127);
    let ps_c = with_flag(s.ps, Flag::Carry, diff >= 0);
    let ps_cv = with_flag(ps_c, Flag::Overflow, ov);
    lemma_with_zn(ps_cv, r.a, Flag::Carry);
    lemma_with_zn(ps_cv, r.a, Flag::Overflow);
    lemma_with_flag(ps_c, Flag::Overflow, ov, Flag::Carry);
    lemma_with_flag(ps_c, Flag::Overflow, ov, Flag::Overflow);
    lemma_with_flag(s.ps, Flag::Carry, diff >= 0, Flag::Carry);
    if diff < 0 {
        assert(wrap8(diff) == diff + 0x100);
    } else {
        assert(wrap8(diff) == diff);
    }
}

/// Pushing a byte and popping it back returns that byte and restores `sp`,
/// for every `sp`, including the wrap-around at 0x00 and 0xFF.
pub proof fn lemma_push_pop_round_trip(s: CpuState, v: u8)
    requires
        s.wf(),
    ensures
        s.push(v).pop().1 == v,
        s.push(v).pop().0.sp == s.sp,
{
}

/// Pushing a word and popping it back returns that word and restores `sp`.
pub proof fn lemma_push_pop_word_round_trip(s: CpuState, w: u16)
    requires
        s.wf(),
    ensures
        s.push_word(w).pop_word().1 == w,
        s.push_word(w).pop_word().0.sp == s.sp,
{
    assert(word(low_byte(w), high_byte(w)) == w);
}

/// A JSR at `P` to `T` followed by the RTS at `T` resumes at `P + 3`, just
/// past the three bytes of the JSR, with `sp` back where it was.
pub proof fn lemma_jsr_rts_round_trip(s: CpuState)
    requires
        s.wf(),
        s.mem[s.pc as int] == 0x20,
    ensures
        ({
            let target = read_word(s.mem, wrap16(s.pc + 1));
            let called = step(s);
            &&& called.pc == target
            &&& called.mem[target as int] == 0x60 ==> {
                &&& step(called).pc == wrap16(s.pc + 3)
                &&& step(called).sp == s.sp
            }
        }),
{
    let s1 = s.advance(1);
    let s2 = s1.advance(2);
    assert(s1.resolve(AddressingMode::Absolute) == Operand::Address(read_word(s.mem, wrap16(s.pc + 1))));
    assert(wrap16(s2.pc - 1) == wrap16(s.pc + 2)) by {
        vstd::arithmetic::div_mod::lemma_add_mod_noop(s.pc + 1, 2, 0x10000);
        vstd::arithmetic::div_mod::lemma_mod_twice(s.pc + 1, 0x10000);
    }
    let ret = wrap16(s.pc + 2);
    let called = step(s);
    lemma_push_pop_word_round_trip(s2, ret);
    if called.mem[called.pc as int] == 0x60 {
        let pushed = s2.push_word(ret);
        assert(called.mem == pushed.mem && called.sp == pushed.sp);
        let back = called.advance(1).advance(0);
        assert(back.mem == pushed.mem && back.sp == pushed.sp);
        assert(back.pop().1 == pushed.pop().1);
        assert(back.pop().0.pop().1 == pushed.pop().0.pop().1);
        assert(back.pop_word().1 == ret);
        assert(wrap16(ret + 1) == wrap16(s.pc + 3)) by {
            vstd::arithmetic::div_mod::lemma_add_mod_noop(s.pc + 2, 1, 0x10000);
            vstd::arithmetic::div_mod::lemma_mod_twice(s.pc + 2, 0x10000);
        }
    }
}

/// Zero-page indexed addressing stays within the zero page: the operand
/// byte plus the index register, modulo 256.
pub proof fn lemma_zero_page_indexed_wraps(s: CpuState)
    ensures
        s.advance(1).resolve(AddressingMode::ZeroPageX) == Operand::Address(
            wrap8(s.mem[wrap16(s.pc + 1) as int] + s.x) as u16,
        ),
        s.advance(1).resolve(AddressingMode::ZeroPageY) == Operand::Address(
            wrap8(s.mem[wrap16(s.pc + 1) as int] + s.y) as u16,
        ),
        s.advance(1).resolve(AddressingMode::ZeroPageX).addr() < 0x100,
        s.advance(1).resolve(AddressingMode::ZeroPageY).addr() < 0x100,
{
}

} // verus!
