use vstd::prelude::*;
use crate::bus::BUS;
use crate::status::{Flag, Status, with_flag, with_zn};
use crate::semantics::{
    bit_of, load_a, load_x, load_y, add_with_carry, subtract_with_carry, compare, bit_test,
    target_value, store_target, shift_left, shift_right, rotate_left, rotate_right, step_memory,
    branch, jump_subroutine, return_subroutine, return_interrupt, pull_a, pull_status, execute,
    run,
};
use crate::opcodes::{AddressingMode, Instruction, operand_width, instruction_of, decode};
use crate::state::{
    CpuState, Operand, STACK_BASE, wrap8, wrap16, signed, word, low_byte, high_byte, read_word,
    read_zp_word,
};

verus! {

/// The processor: registers, status flags and the bus it owns.
#[derive(Debug)]
pub struct CPU {
    pc: u16,
    sp: u8,
    a: u8,
    x: u8,
    y: u8,
    status: Status,
    bus: BUS,
}

/// Adding to a program counter that has already wrapped is the same as
/// adding to the unwrapped value.
proof fn lemma_wrap16_advance(pc: u16, n: int)
    ensures
        forall|k: int| #[trigger] wrap16(wrap16(pc + n) + k) == wrap16(pc + n + k),
{
    assert forall|k: int| #[trigger] wrap16(wrap16(pc + n) + k) == wrap16(pc + n + k) by {
        vstd::arithmetic::div_mod::lemma_add_mod_noop(pc + n, k, 0x10000);
        vstd::arithmetic::div_mod::lemma_mod_twice(pc + n, 0x10000);
    }
}

/// A byte read as a two's-complement signed number.
fn signed_value(v: u8) -> (r: i16)
    ensures
        r == signed(v),
{
    if v < 0x80 {
        v as i16
    } else {
        v as i16 - 0x100
    }
}

/// The word with low byte `ls_byte` and high byte `ms_byte`.
fn assemble_2_bytes_le_u16(ms_byte: u8, ls_byte: u8) -> (r: u16)
    ensures
        r == word(ls_byte, ms_byte),
{
    (ms_byte as u16) * 0x100 + (ls_byte as u16)
}

impl CPU {
    /// The architectural state: registers, status byte and memory.
    pub closed spec fn view(&self) -> CpuState {
        CpuState {
            pc: self.pc,
            sp: self.sp,
            a: self.a,
            x: self.x,
            y: self.y,
            ps: self.status.bits,
            mem: self.bus@,
        }
    }

    /// The memory covers the whole address space.
    pub open spec fn wf(&self) -> bool {
        self@.wf()
    }

    /// A processor with every register and flag zero and all memory zero.
    pub fn init() -> (r: CPU)
        ensures
            r.wf(),
            r@.pc == 0 && r@.sp == 0 && r@.a == 0 && r@.x == 0 && r@.y == 0 && r@.ps == 0,
            forall|i: int| 0 <= i < 0x10000 ==> #[trigger] r@.mem[i] == 0u8,
    {
        CPU { pc: 0, sp: 0, a: 0, x: 0, y: 0, status: Status { bits: 0 }, bus: BUS::init() }
    }

    /// Reads a byte; no register changes.
    pub fn read_byte_from_memory(&self, addr: u16) -> (r: u8)
        requires
            self.wf(),
        ensures
            r == self@.mem[addr as int],
    {
        self.bus.read_memory_byte(addr)
    }

    /// Writes a byte; no register changes.
    pub fn write_byte_to_memory(&mut self, addr: u16, val: u8)
        requires
            old(self).wf(),
        ensures
            final(self)@ == old(self)@.write(addr, val),
    {
        self.bus.write_memory_byte(addr, val);
    }

    /// Reads the little-endian word at `addr`.
    pub fn read_2_bytes_from_memory(&self, addr: u16) -> (r: u16)
        requires
            self.wf(),
        ensures
            r == read_word(self@.mem, addr),
    {
        let ls_byte = self.read_byte_from_memory(addr);
        let ms_byte = self.read_byte_from_memory(addr.wrapping_add(1));
        assemble_2_bytes_le_u16(ms_byte, ls_byte)
    }

    /// Writes `val` little-endian at `addr`: low byte first, high byte at
    /// the next address (wrapping at 2^16).
    pub fn write_2_bytes_to_memory(&mut self, addr: u16, val: u16)
        requires
            old(self).wf(),
        ensures
            final(self)@ == old(self)@.write(addr, low_byte(val)).write(wrap16(addr + 1), high_byte(val)),
    {
        let ls_byte = (val % 0x100) as u8;
        let ms_byte = (val / 0x100) as u8;
        self.write_byte_to_memory(addr, ls_byte);
        self.write_byte_to_memory(addr.wrapping_add(1), ms_byte);
    }

    /// Reads the byte at `pc` and moves `pc` past it.
    fn fetch_byte(&mut self) -> (r: u8)
        requires
            old(self).wf(),
        ensures
            r == old(self)@.mem[old(self)@.pc as int],
            final(self)@ == old(self)@.advance(1),
    {
        let r = self.read_byte_from_memory(self.pc);
        self.pc = self.pc.wrapping_add(1);
        r
    }

    /// Reads the little-endian word at `pc` and moves `pc` past it.
    fn fetch_2_bytes(&mut self) -> (r: u16)
        requires
            old(self).wf(),
        ensures
            r == read_word(old(self)@.mem, old(self)@.pc),
            final(self)@ == old(self)@.advance(2),
    {
        let ls_byte = self.fetch_byte();
        let ms_byte = self.fetch_byte();
        assemble_2_bytes_le_u16(ms_byte, ls_byte)
    }

    /// Writes `val` at `0x0100 + sp`, then decrements `sp` (wrapping).
    pub fn push_byte_to_stack(&mut self, val: u8)
        requires
            old(self).wf(),
        ensures
            final(self)@ == old(self)@.push(val),
    {
        self.write_byte_to_memory(STACK_BASE + self.sp as u16, val);
        self.sp = self.sp.wrapping_sub(1);
    }

    /// Increments `sp` (wrapping), then reads the byte at `0x0100 + sp`.
    pub fn pop_byte_from_stack(&mut self) -> (r: u8)
        requires
            old(self).wf(),
        ensures
            (final(self)@, r) == old(self)@.pop(),
    {
        self.sp = self.sp.wrapping_add(1);
        self.read_byte_from_memory(STACK_BASE + self.sp as u16)
    }

    /// Pushes a word, high byte first.
    pub fn push_2_bytes_to_stack(&mut self, val: u16)
        requires
            old(self).wf(),
        ensures
            final(self)@ == old(self)@.push_word(val),
    {
        self.push_byte_to_stack((val / 0x100) as u8);
        self.push_byte_to_stack((val % 0x100) as u8);
    }

    /// Pops a word, low byte first.
    pub fn pop_2_bytes_from_stack(&mut self) -> (r: u16)
        requires
            old(self).wf(),
        ensures
            (final(self)@, r) == old(self)@.pop_word(),
    {
        let ls_byte = self.pop_byte_from_stack();
        let ms_byte = self.pop_byte_from_stack();
        assemble_2_bytes_le_u16(ms_byte, ls_byte)
    }

    pub fn get_pc(&self) -> (r: u16)
        ensures
            r == self@.pc,
    {
        self.pc
    }

    pub fn get_sp(&self) -> (r: u8)
        ensures
            r == self@.sp,
    {
        self.sp
    }

    pub fn get_a(&self) -> (r: u8)
        ensures
            r == self@.a,
    {
        self.a
    }

    pub fn get_x(&self) -> (r: u8)
        ensures
            r == self@.x,
    {
        self.x
    }

    pub fn get_y(&self) -> (r: u8)
        ensures
            r == self@.y,
    {
        self.y
    }

    /// The whole status byte.
    pub fn get_ps(&self) -> (r: u8)
        ensures
            r == self@.ps,
    {
        self.status.bits
    }

    pub fn get_flag(&self, f: Flag) -> (r: bool)
        ensures
            r == self@.flag(f),
    {
        self.status.is_set(f)
    }

    pub fn set_pc(&mut self, val: u16)
        ensures
            final(self)@ == (CpuState { pc: val, ..old(self)@ }),
    {
        self.pc = val;
    }

    pub fn set_sp(&mut self, val: u8)
        ensures
            final(self)@ == (CpuState { sp: val, ..old(self)@ }),
    {
        self.sp = val;
    }

    pub fn set_a(&mut self, val: u8)
        ensures
            final(self)@ == (CpuState { a: val, ..old(self)@ }),
    {
        self.a = val;
    }

    pub fn set_x(&mut self, val: u8)
        ensures
            final(self)@ == (CpuState { x: val, ..old(self)@ }),
    {
        self.x = val;
    }

    pub fn set_y(&mut self, val: u8)
        ensures
            final(self)@ == (CpuState { y: val, ..old(self)@ }),
    {
        self.y = val;
    }

    /// Replaces the whole status byte.
    pub fn set_ps(&mut self, val: u8)
        ensures
            final(self)@ == (CpuState { ps: val, ..old(self)@ }),
    {
        self.status.bits = val;
    }

    /// Sets the flag when `on` holds, clears it otherwise.
    pub fn set_flag(&mut self, f: Flag, on: bool)
        ensures
            final(self)@ == (CpuState { ps: with_flag(old(self)@.ps, f, on), ..old(self)@ }),
    {
        self.status.assign(f, on);
    }
    /// Computes the operand of `mode` from the bytes at `pc` and the index
    /// registers, moving `pc` past exactly the operand bytes of the mode.
    pub fn handle_addressing_mode(&mut self, mode: AddressingMode) -> (r: Operand)
        requires
            old(self).wf(),
        ensures
            r == old(self)@.resolve(mode),
            final(self)@ == old(self)@.advance(operand_width(mode) as int),
    {
        proof {
            lemma_wrap16_advance(self.pc, 0);
        }
        match mode {
            AddressingMode::Implicit | AddressingMode::Invalid => Operand::Implied,
            AddressingMode::Accumulator => Operand::Accumulator,
            AddressingMode::Immediate => {
                let addr = self.pc;
                self.pc = self.pc.wrapping_add(1);
                Operand::Address(addr)
            },
            AddressingMode::ZeroPage => {
                let b = self.fetch_byte();
                Operand::Address(b as u16)
            },
            AddressingMode::ZeroPageX => {
                let b = self.fetch_byte();
                Operand::Address(b.wrapping_add(self.x) as u16)
            },
            AddressingMode::ZeroPageY => {
                let b = self.fetch_byte();
                Operand::Address(b.wrapping_add(self.y) as u16)
            },
            AddressingMode::Relative => {
                let b = self.fetch_byte();
                let target = if b < 0x80 {
                    self.pc.wrapping_add(b as u16)
                } else {
                    self.pc.wrapping_sub(0x100 - b as u16)
                };
                proof {
                    lemma_wrap16_advance(old(self)@.pc, 1);
                }
                Operand::Address(target)
            },
            AddressingMode::Absolute => {
                let addr = self.fetch_2_bytes();
                Operand::Address(addr)
            },
            AddressingMode::AbsoluteX => {
                let addr = self.fetch_2_bytes();
                Operand::Address(addr.wrapping_add(self.x as u16))
            },
            AddressingMode::AbsoluteY => {
                let addr = self.fetch_2_bytes();
                Operand::Address(addr.wrapping_add(self.y as u16))
            },
            AddressingMode::Indirect => {
                let ptr = self.fetch_2_bytes();
                Operand::Address(self.read_2_bytes_from_memory(ptr))
            },
            AddressingMode::IndirectX => {
                let b = self.fetch_byte();
                let zp = b.wrapping_add(self.x);
                Operand::Address(self.read_zero_page_word(zp))
            },
            AddressingMode::IndirectY => {
                let b = self.fetch_byte();
                let base = self.read_zero_page_word(b);
                Operand::Address(base.wrapping_add(self.y as u16))
            },
        }
    }

    /// Reads the little-endian word at a zero-page address; the high byte
    /// comes from the next address within the zero page.
    fn read_zero_page_word(&self, zp: u8) -> (r: u16)
        requires
            self.wf(),
        ensures
            r == read_zp_word(self@.mem, zp),
    {
        let ls_byte = self.read_byte_from_memory(zp as u16);
        let ms_byte = self.read_byte_from_memory(zp.wrapping_add(1) as u16);
        assemble_2_bytes_le_u16(ms_byte, ls_byte)
    }
    /// Sets Zero and Negative from `v`.
    fn update_zero_and_negative_flags_u8(&mut self, v: u8)
        ensures
            final(self)@ == (CpuState { ps: with_zn(old(self)@.ps, v), ..old(self)@ }),
    {
        self.status.update_zero_and_negative(v);
    }

    /// 1 when Carry is set, 0 otherwise.
    fn carry_bit(&self) -> (r: u8)
        ensures
            r == bit_of(self@, Flag::Carry),
    {
        if self.status.is_set(Flag::Carry) {
            1
        } else {
            0
        }
    }

    fn adc(&mut self, m: u8)
        ensures
            final(self)@ == add_with_carry(old(self)@, m),
    {
        let c = self.carry_bit();
        let sum: u16 = self.a as u16 + m as u16 + c as u16;
        let ssum: i16 = signed_value(self.a) + signed_value(m) + c as i16;
        let result = (sum % 0x100) as u8;
        self.status.assign(Flag::Carry, sum > 0xFF);
        self.status.assign(Flag::Overflow, ssum < -128 || ssum > 127);
        self.a = result;
        self.update_zero_and_negative_flags_u8(result);
    }

    fn sbc(&mut self, m: u8)
        ensures
            final(self)@ == subtract_with_carry(old(self)@, m),
    {
        let borrow: i16 = 1 - self.carry_bit() as i16;
        let diff: i16 = self.a as i16 - m as i16 - borrow;
        let sdiff: i16 = signed_value(self.a) - signed_value(m) - borrow;
        let result = self.a.wrapping_sub(m).wrapping_sub(borrow as u8);
        proof {
            vstd::arithmetic::div_mod::lemma_add_mod_noop(self.a - m, -borrow, 0x100);
            vstd::arithmetic::div_mod::lemma_mod_twice(self.a - m, 0x100);
        }
        self.status.assign(Flag::Carry, diff >= 0);
        self.status.assign(Flag::Overflow, sdiff < -128 || sdiff > 127);
        self.a = result;
        self.update_zero_and_negative_flags_u8(result);
    }

    fn and(&mut self, m: u8)
        ensures
            final(self)@ == load_a(old(self)@, old(self)@.a & m),
    {
        self.lda(self.a & m);
    }

    fn ora(&mut self, m: u8)
        ensures
            final(self)@ == load_a(old(self)@, old(self)@.a | m),
    {
        self.lda(self.a | m);
    }

    fn eor(&mut self, m: u8)
        ensures
            final(self)@ == load_a(old(self)@, old(self)@.a ^ m),
    {
        self.lda(self.a ^ m);
    }

    fn bit(&mut self, m: u8)
        ensures
            final(self)@ == bit_test(old(self)@, m),
    {
        let result = self.a & m;
        self.status.assign(Flag::Zero, result == 0);
        self.status.assign(Flag::Negative, m >= 0x80);
        self.status.assign(Flag::Overflow, m % 0x80 >= 0x40);
    }

    /// CMP, CPX and CPY: compares `reg` with `m`.
    fn compare(&mut self, reg: u8, m: u8)
        ensures
            final(self)@ == compare(old(self)@, reg, m),
    {
        self.status.assign(Flag::Carry, reg >= m);
        self.update_zero_and_negative_flags_u8(reg.wrapping_sub(m));
    }

    fn lda(&mut self, m: u8)
        ensures
            final(self)@ == load_a(old(self)@, m),
    {
        self.a = m;
        self.update_zero_and_negative_flags_u8(m);
    }

    fn ldx(&mut self, m: u8)
        ensures
            final(self)@ == load_x(old(self)@, m),
    {
        self.x = m;
        self.update_zero_and_negative_flags_u8(m);
    }

    fn ldy(&mut self, m: u8)
        ensures
            final(self)@ == load_y(old(self)@, m),
    {
        self.y = m;
        self.update_zero_and_negative_flags_u8(m);
    }

    /// The byte that a shift or rotate works on.
    fn read_target(&self, t: Operand) -> (r: u8)
        requires
            self.wf(),
        ensures
            r == target_value(self@, t),
    {
        match t {
            Operand::Accumulator => self.a,
            _ => self.read_byte_from_memory(t.address()),
        }
    }

    /// Stores the result of a read-modify-write instruction and sets Zero
    /// and Negative from it.
    fn write_target(&mut self, t: Operand, r: u8)
        requires
            old(self).wf(),
        ensures
            final(self)@ == store_target(old(self)@, t, r),
    {
        match t {
            Operand::Accumulator => self.a = r,
            _ => self.write_byte_to_memory(t.address(), r),
        }
        self.update_zero_and_negative_flags_u8(r);
    }

    fn asl(&mut self, t: Operand)
        requires
            old(self).wf(),
        ensures
            final(self)@ == shift_left(old(self)@, t),
    {
        let v = self.read_target(t);
        self.status.assign(Flag::Carry, v >= 0x80);
        self.write_target(t, ((v as u16 * 2) % 0x100) as u8);
    }

    fn lsr(&mut self, t: Operand)
        requires
            old(self).wf(),
        ensures
            final(self)@ == shift_right(old(self)@, t),
    {
        let v = self.read_target(t);
        self.status.assign(Flag::Carry, v % 2 == 1);
        self.write_target(t, v / 2);
    }

    fn rol(&mut self, t: Operand)
        requires
            old(self).wf(),
        ensures
            final(self)@ == rotate_left(old(self)@, t),
    {
        let v = self.read_target(t);
        let c = self.carry_bit();
        self.status.assign(Flag::Carry, v >= 0x80);
        self.write_target(t, ((v as u16 * 2 + c as u16) % 0x100) as u8);
    }

    fn ror(&mut self, t: Operand)
        requires
            old(self).wf(),
        ensures
            final(self)@ == rotate_right(old(self)@, t),
    {
        let v = self.read_target(t);
        let c = self.carry_bit();
        self.status.assign(Flag::Carry, v % 2 == 1);
        self.write_target(t, v / 2 + 0x80 * c);
    }

    fn inc(&mut self, addr: u16)
        requires
            old(self).wf(),
        ensures
            final(self)@ == step_memory(old(self)@, addr, 1),
    {
        let v = self.read_byte_from_memory(addr);
        self.write_target(Operand::Address(addr), v.wrapping_add(1));
    }

    fn dec(&mut self, addr: u16)
        requires
            old(self).wf(),
        ensures
            final(self)@ == step_memory(old(self)@, addr, -1),
    {
        let v = self.read_byte_from_memory(addr);
        self.write_target(Operand::Address(addr), v.wrapping_sub(1));
    }

    fn inx(&mut self)
        ensures
            final(self)@ == load_x(old(self)@, wrap8(old(self)@.x + 1)),
    {
        self.ldx(self.x.wrapping_add(1));
    }

    fn iny(&mut self)
        ensures
            final(self)@ == load_y(old(self)@, wrap8(old(self)@.y + 1)),
    {
        self.ldy(self.y.wrapping_add(1));
    }

    fn dex(&mut self)
        ensures
            final(self)@ == load_x(old(self)@, wrap8(old(self)@.x - 1)),
    {
        self.ldx(self.x.wrapping_sub(1));
    }

    fn dey(&mut self)
        ensures
            final(self)@ == load_y(old(self)@, wrap8(old(self)@.y - 1)),
    {
        self.ldy(self.y.wrapping_sub(1));
    }

    /// BCC, BCS, BEQ, BMI, BNE, BPL, BVC and BVS: jumps to `target` when the
    /// flag reads as `when`; no flag changes.
    fn branch(&mut self, f: Flag, when: bool, target: u16)
        ensures
            final(self)@ == branch(old(self)@, f, when, target),
    {
        if self.status.is_set(f) == when {
            self.pc = target;
        }
    }

    fn jsr(&mut self, target: u16)
        requires
            old(self).wf(),
        ensures
            final(self)@ == jump_subroutine(old(self)@, target),
    {
        self.push_2_bytes_to_stack(self.pc.wrapping_sub(1));
        self.pc = target;
    }

    fn rts(&mut self)
        requires
            old(self).wf(),
        ensures
            final(self)@ == return_subroutine(old(self)@),
    {
        let ret = self.pop_2_bytes_from_stack();
        self.pc = ret.wrapping_add(1);
    }

    fn rti(&mut self)
        requires
            old(self).wf(),
        ensures
            final(self)@ == return_interrupt(old(self)@),
    {
        let ps = self.pop_byte_from_stack();
        let ret = self.pop_2_bytes_from_stack();
        self.status.bits = ps;
        self.pc = ret;
    }

    fn pla(&mut self)
        requires
            old(self).wf(),
        ensures
            final(self)@ == pull_a(old(self)@),
    {
        let v = self.pop_byte_from_stack();
        self.lda(v);
    }

    fn plp(&mut self)
        requires
            old(self).wf(),
        ensures
            final(self)@ == pull_status(old(self)@),
    {
        let v = self.pop_byte_from_stack();
        self.status.bits = v;
    }
    /// Runs one instruction on its resolved operand.
    fn execute(&mut self, i: Instruction, op: Operand)
        requires
            old(self).wf(),
        ensures
            final(self)@ == execute(old(self)@, i, op),
            final(self).wf(),
    {
        let addr = op.address();
        let m = self.read_byte_from_memory(addr);
        match i {
            Instruction::Adc => self.adc(m),
            Instruction::And => self.and(m),
            Instruction::Asl => self.asl(op),
            Instruction::Bcc => self.branch(Flag::Carry, false, addr),
            Instruction::Bcs => self.branch(Flag::Carry, true, addr),
            Instruction::Beq => self.branch(Flag::Zero, true, addr),
            Instruction::Bit => self.bit(m),
            Instruction::Bmi => self.branch(Flag::Negative, true, addr),
            Instruction::Bne => self.branch(Flag::Zero, false, addr),
            Instruction::Bpl => self.branch(Flag::Negative, false, addr),
            Instruction::Brk => self.set_flag(Flag::Break, true),
            Instruction::Bvc => self.branch(Flag::Overflow, false, addr),
            Instruction::Bvs => self.branch(Flag::Overflow, true, addr),
            Instruction::Clc => self.set_flag(Flag::Carry, false),
            Instruction::Cld => self.set_flag(Flag::DecimalMode, false),
            Instruction::Cli => self.set_flag(Flag::InterruptDisable, false),
            Instruction::Clv => self.set_flag(Flag::Overflow, false),
            Instruction::Cmp => self.compare(self.a, m),
            Instruction::Cpx => self.compare(self.x, m),
            Instruction::Cpy => self.compare(self.y, m),
            Instruction::Dec => self.dec(addr),
            Instruction::Dex => self.dex(),
            Instruction::Dey => self.dey(),
            Instruction::Eor => self.eor(m),
            Instruction::Inc => self.inc(addr),
            Instruction::Inx => self.inx(),
            Instruction::Iny => self.iny(),
            Instruction::Jmp => self.pc = addr,
            Instruction::Jsr => self.jsr(addr),
            Instruction::Lda => self.lda(m),
            Instruction::Ldx => self.ldx(m),
            Instruction::Ldy => self.ldy(m),
            Instruction::Lsr => self.lsr(op),
            Instruction::Nop => {},
            Instruction::Ora => self.ora(m),
            Instruction::Pha => self.push_byte_to_stack(self.a),
            Instruction::Php => self.push_byte_to_stack(self.status.bits),
            Instruction::Pla => self.pla(),
            Instruction::Plp => self.plp(),
            Instruction::Rol => self.rol(op),
            Instruction::Ror => self.ror(op),
            Instruction::Rti => self.rti(),
            Instruction::Rts => self.rts(),
            Instruction::Sbc => self.sbc(m),
            Instruction::Sec => self.set_flag(Flag::Carry, true),
            Instruction::Sed => self.set_flag(Flag::DecimalMode, true),
            Instruction::Sei => self.set_flag(Flag::InterruptDisable, true),
            Instruction::Sta => self.write_byte_to_memory(addr, self.a),
            Instruction::Stx => self.write_byte_to_memory(addr, self.x),
            Instruction::Sty => self.write_byte_to_memory(addr, self.y),
            Instruction::Tax => self.ldx(self.a),
            Instruction::Tay => self.ldy(self.a),
            Instruction::Tsx => self.ldx(self.sp),
            Instruction::Txa => self.lda(self.x),
            Instruction::Txs => self.sp = self.x,
            Instruction::Tya => self.lda(self.y),
            Instruction::Unimplemented => {},
        }
    }

    /// One fetch-decode-execute cycle. An opcode byte that names no
    /// instruction is skipped and reported back, not treated as a fault.
    pub fn step(&mut self) -> (r: StepOutcome)
        requires
            old(self).wf(),
        ensures
            final(self).wf(),
            final(self)@ == crate::semantics::step(old(self)@),
            r == outcome_of(old(self)@.mem[old(self)@.pc as int]),
    {
        let opcode = self.fetch_byte();
        let (i, mode) = decode(opcode);
        let op = self.handle_addressing_mode(mode);
        self.execute(i, op);
        match i {
            Instruction::Unimplemented => StepOutcome::Unimplemented(opcode),
            _ => StepOutcome::Executed(i),
        }
    }

    /// Sets `pc` to `start_addr` and runs until the Break flag is set. A
    /// program that never sets it is stopped after `u64::MAX` cycles.
    pub fn start(&mut self, start_addr: u16)
        requires
            old(self).wf(),
        ensures
            final(self).wf(),
            final(self)@ == run(CpuState { pc: start_addr, ..old(self)@ }, u64::MAX as nat),
    {
        self.pc = start_addr;
        let ghost s0 = self@;
        let mut n: u64 = 0;
        while n < u64::MAX && !self.status.is_set(Flag::Break)
            invariant
                self.wf(),
                self@ == run(s0, n as nat),
            decreases u64::MAX - n,
        {
            self.step();
            n = n + 1;
        }
        proof {
            lemma_run_stays_halted(s0, n as nat, u64::MAX as nat);
        }
    }

    /// Writes `data` to consecutive addresses from `start_addr`, wrapping
    /// at the top of memory.
    pub fn load_to_memory(&mut self, start_addr: u16, data: Vec<u8>)
        requires
            old(self).wf(),
        ensures
            final(self).wf(),
            final(self)@ == (CpuState { mem: load_image(old(self)@.mem, start_addr, data@), ..old(self)@ }),
    {
        let mut cur_addr = start_addr;
        let mut k: usize = 0;
        while k < data.len()
            invariant
                self.wf(),
                0 <= k <= data@.len(),
                cur_addr == wrap16(start_addr + k),
                self@ == (CpuState { mem: load_image(old(self)@.mem, start_addr, data@.take(k as int)), ..old(self)@ }),
            decreases data@.len() - k,
        {
            self.write_byte_to_memory(cur_addr, data[k]);
            assert(data@.take(k + 1).drop_last() == data@.take(k as int));
            cur_addr = cur_addr.wrapping_add(1);
            proof {
                lemma_wrap16_advance(start_addr, k as int);
            }
            k = k + 1;
        }
        assert(data@.take(k as int) == data@);
    }
}

/// What a cycle reports: the instruction that ran, or the opcode byte that
/// names none and was skipped.
#[derive(Debug, Clone, Copy, PartialEq, Eq, Structural)]
pub enum StepOutcome {
    Executed(Instruction),
    Unimplemented(u8),
}

pub open spec fn outcome_of(opcode: u8) -> StepOutcome {
    if instruction_of(opcode) == Instruction::Unimplemented {
        StepOutcome::Unimplemented(opcode)
    } else {
        StepOutcome::Executed(instruction_of(opcode))
    }
}

/// Memory after writing `data` byte by byte from `start`, wrapping at 2^16.
pub open spec fn load_image(mem: Seq<u8>, start: u16, data: Seq<u8>) -> Seq<u8>
    decreases data.len(),
{
    if data.len() == 0 {
        mem
    } else {
        let k = data.len() - 1;
        load_image(mem, start, data.drop_last()).update(wrap16(start + k) as int, data[k])
    }
}

/// Once halted, further cycles change nothing.
proof fn lemma_run_stays_halted(s: CpuState, n: nat, m: nat)
    requires
        n <= m,
        n == m || run(s, n).halted(),
    ensures
        run(s, m) == run(s, n),
    decreases m - n,
{
    if n < m {
        lemma_run_stays_halted(s, n, (m - 1) as nat);
    }
}

} // verus!
