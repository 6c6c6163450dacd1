//! ALU primitives, the barrel shifter, flag setting and condition evaluation.
use vstd::prelude::*;

use crate::bits::{bit, bit_set, lemma_mask_bounds, reg_at, reg_field, rotate_right, rotr, wadd, wsub};
use crate::cpu::{CPU, PC_INDEX};
use crate::psr::{flag, ProgramStatusRegister};

verus! {

/// The four shift kinds of the barrel shifter, by their 2-bit encoding.
#[derive(Clone, Copy, PartialEq, Eq, Structural, Debug)]
pub enum ShiftType {
    LSL,
    LSR,
    ASR,
    ROR,
}

/// The shift kind with 2-bit encoding `bits`.
pub open spec fn shift_kind(bits: u32) -> ShiftType {
    if bits == 0 {
        ShiftType::LSL
    } else if bits == 1 {
        ShiftType::LSR
    } else if bits == 2 {
        ShiftType::ASR
    } else {
        ShiftType::ROR
    }
}

impl ShiftType {
    /// Decodes a 2-bit shift field.
    pub fn from_bits(bits: u32) -> (r: ShiftType)
        requires
            bits < 4,
        ensures
            r == shift_kind(bits),
    {
        if bits == 0 {
            ShiftType::LSL
        } else if bits == 1 {
            ShiftType::LSR
        } else if bits == 2 {
            ShiftType::ASR
        } else {
            ShiftType::ROR
        }
    }

    /// The mnemonic of the shift kind.
    pub fn name(&self) -> (r: String)
        ensures
            *self == ShiftType::LSL ==> r@ == "LSL"@,
            *self == ShiftType::LSR ==> r@ == "LSR"@,
            *self == ShiftType::ASR ==> r@ == "ASR"@,
            *self == ShiftType::ROR ==> r@ == "ROR"@,
    {
        match self {
            ShiftType::LSL => String::from_str("LSL"),
            ShiftType::LSR => String::from_str("LSR"),
            ShiftType::ASR => String::from_str("ASR"),
            ShiftType::ROR => String::from_str("ROR"),
        }
    }
}

/// Opcodes that read only the second operand (MOV, MVN).
pub fn is_single_operand(opcode: u32) -> (r: bool)
    ensures
        r == (opcode == 13 || opcode == 15),
{
    opcode == 13 || opcode == 15
}

/// Opcodes that only set flags (TST, TEQ, CMP, CMN).
pub fn is_test(opcode: u32) -> (r: bool)
    ensures
        r == (8 <= opcode <= 11),
{
    8 <= opcode && opcode <= 11
}

/// Logical shift left: 0 keeps value and carry; 1..31 shifts with carry out
/// bit 32 - n; 32 gives 0 with carry bit 0; more gives 0 with carry clear.
pub open spec fn lsl_spec(v: u32, n: u8, c: bool) -> (u32, bool) {
    if n == 0 {
        (v, c)
    } else if n < 32 {
        (v << (n as u32), bit_set(v, (32 - n) as u32))
    } else if n == 32 {
        (0, bit_set(v, 0))
    } else {
        (0, false)
    }
}

/// Logical shift right, an amount of 0 standing for 32.
pub open spec fn lsr_spec(v: u32, n: u8, c: bool) -> (u32, bool) {
    if n == 0 || n == 32 {
        (0, bit_set(v, 31))
    } else if n < 32 {
        (v >> (n as u32), bit_set(v, (n - 1) as u32))
    } else {
        (0, false)
    }
}

/// Arithmetic shift right, an amount of 0 standing for 32: from 32 on every
/// bit is the sign.
pub open spec fn asr_spec(v: u32, n: u8, c: bool) -> (u32, bool) {
    if n == 0 || n >= 32 {
        (
            if bit_set(v, 31) {
                0xffff_ffffu32
            } else {
                0u32
            },
            bit_set(v, 31),
        )
    } else {
        (((v as i32) >> (n as i32)) as u32, bit_set(v, (n - 1) as u32))
    }
}

/// Rotate right: 0 rotates one place through the carry; otherwise the amount
/// is taken modulo 32, a multiple of 32 leaving the value as it is.
pub open spec fn ror_spec(v: u32, n: u8, c: bool) -> (u32, bool) {
    if n == 0 {
        ((v >> 1u32) | (flag(c) << 31u32), bit_set(v, 0))
    } else {
        let r = rotr(v, (n % 32) as u32);
        (r, bit_set(r, 31))
    }
}

/// The barrel shifter: result and carry out of shifting `v` by `n` with carry in `c`.
pub open spec fn shift_spec(kind: ShiftType, v: u32, n: u8, c: bool) -> (u32, bool) {
    match kind {
        ShiftType::LSL => lsl_spec(v, n, c),
        ShiftType::LSR => lsr_spec(v, n, c),
        ShiftType::ASR => asr_spec(v, n, c),
        ShiftType::ROR => ror_spec(v, n, c),
    }
}

/// A shift whose amount comes from a register: an amount of 0 passes the
/// value and the carry through unchanged.
pub open spec fn reg_shift_spec(kind: ShiftType, v: u32, n: u8, c: bool) -> (u32, bool) {
    if n == 0 {
        (v, c)
    } else {
        shift_spec(kind, v, n, c)
    }
}

/// A shift by 0 of kind LSR or ASR is a shift by 32: the carry out is bit 31.
pub proof fn lemma_shift_zero_is_32(v: u32, c: bool)
    ensures
        lsr_spec(v, 0, c) == lsr_spec(v, 32, c),
        asr_spec(v, 0, c) == asr_spec(v, 32, c),
        lsr_spec(v, 0, c).1 == bit_set(v, 31),
        asr_spec(v, 0, c).1 == bit_set(v, 31),
{
}

/// `p` with the carry flag set to `c`.
pub open spec fn with_c(p: ProgramStatusRegister, c: bool) -> ProgramStatusRegister {
    ProgramStatusRegister { c_condition_bit: c, ..p }
}

/// `p` with carry `c` and overflow `v`.
pub open spec fn with_cv(p: ProgramStatusRegister, c: bool, v: bool) -> ProgramStatusRegister {
    ProgramStatusRegister { c_condition_bit: c, v_condition_bit: v, ..p }
}

/// `p` with sign `n` and zero `z`.
pub open spec fn with_nz(p: ProgramStatusRegister, n: bool, z: bool) -> ProgramStatusRegister {
    ProgramStatusRegister { n_condition_bit: n, z_condition_bit: z, ..p }
}

/// The processor with only its status register replaced.
pub open spec fn with_psr(c: CPU, p: ProgramStatusRegister) -> CPU {
    CPU { cpsr: p, ..c }
}

/// The state after an operation whose flag update is optional.
pub open spec fn maybe_c(c: CPU, update: bool, carry: bool) -> CPU {
    if update {
        with_psr(c, with_c(c.cpsr, carry))
    } else {
        c
    }
}

/// The signed value of a word.
pub open spec fn signed(x: u32) -> int {
    (x as i32) as int
}

/// `x` lies outside the signed 32-bit range.
pub open spec fn out_of_i32(x: int) -> bool {
    x > 0x7fff_ffff || x < -0x8000_0000
}

/// Carry of `a + b + cin`: the unsigned sum exceeds 32 bits.
pub open spec fn add_carry(a: u32, b: u32, cin: bool) -> bool {
    a + b + flag(cin) > 0xffff_ffff
}

/// Overflow of `a + b + cin`: the signed sum leaves the signed range.
pub open spec fn add_overflow(a: u32, b: u32, cin: bool) -> bool {
    out_of_i32(signed(a) + signed(b) + flag(cin))
}

/// Carry of `a - b - !cin`: no borrow occurs.
pub open spec fn sub_carry(a: u32, b: u32, cin: bool) -> bool {
    a >= b + (1 - flag(cin))
}

/// Overflow of `a - b - !cin`: the signed difference leaves the signed range.
pub open spec fn sub_overflow(a: u32, b: u32, cin: bool) -> bool {
    out_of_i32(signed(a) - signed(b) - (1 - flag(cin)))
}

/// The wide-encoding condition table over the flags of `p`; code 14 is
/// "always" and code 15 "never".
pub open spec fn cond_holds(cond: u32, p: ProgramStatusRegister) -> bool {
    let n = p.n_condition_bit;
    let z = p.z_condition_bit;
    let c = p.c_condition_bit;
    let v = p.v_condition_bit;
    if cond == 0 {
        z
    } else if cond == 1 {
        !z
    } else if cond == 2 {
        c
    } else if cond == 3 {
        !c
    } else if cond == 4 {
        n
    } else if cond == 5 {
        !n
    } else if cond == 6 {
        v
    } else if cond == 7 {
        !v
    } else if cond == 8 {
        c && !z
    } else if cond == 9 {
        !c || z
    } else if cond == 10 {
        n == v
    } else if cond == 11 {
        n != v
    } else if cond == 12 {
        !z && n == v
    } else if cond == 13 {
        z || n != v
    } else if cond == 14 {
        true
    } else {
        false
    }
}

/// The "always" code holds on every flag state and the "never" code on none.
pub proof fn lemma_condition_extremes(p: ProgramStatusRegister)
    ensures
        cond_holds(14, p),
        !cond_holds(15, p),
{
}

/// The shifted-register second operand of an instruction word and the
/// shifter's carry out. Bit 4 selects a register amount (low byte of Rs,
/// with PC read 12 ahead) over a 5-bit immediate amount.
#[verifier::opaque]
pub open spec fn shifted_operand(c: CPU, inst: u32) -> (u32, bool) {
    let rm = reg_field(inst, 0);
    let kind = shift_kind((inst >> 5u32) & 3);
    if bit_set(inst, 4) {
        let amount = (c.reg[reg_field(inst, 8)] & 0xff) as u8;
        let v = if rm == 15 {
            wadd(c.reg[rm], 4)
        } else {
            c.reg[rm]
        };
        reg_shift_spec(kind, v, amount, c.cpsr.c_condition_bit)
    } else {
        shift_spec(kind, c.reg[rm], ((inst >> 7u32) & 0x1f) as u8, c.cpsr.c_condition_bit)
    }
}

/// An 8-bit immediate rotated right by twice a 4-bit amount; the carry out
/// is bit 31 of the rotated value, also for an amount of 0.
#[verifier::opaque]
pub open spec fn rotated_imm(c: CPU, op: u32) -> (u32, bool) {
    let imm = op & 0xff;
    let rot = (2 * ((op >> 8u32) & 0xf)) as u8;
    if rot == 0 {
        (imm, bit_set(imm, 31))
    } else {
        ror_spec(imm, rot, c.cpsr.c_condition_bit)
    }
}

fn lsl_exec(v: u32, n: u8, c: bool) -> (r: (u32, bool))
    ensures
        r == lsl_spec(v, n, c),
{
    if n == 0 {
        (v, c)
    } else if n < 32 {
        (v << (n as u32), bit(v, (32 - n) as u32))
    } else if n == 32 {
        (0, bit(v, 0))
    } else {
        (0, false)
    }
}

fn lsr_exec(v: u32, n: u8, c: bool) -> (r: (u32, bool))
    ensures
        r == lsr_spec(v, n, c),
{
    if n == 0 || n == 32 {
        (0, bit(v, 31))
    } else if n < 32 {
        (v >> (n as u32), bit(v, (n - 1) as u32))
    } else {
        (0, false)
    }
}

fn asr_exec(v: u32, n: u8, c: bool) -> (r: (u32, bool))
    ensures
        r == asr_spec(v, n, c),
{
    if n == 0 || n >= 32 {
        (
            if bit(v, 31) {
                0xffff_ffffu32
            } else {
                0u32
            },
            bit(v, 31),
        )
    } else {
        (((v as i32) >> (n as i32)) as u32, bit(v, (n - 1) as u32))
    }
}

fn ror_exec(v: u32, n: u8, c: bool) -> (r: (u32, bool))
    ensures
        r == ror_spec(v, n, c),
{
    if n == 0 {
        let cin: u32 = if c {
            1
        } else {
            0
        };
        ((v >> 1u32) | (cin << 31u32), bit(v, 0))
    } else {
        let r = rotate_right(v, (n % 32) as u32);
        (r, bit(r, 31))
    }
}

/// The barrel shifter on plain values.
pub fn barrel_shift(kind: ShiftType, v: u32, n: u8, c: bool) -> (r: (u32, bool))
    ensures
        r == shift_spec(kind, v, n, c),
{
    match kind {
        ShiftType::LSL => lsl_exec(v, n, c),
        ShiftType::LSR => lsr_exec(v, n, c),
        ShiftType::ASR => asr_exec(v, n, c),
        ShiftType::ROR => ror_exec(v, n, c),
    }
}

/// Sum `a + b + cin` with its carry and signed overflow.
pub fn add_exec(a: u32, b: u32, cin: bool) -> (r: (u32, bool, bool))
    ensures
        r == (wadd(wadd(a, b), flag(cin)), add_carry(a, b, cin), add_overflow(a, b, cin)),
{
    let ci: u32 = if cin {
        1
    } else {
        0
    };
    let res = a.wrapping_add(b).wrapping_add(ci);
    let carry = (a as u64) + (b as u64) + (ci as u64) > 0xffff_ffffu64;
    let s: i64 = (a as i32) as i64 + (b as i32) as i64 + ci as i64;
    (res, carry, s > 0x7fff_ffffi64 || s < -0x8000_0000i64)
}

/// Difference `a - b - !cin` with its no-borrow carry and signed overflow.
pub fn sub_exec(a: u32, b: u32, cin: bool) -> (r: (u32, bool, bool))
    ensures
        r == (wsub(wsub(a, b), (1 - flag(cin)) as u32), sub_carry(a, b, cin), sub_overflow(
            a,
            b,
            cin,
        )),
{
    let borrow: u32 = if cin {
        0
    } else {
        1
    };
    let res = a.wrapping_sub(b).wrapping_sub(borrow);
    let carry = (a as u64) >= (b as u64) + (borrow as u64);
    let s: i64 = (a as i32) as i64 - (b as i32) as i64 - borrow as i64;
    (res, carry, s > 0x7fff_ffffi64 || s < -0x8000_0000i64)
}

impl CPU {
    pub fn AND(&mut self, op: u32, op2: u32) -> (r: u32)
        ensures
            r == op & op2,
            *final(self) == *old(self),
    {
        op & op2
    }

    pub fn EOR(&mut self, op: u32, op2: u32) -> (r: u32)
        ensures
            r == op ^ op2,
            *final(self) == *old(self),
    {
        op ^ op2
    }

    pub fn ORR(&mut self, op: u32, op2: u32) -> (r: u32)
        ensures
            r == op | op2,
            *final(self) == *old(self),
    {
        op | op2
    }

    pub fn MOV(&mut self, op: u32) -> (r: u32)
        ensures
            r == op,
            *final(self) == *old(self),
    {
        op
    }

    pub fn BIC(&mut self, op: u32, op2: u32) -> (r: u32)
        ensures
            r == op & !op2,
            *final(self) == *old(self),
    {
        op & !op2
    }

    pub fn MVN(&mut self, op: u32) -> (r: u32)
        ensures
            r == !op,
            *final(self) == *old(self),
    {
        !op
    }

    /// `op - op2`; with `update_cpsr`, C is "no borrow" and V the signed overflow.
    pub fn SUB(&mut self, op: u32, op2: u32, update_cpsr: bool) -> (r: u32)
        ensures
            r == wsub(op, op2),
            *final(self) == if update_cpsr {
                with_psr(
                    *old(self),
                    with_cv(old(self).cpsr, sub_carry(op, op2, true), sub_overflow(op, op2, true)),
                )
            } else {
                *old(self)
            },
    {
        let (res, c, v) = sub_exec(op, op2, true);
        if update_cpsr {
            self.cpsr.c_condition_bit = c;
            self.cpsr.v_condition_bit = v;
        }
        res
    }

    /// `op + op2`; with `update_cpsr`, C is the unsigned and V the signed overflow.
    pub fn ADD(&mut self, op: u32, op2: u32, update_cpsr: bool) -> (r: u32)
        ensures
            r == wadd(op, op2),
            *final(self) == if update_cpsr {
                with_psr(
                    *old(self),
                    with_cv(old(self).cpsr, add_carry(op, op2, false), add_overflow(op, op2, false)),
                )
            } else {
                *old(self)
            },
    {
        let (res, c, v) = add_exec(op, op2, false);
        if update_cpsr {
            self.cpsr.c_condition_bit = c;
            self.cpsr.v_condition_bit = v;
        }
        res
    }

    /// `op + op2 + carry`, with the flags of the full sum.
    pub fn ADC(&mut self, op: u32, op2: u32, update_cpsr: bool, carry: bool) -> (r: u32)
        ensures
            r == wadd(wadd(op, op2), flag(carry)),
            *final(self) == if update_cpsr {
                with_psr(
                    *old(self),
                    with_cv(old(self).cpsr, add_carry(op, op2, carry), add_overflow(op, op2, carry)),
                )
            } else {
                *old(self)
            },
    {
        let (res, c, v) = add_exec(op, op2, carry);
        if update_cpsr {
            self.cpsr.c_condition_bit = c;
            self.cpsr.v_condition_bit = v;
        }
        res
    }

    /// `op - op2 - !carry`, with C = no borrow and V the signed overflow.
    pub fn SBC(&mut self, op: u32, op2: u32, update_cpsr: bool, carry: bool) -> (r: u32)
        ensures
            r == wsub(wsub(op, op2), (1 - flag(carry)) as u32),
            *final(self) == if update_cpsr {
                with_psr(
                    *old(self),
                    with_cv(old(self).cpsr, sub_carry(op, op2, carry), sub_overflow(op, op2, carry)),
                )
            } else {
                *old(self)
            },
    {
        let (res, c, v) = sub_exec(op, op2, carry);
        if update_cpsr {
            self.cpsr.c_condition_bit = c;
            self.cpsr.v_condition_bit = v;
        }
        res
    }

    /// Sets N from bit 31 and Z from a zero result.
    pub fn set_NZ(&mut self, val: u32)
        ensures
            *final(self) == with_psr(
                *old(self),
                with_nz(old(self).cpsr, bit_set(val, 31), val == 0),
            ),
    {
        self.cpsr.n_condition_bit = bit(val, 31);
        self.cpsr.z_condition_bit = val == 0;
    }

    /// Sets N from bit 63 and Z from a zero 64-bit result.
    pub fn set_NZ_64(&mut self, val: u64)
        ensures
            *final(self) == with_psr(
                *old(self),
                with_nz(old(self).cpsr, (val >> 63u64) & 1 == 1, val == 0),
            ),
    {
        self.cpsr.n_condition_bit = (val >> 63u64) & 1 == 1;
        self.cpsr.z_condition_bit = val == 0;
    }

    /// Evaluates a 4-bit condition code against the flags.
    pub fn condition_check(&self, cond: u32) -> (r: bool)
        ensures
            r == cond_holds(cond, self.cpsr),
    {
        let n = self.cpsr.n_condition_bit;
        let z = self.cpsr.z_condition_bit;
        let c = self.cpsr.c_condition_bit;
        let v = self.cpsr.v_condition_bit;
        match cond {
            0 => z,
            1 => !z,
            2 => c,
            3 => !c,
            4 => n,
            5 => !n,
            6 => v,
            7 => !v,
            8 => c && !z,
            9 => !c || z,
            10 => n == v,
            11 => n != v,
            12 => !z && n == v,
            13 => z || n != v,
            14 => true,
            _ => false,
        }
    }

    fn apply_shift(&mut self, kind: ShiftType, value: u32, rot: u8, set_condition: bool) -> (r:
        u32)
        ensures
            r == shift_spec(kind, value, rot, old(self).cpsr.c_condition_bit).0,
            *final(self) == maybe_c(
                *old(self),
                set_condition,
                shift_spec(kind, value, rot, old(self).cpsr.c_condition_bit).1,
            ),
    {
        let (res, c) = barrel_shift(kind, value, rot, self.cpsr.c_condition_bit);
        if set_condition {
            self.cpsr.c_condition_bit = c;
        }
        res
    }

    /// Logical shift left; the carry out goes to C when `set_condition`.
    pub fn LSL(&mut self, value: u32, rot: u8, set_condition: bool) -> (r: u32)
        ensures
            r == lsl_spec(value, rot, old(self).cpsr.c_condition_bit).0,
            *final(self) == maybe_c(
                *old(self),
                set_condition,
                lsl_spec(value, rot, old(self).cpsr.c_condition_bit).1,
            ),
    {
        self.apply_shift(ShiftType::LSL, value, rot, set_condition)
    }

    /// Logical shift right (0 meaning 32); the carry out goes to C when `set_condition`.
    pub fn LSR(&mut self, value: u32, rot: u8, set_condition: bool) -> (r: u32)
        ensures
            r == lsr_spec(value, rot, old(self).cpsr.c_condition_bit).0,
            *final(self) == maybe_c(
                *old(self),
                set_condition,
                lsr_spec(value, rot, old(self).cpsr.c_condition_bit).1,
            ),
    {
        self.apply_shift(ShiftType::LSR, value, rot, set_condition)
    }

    /// Arithmetic shift right (0 meaning 32); the carry out goes to C when `set_condition`.
    pub fn ASR(&mut self, value: u32, rot: u8, set_condition: bool) -> (r: u32)
        ensures
            r == asr_spec(value, rot, old(self).cpsr.c_condition_bit).0,
            *final(self) == maybe_c(
                *old(self),
                set_condition,
                asr_spec(value, rot, old(self).cpsr.c_condition_bit).1,
            ),
    {
        self.apply_shift(ShiftType::ASR, value, rot, set_condition)
    }

    /// Rotate right (0 meaning a one-place rotate through carry); the carry
    /// out goes to C when `set_condition`.
    pub fn ROR(&mut self, value: u32, rot: u8, set_condition: bool) -> (r: u32)
        ensures
            r == ror_spec(value, rot, old(self).cpsr.c_condition_bit).0,
            *final(self) == maybe_c(
                *old(self),
                set_condition,
                ror_spec(value, rot, old(self).cpsr.c_condition_bit).1,
            ),
    {
        self.apply_shift(ShiftType::ROR, value, rot, set_condition)
    }

    /// A shift by a register-held amount: an amount of 0 leaves value and C alone.
    pub fn shift_by_amount(&mut self, kind: ShiftType, value: u32, rot: u8, set_condition: bool) -> (r: u32)
        ensures
            r == reg_shift_spec(kind, value, rot, old(self).cpsr.c_condition_bit).0,
            *final(self) == maybe_c(
                *old(self),
                set_condition,
                reg_shift_spec(kind, value, rot, old(self).cpsr.c_condition_bit).1,
            ),
    {
        if rot == 0 {
            value
        } else {
            self.apply_shift(kind, value, rot, set_condition)
        }
    }

    /// The shifted-register operand of a data-processing or transfer
    /// instruction; its carry out goes to C when `s`.
    pub fn shift_by_reg(&mut self, inst: u32, s: bool) -> (r: u32)
        ensures
            r == shifted_operand(*old(self), inst).0,
            *final(self) == maybe_c(*old(self), s, shifted_operand(*old(self), inst).1),
    {
        reveal(shifted_operand);
        proof {
            lemma_mask_bounds(inst >> 5u32);
        }
        let rm = reg_at(inst, 0);
        let kind = ShiftType::from_bits((inst >> 5u32) & 3);
        if bit(inst, 4) {
            let rs = reg_at(inst, 8);
            let amount = (self.reg[rs] & 0xff) as u8;
            let val = if rm == PC_INDEX {
                self.reg[rm].wrapping_add(4)
            } else {
                self.reg[rm]
            };
            self.shift_by_amount(kind, val, amount, s)
        } else {
            let amount = ((inst >> 7u32) & 0x1f) as u8;
            let val = self.reg[rm];
            self.apply_shift(kind, val, amount, s)
        }
    }

    /// The rotated-immediate operand (8-bit value, 4-bit half rotation);
    /// its carry out goes to C when `s`.
    pub fn rotated_immediate(&mut self, op: u32, s: bool) -> (r: u32)
        ensures
            r == rotated_imm(*old(self), op).0,
            *final(self) == maybe_c(*old(self), s, rotated_imm(*old(self), op).1),
    {
        reveal(rotated_imm);
        proof {
            lemma_mask_bounds(op >> 8u32);
        }
        let imm = op & 0xff;
        let rot = (2 * ((op >> 8u32) & 0xf)) as u8;
        if rot == 0 {
            if s {
                self.cpsr.c_condition_bit = bit(imm, 31);
            }
            imm
        } else {
            self.ROR(imm, rot, s)
        }
    }
}

} // verus!
