//! The narrow (16-bit) instruction encoding: its nineteen formats, each a
//! projection onto the shared primitives of the wide encoding.
use vstd::prelude::*;

use crate::alu::{
    add_exec, barrel_shift, sub_exec,
    add_carry, add_overflow, cond_holds, reg_shift_spec, shift_kind, shift_spec, sub_carry,
    sub_overflow, with_c, with_cv, with_nz, with_psr, ShiftType,
};
use crate::arm::{block_transfer_effect, half_transfer_effect, regs_now, single_transfer_effect};
use crate::bits::{bit, bit_set, lemma_mask_bounds, wadd, wsub};
use crate::bus::{read_word, word_in, Bus};
use crate::cpu::{jumped, redirected, CPU, LR_INDEX, PC_INDEX, SP_INDEX};
use crate::exception::{trapped, Exception};
use crate::psr::{flag, ProgramStatusRegister};

verus! {

/// The formats of the narrow encoding.
#[derive(Clone, Copy, PartialEq, Eq, Structural, Debug)]
pub enum ThumbClass {
    MoveShifted,
    AddSubtract,
    Immediate,
    AluOperation,
    HiRegister,
    PcRelativeLoad,
    RegisterOffset,
    SignExtended,
    ImmediateOffset,
    HalfwordOffset,
    SpRelative,
    LoadAddress,
    AdjustSp,
    PushPop,
    MultipleTransfer,
    SoftwareInterrupt,
    ConditionalBranch,
    Branch,
    LongBranchLink,
    Undefined,
}

/// The format of a narrow instruction: the first matching pattern wins.
pub open spec fn thumb_class(x: u32) -> ThumbClass {
    if x & 0xf800 == 0x1800 {
        ThumbClass::AddSubtract
    } else if x & 0xe000 == 0x0000 {
        ThumbClass::MoveShifted
    } else if x & 0xe000 == 0x2000 {
        ThumbClass::Immediate
    } else if x & 0xfc00 == 0x4000 {
        ThumbClass::AluOperation
    } else if x & 0xfc00 == 0x4400 {
        ThumbClass::HiRegister
    } else if x & 0xf800 == 0x4800 {
        ThumbClass::PcRelativeLoad
    } else if x & 0xf200 == 0x5000 {
        ThumbClass::RegisterOffset
    } else if x & 0xf200 == 0x5200 {
        ThumbClass::SignExtended
    } else if x & 0xe000 == 0x6000 {
        ThumbClass::ImmediateOffset
    } else if x & 0xf000 == 0x8000 {
        ThumbClass::HalfwordOffset
    } else if x & 0xf000 == 0x9000 {
        ThumbClass::SpRelative
    } else if x & 0xf000 == 0xa000 {
        ThumbClass::LoadAddress
    } else if x & 0xff00 == 0xb000 {
        ThumbClass::AdjustSp
    } else if x & 0xf600 == 0xb400 {
        ThumbClass::PushPop
    } else if x & 0xf000 == 0xc000 {
        ThumbClass::MultipleTransfer
    } else if x & 0xff00 == 0xdf00 {
        ThumbClass::SoftwareInterrupt
    } else if x & 0xf000 == 0xd000 {
        ThumbClass::ConditionalBranch
    } else if x & 0xf800 == 0xe000 {
        ThumbClass::Branch
    } else if x & 0xf000 == 0xf000 {
        ThumbClass::LongBranchLink
    } else {
        ThumbClass::Undefined
    }
}

/// Decodes the format of a narrow instruction.
pub fn thumb_decode_class(x: u32) -> (r: ThumbClass)
    ensures
        r == thumb_class(x),
{
    if x & 0xf800 == 0x1800 {
        ThumbClass::AddSubtract
    } else if x & 0xe000 == 0x0000 {
        ThumbClass::MoveShifted
    } else if x & 0xe000 == 0x2000 {
        ThumbClass::Immediate
    } else if x & 0xfc00 == 0x4000 {
        ThumbClass::AluOperation
    } else if x & 0xfc00 == 0x4400 {
        ThumbClass::HiRegister
    } else if x & 0xf800 == 0x4800 {
        ThumbClass::PcRelativeLoad
    } else if x & 0xf200 == 0x5000 {
        ThumbClass::RegisterOffset
    } else if x & 0xf200 == 0x5200 {
        ThumbClass::SignExtended
    } else if x & 0xe000 == 0x6000 {
        ThumbClass::ImmediateOffset
    } else if x & 0xf000 == 0x8000 {
        ThumbClass::HalfwordOffset
    } else if x & 0xf000 == 0x9000 {
        ThumbClass::SpRelative
    } else if x & 0xf000 == 0xa000 {
        ThumbClass::LoadAddress
    } else if x & 0xff00 == 0xb000 {
        ThumbClass::AdjustSp
    } else if x & 0xf600 == 0xb400 {
        ThumbClass::PushPop
    } else if x & 0xf000 == 0xc000 {
        ThumbClass::MultipleTransfer
    } else if x & 0xff00 == 0xdf00 {
        ThumbClass::SoftwareInterrupt
    } else if x & 0xf000 == 0xd000 {
        ThumbClass::ConditionalBranch
    } else if x & 0xf800 == 0xe000 {
        ThumbClass::Branch
    } else if x & 0xf000 == 0xf000 {
        ThumbClass::LongBranchLink
    } else {
        ThumbClass::Undefined
    }
}

/// `p` with N and Z set from `r`.
pub open spec fn nz_of(p: ProgramStatusRegister, r: u32) -> ProgramStatusRegister {
    with_nz(p, bit_set(r, 31), r == 0)
}

/// Result and C/V flags of a register-to-register ALU operation of the
/// narrow encoding on `a` (Rd) and `b` (Rs); shifts by a register amount
/// of 0 leave value and carry alone.
pub open spec fn thumb_alu_core(p: ProgramStatusRegister, opcode: u32, a: u32, b: u32) -> (u32, ProgramStatusRegister) {
    let c = p.c_condition_bit;
    if opcode == 0 || opcode == 8 {
        (a & b, p)
    } else if opcode == 1 {
        (a ^ b, p)
    } else if opcode == 2 || opcode == 3 || opcode == 4 || opcode == 7 {
        let kind = if opcode == 2 {
            ShiftType::LSL
        } else if opcode == 3 {
            ShiftType::LSR
        } else if opcode == 4 {
            ShiftType::ASR
        } else {
            ShiftType::ROR
        };
        let t = reg_shift_spec(kind, a, (b & 0xff) as u8, c);
        (t.0, with_c(p, t.1))
    } else if opcode == 5 {
        (wadd(wadd(a, b), flag(c)), with_cv(p, add_carry(a, b, c), add_overflow(a, b, c)))
    } else if opcode == 6 {
        (wsub(wsub(a, b), (1 - flag(c)) as u32), with_cv(p, sub_carry(a, b, c), sub_overflow(a, b, c)))
    } else if opcode == 9 {
        (wsub(0, b), with_cv(p, sub_carry(0, b, true), sub_overflow(0, b, true)))
    } else if opcode == 10 {
        (wsub(a, b), with_cv(p, sub_carry(a, b, true), sub_overflow(a, b, true)))
    } else if opcode == 11 {
        (wadd(a, b), with_cv(p, add_carry(a, b, false), add_overflow(a, b, false)))
    } else if opcode == 12 {
        (a | b, p)
    } else if opcode == 13 {
        (vstd::wrapping::u32_specs::wrapping_mul(a, b), p)
    } else if opcode == 14 {
        (a & !b, p)
    } else {
        (!b, p)
    }
}

/// The same operation with N and Z set from the result.
pub open spec fn thumb_alu(p: ProgramStatusRegister, opcode: u32, a: u32, b: u32) -> (u32, ProgramStatusRegister) {
    let t = thumb_alu_core(p, opcode, a, b);
    (t.0, nz_of(t.1, t.0))
}

/// Sign-extended 8-bit offset times 2.
pub open spec fn cond_branch_offset(imm8: u32) -> u32 {
    ((((imm8 as u8) as i8) as i32) * 2) as u32
}

/// Sign-extended 11-bit offset times 2.
pub open spec fn branch11_offset(imm11: u32) -> u32 {
    (((imm11 << 21u32) as i32) >> 20i32) as u32
}

/// Sign-extended 11-bit offset times 4096: the high half of a long branch.
pub open spec fn long_high_offset(imm11: u32) -> u32 {
    (((imm11 << 21u32) as i32) >> 9i32) as u32
}

fn thumb_alu_core_exec(p: ProgramStatusRegister, opcode: u32, a: u32, b: u32) -> (r: (u32, ProgramStatusRegister))
    ensures
        r == thumb_alu_core(p, opcode, a, b),
{
    let c = p.c_condition_bit;
    proof {
        lemma_mask_bounds(b);
    }
    let amount = (b & 0xff) as u8;
    if opcode == 0 || opcode == 8 {
        (a & b, p)
    } else if opcode == 1 {
        (a ^ b, p)
    } else if opcode == 2 || opcode == 3 || opcode == 4 || opcode == 7 {
        let kind = if opcode == 2 {
            ShiftType::LSL
        } else if opcode == 3 {
            ShiftType::LSR
        } else if opcode == 4 {
            ShiftType::ASR
        } else {
            ShiftType::ROR
        };
        if amount == 0 {
            (a, p)
        } else {
            let (r, co) = barrel_shift(kind, a, amount, c);
            (r, ProgramStatusRegister { c_condition_bit: co, ..p })
        }
    } else if opcode == 5 {
        let (r, co, vo) = add_exec(a, b, c);
        (r, ProgramStatusRegister { c_condition_bit: co, v_condition_bit: vo, ..p })
    } else if opcode == 6 {
        let (r, co, vo) = sub_exec(a, b, c);
        (r, ProgramStatusRegister { c_condition_bit: co, v_condition_bit: vo, ..p })
    } else if opcode == 9 {
        let (r, co, vo) = sub_exec(0, b, true);
        (r, ProgramStatusRegister { c_condition_bit: co, v_condition_bit: vo, ..p })
    } else if opcode == 10 {
        let (r, co, vo) = sub_exec(a, b, true);
        (r, ProgramStatusRegister { c_condition_bit: co, v_condition_bit: vo, ..p })
    } else if opcode == 11 {
        let (r, co, vo) = add_exec(a, b, false);
        (r, ProgramStatusRegister { c_condition_bit: co, v_condition_bit: vo, ..p })
    } else if opcode == 12 {
        (a | b, p)
    } else if opcode == 13 {
        (a.wrapping_mul(b), p)
    } else if opcode == 14 {
        (a & !b, p)
    } else {
        (!b, p)
    }
}

fn thumb_alu_exec(p: ProgramStatusRegister, opcode: u32, a: u32, b: u32) -> (r: (u32, ProgramStatusRegister))
    ensures
        r == thumb_alu(p, opcode, a, b),
{
    let (res, q) = thumb_alu_core_exec(p, opcode, a, b);
    (res, ProgramStatusRegister { n_condition_bit: bit(res, 31), z_condition_bit: res == 0, ..q })
}

/// Move shifted register.
pub open spec fn move_shifted_effect(c: CPU, post: CPU, op: u32, offset: u32, rs: int, rd: int) -> bool {
    let (r, co) = shift_spec(shift_kind(op), c.reg[rs], offset as u8, c.cpsr.c_condition_bit);
    regs_now(with_psr(c, nz_of(with_c(c.cpsr, co), r)), post, c.reg@.update(rd, r))
}

/// Add or subtract.
pub open spec fn add_subtract_effect(c: CPU, post: CPU, i: bool, sub: bool, offset: int, rs: int, rd: int) -> bool {
    let a = c.reg[rs];
    let b = if i {
        offset as u32
    } else {
        c.reg[offset]
    };
    let (r, p) = if sub {
        (wsub(a, b), with_cv(c.cpsr, sub_carry(a, b, true), sub_overflow(a, b, true)))
    } else {
        (wadd(a, b), with_cv(c.cpsr, add_carry(a, b, false), add_overflow(a, b, false)))
    };
    regs_now(with_psr(c, nz_of(p, r)), post, c.reg@.update(rd, r))
}

/// Move, compare, add or subtract an immediate.
pub open spec fn immediate_effect(c: CPU, post: CPU, op: u32, rd: int, offset: u32) -> bool {
    let a = c.reg[rd];
    let (r, p) = if op == 0 {
        (offset, c.cpsr)
    } else if op == 2 {
        (wadd(a, offset), with_cv(c.cpsr, add_carry(a, offset, false), add_overflow(a, offset, false)))
    } else {
        (wsub(a, offset), with_cv(c.cpsr, sub_carry(a, offset, true), sub_overflow(a, offset, true)))
    };
    regs_now(
        with_psr(c, nz_of(p, r)),
        post,
        if op == 1 {
            c.reg@
        } else {
            c.reg@.update(rd, r)
        },
    )
}

/// Register ALU operation.
pub open spec fn alu_effect(c: CPU, post: CPU, opcode: u32, rs: int, rd: int) -> bool {
    let (r, p) = thumb_alu(c.cpsr, opcode, c.reg[rd], c.reg[rs]);
    regs_now(
        with_psr(c, p),
        post,
        if opcode == 8 || opcode == 10 || opcode == 11 {
            c.reg@
        } else {
            c.reg@.update(rd, r)
        },
    )
}

/// High-register operation or branch and exchange.
pub open spec fn hi_register_effect<B: Bus>(c: CPU, post: CPU, op: u32, h1: bool, h2: bool, rs: int, rd: int, bs: B::State) -> bool {
    let s = if h2 {
        rs + 8
    } else {
        rs
    };
    let d = if h1 {
        rd + 8
    } else {
        rd
    };
    let a = c.reg[d];
    let b = c.reg[s];
    if op == 1 {
        post == with_psr(
            c,
            nz_of(with_cv(c.cpsr, sub_carry(a, b, true), sub_overflow(a, b, true)), wsub(a, b)),
        )
    } else if op == 3 {
        redirected::<B>(
            CPU {
                cpsr: ProgramStatusRegister {
                    operating_state: if b & 1 == 0 {
                        crate::psr::OperatingState::ARM
                    } else {
                        crate::psr::OperatingState::THUMB
                    },
                    ..c.cpsr
                },
                ..c
            },
            post,
            b,
            bs,
        )
    } else {
        let r = if op == 0 {
            wadd(a, b)
        } else {
            b
        };
        if d == 15 {
            redirected::<B>(c, post, r, bs)
        } else {
            regs_now(c, post, c.reg@.update(d, r))
        }
    }
}

/// PC-relative load.
pub open spec fn pc_load_effect<B: Bus>(c: CPU, post: CPU, rd: int, offset: u32, s: B::State) -> bool {
    regs_now(
        c,
        post,
        c.reg@.update(
            rd,
            word_in::<B>(s, wadd(c.reg[15] & !2u32, (offset * 4) as u32)),
        ),
    )
}

/// Load address.
pub open spec fn load_address_effect(c: CPU, post: CPU, sp: bool, rd: int, offset: u32) -> bool {
    regs_now(
        c,
        post,
        c.reg@.update(
            rd,
            wadd(
                if sp {
                    c.reg[13]
                } else {
                    c.reg[15] & !2u32
                },
                (offset * 4) as u32,
            ),
        ),
    )
}

/// Adjust SP.
pub open spec fn adjust_sp_effect(c: CPU, post: CPU, s: bool, offset: u32) -> bool {
    regs_now(
        c,
        post,
        c.reg@.update(
            13,
            if s {
                wsub(c.reg[13], (offset * 4) as u32)
            } else {
                wadd(c.reg[13], (offset * 4) as u32)
            },
        ),
    )
}

/// Conditional branch.
pub open spec fn cond_branch_effect<B: Bus>(c: CPU, post: CPU, cond: u32, offset: u32, s: B::State) -> bool {
    if cond_holds(cond, c.cpsr) {
        redirected::<B>(
            c,
            post,
            wadd(c.reg[15], cond_branch_offset(offset)),
            s,
        )
    } else {
        post == c
    }
}

/// One half of a long branch with link.
pub open spec fn long_branch_effect<B: Bus>(c: CPU, post: CPU, hi: bool, offset: u32, s: B::State) -> bool {
    if hi {
        jumped::<B>(
            c,
            c.reg@.update(14, wsub(c.reg[15], 2) | 1),
            post,
            wadd(c.reg[14], (offset * 2) as u32),
            s,
        )
    } else {
        regs_now(
            c,
            post,
            c.reg@.update(14, wadd(c.reg[15], long_high_offset(offset))),
        )
    }
}

/// Processor and bus (`s0` before, `s1` after) after executing the narrow
/// instruction `x`, by its format; the transfer formats act as the wide
/// transfers they project onto.
pub open spec fn thumb_effect<B: Bus>(c: CPU, post: CPU, s0: B::State, s1: B::State, x: u32) -> bool {
    let same_bus = s1 == s0;
    let r0 = (x & 7) as int;
    let r3 = ((x >> 3u32) & 7) as int;
    let r6 = ((x >> 6u32) & 7) as int;
    let r8 = ((x >> 8u32) & 7) as int;
    let off5 = (x >> 6u32) & 0x1f;
    match thumb_class(x) {
        ThumbClass::AddSubtract => same_bus && add_subtract_effect(
            c,
            post,
            bit_set(x, 10),
            bit_set(x, 9),
            r6,
            r3,
            r0,
        ),
        ThumbClass::MoveShifted => same_bus && move_shifted_effect(c, post, (x >> 11u32) & 3, off5, r3, r0),
        ThumbClass::Immediate => same_bus && immediate_effect(c, post, (x >> 11u32) & 3, r8, x & 0xff),
        ThumbClass::AluOperation => same_bus && alu_effect(c, post, (x >> 6u32) & 0xf, r3, r0),
        ThumbClass::HiRegister => same_bus && hi_register_effect::<B>(
            c,
            post,
            (x >> 8u32) & 3,
            bit_set(x, 7),
            bit_set(x, 6),
            r3,
            r0,
            s0,
        ),
        ThumbClass::PcRelativeLoad => same_bus && pc_load_effect::<B>(c, post, r8, x & 0xff, s0),
        ThumbClass::RegisterOffset => single_transfer_effect::<B>(
            c,
            post,
            s0,
            s1,
            bit_set(x, 11),
            false,
            true,
            true,
            bit_set(x, 10),
            false,
            r3,
            r0,
            c.reg[r6],
        ),
        ThumbClass::SignExtended => half_transfer_effect::<B>(
            c,
            post,
            s0,
            s1,
            true,
            true,
            false,
            false,
            bit_set(x, 11) || bit_set(x, 10),
            r3,
            r0,
            0,
            bit_set(x, 10),
            bit_set(x, 11),
            r6 as u32,
        ),
        ThumbClass::ImmediateOffset => single_transfer_effect::<B>(
            c,
            post,
            s0,
            s1,
            bit_set(x, 11),
            false,
            true,
            true,
            bit_set(x, 12),
            false,
            r3,
            r0,
            if bit_set(x, 12) {
                off5
            } else {
                (off5 * 4) as u32
            },
        ),
        ThumbClass::HalfwordOffset => half_transfer_effect::<B>(
            c,
            post,
            s0,
            s1,
            true,
            true,
            true,
            false,
            bit_set(x, 11),
            r3,
            r0,
            (((off5 * 2) as u32) >> 4u32) & 0xf,
            false,
            true,
            ((off5 * 2) as u32) & 0xf,
        ),
        ThumbClass::SpRelative => single_transfer_effect::<B>(
            c,
            post,
            s0,
            s1,
            bit_set(x, 11),
            false,
            true,
            true,
            false,
            false,
            13,
            r8,
            ((x & 0xff) * 4) as u32,
        ),
        ThumbClass::LoadAddress => same_bus && load_address_effect(c, post, bit_set(x, 11), r8, x & 0xff),
        ThumbClass::AdjustSp => same_bus && adjust_sp_effect(c, post, bit_set(x, 7), x & 0x7f),
        ThumbClass::PushPop => block_transfer_effect::<B>(
            c,
            post,
            s0,
            s1,
            bit_set(x, 11),
            !bit_set(x, 11),
            bit_set(x, 11),
            true,
            13,
            (x & 0xff) | if bit_set(x, 8) {
                if bit_set(x, 11) {
                    0x8000u32
                } else {
                    0x4000u32
                }
            } else {
                0u32
            },
        ),
        ThumbClass::MultipleTransfer => block_transfer_effect::<B>(
            c,
            post,
            s0,
            s1,
            bit_set(x, 11),
            false,
            true,
            true,
            r8,
            x & 0xff,
        ),
        ThumbClass::SoftwareInterrupt => same_bus && trapped::<B>(
            c,
            post,
            Exception::SoftwareInterrupt,
            wsub(c.reg[15], 2),
            s0,
        ),
        ThumbClass::ConditionalBranch => same_bus && cond_branch_effect::<B>(
            c,
            post,
            (x >> 8u32) & 0xf,
            x & 0xff,
            s0,
        ),
        ThumbClass::Branch => same_bus && redirected::<B>(
            c,
            post,
            wadd(c.reg[15], branch11_offset(x & 0x7ff)),
            s0,
        ),
        ThumbClass::LongBranchLink => same_bus && long_branch_effect::<B>(c, post, bit_set(x, 11), x & 0x7ff, s0),
        ThumbClass::Undefined => same_bus && trapped::<B>(
            c,
            post,
            Exception::Undefined,
            wsub(c.reg[15], 2),
            s0,
        ),
    }
}

impl CPU {
    /// Move shifted register: Rd takes Rs shifted by a 5-bit amount; C, N and Z are set.
    pub fn thumb_format1(&mut self, op: u32, offset: u32, rs: usize, rd: usize)
        requires
            op < 3,
            offset < 32,
            rs < 16,
            rd < 16,
        ensures
            move_shifted_effect(*old(self), *final(self), op, offset, rs as int, rd as int),

    {
        let v = self.reg[rs];
        let res = if op == 0 {
            self.LSL(v, offset as u8, true)
        } else if op == 1 {
            self.LSR(v, offset as u8, true)
        } else {
            self.ASR(v, offset as u8, true)
        };
        self.reg[rd] = res;
        self.set_NZ(res);
    }

    /// Add or subtract a register or a 3-bit immediate; all flags are set.
    pub fn thumb_format2(&mut self, i: bool, sub: bool, offset: usize, rs: usize, rd: usize)
        requires
            offset < 16,
            rs < 16,
            rd < 16,
        ensures
            add_subtract_effect(*old(self), *final(self), i, sub, offset as int, rs as int, rd as int),

    {
        let a = self.reg[rs];
        let b = if i {
            offset as u32
        } else {
            self.reg[offset]
        };
        let res = if sub {
            self.SUB(a, b, true)
        } else {
            self.ADD(a, b, true)
        };
        self.reg[rd] = res;
        self.set_NZ(res);
    }

    /// MOV, CMP, ADD or SUB with an 8-bit immediate; CMP writes no register
    /// and MOV sets only N and Z.
    pub fn thumb_format3(&mut self, op: u32, rd: usize, offset: u32)
        requires
            op < 4,
            rd < 16,
            offset < 256,
        ensures
            immediate_effect(*old(self), *final(self), op, rd as int, offset),

    {
        let a = self.reg[rd];
        let res = if op == 0 {
            offset
        } else if op == 2 {
            self.ADD(a, offset, true)
        } else {
            self.SUB(a, offset, true)
        };
        if op != 1 {
            self.reg[rd] = res;
        }
        self.set_NZ(res);
    }

    /// Register ALU operations; TST, CMP and CMN write no register.
    pub fn thumb_format4(&mut self, opcode: u32, rs: usize, rd: usize)
        requires
            opcode < 16,
            rs < 16,
            rd < 16,
        ensures
            alu_effect(*old(self), *final(self), opcode, rs as int, rd as int),

    {
        let (res, p) = thumb_alu_exec(self.cpsr, opcode, self.reg[rd], self.reg[rs]);
        self.cpsr = p;
        if !(opcode == 8 || opcode == 10 || opcode == 11) {
            self.reg[rd] = res;
        }
    }

    /// Operations on the high registers: ADD and MOV (no flags), CMP, and BX.
    /// A write to PC flushes.
    pub fn thumb_format5<B: Bus>(&mut self, bus: &B, op: u32, h1: bool, h2: bool, rs: usize, rd: usize)
        requires
            bus.wf(),
            op < 4,
            rs < 8,
            rd < 8,
        ensures
            hi_register_effect::<B>(*old(self), *final(self), op, h1, h2, rs as int, rd as int, bus.state()),

    {
        let rs = if h2 {
            rs + 8
        } else {
            rs
        };
        let rd = if h1 {
            rd + 8
        } else {
            rd
        };
        if op == 1 {
            let a = self.reg[rd];
            let b = self.reg[rs];
            let res = self.SUB(a, b, true);
            self.set_NZ(res);
        } else if op == 3 {
            self.arm_BX(bus, rs);
        } else {
            let res = if op == 0 {
                self.reg[rd].wrapping_add(self.reg[rs])
            } else {
                self.reg[rs]
            };
            if rd == PC_INDEX {
                self.branch_to(bus, res);
            } else {
                self.reg[rd] = res;
            }
        }
    }

    /// PC-relative load: Rd takes the word at (PC with bit 1 clear) + 4 * imm.
    pub fn thumb_format6<B: Bus>(&mut self, bus: &B, rd: usize, offset: u32)
        requires
            bus.wf(),
            rd < 8,
            offset < 256,
        ensures
            pc_load_effect::<B>(*old(self), *final(self), rd as int, offset, bus.state()),

    {
        let addr = (self.reg[PC_INDEX] & !2u32).wrapping_add((offset * 4) as u32);
        self.reg[rd] = read_word(bus, addr);
    }

    /// Load address: Rd takes SP, or PC with bit 1 clear, plus 4 * imm.
    pub fn thumb_format12(&mut self, sp: bool, rd: usize, offset: u32)
        requires
            rd < 8,
            offset < 256,
        ensures
            load_address_effect(*old(self), *final(self), sp, rd as int, offset),

    {
        let base = if sp {
            self.reg[SP_INDEX]
        } else {
            self.reg[PC_INDEX] & !2u32
        };
        self.reg[rd] = base.wrapping_add((offset * 4) as u32);
    }

    /// Adjust SP by plus or minus 4 * imm.
    pub fn thumb_format13(&mut self, s: bool, offset: u32)
        requires
            offset < 128,
        ensures
            adjust_sp_effect(*old(self), *final(self), s, offset),

    {
        let sp = self.reg[SP_INDEX];
        self.reg[SP_INDEX] = if s {
            sp.wrapping_sub((offset * 4) as u32)
        } else {
            sp.wrapping_add((offset * 4) as u32)
        };
    }

    /// Conditional branch by a sign-extended 8-bit offset times 2.
    pub fn thumb_format16<B: Bus>(&mut self, bus: &B, cond: u32, offset: u32)
        requires
            bus.wf(),
            offset < 256,
        ensures
            cond_branch_effect::<B>(*old(self), *final(self), cond, offset, bus.state()),

    {
        if !self.condition_check(cond) {
            return;
        }
        let off = ((((offset as u8) as i8) as i32) * 2) as u32;
        let target = self.reg[PC_INDEX].wrapping_add(off);
        self.branch_to(bus, target);
    }

    /// Unconditional branch by a sign-extended 11-bit offset times 2.
    pub fn thumb_format18<B: Bus>(&mut self, bus: &B, offset: u32)
        requires
            bus.wf(),
        ensures
            redirected::<B>(
                *old(self),
                *final(self),
                wadd(old(self).reg[15], branch11_offset(offset)),
                bus.state(),
            ),
    {
        let off = (((offset << 21u32) as i32) >> 20i32) as u32;
        let target = self.reg[PC_INDEX].wrapping_add(off);
        self.branch_to(bus, target);
    }

    /// Long branch with link. The high half sets LR to PC plus the offset
    /// times 4096; the low half jumps to LR plus the offset times 2 and leaves
    /// in LR the address of the next instruction with bit 0 set.
    pub fn thumb_format19<B: Bus>(&mut self, bus: &B, hi: bool, offset: u32)
        requires
            bus.wf(),
            offset < 0x800,
        ensures
            long_branch_effect::<B>(*old(self), *final(self), hi, offset, bus.state()),

    {
        if hi {
            let target = self.reg[LR_INDEX].wrapping_add(offset * 2);
            self.reg[LR_INDEX] = self.reg[PC_INDEX].wrapping_sub(2) | 1;
            let ghost mid = *self;
            self.branch_to(bus, target);
            assert(mid.reg@ =~= old(self).reg@.update(14, wsub(old(self).reg[15], 2) | 1));
        } else {
            let off = (((offset << 21u32) as i32) >> 9i32) as u32;
            self.reg[LR_INDEX] = self.reg[PC_INDEX].wrapping_add(off);
        }
    }

    /// Executes one narrow instruction by its format.
    pub fn thumb_opcodes<B: Bus>(&mut self, bus: &mut B, inst: u16)
        requires
            old(bus).wf(),
        ensures
            final(bus).wf(),
            thumb_effect::<B>(*old(self), *final(self), old(bus).state(), final(bus).state(), inst as u32),
    {
        let x = inst as u32;
        proof {
            lemma_mask_bounds(x);
            lemma_mask_bounds(x >> 3u32);
            lemma_mask_bounds(x >> 6u32);
            lemma_mask_bounds(x >> 8u32);
            lemma_mask_bounds(x >> 11u32);
            assert(x <= 0xffff);
            assert((x >> 3u32) & 7 < 8 && (x >> 6u32) & 7 < 8 && (x >> 8u32) & 7 < 8 && x & 7 < 8);
        }
        let r0 = (x & 7) as usize;
        let r3 = ((x >> 3u32) & 7) as usize;
        let r6 = ((x >> 6u32) & 7) as usize;
        let r8 = ((x >> 8u32) & 7) as usize;
        match thumb_decode_class(x) {
            ThumbClass::AddSubtract => self.thumb_format2(bit(x, 10), bit(x, 9), r6, r3, r0),
            ThumbClass::MoveShifted => {
                assert(x & 0xe000 == 0 ==> (x >> 11u32) & 3 < 3) by (bit_vector)
                    requires
                        x & 0xf800 != 0x1800,
                ;
                self.thumb_format1((x >> 11u32) & 3, (x >> 6u32) & 0x1f, r3, r0)
            },
            ThumbClass::Immediate => self.thumb_format3((x >> 11u32) & 3, r8, x & 0xff),
            ThumbClass::AluOperation => self.thumb_format4((x >> 6u32) & 0xf, r3, r0),
            ThumbClass::HiRegister => self.thumb_format5(
                bus,
                (x >> 8u32) & 3,
                bit(x, 7),
                bit(x, 6),
                r3,
                r0,
            ),
            ThumbClass::PcRelativeLoad => self.thumb_format6(bus, r8, x & 0xff),
            ThumbClass::RegisterOffset => {
                let off = self.reg[r6];
                self.arm_LDR_STR(bus, bit(x, 11), false, true, true, bit(x, 10), false, r3, r0, off)
            },
            ThumbClass::SignExtended => {
                let h = bit(x, 11);
                let s = bit(x, 10);
                self.arm_LDRH_LDRSB_LDRSH_STRH(
                    bus,
                    true,
                    true,
                    false,
                    false,
                    h || s,
                    r3,
                    r0,
                    0,
                    s,
                    h,
                    r6 as u32,
                )
            },
            ThumbClass::ImmediateOffset => {
                let b = bit(x, 12);
                let off5 = (x >> 6u32) & 0x1f;
                let off = if b {
                    off5
                } else {
                    off5 * 4
                };
                self.arm_LDR_STR(bus, bit(x, 11), false, true, true, b, false, r3, r0, off)
            },
            ThumbClass::HalfwordOffset => {
                let off = ((x >> 6u32) & 0x1f) * 2;
                assert(off < 64);
                assert((off >> 4u32) & 0xf < 16 && off & 0xf < 16) by (bit_vector);
                self.arm_LDRH_LDRSB_LDRSH_STRH(
                    bus,
                    true,
                    true,
                    true,
                    false,
                    bit(x, 11),
                    r3,
                    r0,
                    (off >> 4u32) & 0xf,
                    false,
                    true,
                    off & 0xf,
                )
            },
            ThumbClass::SpRelative => self.arm_LDR_STR(
                bus,
                bit(x, 11),
                false,
                true,
                true,
                false,
                false,
                SP_INDEX,
                r8,
                (x & 0xff) * 4,
            ),
            ThumbClass::LoadAddress => self.thumb_format12(bit(x, 11), r8, x & 0xff),
            ThumbClass::AdjustSp => {
                assert(x & 0x7f < 128) by (bit_vector);
                self.thumb_format13(bit(x, 7), x & 0x7f)
            },
            ThumbClass::PushPop => {
                let l = bit(x, 11);
                let extra: u32 = if bit(x, 8) {
                    if l {
                        0x8000
                    } else {
                        0x4000
                    }
                } else {
                    0
                };
                let list = (x & 0xff) | extra;
                assert(list <= 0xffff) by (bit_vector)
                    requires
                        list == (x & 0xff) | extra,
                        extra == 0 || extra == 0x8000 || extra == 0x4000,
                ;
                self.arm_LDM_STM(bus, l, !l, l, false, true, SP_INDEX, list)
            },
            ThumbClass::MultipleTransfer => self.arm_LDM_STM(
                bus,
                bit(x, 11),
                false,
                true,
                false,
                true,
                r8,
                x & 0xff,
            ),
            ThumbClass::SoftwareInterrupt => {
                let ret = self.reg[PC_INDEX].wrapping_sub(2);
                self.take_exception(bus, Exception::SoftwareInterrupt, ret);
            },
            ThumbClass::ConditionalBranch => self.thumb_format16(bus, (x >> 8u32) & 0xf, x & 0xff),
            ThumbClass::Branch => self.thumb_format18(bus, x & 0x7ff),
            ThumbClass::LongBranchLink => self.thumb_format19(bus, bit(x, 11), x & 0x7ff),
            ThumbClass::Undefined => {
                let ret = self.reg[PC_INDEX].wrapping_sub(2);
                self.take_exception(bus, Exception::Undefined, ret);
            },
        }
    }
}

} // verus!
