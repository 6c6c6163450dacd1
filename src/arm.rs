//! The wide (32-bit) instruction encoding: decoding and execution.
use vstd::prelude::*;

use crate::alu::{
    cond_holds,
    add_carry, add_exec, add_overflow, is_test, rotated_imm, shifted_operand, sub_carry, sub_exec,
    sub_overflow, with_c, with_cv, with_nz, with_psr,
};
use crate::bits::{bit, bit_set, count_low16, count_regs, lemma_mask_bounds, reg_at, reg_field, rotate_right, rotr, wadd, wsub};
use crate::bus::{
    hword_in, read_hword, read_word, store_hword, store_word, word_in, write_hword, write_word,
    Bus,
};
use crate::cpu::{jumped, redirected, same_status, CPU, LR_INDEX, PC_INDEX};
use crate::exception::{trapped, Exception};
use crate::psr::{flag, pack, unpack, OperatingMode, OperatingState, ProgramStatusRegister};

verus! {

/// The instruction classes of the wide encoding.
#[derive(Clone, Copy, PartialEq, Eq, Structural, Debug)]
pub enum ArmClass {
    BranchExchange,
    Branch,
    BranchLink,
    Multiply,
    MultiplyLong,
    StatusRead,
    StatusWrite,
    Undefined,
    BlockTransfer,
    Swap,
    HalfwordTransfer,
    DataProcessing,
    SingleTransfer,
    SoftwareInterrupt,
}

/// The class of a wide instruction: the first pattern of the ordered table
/// that matches bits 27..0 wins.
pub open spec fn arm_class(inst: u32) -> ArmClass {
    if inst & 0x0fff_fff0 == 0x012f_ff10 {
        ArmClass::BranchExchange
    } else if inst & 0x0f00_0000 == 0x0a00_0000 {
        ArmClass::Branch
    } else if inst & 0x0f00_0000 == 0x0b00_0000 {
        ArmClass::BranchLink
    } else if inst & 0x0fc0_00f0 == 0x0000_0090 {
        ArmClass::Multiply
    } else if inst & 0x0f80_00f0 == 0x0080_0090 {
        ArmClass::MultiplyLong
    } else if inst & 0x0fbf_0fff == 0x010f_0000 {
        ArmClass::StatusRead
    } else if inst & 0x0dbe_f000 == 0x0128_f000 {
        ArmClass::StatusWrite
    } else if inst & 0x0e00_0010 == 0x0600_0010 {
        ArmClass::Undefined
    } else if inst & 0x0e00_0000 == 0x0800_0000 {
        ArmClass::BlockTransfer
    } else if inst & 0x0fb0_0ff0 == 0x0100_0090 {
        ArmClass::Swap
    } else if inst & 0x0e00_0090 == 0x0000_0090 {
        ArmClass::HalfwordTransfer
    } else if inst & 0x0c00_0000 == 0x0000_0000 {
        ArmClass::DataProcessing
    } else if inst & 0x0c00_0000 == 0x0400_0000 {
        ArmClass::SingleTransfer
    } else if inst & 0x0f00_0000 == 0x0f00_0000 {
        ArmClass::SoftwareInterrupt
    } else {
        ArmClass::Undefined
    }
}

/// Decodes the class of a wide instruction.
pub fn arm_decode_class(inst: u32) -> (r: ArmClass)
    ensures
        r == arm_class(inst),
{
    if inst & 0x0fff_fff0 == 0x012f_ff10 {
        ArmClass::BranchExchange
    } else if inst & 0x0f00_0000 == 0x0a00_0000 {
        ArmClass::Branch
    } else if inst & 0x0f00_0000 == 0x0b00_0000 {
        ArmClass::BranchLink
    } else if inst & 0x0fc0_00f0 == 0x0000_0090 {
        ArmClass::Multiply
    } else if inst & 0x0f80_00f0 == 0x0080_0090 {
        ArmClass::MultiplyLong
    } else if inst & 0x0fbf_0fff == 0x010f_0000 {
        ArmClass::StatusRead
    } else if inst & 0x0dbe_f000 == 0x0128_f000 {
        ArmClass::StatusWrite
    } else if inst & 0x0e00_0010 == 0x0600_0010 {
        ArmClass::Undefined
    } else if inst & 0x0e00_0000 == 0x0800_0000 {
        ArmClass::BlockTransfer
    } else if inst & 0x0fb0_0ff0 == 0x0100_0090 {
        ArmClass::Swap
    } else if inst & 0x0e00_0090 == 0x0000_0090 {
        ArmClass::HalfwordTransfer
    } else if inst & 0x0c00_0000 == 0x0000_0000 {
        ArmClass::DataProcessing
    } else if inst & 0x0c00_0000 == 0x0400_0000 {
        ArmClass::SingleTransfer
    } else if inst & 0x0f00_0000 == 0x0f00_0000 {
        ArmClass::SoftwareInterrupt
    } else {
        ArmClass::Undefined
    }
}

/// The branch displacement of a 24-bit offset field: sign-extended, times 4.
pub open spec fn branch_offset(imm24: u32) -> u32 {
    (((imm24 << 8u32) as i32) >> 6i32) as u32
}

/// The word at `addr & !3` rotated right by 8 times the low two address bits.
pub open spec fn rotated_word<B: Bus>(s: B::State, addr: u32) -> u32 {
    rotr(word_in::<B>(s, addr), (8 * (addr & 3)) as u32)
}

/// `p` with the bits of `mask` taken from `bits`.
pub open spec fn merge(p: u32, bits: u32, mask: u32) -> u32 {
    (p & !mask) | (bits & mask)
}

/// The field mask of a status write: flags only, or flags and control byte.
pub open spec fn psr_mask(flags_only: bool) -> u32 {
    if flags_only {
        0xf000_0000
    } else {
        0xf000_00df
    }
}

/// `post` is `pre` with only the register file replaced by `regs`.
pub open spec fn regs_now(pre: CPU, post: CPU, regs: Seq<u32>) -> bool {
    &&& post.reg@ == regs
    &&& post.pipeline == pre.pipeline
    &&& same_status(pre, post)
}

/// The 64-bit product of a long multiply plus its accumulator.
pub open spec fn long_product(signed: bool, x: u32, y: u32, acc: u64) -> u64 {
    if signed {
        vstd::wrapping::u64_specs::wrapping_add(
            (((x as i32) as int) * ((y as i32) as int)) as u64,
            acc,
        )
    } else {
        vstd::wrapping::u64_specs::wrapping_add(((x as int) * (y as int)) as u64, acc)
    }
}

/// Arithmetic opcodes (SUB, RSB, ADD, ADC, SBC, RSC, CMP, CMN).
pub open spec fn is_arith(opcode: u32) -> bool {
    2 <= opcode <= 7 || opcode == 10 || opcode == 11
}

/// First operand: Rn, read 12 ahead for PC when the shift amount is a register.
pub open spec fn dp_operand1(c: CPU, i: bool, rn: int, op2f: u32) -> u32 {
    if rn == 15 && !i && bit_set(op2f, 4) {
        wadd(c.reg[15], 4)
    } else {
        c.reg[rn]
    }
}

/// Second operand and shifter carry out.
pub open spec fn dp_operand2(c: CPU, i: bool, op2f: u32) -> (u32, bool) {
    if i {
        rotated_imm(c, op2f)
    } else {
        shifted_operand(c, op2f)
    }
}

/// Result, carry and overflow of a data-processing opcode on `a` and `b`
/// with carry in `cin`; logical opcodes give carry `sc` and overflow `v`.
#[verifier::opaque]
pub open spec fn dp_alu(opcode: u32, a: u32, b: u32, cin: bool, sc: bool, v: bool) -> (u32, bool, bool) {
    if opcode == 0 || opcode == 8 {
        (a & b, sc, v)
    } else if opcode == 1 || opcode == 9 {
        (a ^ b, sc, v)
    } else if opcode == 2 || opcode == 10 {
        (wsub(a, b), sub_carry(a, b, true), sub_overflow(a, b, true))
    } else if opcode == 3 {
        (wsub(b, a), sub_carry(b, a, true), sub_overflow(b, a, true))
    } else if opcode == 4 || opcode == 11 {
        (wadd(a, b), add_carry(a, b, false), add_overflow(a, b, false))
    } else if opcode == 5 {
        (wadd(wadd(a, b), flag(cin)), add_carry(a, b, cin), add_overflow(a, b, cin))
    } else if opcode == 6 {
        (wsub(wsub(a, b), (1 - flag(cin)) as u32), sub_carry(a, b, cin), sub_overflow(a, b, cin))
    } else if opcode == 7 {
        (wsub(wsub(b, a), (1 - flag(cin)) as u32), sub_carry(b, a, cin), sub_overflow(b, a, cin))
    } else if opcode == 12 {
        (a | b, sc, v)
    } else if opcode == 13 {
        (b, sc, v)
    } else if opcode == 14 {
        (a & !b, sc, v)
    } else {
        (!b, sc, v)
    }
}

/// The flags after a data-processing instruction whose ALU gave result
/// `t.0`, carry `t.1` and overflow `t.2`, with shifter carry `csh` already
/// applied when flags update: logical opcodes take the shifter carry and
/// arithmetic ones the ALU carry and overflow when flags update (compares
/// always); N and Z follow the result when flags update and for every test.
pub open spec fn dp_flags(p: ProgramStatusRegister, opcode: u32, upd: bool, t: (u32, bool, bool), csh: bool) -> ProgramStatusRegister {
    let p1 = if is_arith(opcode) {
        if upd || opcode == 10 || opcode == 11 {
            with_cv(p, t.1, t.2)
        } else {
            p
        }
    } else {
        with_c(p, csh)
    };
    if upd || (8 <= opcode <= 11) {
        with_nz(p1, bit_set(t.0, 31), t.0 == 0)
    } else {
        p1
    }
}

/// The shifter carry as it stands after operand 2 is formed: updated only
/// when S is set and Rd is not PC.
pub open spec fn dp_shift_carry(c: CPU, i: bool, s: bool, rd: int, op2f: u32) -> bool {
    if s && rd != 15 {
        dp_operand2(c, i, op2f).1
    } else {
        c.cpsr.c_condition_bit
    }
}

/// Result, carry and overflow of the ALU for a data-processing instruction.
pub open spec fn dp_outcome(c: CPU, i: bool, opcode: u32, s: bool, rn: int, rd: int, op2f: u32) -> (u32, bool, bool) {
    dp_alu(
        opcode,
        dp_operand1(c, i, rn, op2f),
        dp_operand2(c, i, op2f).0,
        c.cpsr.c_condition_bit,
        dp_shift_carry(c, i, s, rd, op2f),
        c.cpsr.v_condition_bit,
    )
}

/// The status register after a data-processing instruction.
pub open spec fn dp_psr(c: CPU, i: bool, opcode: u32, s: bool, rn: int, rd: int, op2f: u32) -> ProgramStatusRegister {
    dp_flags(
        c.cpsr,
        opcode,
        s && rd != 15,
        dp_outcome(c, i, opcode, s, rn, rd, op2f),
        dp_shift_carry(c, i, s, rd, op2f),
    )
}

fn dp_flags_exec(p: ProgramStatusRegister, opcode: u32, upd: bool, t: (u32, bool, bool), csh: bool) -> (r: ProgramStatusRegister)
    ensures
        r == dp_flags(p, opcode, upd, t, csh),
{
    let (res, cf, vf) = t;
    let arith = (2 <= opcode && opcode <= 7) || opcode == 10 || opcode == 11;
    let mut q = p;
    if arith {
        if upd || opcode == 10 || opcode == 11 {
            q.c_condition_bit = cf;
            q.v_condition_bit = vf;
        }
    } else {
        q.c_condition_bit = csh;
    }
    if upd || is_test(opcode) {
        q.n_condition_bit = bit(res, 31);
        q.z_condition_bit = res == 0;
    }
    q
}

fn dp_alu_exec(opcode: u32, a: u32, b: u32, cin: bool, sc: bool, v: bool) -> (r: (u32, bool, bool))
    ensures
        r == dp_alu(opcode, a, b, cin, sc, v),
{
    reveal(dp_alu);
    if opcode == 0 || opcode == 8 {
        (a & b, sc, v)
    } else if opcode == 1 || opcode == 9 {
        (a ^ b, sc, v)
    } else if opcode == 2 || opcode == 10 {
        sub_exec(a, b, true)
    } else if opcode == 3 {
        sub_exec(b, a, true)
    } else if opcode == 4 || opcode == 11 {
        add_exec(a, b, false)
    } else if opcode == 5 {
        add_exec(a, b, cin)
    } else if opcode == 6 {
        sub_exec(a, b, cin)
    } else if opcode == 7 {
        sub_exec(b, a, cin)
    } else if opcode == 12 {
        (a | b, sc, v)
    } else if opcode == 13 {
        (b, sc, v)
    } else if opcode == 14 {
        (a & !b, sc, v)
    } else {
        (!b, sc, v)
    }
}

/// The transfer address and the written-back base of a single transfer.
pub open spec fn indexed(base: u32, off: u32, p: bool, u: bool) -> (u32, u32) {
    let moved = if u {
        wadd(base, off)
    } else {
        wsub(base, off)
    };
    (
        if p {
            moved
        } else {
            base
        },
        moved,
    )
}

/// The value a half-word or signed transfer loads: a signed half-word at an
/// odd address is the sign-extended byte; an unsigned one is rotated.
pub open spec fn half_loaded<B: Bus>(s0: B::State, addr: u32, s: bool, h: bool) -> u32 {
    if h {
        let v = hword_in::<B>(s0, addr);
        if s {
            if addr & 1 == 1 {
                ((v as i16) >> 8i16) as u32
            } else {
                (v as i16) as u32
            }
        } else {
            rotr(v as u32, (8 * (addr & 1)) as u32)
        }
    } else {
        (B::load(s0, addr) as i8) as u32
    }
}

/// The register file after a load into `rd` and an optional base write-back.
pub open spec fn after_load(regs: Seq<u32>, rd: int, v: u32, rn: int, wb: bool, base: u32) -> Seq<u32> {
    let r1 = regs.update(rd, v);
    if wb {
        r1.update(rn, base)
    } else {
        r1
    }
}

/// `post` follows a load: registers become `regs`, and a load into PC flushes there.
pub open spec fn loaded_into<B: Bus>(pre: CPU, post: CPU, regs: Seq<u32>, pc_loaded: bool, s: B::State) -> bool {
    if pc_loaded {
        jumped::<B>(pre, regs, post, regs[15], s)
    } else {
        regs_now(pre, post, regs)
    }
}

/// First address of a block transfer of `n` registers.
pub open spec fn block_start(base: u32, p: bool, u: bool, n: u32) -> u32 {
    if u {
        if p {
            wadd(base, 4)
        } else {
            base
        }
    } else {
        if p {
            wsub(base, (4 * n) as u32)
        } else {
            wadd(wsub(base, (4 * n) as u32), 4)
        }
    }
}

/// Address of listed register `r` in a block transfer from `start`.
pub open spec fn slot_addr(list: u32, start: u32, r: int) -> u32 {
    wadd(start, (4 * count_low16(list, r as nat)) as u32)
}

/// The register file after loading the listed registers in ascending order.
pub open spec fn block_loaded<B: Bus>(regs: Seq<u32>, s: B::State, list: u32, start: u32) -> Seq<u32> {
    Seq::new(
        16,
        |r: int|
            if bit_set(list, r as u32) {
                word_in::<B>(s, slot_addr(list, start, r))
            } else {
                regs[r]
            },
    )
}

/// The bus after storing the listed registers below `r`, in ascending order.
pub open spec fn block_stored<B: Bus>(s: B::State, vals: Seq<u32>, list: u32, start: u32, r: nat) -> B::State
    decreases r,
{
    if r == 0 {
        s
    } else {
        let s1 = block_stored::<B>(s, vals, list, start, (r - 1) as nat);
        if bit_set(list, (r - 1) as u32) {
            store_word::<B>(s1, slot_addr(list, start, r - 1), vals[r - 1])
        } else {
            s1
        }
    }
}

/// The state after a branch and exchange to Rm.
pub open spec fn bx_effect<B: Bus>(c: CPU, post: CPU, rn: int, s: B::State) -> bool {
    let t = c.reg[rn];
    let st = if t & 1 == 0 {
        OperatingState::ARM
    } else {
        OperatingState::THUMB
    };
    redirected::<B>(
        CPU { cpsr: ProgramStatusRegister { operating_state: st, ..c.cpsr }, ..c },
        post,
        t,
        s,
    )
}

/// The state after a branch with link.
pub open spec fn bl_effect<B: Bus>(c: CPU, post: CPU, offset: u32, s: B::State) -> bool {
    jumped::<B>(
        c,
        c.reg@.update(14, wsub(c.reg[15], 4)),
        post,
        wadd(c.reg[15], branch_offset(offset)),
        s,
    )
}

/// The state after a status read into Rd.
pub open spec fn mrs_effect(c: CPU, post: CPU, p: bool, rd: int) -> bool {
    regs_now(
        c,
        post,
        c.reg@.update(
            rd,
            if p {
                c.spsr
            } else {
                pack(c.cpsr)
            },
        ),
    )
}

/// The state after a status write.
pub open spec fn msr_effect<B: Bus>(c: CPU, post: CPU, i: bool, p: bool, f: bool, op: u32, s: B::State) -> bool {
    let bits = if i {
        rotated_imm(c, op).0
    } else {
        c.reg[reg_field(op, 0)]
    };
    let mask = psr_mask(f);
    if p {
        post == CPU { spsr: merge(c.spsr, bits, mask), ..c }
    } else {
        match unpack(merge(pack(c.cpsr), bits, mask)) {
            Ok(q) => crate::cpu::mode_set(c, post, q),
            Err(_) => trapped::<B>(
                c,
                post,
                Exception::Undefined,
                wsub(c.reg[15], 4),
                s,
            ),
        }
    }
}

/// The state after a 32-bit multiply (accumulate).
pub open spec fn mul_effect(c: CPU, post: CPU, a: bool, s: bool, rd: int, rn: int, rs: int, rm: int) -> bool {
    let acc = if a {
        c.reg[rn]
    } else {
        0
    };
    let prod = wadd(
        vstd::wrapping::u32_specs::wrapping_mul(c.reg[rm], c.reg[rs]),
        acc,
    );
    let c1 = if s {
        with_psr(c, with_nz(c.cpsr, bit_set(prod, 31), prod == 0))
    } else {
        c
    };
    regs_now(c1, post, c.reg@.update(rd, prod))
}

/// The state after a 64-bit multiply (accumulate).
pub open spec fn mul_long_effect(c: CPU, post: CPU, u: bool, a: bool, s: bool, rd_hi: int, rd_lo: int, rs: int, rm: int) -> bool {
    let acc: u64 = if a {
        ((c.reg[rd_hi] as u64) << 32u64) | (c.reg[rd_lo] as u64)
    } else {
        0
    };
    let prod = long_product(u, c.reg[rs], c.reg[rm], acc);
    let c1 = if s {
        with_psr(c, with_nz(c.cpsr, (prod >> 63u64) & 1 == 1, prod == 0))
    } else {
        c
    };
    regs_now(
        c1,
        post,
        c.reg@.update(rd_hi, (prod >> 32u64) as u32).update(
            rd_lo,
            prod as u32,
        ),
    )
}

/// Processor and bus (`s0` before, `s1` after) after a swap.
pub open spec fn swap_effect<B: Bus>(c: CPU, post: CPU, s0: B::State, s1: B::State, b: bool, rn: int, rd: int, rm: int) -> bool {
    let addr = c.reg[rn];
    let v = c.reg[rm];
    if b {
        &&& regs_now(c, post, c.reg@.update(rd, B::load(s0, addr) as u32))
        &&& s1 == B::store(s0, addr, v as u8)
    } else {
        &&& regs_now(c, post, c.reg@.update(rd, rotated_word::<B>(s0, addr)))
        &&& s1 == store_word::<B>(s0, addr, v)
    }
}

/// The state after a data-processing instruction; `bs` is the bus it refetches from.
pub open spec fn data_proc_effect<B: Bus>(c: CPU, post: CPU, i: bool, opcode: u32, s: bool, rn: int, rd: int, operand2: u32, bs: B::State) -> bool {
    let res = dp_outcome(c, i, opcode, s, rn, rd, operand2).0;
    let c1 = with_psr(c, dp_psr(c, i, opcode, s, rn, rd, operand2));
    if 8 <= opcode <= 11 {
        post == c1
    } else if rd != 15 {
        regs_now(c1, post, c.reg@.update(rd, res))
    } else if s && c.cpsr.mode.has_spsr_spec() {
        match unpack(c.spsr) {
            Ok(q) => exists|mid: CPU|
                crate::cpu::mode_set(c1, mid, q) && redirected::<B>(
                    mid,
                    post,
                    res,
                    bs,
                ),
            Err(_) => trapped::<B>(
                c1,
                post,
                Exception::Undefined,
                wsub(c.reg[15], 4),
                bs,
            ),
        }
    } else {
        redirected::<B>(c1, post, res, bs)
    }
}

/// The value a word or byte load from `addr` yields.
pub open spec fn loaded_value<B: Bus>(s0: B::State, addr: u32, b: bool) -> u32 {
    if b {
        B::load(s0, addr) as u32
    } else {
        rotated_word::<B>(s0, addr)
    }
}

/// The bus after a word or byte store of `v` at `addr`.
pub open spec fn stored_value<B: Bus>(s0: B::State, addr: u32, b: bool, v: u32) -> B::State {
    if b {
        B::store(s0, addr, v as u8)
    } else {
        store_word::<B>(s0, addr, v)
    }
}

/// The transfer itself: Rd of `pre` loaded from, or stored to, `addr`.
pub open spec fn single_moved<B: Bus>(pre: CPU, post: CPU, s0: B::State, s1: B::State, l: bool, b: bool, rd: int, addr: u32) -> bool {
    if l {
        &&& regs_now(pre, post, pre.reg@.update(rd, loaded_value::<B>(s0, addr, b)))
        &&& s1 == s0
    } else {
        &&& post == pre
        &&& s1 == stored_value::<B>(s0, addr, b, pre.reg[rd])
    }
}

/// A word or byte transfer on the current registers, then write-back, then
/// a flush when a load wrote PC.
pub open spec fn single_plain<B: Bus>(c: CPU, post: CPU, s0: B::State, s1: B::State, l: bool, b: bool, rn: int, rd: int, addr: u32, moved: u32, wb: bool) -> bool {
    if l {
        &&& loaded_into::<B>(
            c,
            post,
            after_load(c.reg@, rd, loaded_value::<B>(s0, addr, b), rn, wb, moved),
            rd == 15,
            s0,
        )
        &&& s1 == s0
    } else {
        &&& regs_now(c, post, written_back(c.reg@, wb, rn, moved))
        &&& s1 == stored_value::<B>(s0, addr, b, c.reg[rd])
    }
}

/// A post-indexed transfer with W set: it runs as if in User mode, the mode
/// switching to User and back around it; write-back of the base follows in
/// the original mode, then a flush when a load wrote PC.
pub open spec fn single_user<B: Bus>(c: CPU, post: CPU, s0: B::State, s1: B::State, l: bool, b: bool, rn: int, rd: int, addr: u32, moved: u32) -> bool {
    exists|m1: CPU, m2: CPU, m3: CPU|
        #![trigger crate::cpu::mode_set(c, m1, ProgramStatusRegister { mode: OperatingMode::usr, ..c.cpsr }), crate::cpu::mode_set(m2, m3, ProgramStatusRegister { mode: c.cpsr.mode, ..m2.cpsr })]
        crate::cpu::mode_set(c, m1, ProgramStatusRegister { mode: OperatingMode::usr, ..c.cpsr })
            && single_moved::<B>(m1, m2, s0, s1, l, b, rd, addr)
            && crate::cpu::mode_set(m2, m3, ProgramStatusRegister { mode: c.cpsr.mode, ..m2.cpsr })
            && loaded_into::<B>(m3, post, m3.reg@.update(rn, moved), l && rd == 15, s0)
}

/// Processor and bus (`s0` before, `s1` after) after a word or byte transfer.
pub open spec fn single_transfer_effect<B: Bus>(c: CPU, post: CPU, s0: B::State, s1: B::State, l: bool, i: bool, p: bool, u: bool, b: bool, w: bool, rn: int, rd: int, offset: u32) -> bool {
    let off = if i {
        shifted_operand(c, offset).0
    } else {
        offset
    };
    let (addr, moved) = indexed(c.reg[rn], off, p, u);
    if w && !p {
        single_user::<B>(c, post, s0, s1, l, b, rn, rd, addr, moved)
    } else {
        single_plain::<B>(c, post, s0, s1, l, b, rn, rd, addr, moved, w || !p)
    }
}

/// Processor and bus (`s0` before, `s1` after) after a half-word or signed transfer.
pub open spec fn half_transfer_effect<B: Bus>(c: CPU, post: CPU, s0: B::State, s1: B::State, p: bool, u: bool, i: bool, w: bool, l: bool, rn: int, rd: int, offset_hi: u32, s: bool, h: bool, offset_lo: u32) -> bool {
    let off = if i {
        (offset_hi << 4u32) | offset_lo
    } else {
        c.reg[offset_lo as int]
    };
    let (addr, moved) = indexed(c.reg[rn], off, p, u);
    let wb = w || !p;
    if l {
        &&& loaded_into::<B>(
            c,
            post,
            after_load(c.reg@, rd, half_loaded::<B>(s0, addr, s, h), rn, wb, moved),
            rd == 15,
            s0,
        )
        &&& s1 == s0
    } else {
        &&& regs_now(
            c,
            post,
            if wb {
                c.reg@.update(rn, moved)
            } else {
                c.reg@
            },
        )
        &&& s1 == store_hword::<B>(s0, addr, c.reg[rd] as u16)
    }
}

/// The register file with the base written back when `wb`.
pub open spec fn written_back(regs: Seq<u32>, wb: bool, rn: int, v: u32) -> Seq<u32> {
    if wb {
        regs.update(rn, v)
    } else {
        regs
    }
}

/// The listed registers of `pre` loaded from, or stored to, the block at
/// `start`; processor `post` and bus `s1` result.
pub open spec fn transferred<B: Bus>(pre: CPU, post: CPU, s0: B::State, s1: B::State, l: bool, r_list: u32, start: u32) -> bool {
    if l {
        &&& regs_now(pre, post, block_loaded::<B>(pre.reg@, s0, r_list, start))
        &&& s1 == s0
    } else {
        &&& post == pre
        &&& s1 == block_stored::<B>(s0, pre.reg@, r_list, start, 16)
    }
}

/// First address, written-back base, and whether write-back happens, of a block transfer.
pub open spec fn block_geometry(c: CPU, l: bool, p: bool, u: bool, w: bool, rn: int, r_list: u32) -> (u32, u32, bool) {
    let n = count_low16(r_list, 16);
    let base = c.reg[rn];
    (
        block_start(base, p, u, n as u32),
        if u {
            wadd(base, (4 * n) as u32)
        } else {
            wsub(base, (4 * n) as u32)
        },
        w && !(l && bit_set(r_list, rn as u32)),
    )
}

/// A block transfer on the current registers, then write-back, then a
/// flush when a load wrote PC.
pub open spec fn block_plain<B: Bus>(c: CPU, post: CPU, s0: B::State, s1: B::State, l: bool, r_list: u32, start: u32, moved: u32, wb: bool, rn: int) -> bool {
    if l {
        &&& loaded_into::<B>(
            c,
            post,
            written_back(block_loaded::<B>(c.reg@, s0, r_list, start), wb, rn, moved),
            bit_set(r_list, 15),
            s0,
        )
        &&& s1 == s0
    } else {
        &&& regs_now(c, post, written_back(c.reg@, wb, rn, moved))
        &&& s1 == block_stored::<B>(s0, c.reg@, r_list, start, 16)
    }
}

/// A block transfer of the User-mode registers: the mode switches to User
/// and back around the transfer, and write-back follows.
pub open spec fn block_user<B: Bus>(c: CPU, post: CPU, s0: B::State, s1: B::State, l: bool, r_list: u32, start: u32, moved: u32, wb: bool, rn: int) -> bool {
    exists|m1: CPU, m2: CPU, m3: CPU|
        #![trigger crate::cpu::mode_set(c, m1, ProgramStatusRegister { mode: OperatingMode::usr, ..c.cpsr }), crate::cpu::mode_set(m2, m3, ProgramStatusRegister { mode: c.cpsr.mode, ..m2.cpsr })]
        crate::cpu::mode_set(c, m1, ProgramStatusRegister { mode: OperatingMode::usr, ..c.cpsr })
            && transferred::<B>(m1, m2, s0, s1, l, r_list, start)
            && crate::cpu::mode_set(m2, m3, ProgramStatusRegister { mode: c.cpsr.mode, ..m2.cpsr })
            && regs_now(m3, post, written_back(m3.reg@, wb, rn, moved))
}

/// A block load that lists PC, restoring SPSR after the load: then
/// write-back and the flush; an illegal saved mode takes the Undefined
/// exception with return address `ret`.
pub open spec fn block_restore<B: Bus>(c: CPU, post: CPU, s0: B::State, s1: B::State, r_list: u32, start: u32, moved: u32, wb: bool, rn: int, ret: u32) -> bool {
    &&& s1 == s0
    &&& exists|m1: CPU|
        #![trigger transferred::<B>(c, m1, s0, s1, true, r_list, start)]
        transferred::<B>(c, m1, s0, s1, true, r_list, start) && match unpack(c.spsr) {
            Ok(q) => exists|m2: CPU|
                #![trigger crate::cpu::mode_set(m1, m2, q)]
                crate::cpu::mode_set(m1, m2, q) && jumped::<B>(
                    m2,
                    written_back(m2.reg@, wb, rn, moved),
                    post,
                    written_back(m2.reg@, wb, rn, moved)[15],
                    s0,
                ),
            Err(_) => trapped::<B>(m1, post, Exception::Undefined, ret, s0),
        }
}

/// Processor and bus after a block transfer with the S bit: without PC in
/// the list the User-mode registers are transferred; a load that lists PC
/// in a mode with a saved status restores it; otherwise as without S.
pub open spec fn block_transfer_s_effect<B: Bus>(c: CPU, post: CPU, s0: B::State, s1: B::State, l: bool, p: bool, u: bool, w: bool, rn: int, r_list: u32) -> bool {
    let (start, moved, wb) = block_geometry(c, l, p, u, w, rn, r_list);
    if !bit_set(r_list, 15) {
        block_user::<B>(c, post, s0, s1, l, r_list, start, moved, wb, rn)
    } else if l && c.cpsr.mode.has_spsr_spec() {
        block_restore::<B>(c, post, s0, s1, r_list, start, moved, wb, rn, wsub(c.reg[15], 4))
    } else {
        block_plain::<B>(c, post, s0, s1, l, r_list, start, moved, wb, rn)
    }
}

/// Processor and bus (`s0` before, `s1` after) after a block transfer without the S bit.
pub open spec fn block_transfer_effect<B: Bus>(c: CPU, post: CPU, s0: B::State, s1: B::State, l: bool, p: bool, u: bool, w: bool, rn: int, r_list: u32) -> bool {
    let (start, moved, wb) = block_geometry(c, l, p, u, w, rn, r_list);
    block_plain::<B>(c, post, s0, s1, l, r_list, start, moved, wb, rn)
}

/// Bit `k` of an instruction word as a flag.
pub open spec fn flag_at(inst: u32, k: u32) -> bool {
    bit_set(inst, k)
}

/// Processor and bus (`s0` before, `s1` after) after executing the wide
/// instruction `inst` whose condition holds, by its class.
pub open spec fn arm_effect<B: Bus>(c: CPU, post: CPU, s0: B::State, s1: B::State, inst: u32) -> bool {
    let same_bus = s1 == s0;
    match arm_class(inst) {
        ArmClass::BranchExchange => same_bus && bx_effect::<B>(c, post, reg_field(inst, 0), s0),
        ArmClass::Branch => same_bus && redirected::<B>(
            c,
            post,
            wadd(c.reg[15], branch_offset(inst & 0xff_ffff)),
            s0,
        ),
        ArmClass::BranchLink => same_bus && bl_effect::<B>(c, post, inst & 0xff_ffff, s0),
        ArmClass::Multiply => same_bus && mul_effect(
            c,
            post,
            flag_at(inst, 21),
            flag_at(inst, 20),
            reg_field(inst, 16),
            reg_field(inst, 12),
            reg_field(inst, 8),
            reg_field(inst, 0),
        ),
        ArmClass::MultiplyLong => same_bus && mul_long_effect(
            c,
            post,
            flag_at(inst, 22),
            flag_at(inst, 21),
            flag_at(inst, 20),
            reg_field(inst, 16),
            reg_field(inst, 12),
            reg_field(inst, 8),
            reg_field(inst, 0),
        ),
        ArmClass::StatusRead => same_bus && mrs_effect(c, post, flag_at(inst, 22), reg_field(inst, 12)),
        ArmClass::StatusWrite => same_bus && msr_effect::<B>(
            c,
            post,
            flag_at(inst, 25),
            flag_at(inst, 22),
            !flag_at(inst, 16),
            inst & 0xfff,
            s0,
        ),
        ArmClass::Undefined => same_bus && trapped::<B>(
            c,
            post,
            Exception::Undefined,
            wsub(c.reg[15], 4),
            s0,
        ),
        ArmClass::SoftwareInterrupt => same_bus && trapped::<B>(
            c,
            post,
            Exception::SoftwareInterrupt,
            wsub(c.reg[15], 4),
            s0,
        ),
        ArmClass::BlockTransfer => if flag_at(inst, 22) {
            block_transfer_s_effect::<B>(
                c,
                post,
                s0,
                s1,
                flag_at(inst, 20),
                flag_at(inst, 24),
                flag_at(inst, 23),
                flag_at(inst, 21),
                reg_field(inst, 16),
                inst & 0xffff,
            )
        } else {
            block_transfer_effect::<B>(
                c,
                post,
                s0,
                s1,
                flag_at(inst, 20),
                flag_at(inst, 24),
                flag_at(inst, 23),
                flag_at(inst, 21),
                reg_field(inst, 16),
                inst & 0xffff,
            )
        },
        ArmClass::Swap => swap_effect::<B>(
            c,
            post,
            s0,
            s1,
            flag_at(inst, 22),
            reg_field(inst, 16),
            reg_field(inst, 12),
            reg_field(inst, 0),
        ),
        ArmClass::HalfwordTransfer => half_transfer_effect::<B>(
            c,
            post,
            s0,
            s1,
            flag_at(inst, 24),
            flag_at(inst, 23),
            flag_at(inst, 22),
            flag_at(inst, 21),
            flag_at(inst, 20),
            reg_field(inst, 16),
            reg_field(inst, 12),
            reg_field(inst, 8) as u32,
            flag_at(inst, 6),
            flag_at(inst, 5),
            reg_field(inst, 0) as u32,
        ),
        ArmClass::DataProcessing => same_bus && data_proc_effect::<B>(
            c,
            post,
            flag_at(inst, 25),
            (inst >> 21u32) & 0xf,
            flag_at(inst, 20),
            reg_field(inst, 16),
            reg_field(inst, 12),
            inst & 0xfff,
            s0,
        ),
        ArmClass::SingleTransfer => single_transfer_effect::<B>(
            c,
            post,
            s0,
            s1,
            flag_at(inst, 20),
            flag_at(inst, 25),
            flag_at(inst, 24),
            flag_at(inst, 23),
            flag_at(inst, 22),
            flag_at(inst, 21),
            reg_field(inst, 16),
            reg_field(inst, 12),
            inst & 0xfff,
        ),
    }
}

proof fn lemma_rot_amount(addr: u32)
    ensures
        8 * (addr & 3) < 32,
{
    lemma_mask_bounds(addr);
}

impl CPU {
    /// Branch and exchange: PC takes Rm; bit 0 of the target selects the narrow state.
    pub fn arm_BX<B: Bus>(&mut self, bus: &B, rn: usize)
        requires
            bus.wf(),
            rn < 16,
        ensures
            bx_effect::<B>(*old(self), *final(self), rn as int, bus.state()),

    {
        let target = self.reg[rn];
        self.cpsr.operating_state = if target & 1 == 0 {
            OperatingState::ARM
        } else {
            OperatingState::THUMB
        };
        self.branch_to(bus, target);
    }

    /// Branch: PC plus the sign-extended offset times 4.
    pub fn arm_B<B: Bus>(&mut self, bus: &B, offset: u32)
        requires
            bus.wf(),
        ensures
            redirected::<B>(
                *old(self),
                *final(self),
                wadd(old(self).reg[15], branch_offset(offset)),
                bus.state(),
            ),
    {
        let off = (((offset << 8u32) as i32) >> 6i32) as u32;
        let target = self.reg[PC_INDEX].wrapping_add(off);
        self.branch_to(bus, target);
    }

    /// Branch with link: LR takes the address of the next instruction.
    pub fn arm_BL<B: Bus>(&mut self, bus: &B, offset: u32)
        requires
            bus.wf(),
        ensures
            bl_effect::<B>(*old(self), *final(self), offset, bus.state()),

    {
        let off = (((offset << 8u32) as i32) >> 6i32) as u32;
        let target = self.reg[PC_INDEX].wrapping_add(off);
        self.reg[LR_INDEX] = self.reg[PC_INDEX].wrapping_sub(4);
        let ghost mid = *self;
        self.branch_to(bus, target);
        assert(mid.reg@ =~= old(self).reg@.update(14, wsub(old(self).reg[15], 4)));
    }

    /// Status read: Rd takes the packed CPSR, or SPSR when `p`.
    pub fn arm_MRS(&mut self, p: bool, rd: usize)
        requires
            rd < 16,
        ensures
            mrs_effect(*old(self), *final(self), p, rd as int),

    {
        let psr = if p {
            self.spsr
        } else {
            self.cpsr.to_bits()
        };
        self.reg[rd] = psr;
    }

    /// Status write from a register or a rotated immediate, through `psr_mask`.
    /// A CPSR write changes mode through the bank-switch protocol; one that
    /// names an illegal mode takes the Undefined exception instead.
    pub fn arm_MSR<B: Bus>(&mut self, bus: &B, i: bool, p: bool, f: bool, op: u32)
        requires
            bus.wf(),
        ensures
            msr_effect::<B>(*old(self), *final(self), i, p, f, op, bus.state()),

    {
        let bits = if i {
            let ghost c0 = *self;
            let v = self.rotated_immediate(op, false);
            assert(*self == c0);
            v
        } else {
            self.reg[reg_at(op, 0)]
        };
        let mask: u32 = if f {
            0xf000_0000
        } else {
            0xf000_00df
        };
        if p {
            self.spsr = (self.spsr & !mask) | (bits & mask);
        } else {
            let word = (self.cpsr.to_bits() & !mask) | (bits & mask);
            match ProgramStatusRegister::from_bits(word) {
                Ok(cpsr) => {
                    self.set_mode(cpsr.mode);
                    let ghost x = *self;
                    self.cpsr = cpsr;
                    proof {
                        crate::cpu::lemma_switch_sees_mode_only(*old(self), x, *self);
                    }
                },
                Err(_) => {
                    let ret = self.reg[PC_INDEX].wrapping_sub(4);
                    self.take_exception(bus, Exception::Undefined, ret);
                },
            }
        }
    }

    /// Multiply and multiply-accumulate, low 32 bits; S sets N and Z.
    pub fn arm_MUL_MLA(&mut self, a: bool, s: bool, rd: usize, rn: usize, rs: usize, rm: usize)
        requires
            rd < 16,
            rn < 16,
            rs < 16,
            rm < 16,
        ensures
            mul_effect(*old(self), *final(self), a, s, rd as int, rn as int, rs as int, rm as int),

    {
        let acc = if a {
            self.reg[rn]
        } else {
            0
        };
        let prod = self.reg[rm].wrapping_mul(self.reg[rs]).wrapping_add(acc);
        self.reg[rd] = prod;
        if s {
            self.set_NZ(prod);
        }
    }

    /// Long multiply (signed when `u`), optionally accumulating RdHi:RdLo;
    /// S sets N and Z from the 64-bit result.
    pub fn arm_UMULL_UMLAL_SMULL_SMLAL(
        &mut self,
        u: bool,
        a: bool,
        s: bool,
        rd_hi: usize,
        rd_lo: usize,
        rs: usize,
        rm: usize,
    )
        requires
            rd_hi < 16,
            rd_lo < 16,
            rs < 16,
            rm < 16,
        ensures
            mul_long_effect(*old(self), *final(self), u, a, s, rd_hi as int, rd_lo as int, rs as int, rm as int),

    {
        let acc: u64 = if a {
            ((self.reg[rd_hi] as u64) << 32u64) | (self.reg[rd_lo] as u64)
        } else {
            0
        };
        let x = self.reg[rs];
        let y = self.reg[rm];
        let prod: u64 = if u {
            let sx = (x as i32) as i64;
            let sy = (y as i32) as i64;
            assert(-0x8000_0000 <= sx <= 0x7fff_ffff && -0x8000_0000 <= sy <= 0x7fff_ffff);
            assert(-0x4000_0000_0000_0000 <= sx * sy <= 0x4000_0000_0000_0000) by (nonlinear_arith)
                requires
                    -0x8000_0000 <= sx <= 0x7fff_ffff,
                    -0x8000_0000 <= sy <= 0x7fff_ffff,
            ;
            ((sx * sy) as u64).wrapping_add(acc)
        } else {
            let ux = x as u64;
            let uy = y as u64;
            assert(ux * uy <= 0xffff_fffe_0000_0001) by (nonlinear_arith)
                requires
                    ux <= 0xffff_ffff,
                    uy <= 0xffff_ffff,
            ;
            (ux * uy).wrapping_add(acc)
        };
        self.reg[rd_hi] = (prod >> 32u64) as u32;
        self.reg[rd_lo] = prod as u32;
        if s {
            self.set_NZ_64(prod);
        }
    }

    /// Swap: Rd takes the value at [Rn] (a byte, or a rotated word), and the
    /// old Rm is written there.
    pub fn arm_SWP<B: Bus>(&mut self, bus: &mut B, b: bool, rn: usize, rd: usize, rm: usize)
        requires
            old(bus).wf(),
            rn < 16,
            rd < 16,
            rm < 16,
        ensures
            final(bus).wf(),
            swap_effect::<B>(*old(self), *final(self), old(bus).state(), final(bus).state(), b, rn as int, rd as int, rm as int),

    {
        let addr = self.reg[rn];
        let v = self.reg[rm];
        if b {
            self.reg[rd] = bus.read_byte(addr) as u32;
            bus.write_byte(addr, v as u8);
        } else {
            proof {
                lemma_rot_amount(addr);
            }
            self.reg[rd] = rotate_right(read_word(bus, addr), 8 * (addr & 3));
            write_word(bus, addr, v);
        }
    }

    fn dp_compute(&mut self, i: bool, opcode: u32, s: bool, rn: usize, rd: usize, operand2: u32) -> (r: u32)
        requires
            opcode < 16,
            rn < 16,
            rd < 16,
        ensures
            r == dp_outcome(*old(self), i, opcode, s, rn as int, rd as int, operand2).0,
            *final(self) == with_psr(
                *old(self),
                dp_psr(*old(self), i, opcode, s, rn as int, rd as int, operand2),
            ),
    {
        let upd = s && rd != PC_INDEX;
        let p0 = self.cpsr;
        let op = if rn == PC_INDEX && !i && bit(operand2, 4) {
            self.reg[PC_INDEX].wrapping_add(4)
        } else {
            self.reg[rn]
        };
        let op2 = if i {
            self.rotated_immediate(operand2, upd)
        } else {
            self.shift_by_reg(operand2, upd)
        };
        let csh = self.cpsr.c_condition_bit;
        let t = dp_alu_exec(opcode, op, op2, p0.c_condition_bit, csh, p0.v_condition_bit);
        self.cpsr = dp_flags_exec(p0, opcode, upd, t, csh);
        let (res, _, _) = t;
        res
    }

    /// Data processing: Rd takes the opcode's result unless the opcode is a
    /// test. Writing PC flushes; with S it first restores SPSR, unless the
    /// mode has none (an illegal saved mode takes the Undefined exception).
    pub fn arm_data_proc<B: Bus>(
        &mut self,
        bus: &B,
        i: bool,
        opcode: u32,
        s: bool,
        rn: usize,
        rd: usize,
        operand2: u32,
    )
        requires
            bus.wf(),
            opcode < 16,
            rn < 16,
            rd < 16,
        ensures
            data_proc_effect::<B>(*old(self), *final(self), i, opcode, s, rn as int, rd as int, operand2, bus.state()),

    {
        let res = self.dp_compute(i, opcode, s, rn, rd, operand2);
        if is_test(opcode) {
            return;
        }
        if rd != PC_INDEX {
            self.reg[rd] = res;
            return;
        }
        if s && self.cpsr.mode.has_spsr() {
            let ghost c1 = *self;
            match self.restore_spsr() {
                Ok(()) => {
                    let ghost mid = *self;
                    self.branch_to(bus, res);
                    assert(crate::cpu::mode_set(c1, mid, unpack(c1.spsr)->Ok_0));
                },
                Err(_) => {
                    let ret = self.reg[PC_INDEX].wrapping_sub(4);
                    self.take_exception(bus, Exception::Undefined, ret);
                },
            }
        } else {
            self.branch_to(bus, res);
        }
    }

    fn single_move_exec<B: Bus>(&mut self, bus: &mut B, l: bool, b: bool, rd: usize, addr: u32)
        requires
            old(bus).wf(),
            rd < 16,
        ensures
            final(bus).wf(),
            single_moved::<B>(*old(self), *final(self), old(bus).state(), final(bus).state(), l, b, rd as int, addr),
    {
        if l {
            let v = if b {
                bus.read_byte(addr) as u32
            } else {
                proof {
                    lemma_rot_amount(addr);
                }
                rotate_right(read_word(bus, addr), 8 * (addr & 3))
            };
            self.reg[rd] = v;
        } else {
            let v = self.reg[rd];
            if b {
                bus.write_byte(addr, v as u8);
            } else {
                write_word(bus, addr, v);
            }
        }
    }

    fn single_plain_exec<B: Bus>(&mut self, bus: &mut B, l: bool, b: bool, rn: usize, rd: usize, addr: u32, moved: u32, wb: bool)
        requires
            old(bus).wf(),
            rn < 16,
            rd < 16,
        ensures
            final(bus).wf(),
            single_plain::<B>(*old(self), *final(self), old(bus).state(), final(bus).state(), l, b, rn as int, rd as int, addr, moved, wb),
    {
        self.single_move_exec(bus, l, b, rd, addr);
        let ghost m = *self;
        if wb {
            self.reg[rn] = moved;
        }
        assert(self.reg@ =~= written_back(m.reg@, wb, rn as int, moved));
        if l && rd == PC_INDEX {
            let target = self.reg[PC_INDEX];
            self.branch_to(bus, target);
        }
    }

    fn single_user_exec<B: Bus>(&mut self, bus: &mut B, l: bool, b: bool, rn: usize, rd: usize, addr: u32, moved: u32)
        requires
            old(bus).wf(),
            rn < 16,
            rd < 16,
        ensures
            final(bus).wf(),
            single_user::<B>(*old(self), *final(self), old(bus).state(), final(bus).state(), l, b, rn as int, rd as int, addr, moved),
    {
        let pre_mode = self.cpsr.mode;
        self.set_mode(OperatingMode::usr);
        let ghost m1 = *self;
        self.single_move_exec(bus, l, b, rd, addr);
        let ghost m2 = *self;
        self.set_mode(pre_mode);
        let ghost m3 = *self;
        self.reg[rn] = moved;
        assert(self.reg@ =~= m3.reg@.update(rn as int, moved));
        if l && rd == PC_INDEX {
            let target = self.reg[PC_INDEX];
            self.branch_to(bus, target);
        }
    }

    /// Single load or store of a word or byte, pre- or post-indexed, with
    /// an immediate or shifted-register offset; write-back follows the
    /// transfer, and a load into PC flushes. A stored PC is the register as
    /// instructions read it, 8 ahead. A post-indexed transfer with W set runs
    /// as if in User mode: the transfer uses the User-mode registers.
    pub fn arm_LDR_STR<B: Bus>(
        &mut self,
        bus: &mut B,
        l: bool,
        i: bool,
        p: bool,
        u: bool,
        b: bool,
        w: bool,
        rn: usize,
        rd: usize,
        offset: u32,
    )
        requires
            old(bus).wf(),
            rn < 16,
            rd < 16,
        ensures
            final(bus).wf(),
            single_transfer_effect::<B>(*old(self), *final(self), old(bus).state(), final(bus).state(), l, i, p, u, b, w, rn as int, rd as int, offset),

    {
        let off = if i {
            let ghost c0 = *self;
            let v = self.shift_by_reg(offset, false);
            assert(*self == c0);
            v
        } else {
            offset
        };
        let base = self.reg[rn];
        let moved = if u {
            base.wrapping_add(off)
        } else {
            base.wrapping_sub(off)
        };
        let addr = if p {
            moved
        } else {
            base
        };
        if w && !p {
            self.single_user_exec(bus, l, b, rn, rd, addr, moved);
        } else {
            self.single_plain_exec(bus, l, b, rn, rd, addr, moved, w || !p);
        }
    }

    /// Half-word load or store, or signed byte or half-word load, with an
    /// immediate (4 + 4 bits) or register offset; write-back follows the transfer.
    pub fn arm_LDRH_LDRSB_LDRSH_STRH<B: Bus>(
        &mut self,
        bus: &mut B,
        p: bool,
        u: bool,
        i: bool,
        w: bool,
        l: bool,
        rn: usize,
        rd: usize,
        offset_hi: u32,
        s: bool,
        h: bool,
        offset_lo: u32,
    )
        requires
            old(bus).wf(),
            rn < 16,
            rd < 16,
            offset_hi < 16,
            offset_lo < 16,
        ensures
            final(bus).wf(),
            half_transfer_effect::<B>(*old(self), *final(self), old(bus).state(), final(bus).state(), p, u, i, w, l, rn as int, rd as int, offset_hi, s, h, offset_lo),

    {
        let off = if i {
            (offset_hi << 4u32) | offset_lo
        } else {
            self.reg[offset_lo as usize]
        };
        let base = self.reg[rn];
        let moved = if u {
            base.wrapping_add(off)
        } else {
            base.wrapping_sub(off)
        };
        let addr = if p {
            moved
        } else {
            base
        };
        if l {
            let v = if h {
                let hv = read_hword(bus, addr);
                if s {
                    if addr & 1 == 1 {
                        ((hv as i16) >> 8i16) as u32
                    } else {
                        (hv as i16) as u32
                    }
                } else {
                    proof {
                        lemma_mask_bounds(addr);
                    }
                    rotate_right(hv as u32, 8 * (addr & 1))
                }
            } else {
                (bus.read_byte(addr) as i8) as u32
            };
            self.reg[rd] = v;
            if w || !p {
                self.reg[rn] = moved;
            }
            if rd == PC_INDEX {
                let target = self.reg[PC_INDEX];
                self.branch_to(bus, target);
            }
        } else {
            write_hword(bus, addr, self.reg[rd] as u16);
            if w || !p {
                self.reg[rn] = moved;
            }
        }
    }

    fn load_block<B: Bus>(&mut self, bus: &B, list: u32, start: u32)
        requires
            bus.wf(),
        ensures
            regs_now(
                *old(self),
                *final(self),
                block_loaded::<B>(old(self).reg@, bus.state(), list, start),
            ),
    {
        let mut r: usize = 0;
        let mut k: u32 = 0;
        while r < 16
            invariant
                r <= 16,
                k == count_low16(list, r as nat),
                k <= r,
                bus.wf(),
                self.pipeline == old(self).pipeline,
                same_status(*old(self), *self),
                forall|q: int|
                    0 <= q < 16 ==> #[trigger] self.reg[q] == if q < r && bit_set(list, q as u32) {
                        word_in::<B>(bus.state(), slot_addr(list, start, q))
                    } else {
                        old(self).reg[q]
                    },
            decreases 16 - r,
        {
            if bit(list, r as u32) {
                let addr = start.wrapping_add(4 * k);
                self.reg[r] = read_word(bus, addr);
                k = k + 1;
            }
            r = r + 1;
        }
        assert(self.reg@ =~= block_loaded::<B>(old(self).reg@, bus.state(), list, start));
    }

    fn store_block<B: Bus>(&self, bus: &mut B, list: u32, start: u32)
        requires
            old(bus).wf(),
        ensures
            final(bus).wf(),
            final(bus).state() == block_stored::<B>(
                old(bus).state(),
                self.reg@,
                list,
                start,
                16,
            ),
    {
        let ghost vals = self.reg@;
        let mut r: usize = 0;
        let mut k: u32 = 0;
        while r < 16
            invariant
                r <= 16,
                k == count_low16(list, r as nat),
                k <= r,
                vals == self.reg@,
                bus.wf(),
                bus.state() == block_stored::<B>(old(bus).state(), vals, list, start, r as nat),
            decreases 16 - r,
        {
            if bit(list, r as u32) {
                let addr = start.wrapping_add(4 * k);
                write_word(bus, addr, self.reg[r]);
                k = k + 1;
            }
            r = r + 1;
        }
    }

    fn block_plain_exec<B: Bus>(&mut self, bus: &mut B, l: bool, r_list: u32, start: u32, moved: u32, wb: bool, rn: usize)
        requires
            old(bus).wf(),
            rn < 16,
        ensures
            final(bus).wf(),
            block_plain::<B>(*old(self), *final(self), old(bus).state(), final(bus).state(), l, r_list, start, moved, wb, rn as int),
    {
        if l {
            self.load_block(bus, r_list, start);
        } else {
            self.store_block(bus, r_list, start);
        }
        let ghost m = *self;
        if wb {
            self.reg[rn] = moved;
        }
        assert(self.reg@ =~= written_back(m.reg@, wb, rn as int, moved));
        if l && bit(r_list, 15) {
            let target = self.reg[PC_INDEX];
            self.branch_to(bus, target);
        }
    }

    fn block_user_exec<B: Bus>(&mut self, bus: &mut B, l: bool, r_list: u32, start: u32, moved: u32, wb: bool, rn: usize)
        requires
            old(bus).wf(),
            rn < 16,
        ensures
            final(bus).wf(),
            block_user::<B>(*old(self), *final(self), old(bus).state(), final(bus).state(), l, r_list, start, moved, wb, rn as int),
    {
        let pre_mode = self.cpsr.mode;
        self.set_mode(OperatingMode::usr);
        let ghost m1 = *self;
        if l {
            self.load_block(bus, r_list, start);
        } else {
            self.store_block(bus, r_list, start);
        }
        let ghost m2 = *self;
        self.set_mode(pre_mode);
        let ghost m3 = *self;
        if wb {
            self.reg[rn] = moved;
        }
        assert(self.reg@ =~= written_back(m3.reg@, wb, rn as int, moved));
        assert(transferred::<B>(m1, m2, old(bus).state(), bus.state(), l, r_list, start));
    }

    fn block_restore_exec<B: Bus>(&mut self, bus: &B, r_list: u32, start: u32, moved: u32, wb: bool, rn: usize, ret: u32)
        requires
            bus.wf(),
            rn < 16,
        ensures
            block_restore::<B>(*old(self), *final(self), bus.state(), bus.state(), r_list, start, moved, wb, rn as int, ret),
    {
        self.load_block(bus, r_list, start);
        let ghost m1 = *self;
        assert(transferred::<B>(*old(self), m1, bus.state(), bus.state(), true, r_list, start));
        if self.restore_spsr().is_err() {
            self.take_exception(bus, Exception::Undefined, ret);
            return;
        }
        let ghost m2 = *self;
        if wb {
            self.reg[rn] = moved;
        }
        let ghost m3 = *self;
        assert(m3.reg@ =~= written_back(m2.reg@, wb, rn as int, moved));
        let target = self.reg[PC_INDEX];
        self.branch_to(bus, target);
    }

    /// Block load or store of the listed registers in ascending order from
    /// an address set by P (pre/post) and U (up/down). With S and PC not
    /// listed the User bank is transferred; with S, PC listed and a load,
    /// SPSR is restored. Write-back is skipped when a load lists the base.
    pub fn arm_LDM_STM<B: Bus>(
        &mut self,
        bus: &mut B,
        l: bool,
        p: bool,
        u: bool,
        s: bool,
        w: bool,
        rn: usize,
        r_list: u32,
    )
        requires
            old(bus).wf(),
            rn < 16,
            r_list <= 0xffff,
        ensures
            final(bus).wf(),
            !s ==> block_transfer_effect::<B>(*old(self), *final(self), old(bus).state(), final(bus).state(), l, p, u, w, rn as int, r_list),
            s ==> block_transfer_s_effect::<B>(*old(self), *final(self), old(bus).state(), final(bus).state(), l, p, u, w, rn as int, r_list),
    {
        let n = count_regs(r_list);
        let base = self.reg[rn];
        let start = if u {
            if p {
                base.wrapping_add(4)
            } else {
                base
            }
        } else {
            if p {
                base.wrapping_sub(4 * n)
            } else {
                base.wrapping_sub(4 * n).wrapping_add(4)
            }
        };
        let moved = if u {
            base.wrapping_add(4 * n)
        } else {
            base.wrapping_sub(4 * n)
        };
        let wb = w && !(l && bit(r_list, rn as u32));
        let pc_in = bit(r_list, 15);
        if s && !pc_in {
            self.block_user_exec(bus, l, r_list, start, moved, wb, rn);
        } else if s && l && self.cpsr.mode.has_spsr() {
            let ret = self.reg[PC_INDEX].wrapping_sub(4);
            self.block_restore_exec(bus, r_list, start, moved, wb, rn, ret);
        } else {
            self.block_plain_exec(bus, l, r_list, start, moved, wb, rn);
        }
    }

    /// Executes one wide instruction: a failing condition makes it a no-op;
    /// otherwise the class of `arm_class` runs.
    pub fn arm_opcodes<B: Bus>(&mut self, bus: &mut B, inst: u32)
        requires
            old(bus).wf(),
        ensures
            final(bus).wf(),
            !cond_holds(inst >> 28u32, old(self).cpsr) ==> *final(self) == *old(self)
                && final(bus).state() == old(bus).state(),
            cond_holds(inst >> 28u32, old(self).cpsr) ==> arm_effect::<B>(
                *old(self),
                *final(self),
                old(bus).state(),
                final(bus).state(),
                inst,
            ),
    {
        if !self.condition_check(inst >> 28u32) {
            return;
        }
        proof {
            lemma_mask_bounds(inst >> 21u32);
            lemma_mask_bounds(inst >> 8u32);
            lemma_mask_bounds(inst);
        }
        match arm_decode_class(inst) {
            ArmClass::BranchExchange => self.arm_BX(bus, reg_at(inst, 0)),
            ArmClass::Branch => self.arm_B(bus, inst & 0xff_ffff),
            ArmClass::BranchLink => self.arm_BL(bus, inst & 0xff_ffff),
            ArmClass::Multiply => self.arm_MUL_MLA(
                bit(inst, 21),
                bit(inst, 20),
                reg_at(inst, 16),
                reg_at(inst, 12),
                reg_at(inst, 8),
                reg_at(inst, 0),
            ),
            ArmClass::MultiplyLong => self.arm_UMULL_UMLAL_SMULL_SMLAL(
                bit(inst, 22),
                bit(inst, 21),
                bit(inst, 20),
                reg_at(inst, 16),
                reg_at(inst, 12),
                reg_at(inst, 8),
                reg_at(inst, 0),
            ),
            ArmClass::StatusRead => self.arm_MRS(bit(inst, 22), reg_at(inst, 12)),
            ArmClass::StatusWrite => self.arm_MSR(
                bus,
                bit(inst, 25),
                bit(inst, 22),
                !bit(inst, 16),
                inst & 0xfff,
            ),
            ArmClass::Undefined | ArmClass::SoftwareInterrupt => {
                let e = if arm_decode_class(inst) == ArmClass::Undefined {
                    Exception::Undefined
                } else {
                    Exception::SoftwareInterrupt
                };
                let ret = self.reg[PC_INDEX].wrapping_sub(4);
                self.take_exception(bus, e, ret);
            },
            ArmClass::BlockTransfer => self.arm_LDM_STM(
                bus,
                bit(inst, 20),
                bit(inst, 24),
                bit(inst, 23),
                bit(inst, 22),
                bit(inst, 21),
                reg_at(inst, 16),
                inst & 0xffff,
            ),
            ArmClass::Swap => self.arm_SWP(
                bus,
                bit(inst, 22),
                reg_at(inst, 16),
                reg_at(inst, 12),
                reg_at(inst, 0),
            ),
            ArmClass::HalfwordTransfer => self.arm_LDRH_LDRSB_LDRSH_STRH(
                bus,
                bit(inst, 24),
                bit(inst, 23),
                bit(inst, 22),
                bit(inst, 21),
                bit(inst, 20),
                reg_at(inst, 16),
                reg_at(inst, 12),
                reg_at(inst, 8) as u32,
                bit(inst, 6),
                bit(inst, 5),
                reg_at(inst, 0) as u32,
            ),
            ArmClass::DataProcessing => self.arm_data_proc(
                bus,
                bit(inst, 25),
                (inst >> 21u32) & 0xf,
                bit(inst, 20),
                reg_at(inst, 16),
                reg_at(inst, 12),
                inst & 0xfff,
            ),
            ArmClass::SingleTransfer => self.arm_LDR_STR(
                bus,
                bit(inst, 20),
                bit(inst, 25),
                bit(inst, 24),
                bit(inst, 23),
                bit(inst, 22),
                bit(inst, 21),
                reg_at(inst, 16),
                reg_at(inst, 12),
                inst & 0xfff,
            ),
        }
    }
}

} // verus!
