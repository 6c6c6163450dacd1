//! The register file: visible registers, per-mode banks, the FIQ shadow set,
//! the status registers and the three-slot pipeline.
use vstd::prelude::*;

use crate::alu::cond_holds;
use crate::bits::{wadd, wsub};
use crate::bus::{hword_in, read_hword, read_word, word_in, Bus};
use crate::psr::{
    bank_of, reset_psr, unpack, IllegalModeEncoding, OperatingMode, OperatingState, ProgramStatusRegister,
};

verus! {

pub const PC_INDEX: usize = 15;
pub const LR_INDEX: usize = 14;
pub const SP_INDEX: usize = 13;

/// The (SP, LR, SPSR) triple private to a bank.
#[derive(Clone, Copy, PartialEq, Eq, Structural, Debug)]
pub struct BankedRegisters {
    pub sp: u32,
    pub lr: u32,
    pub spsr: u32,
}

impl BankedRegisters {
    /// A zeroed triple.
    pub fn new() -> (r: Self)
        ensures
            r == (BankedRegisters { sp: 0, lr: 0, spsr: 0 }),
    {
        BankedRegisters { sp: 0, lr: 0, spsr: 0 }
    }
}

/// The processor state.
#[derive(Clone, Copy)]
pub struct CPU {
    pub reg: [u32; 16],
    pub fiq_r8_12_banked: [u32; 5],
    pub banks: [BankedRegisters; 6],
    pub cpsr: ProgramStatusRegister,
    pub spsr: u32,
    pub pipeline: [u32; 3],
}

/// Bytes per instruction in a state.
pub open spec fn inst_size(st: OperatingState) -> u32 {
    match st {
        OperatingState::ARM => 4,
        OperatingState::THUMB => 2,
    }
}

/// `pc` with the low bits that an instruction of state `st` cannot use cleared.
pub open spec fn align_pc(pc: u32, st: OperatingState) -> u32 {
    match st {
        OperatingState::ARM => pc & !3u32,
        OperatingState::THUMB => pc & !1u32,
    }
}

/// The instruction word at `addr` in state `st`.
pub open spec fn inst_at<B: Bus>(s: B::State, addr: u32, st: OperatingState) -> u32 {
    match st {
        OperatingState::ARM => word_in::<B>(s, addr),
        OperatingState::THUMB => hword_in::<B>(s, addr) as u32,
    }
}

/// The (SP, LR, SPSR) that bank `b` holds: the visible registers for the
/// current mode's bank, the stored entry for every other bank.
pub open spec fn bank_view(c: CPU, b: int) -> BankedRegisters {
    if b == bank_of(c.cpsr.mode) {
        BankedRegisters { sp: c.reg[13], lr: c.reg[14], spsr: c.spsr }
    } else {
        c.banks[b]
    }
}

/// Register 8 + i of the set that every mode but FIQ uses.
pub open spec fn user_high(c: CPU, i: int) -> u32 {
    if c.cpsr.mode == OperatingMode::fiq {
        c.fiq_r8_12_banked[i]
    } else {
        c.reg[8 + i]
    }
}

/// Register 8 + i of the FIQ set.
pub open spec fn fiq_high(c: CPU, i: int) -> u32 {
    if c.cpsr.mode == OperatingMode::fiq {
        c.reg[8 + i]
    } else {
        c.fiq_r8_12_banked[i]
    }
}

/// `post` is `pre` after the bank switch of a mode change to `post.cpsr.mode`:
/// every bank and both high-register sets keep their contents, the stored
/// entries of the banks not left are untouched, and R0-R7, PC and the
/// pipeline do not change.
pub open spec fn banks_switched(pre: CPU, post: CPU) -> bool {
    &&& forall|b: int| 0 <= b < 6 ==> #[trigger] bank_view(post, b) == bank_view(pre, b)
    &&& forall|b: int|
        0 <= b < 6 && (b != bank_of(pre.cpsr.mode) || bank_of(pre.cpsr.mode) == bank_of(
            post.cpsr.mode,
        )) ==> #[trigger] post.banks[b] == pre.banks[b]
    &&& forall|i: int|
        0 <= i < 5 ==> #[trigger] user_high(post, i) == user_high(pre, i) && fiq_high(post, i)
            == fiq_high(pre, i)
    &&& forall|r: int| 0 <= r < 8 || r == 15 ==> #[trigger] post.reg[r] == pre.reg[r]
    &&& post.pipeline == pre.pipeline
}

/// `post` differs from `pre` at most in the registers and the pipeline.
pub open spec fn same_status(pre: CPU, post: CPU) -> bool {
    &&& post.cpsr == pre.cpsr
    &&& post.spsr == pre.spsr
    &&& post.banks == pre.banks
    &&& post.fiq_r8_12_banked == pre.fiq_r8_12_banked
}

/// `post` is `pre` after a fetch in state `st`: the word at PC enters the
/// result and PC advances by one instruction.
pub open spec fn fetched<B: Bus>(pre: CPU, post: CPU, s: B::State, r: u32) -> bool {
    let st = pre.cpsr.operating_state;
    &&& r == inst_at::<B>(s, pre.reg[15], st)
    &&& post.reg@ == pre.reg@.update(15, wadd(pre.reg[15], inst_size(st)))
    &&& post.pipeline == pre.pipeline
    &&& same_status(pre, post)
}

/// `post` is `pre` after a pipeline flush: PC is aligned, the instruction
/// there fills slot 1 and PC advances by one instruction.
pub open spec fn flushed<B: Bus>(pre: CPU, post: CPU, s: B::State) -> bool {
    let st = pre.cpsr.operating_state;
    let a = align_pc(pre.reg[15], st);
    &&& post.reg@ == pre.reg@.update(15, wadd(a, inst_size(st)))
    &&& post.pipeline@ == pre.pipeline@.update(1, inst_at::<B>(s, a, st))
    &&& same_status(pre, post)
}

/// `post` is `pre` with PC set to `target` and the pipeline flushed there.
pub open spec fn redirected<B: Bus>(pre: CPU, post: CPU, target: u32, s: B::State) -> bool {
    jumped::<B>(pre, pre.reg@, post, target, s)
}

/// `post` is `pre` with register file `regs`, then PC set to `target` and the
/// pipeline flushed there.
pub open spec fn jumped<B: Bus>(pre: CPU, regs: Seq<u32>, post: CPU, target: u32, s: B::State) -> bool {
    let st = pre.cpsr.operating_state;
    let a = align_pc(target, st);
    &&& post.reg@ == regs.update(15, wadd(a, inst_size(st)))
    &&& post.pipeline@ == pre.pipeline@.update(1, inst_at::<B>(s, a, st))
    &&& same_status(pre, post)
}

/// `post` and bus `s1` result from executing `instr` in `c` with bus `s0`:
/// a wide instruction runs only when its condition holds.
pub open spec fn executed<B: Bus>(c: CPU, post: CPU, s0: B::State, s1: B::State, instr: u32) -> bool {
    match c.cpsr.operating_state {
        OperatingState::ARM => if cond_holds(instr >> 28u32, c.cpsr) {
            crate::arm::arm_effect::<B>(c, post, s0, s1, instr)
        } else {
            post == c && s1 == s0
        },
        OperatingState::THUMB => crate::thumb::thumb_effect::<B>(c, post, s0, s1, instr & 0xffff),
    }
}

/// `post` and bus `s1` result from one pipeline step of `pre` on bus `s0`:
/// the slots advance, slot 0 executes, and the word at PC fills slot 2.
pub open spec fn stepped<B: Bus>(pre: CPU, post: CPU, s0: B::State, s1: B::State) -> bool {
    exists|c1: CPU, c2: CPU|
        #![trigger executed::<B>(c1, c2, s0, s1, pre.pipeline[1])]
        {
            &&& c1.reg == pre.reg
            &&& same_status(pre, c1)
            &&& c1.pipeline@ == seq![pre.pipeline[1], pre.pipeline[2], pre.pipeline[2]]
            &&& executed::<B>(c1, c2, s0, s1, pre.pipeline[1])
            &&& fetched::<B>(c2, CPU { pipeline: c2.pipeline, ..post }, s1, post.pipeline[2])
            &&& post.pipeline@ == c2.pipeline@.update(2, post.pipeline[2])
        }
}

/// Bank switch, then a PSR: `post` is `pre` in mode `p.mode` with status `p`.
pub open spec fn mode_set(pre: CPU, post: CPU, p: ProgramStatusRegister) -> bool {
    &&& banks_switched(pre, post)
    &&& post.cpsr == p
}

proof fn lemma_align_bound(pc: u32)
    by (bit_vector)
    ensures
        pc & !3u32 <= 0xffff_fffc,
        pc & !1u32 <= 0xffff_fffe,
        (pc & !3u32) % 4 == 0,
        (pc & !1u32) % 2 == 0,
{
}

pub(crate) proof fn lemma_switch_sees_mode_only(pre: CPU, x: CPU, post: CPU)
    requires
        banks_switched(pre, x),
        x.cpsr.mode == post.cpsr.mode,
        x.reg == post.reg,
        x.banks == post.banks,
        x.fiq_r8_12_banked == post.fiq_r8_12_banked,
        x.spsr == post.spsr,
        x.pipeline == post.pipeline,
    ensures
        banks_switched(pre, post),
{
    assert forall|b: int| 0 <= b < 6 implies #[trigger] bank_view(post, b) == bank_view(pre, b) by {
        assert(bank_view(x, b) == bank_view(pre, b));
    }
    assert forall|i: int| 0 <= i < 5 implies #[trigger] user_high(post, i) == user_high(pre, i)
        && fiq_high(post, i) == fiq_high(pre, i) by {
        assert(user_high(x, i) == user_high(pre, i));
    }
    assert forall|b: int|
        0 <= b < 6 && (b != bank_of(pre.cpsr.mode) || bank_of(pre.cpsr.mode) == bank_of(
            post.cpsr.mode,
        )) implies #[trigger] post.banks[b] == pre.banks[b] by {
        assert(x.banks[b] == pre.banks[b]);
    }
    assert forall|r: int| 0 <= r < 8 || r == 15 implies #[trigger] post.reg[r] == pre.reg[r] by {
        assert(x.reg[r] == pre.reg[r]);
    }
}

impl CPU {
    /// The reset state: registers zero, Supervisor mode, wide state, interrupts masked.
    pub fn new() -> (r: Self)
        ensures
            forall|i: int| 0 <= i < 16 ==> r.reg[i] == 0,
            forall|i: int| 0 <= i < 5 ==> r.fiq_r8_12_banked[i] == 0,
            forall|i: int|
                0 <= i < 6 ==> r.banks[i] == (BankedRegisters { sp: 0, lr: 0, spsr: 0 }),
            r.cpsr == reset_psr(),
            r.spsr == 0,
            forall|i: int| 0 <= i < 3 ==> r.pipeline[i] == 0,
    {
        CPU {
            reg: [0u32; 16],
            fiq_r8_12_banked: [0u32; 5],
            banks: [BankedRegisters::new();6],
            cpsr: ProgramStatusRegister::new(),
            spsr: 0,
            pipeline: [0u32; 3],
        }
    }

    fn swap_fiq_high(&mut self)
        ensures
            forall|i: int|
                0 <= i < 5 ==> final(self).reg[8 + i] == old(self).fiq_r8_12_banked[i]
                    && final(self).fiq_r8_12_banked[i] == old(self).reg[8 + i],
            forall|r: int| 0 <= r < 8 || 13 <= r < 16 ==> final(self).reg[r] == old(self).reg[r],
            final(self).cpsr == old(self).cpsr,
            final(self).spsr == old(self).spsr,
            final(self).banks == old(self).banks,
            final(self).pipeline == old(self).pipeline,
    {
        let t8 = self.reg[8];
        self.reg[8] = self.fiq_r8_12_banked[0];
        self.fiq_r8_12_banked[0] = t8;
        let t9 = self.reg[9];
        self.reg[9] = self.fiq_r8_12_banked[1];
        self.fiq_r8_12_banked[1] = t9;
        let t10 = self.reg[10];
        self.reg[10] = self.fiq_r8_12_banked[2];
        self.fiq_r8_12_banked[2] = t10;
        let t11 = self.reg[11];
        self.reg[11] = self.fiq_r8_12_banked[3];
        self.fiq_r8_12_banked[3] = t11;
        let t12 = self.reg[12];
        self.reg[12] = self.fiq_r8_12_banked[4];
        self.fiq_r8_12_banked[4] = t12;
    }

    /// The bank-switch protocol: save the outgoing mode's SP, LR and SPSR,
    /// load the incoming mode's, and swap R8-R12 when exactly one side is FIQ.
    fn set_bank(&mut self, mode: OperatingMode)
        ensures
            banks_switched(
                *old(self),
                CPU { cpsr: ProgramStatusRegister { mode, ..final(self).cpsr }, ..*final(self) },
            ),
            final(self).cpsr == old(self).cpsr,
    {
        let old_bank_index = self.cpsr.mode.current_bank_index();
        let new_bank_index = mode.current_bank_index();
        if old_bank_index == new_bank_index {
            return;
        }
        self.banks[old_bank_index] = BankedRegisters {
            sp: self.reg[SP_INDEX],
            lr: self.reg[LR_INDEX],
            spsr: self.spsr,
        };
        self.reg[SP_INDEX] = self.banks[new_bank_index].sp;
        self.reg[LR_INDEX] = self.banks[new_bank_index].lr;
        self.spsr = self.banks[new_bank_index].spsr;
        let ghost mid = *self;
        if self.cpsr.mode == OperatingMode::fiq || mode == OperatingMode::fiq {
            self.swap_fiq_high();
        }
        proof {
            let pre = *old(self);
            let post = CPU { cpsr: ProgramStatusRegister { mode, ..self.cpsr }, ..*self };
            assert forall|b: int| 0 <= b < 6 implies #[trigger] bank_view(post, b) == bank_view(
                pre,
                b,
            ) by {
                if b == old_bank_index {
                } else if b == new_bank_index {
                } else {
                }
            }
            assert forall|i: int| 0 <= i < 5 implies #[trigger] user_high(post, i) == user_high(
                pre,
                i,
            ) && fiq_high(post, i) == fiq_high(pre, i) by {
                assert(mid.reg[8 + i] == pre.reg[8 + i]);
                if pre.cpsr.mode == OperatingMode::fiq || mode == OperatingMode::fiq {
                    assert(post.reg[8 + i] == mid.fiq_r8_12_banked[i]);
                    assert(post.fiq_r8_12_banked[i] == mid.reg[8 + i]);
                } else {
                    assert(post.reg[8 + i] == mid.reg[8 + i]);
                }
            }
            assert forall|r: int| 0 <= r < 8 || r == 15 implies #[trigger] post.reg[r]
                == pre.reg[r] by {}
        }
    }

    /// Switches to `mode` through the bank-switch protocol; the rest of the
    /// status register is kept.
    pub fn set_mode(&mut self, mode: OperatingMode)
        ensures
            mode_set(*old(self), *final(self), ProgramStatusRegister { mode, ..old(self).cpsr }),
            visible(*final(self)) == bank_view(*old(self), bank_of(mode)),
            bank_of(mode) != bank_of(old(self).cpsr.mode) ==> final(self).banks[bank_of(
                old(self).cpsr.mode,
            )] == visible(*old(self)),
            forall|b: int|
                0 <= b < 6 && b != bank_of(old(self).cpsr.mode) ==> #[trigger] final(self).banks[b]
                    == old(self).banks[b],
    {
        self.set_bank(mode);
        self.cpsr.mode = mode;
        proof {
            let b = bank_of(mode);
            let a = bank_of(old(self).cpsr.mode);
            assert(0 <= b < 6 && 0 <= a < 6);
            assert(bank_view(*self, b) == bank_view(*old(self), b));
            assert(bank_view(*self, a) == bank_view(*old(self), a));
        }
    }

    /// Copies SPSR into the status register, switching banks for its mode.
    /// A saved word with an illegal mode field changes nothing and is reported.
    pub fn restore_spsr(&mut self) -> (r: Result<(), IllegalModeEncoding>)
        ensures
            match unpack(old(self).spsr) {
                Ok(p) => r is Ok && mode_set(*old(self), *final(self), p),
                Err(e) => r == Err::<(), IllegalModeEncoding>(e) && *final(self) == *old(self),
            },
    {
        match ProgramStatusRegister::from_bits(self.spsr) {
            Ok(cpsr) => {
                self.set_bank(cpsr.mode);
                let ghost x = CPU {
                    cpsr: ProgramStatusRegister { mode: cpsr.mode, ..self.cpsr },
                    ..*self
                };
                self.cpsr = cpsr;
                proof {
                    lemma_switch_sees_mode_only(*old(self), x, *self);
                }
                Ok(())
            },
            Err(e) => Err(e),
        }
    }

    /// Reads the instruction at PC and advances PC by one instruction.
    pub fn fetch<B: Bus>(&mut self, bus: &B) -> (r: u32)
        requires
            bus.wf(),
        ensures
            fetched::<B>(*old(self), *final(self), bus.state(), r),
    {
        let addr = self.reg[PC_INDEX];
        match self.cpsr.operating_state {
            OperatingState::ARM => {
                let instr = read_word(bus, addr);
                self.reg[PC_INDEX] = addr.wrapping_add(4);
                instr
            },
            OperatingState::THUMB => {
                let instr = read_hword(bus, addr) as u32;
                self.reg[PC_INDEX] = addr.wrapping_add(2);
                instr
            },
        }
    }

    /// Discards the prefetched words: aligns PC and refetches slot 1 there.
    pub fn flush_pipeline<B: Bus>(&mut self, bus: &B)
        requires
            bus.wf(),
        ensures
            flushed::<B>(*old(self), *final(self), bus.state()),
            final(self).reg[15] % inst_size(final(self).cpsr.operating_state) == 0,
    {
        proof {
            lemma_align_bound(self.reg[PC_INDEX as int]);
        }
        match self.cpsr.operating_state {
            OperatingState::ARM => {
                self.reg[PC_INDEX] = self.reg[PC_INDEX] & !3u32;
            },
            OperatingState::THUMB => {
                self.reg[PC_INDEX] = self.reg[PC_INDEX] & !1u32;
            },
        }
        self.pipeline[1] = self.fetch(bus);
        assert(self.pipeline@ =~= old(self).pipeline@.update(
            1,
            inst_at::<B>(
                bus.state(),
                align_pc(old(self).reg[15], old(self).cpsr.operating_state),
                old(self).cpsr.operating_state,
            ),
        ));
        assert(self.reg@ =~= old(self).reg@.update(
            15,
            wadd(
                align_pc(old(self).reg[15], old(self).cpsr.operating_state),
                inst_size(old(self).cpsr.operating_state),
            ),
        ));
    }

    /// Writes `target` to PC and flushes the pipeline there.
    pub fn branch_to<B: Bus>(&mut self, bus: &B, target: u32)
        requires
            bus.wf(),
        ensures
            redirected::<B>(*old(self), *final(self), target, bus.state()),
            final(self).reg[15] % inst_size(final(self).cpsr.operating_state) == 0,
    {
        self.reg[PC_INDEX] = target;
        self.flush_pipeline(bus);
        assert(self.reg@ =~= old(self).reg@.update(
            15,
            wadd(
                align_pc(target, old(self).cpsr.operating_state),
                inst_size(old(self).cpsr.operating_state),
            ),
        ));
    }

    /// A flush followed by a second fetch, for a PC change outside instruction
    /// execution: slots 1 and 2 hold the two instructions at the new PC.
    pub fn refill_pipeline<B: Bus>(&mut self, bus: &B)
        requires
            bus.wf(),
        ensures
            ({
                let st = old(self).cpsr.operating_state;
                let a = align_pc(old(self).reg[15], st);
                &&& final(self).reg@ == old(self).reg@.update(15, wadd(a, (2 * inst_size(st)) as u32))
                &&& final(self).pipeline[1] == inst_at::<B>(bus.state(), a, st)
                &&& final(self).pipeline[2] == inst_at::<B>(
                    bus.state(),
                    wadd(a, inst_size(st)),
                    st,
                )
                &&& final(self).pipeline[0] == old(self).pipeline[0]
                &&& same_status(*old(self), *final(self))
            }),
    {
        proof {
            lemma_align_bound(self.reg[PC_INDEX as int]);
        }
        self.flush_pipeline(bus);
        self.pipeline[2] = self.fetch(bus);
    }

    /// Executes an instruction word in the current state.
    pub fn execute<B: Bus>(&mut self, bus: &mut B, instr: u32)
        requires
            old(bus).wf(),
        ensures
            final(bus).wf(),
            executed::<B>(*old(self), *final(self), old(bus).state(), final(bus).state(), instr),
    {
        match self.cpsr.operating_state {
            OperatingState::ARM => self.arm_opcodes(bus, instr),
            OperatingState::THUMB => {
                proof {
                    crate::bits::lemma_mask_bounds(instr);
                }
                self.thumb_opcodes(bus, (instr & 0xffff) as u16)
            },
        }
    }

    /// One pipeline step: the slots advance, the instruction in slot 0 is
    /// executed, and the word at PC is fetched into slot 2.
    pub fn step<B: Bus>(&mut self, bus: &mut B)
        requires
            old(bus).wf(),
        ensures
            final(bus).wf(),
            stepped::<B>(*old(self), *final(self), old(bus).state(), final(bus).state()),
    {
        self.pipeline[0] = self.pipeline[1];
        self.pipeline[1] = self.pipeline[2];
        let ghost c1 = *self;
        let instr = self.pipeline[0];
        self.execute(bus, instr);
        let ghost c2 = *self;
        let next = self.fetch(bus);
        let ghost c3 = *self;
        self.pipeline[2] = next;
        proof {
            assert(c1.pipeline@ =~= seq![old(self).pipeline[1], old(self).pipeline[2], old(self).pipeline[2]]);
            assert(self.pipeline@ =~= c2.pipeline@.update(2, next));
            assert(CPU { pipeline: c2.pipeline, ..*self } == c3);
        }
    }

    /// Reads register `idx` of the current mode's view.
    pub fn read(&self, idx: usize) -> (r: u32)
        requires
            idx < 16,
        ensures
            r == self.reg[idx as int],
    {
        self.reg[idx]
    }

    /// Writes register `idx` of the current mode's view; nothing else changes.
    pub fn write(&mut self, idx: usize, val: u32)
        requires
            idx < 16,
        ensures
            final(self).reg@ == old(self).reg@.update(idx as int, val),
            final(self).pipeline == old(self).pipeline,
            same_status(*old(self), *final(self)),
    {
        self.reg[idx] = val;
    }

    /// Address of the wide instruction being executed (PC reads 8 ahead).
    pub fn arm_pc(&self) -> (r: u32)
        ensures
            r == wsub(self.reg[15], 8),
    {
        self.reg[PC_INDEX].wrapping_sub(8)
    }

    /// Address of the narrow instruction being executed (PC reads 4 ahead).
    pub fn thumb_pc(&self) -> (r: u32)
        ensures
            r == wsub(self.reg[15], 4),
    {
        self.reg[PC_INDEX].wrapping_sub(4)
    }
}

/// In a freshly reset processor every bank holds zero SP, LR and SPSR.
pub proof fn lemma_reset_banks_are_zero(c: CPU)
    requires
        forall|i: int| 0 <= i < 16 ==> c.reg[i] == 0,
        forall|i: int| 0 <= i < 6 ==> c.banks[i] == (BankedRegisters { sp: 0, lr: 0, spsr: 0 }),
        c.spsr == 0,
    ensures
        forall|b: int| 0 <= b < 6 ==> #[trigger] bank_view(c, b) == (BankedRegisters { sp: 0, lr: 0, spsr: 0 }),
{
}

/// The SP, LR and SPSR that the current mode sees.
pub open spec fn visible(c: CPU) -> BankedRegisters {
    BankedRegisters { sp: c.reg[13], lr: c.reg[14], spsr: c.spsr }
}

/// One step of a run: a mode change, or any writes to the registers and
/// SPSR within the current mode.
pub open spec fn run_step(pre: CPU, post: CPU) -> bool {
    banks_switched(pre, post) || (post.cpsr == pre.cpsr && post.banks == pre.banks)
}

/// Every consecutive pair of `cs` is a run step.
pub open spec fn is_run(cs: Seq<CPU>) -> bool {
    forall|j: int| 0 <= j < cs.len() - 1 ==> #[trigger] run_step(cs[j], cs[j + 1])
}

proof fn lemma_bank_held(cs: Seq<CPU>, i: int, j: int, b: int)
    requires
        is_run(cs),
        0 <= i <= j < cs.len(),
        bank_of(cs[i].cpsr.mode) == b,
        forall|m: int| i < m <= j ==> bank_of(#[trigger] cs[m].cpsr.mode) != b,
    ensures
        bank_view(cs[j], b) == visible(cs[i]),
    decreases j - i,
{
    if j > i {
        lemma_bank_held(cs, i, j - 1, b);
        let k = j - 1;
        assert(run_step(cs[k], cs[k + 1]));
        assert(bank_of(cs[j].cpsr.mode) != b);
        if !banks_switched(cs[k], cs[k + 1]) {
            assert(k > i);
            assert(bank_of(cs[k].cpsr.mode) != b);
        } else {
            assert(0 <= b < 6);
        }
    }
}

proof fn lemma_bank_untouched(cs: Seq<CPU>, j: int, b: int)
    requires
        is_run(cs),
        0 <= j < cs.len(),
        0 <= b < 6,
        forall|m: int| 0 <= m <= j ==> bank_of(#[trigger] cs[m].cpsr.mode) != b,
    ensures
        bank_view(cs[j], b) == bank_view(cs[0], b),
    decreases j,
{
    if j > 0 {
        lemma_bank_untouched(cs, j - 1, b);
        let k = j - 1;
        assert(run_step(cs[k], cs[k + 1]));
        assert(bank_of(cs[k].cpsr.mode) != b && bank_of(cs[j].cpsr.mode) != b);
    }
}

/// After any run of mode changes and register writes that ends with a
/// change into a mode of bank `b`, the visible SP, LR and SPSR are those the
/// processor last had while in a mode of bank `b` (state `cs[i]`, the last
/// one before the end in that bank).
pub proof fn lemma_bank_consistency(cs: Seq<CPU>, i: int)
    requires
        is_run(cs),
        cs.len() >= 2,
        0 <= i < cs.len() - 1,
        banks_switched(cs[cs.len() - 2], cs.last()),
        bank_of(cs[i].cpsr.mode) == bank_of(cs.last().cpsr.mode),
        forall|m: int|
            i < m < cs.len() - 1 ==> bank_of(#[trigger] cs[m].cpsr.mode) != bank_of(
                cs.last().cpsr.mode,
            ),
    ensures
        visible(cs.last()) == visible(cs[i]),
{
    let n = cs.len();
    let b = bank_of(cs.last().cpsr.mode);
    lemma_bank_held(cs, i, n - 2, b);
    assert(0 <= b < 6);
    assert(bank_view(cs[n - 1], b) == bank_view(cs[n - 2], b));
}

/// After such a run into a mode of bank `b` that never visited bank `b`
/// before, the visible SP, LR and SPSR are what bank `b` held at the start:
/// zero from reset.
pub proof fn lemma_bank_never_entered(cs: Seq<CPU>)
    requires
        is_run(cs),
        cs.len() >= 2,
        banks_switched(cs[cs.len() - 2], cs.last()),
        forall|m: int|
            0 <= m < cs.len() - 1 ==> bank_of(#[trigger] cs[m].cpsr.mode) != bank_of(
                cs.last().cpsr.mode,
            ),
    ensures
        visible(cs.last()) == bank_view(cs[0], bank_of(cs.last().cpsr.mode)),
{
    let n = cs.len();
    let b = bank_of(cs.last().cpsr.mode);
    assert(0 <= b < 6);
    lemma_bank_untouched(cs, n - 2, b);
    assert(bank_view(cs[n - 1], b) == bank_view(cs[n - 2], b));
}

} // verus!
