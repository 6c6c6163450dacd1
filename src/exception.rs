//! Exception entry: vector dispatch, mode switch, SPSR save, LR set-up.
use vstd::prelude::*;

use crate::bus::{word_in, Bus};
use crate::cpu::{bank_view, fiq_high, user_high, CPU, LR_INDEX, PC_INDEX};
use crate::psr::{bank_of, pack, OperatingMode, OperatingState, ProgramStatusRegister};

verus! {

/// The exception kinds.
#[derive(Clone, Copy, PartialEq, Eq, Structural, Debug)]
pub enum Exception {
    Reset,
    DataAbort,
    FIQ,
    IRQ,
    PrefetchAbort,
    Undefined,
    SoftwareInterrupt,
}

/// The fixed vector address of each exception.
pub open spec fn vector_of(e: Exception) -> u32 {
    match e {
        Exception::Reset => 0x00,
        Exception::Undefined => 0x04,
        Exception::SoftwareInterrupt => 0x08,
        Exception::PrefetchAbort => 0x0c,
        Exception::DataAbort => 0x10,
        Exception::IRQ => 0x18,
        Exception::FIQ => 0x1c,
    }
}

/// The mode each exception enters.
pub open spec fn target_mode(e: Exception) -> OperatingMode {
    match e {
        Exception::Reset | Exception::SoftwareInterrupt => OperatingMode::svc,
        Exception::DataAbort | Exception::PrefetchAbort => OperatingMode::abt,
        Exception::FIQ => OperatingMode::fiq,
        Exception::IRQ => OperatingMode::irq,
        Exception::Undefined => OperatingMode::und,
    }
}

/// The status register on entry to `e` from status `p`: the target mode,
/// wide state, IRQs masked, and FIQs masked too for Reset and FIQ.
pub open spec fn entry_psr(p: ProgramStatusRegister, e: Exception) -> ProgramStatusRegister {
    ProgramStatusRegister {
        mode: target_mode(e),
        operating_state: OperatingState::ARM,
        irq_disable_bit: true,
        fiq_disable_bit: p.fiq_disable_bit || e == Exception::Reset || e == Exception::FIQ,
        ..p
    }
}

/// `post` is `pre` after entering `e` with return address `ret`: status as
/// `entry_psr`, SPSR the packed old status, LR the return address, PC the
/// vector; every other bank, both high-register sets, R0-R7 and the pipeline keep
/// their contents.
pub open spec fn exception_entered(pre: CPU, post: CPU, e: Exception, ret: u32) -> bool {
    &&& entry_common(pre, post, e, ret)
    &&& post.reg[15] == vector_of(e)
    &&& post.pipeline == pre.pipeline
}

/// What entering `e` with return address `ret` fixes, PC and pipeline aside.
pub open spec fn entry_common(pre: CPU, post: CPU, e: Exception, ret: u32) -> bool {
    &&& post.cpsr == entry_psr(pre.cpsr, e)
    &&& post.spsr == pack(pre.cpsr)
    &&& post.reg[14] == ret
    &&& forall|b: int|
        0 <= b < 6 && b != bank_of(target_mode(e)) ==> #[trigger] bank_view(post, b) == bank_view(
            pre,
            b,
        )
    &&& forall|i: int|
        0 <= i < 5 ==> #[trigger] user_high(post, i) == user_high(pre, i) && fiq_high(post, i)
            == fiq_high(pre, i)
    &&& forall|r: int| 0 <= r < 8 ==> #[trigger] post.reg[r] == pre.reg[r]
}

/// `post` is `pre` after taking `e` during execution: the exception is
/// entered and the pipeline flushed at the vector.
pub open spec fn trapped<B: Bus>(pre: CPU, post: CPU, e: Exception, ret: u32, s: B::State) -> bool {
    &&& entry_common(pre, post, e, ret)
    &&& post.reg[15] == vector_of(e) + 4
    &&& post.pipeline@ == pre.pipeline@.update(1, word_in::<B>(s, vector_of(e)))
}

impl Exception {
    /// The vector address.
    pub fn get_vector_address(self) -> (r: u32)
        ensures
            r == vector_of(self),
    {
        match self {
            Exception::Reset => 0x00,
            Exception::Undefined => 0x04,
            Exception::SoftwareInterrupt => 0x08,
            Exception::PrefetchAbort => 0x0c,
            Exception::DataAbort => 0x10,
            Exception::IRQ => 0x18,
            Exception::FIQ => 0x1c,
        }
    }

    /// The mode entered.
    pub fn get_mode(self) -> (r: OperatingMode)
        ensures
            r == target_mode(self),
    {
        match self {
            Exception::Reset | Exception::SoftwareInterrupt => OperatingMode::svc,
            Exception::DataAbort | Exception::PrefetchAbort => OperatingMode::abt,
            Exception::FIQ => OperatingMode::fiq,
            Exception::IRQ => OperatingMode::irq,
            Exception::Undefined => OperatingMode::und,
        }
    }
}

impl CPU {
    /// Enters `exception`: switches banks to its mode, saves the old status
    /// in the new SPSR and `next_address` in the new LR, selects wide state,
    /// masks interrupts and jumps to the vector. The caller refills the pipeline.
    pub fn enter_exception(&mut self, exception: Exception, next_address: u32)
        ensures
            exception_entered(*old(self), *final(self), exception, next_address),
    {
        let saved = self.cpsr.to_bits();
        let mode = exception.get_mode();
        self.set_mode(mode);
        let ghost mid = *self;
        self.reg[LR_INDEX] = next_address;
        self.spsr = saved;
        self.cpsr.operating_state = OperatingState::ARM;
        self.cpsr.irq_disable_bit = true;
        if exception == Exception::FIQ || exception == Exception::Reset {
            self.cpsr.fiq_disable_bit = true;
        }
        self.reg[PC_INDEX] = exception.get_vector_address();
        proof {
            let pre = *old(self);
            let post = *self;
            assert forall|b: int| 0 <= b < 6 && b != bank_of(target_mode(exception)) implies #[trigger] bank_view(post, b)
                == bank_view(pre, b) by {
                assert(bank_view(mid, b) == bank_view(pre, b));
            }
            assert forall|i: int| 0 <= i < 5 implies #[trigger] user_high(post, i) == user_high(pre, i) && fiq_high(post, i)
                == fiq_high(pre, i) by {
                assert(user_high(mid, i) == user_high(pre, i));
                assert(post.reg[8 + i] == mid.reg[8 + i]);
            }
        }
    }

    /// Takes `exception` from within an instruction: enters it and refetches at the vector.
    pub fn take_exception<B: Bus>(&mut self, bus: &B, exception: Exception, next_address: u32)
        requires
            bus.wf(),
        ensures
            trapped::<B>(*old(self), *final(self), exception, next_address, bus.state()),
    {
        self.enter_exception(exception, next_address);
        let ghost mid = *self;
        self.flush_pipeline(bus);
        proof {
            let pre = *old(self);
            let post = *self;
            assert forall|b: int| 0 <= b < 6 && b != bank_of(target_mode(exception)) implies #[trigger] bank_view(post, b)
                == bank_view(pre, b) by {
                assert(bank_view(mid, b) == bank_view(pre, b));
            }
            assert forall|i: int| 0 <= i < 5 implies #[trigger] user_high(post, i) == user_high(pre, i) && fiq_high(post, i)
                == fiq_high(pre, i) by {
                assert(user_high(mid, i) == user_high(pre, i));
                assert(post.reg[8 + i] == mid.reg[8 + i]);
            }
            assert forall|r: int| 0 <= r < 8 implies #[trigger] post.reg[r] == pre.reg[r] by {
                assert(mid.reg[r] == pre.reg[r]);
            }
            let v = vector_of(exception);
            assert(v & !3u32 == v) by (bit_vector)
                requires
                    v == 0 || v == 4 || v == 8 || v == 12 || v == 16 || v == 24 || v == 28,
            ;
        }
    }
}

} // verus!
