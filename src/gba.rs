//! The machine: processor, memory, interrupt and power controllers, and the tick.
use vstd::prelude::*;

use crate::bios::Bios;
use crate::bus::Bus;
use crate::cartridge::Cartridge;
use crate::bits::wadd;
use crate::control::{
    executing_address, halt_target, irq_bit, irq_pending, InterruptControl, InterruptType,
    PowerMode, SystemControl,
};
use crate::cpu::{inst_at, stepped, CPU};
use crate::exception::{entry_common, Exception};
use crate::memory::{io_hword, io_with_hword, Memory, MemoryState, HALTCNT, IF};
use crate::psr::OperatingState;

verus! {

/// The emulated machine.
pub struct GBA {
    pub cpu: CPU,
    pub memory: Memory,
    pub interrupt: InterruptControl,
    pub system: SystemControl,
}

/// One tick from processor `c0`, memory `m0` and power state `p0` to
/// machine `post`, through processor `c1` and memory `m1` after the
/// processor phase: an Active processor clears the HALTCNT flag and steps;
/// on an Active machine a pending HALTCNT write then halts or stops it; a
/// pending interrupt wakes the machine and enters IRQ with the pipeline
/// refilled. Halt and Stop change only to Active, and only that way.
pub open spec fn tick_effect(c0: CPU, c1: CPU, m0: MemoryState, m1: MemoryState, p0: PowerMode, post: GBA) -> bool {
    let p1 = if p0 == PowerMode::Active && m1.haltcnt_update {
        halt_target(m1.io[HALTCNT as int])
    } else {
        p0
    };
    &&& if p0 == PowerMode::Active {
        stepped::<Memory>(c0, c1, MemoryState { haltcnt_update: false, ..m0 }, m1)
    } else {
        c1 == c0 && m1 == m0
    }
    &&& post.memory.state() == m1
    &&& if irq_pending(m1) {
        &&& post.system.power == PowerMode::Active
        &&& entry_common(c1, post.cpu, Exception::IRQ, wadd(executing_address(c1), 4))
        &&& post.cpu.reg[15] == 0x20
        &&& post.cpu.pipeline[1] == inst_at::<Memory>(m1, 0x18, OperatingState::ARM)
        &&& post.cpu.pipeline[2] == inst_at::<Memory>(m1, 0x1c, OperatingState::ARM)
    } else {
        post.cpu == c1 && post.system.power == p1
    }
}

impl GBA {
    /// The machine is usable: its memory is well formed.
    pub open spec fn wf(&self) -> bool {
        self.memory.wf()
    }

    /// A machine in its reset state with the first two instructions fetched.
    #[must_use]
    pub fn new(bios: Bios, cartridge: Cartridge) -> (r: Self)
        requires
            bios.wf(),
        ensures
            r.wf(),
            r.memory.state().bios == bios@,
            r.memory.state().cart == cartridge@,
            r.cpu.reg[15] == 8,
            r.cpu.pipeline[1] == inst_at::<Memory>(r.memory.state(), 0, OperatingState::ARM),
            r.cpu.pipeline[2] == inst_at::<Memory>(r.memory.state(), 4, OperatingState::ARM),
            r.cpu.cpsr == crate::psr::reset_psr(),
            r.system.power == PowerMode::Active,
    {
        let mut cpu = CPU::new();
        let memory = Memory::new(bios, cartridge);
        let interrupt = InterruptControl::new();
        let system = SystemControl::new();
        cpu.pipeline[1] = cpu.fetch(&memory);
        cpu.pipeline[2] = cpu.fetch(&memory);
        GBA { cpu, memory, interrupt, system }
    }

    /// One tick: an Active processor clears the HALTCNT flag and steps; an
    /// Active or halted machine steps the power controller; then pending
    /// interrupts are taken.
    pub fn step(&mut self)
        requires
            old(self).wf(),
        ensures
            final(self).wf(),
            ({
                let p0 = old(self).system.power;
                let m0 = old(self).memory.state();
                exists|c1: CPU, m1: MemoryState|
                    #![trigger tick_effect(old(self).cpu, c1, m0, m1, p0, *final(self))]
                    tick_effect(old(self).cpu, c1, m0, m1, p0, *final(self))
            }),
    {
        let power = self.system.get_power_mode();
        if power == PowerMode::Active {
            self.memory.clear_haltcnt_update();
            self.cpu.step(&mut self.memory);
        }
        let ghost c1 = self.cpu;
        let ghost m1 = self.memory.state();
        if power == PowerMode::Active || power == PowerMode::Halt {
            self.system.step(&self.memory);
        }
        self.interrupt.step(&mut self.cpu, &mut self.memory, &mut self.system);
        assert(tick_effect(old(self).cpu, c1, old(self).memory.state(), m1, power, *self));
    }

    /// Asserts `interrupt`: sets its bit in IF, as every source does.
    pub fn request_interrupt(&mut self, interrupt: InterruptType)
        requires
            old(self).wf(),
        ensures
            final(self).wf(),
            ({
                let s0 = old(self).memory.state();
                final(self).memory.state() == MemoryState {
                    io: io_with_hword(s0.io, IF, io_hword(s0.io, IF) | (1u16 << (irq_bit(interrupt) as u16))),
                    ..s0
                }
            }),
            final(self).cpu == old(self).cpu,
    {
        self.interrupt.interrupt_request(&mut self.memory, interrupt);
    }
}

} // verus!

verus! {

/// A halted or stopped machine with no interrupt pending keeps its
/// processor, memory and power state through a tick.
pub proof fn lemma_idle_machine_stays(c0: CPU, c1: CPU, m0: MemoryState, m1: MemoryState, p0: PowerMode, post: GBA)
    requires
        tick_effect(c0, c1, m0, m1, p0, post),
        p0 != PowerMode::Active,
        !irq_pending(m0),
    ensures
        post.cpu == c0,
        post.memory.state() == m0,
        post.system.power == p0,
{
}

} // verus!
