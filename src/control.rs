//! The interrupt controller and the power (system) controller.
use vstd::prelude::*;

use crate::bits::{wadd, wsub};
use crate::bus::Bus;
use crate::cpu::{align_pc, inst_at, inst_size, CPU};
use crate::exception::{entry_common, Exception};
use crate::memory::{io_hword, io_with_hword, Memory, MemoryState, HALTCNT, IE, IF, IME, IO_SIZE, WAITCNT};
use crate::psr::OperatingState;

verus! {

/// Interrupt sources, by their bit in IE and IF.
#[derive(Clone, Copy, PartialEq, Eq, Structural, Debug)]
pub enum InterruptType {
    VBlank,
    HBlank,
    VCounter,
    Timer0,
    Timer1,
    Timer2,
    Timer3,
    Serial,
    DMA0,
    DMA1,
    DMA2,
    DMA3,
    Keypad,
    Cartridge,
}

/// The bit of each interrupt source.
pub open spec fn irq_bit(t: InterruptType) -> u32 {
    match t {
        InterruptType::VBlank => 0,
        InterruptType::HBlank => 1,
        InterruptType::VCounter => 2,
        InterruptType::Timer0 => 3,
        InterruptType::Timer1 => 4,
        InterruptType::Timer2 => 5,
        InterruptType::Timer3 => 6,
        InterruptType::Serial => 7,
        InterruptType::DMA0 => 8,
        InterruptType::DMA1 => 9,
        InterruptType::DMA2 => 10,
        InterruptType::DMA3 => 11,
        InterruptType::Keypad => 12,
        InterruptType::Cartridge => 13,
    }
}

impl InterruptType {
    /// The bit of this source in IE and IF.
    pub fn bit_index(self) -> (r: u32)
        ensures
            r == irq_bit(self),
            r < 14,
    {
        match self {
            InterruptType::VBlank => 0,
            InterruptType::HBlank => 1,
            InterruptType::VCounter => 2,
            InterruptType::Timer0 => 3,
            InterruptType::Timer1 => 4,
            InterruptType::Timer2 => 5,
            InterruptType::Timer3 => 6,
            InterruptType::Serial => 7,
            InterruptType::DMA0 => 8,
            InterruptType::DMA1 => 9,
            InterruptType::DMA2 => 10,
            InterruptType::DMA3 => 11,
            InterruptType::Keypad => 12,
            InterruptType::Cartridge => 13,
        }
    }
}

/// The three power states.
#[derive(Clone, Copy, PartialEq, Eq, Structural, Debug)]
pub enum PowerMode {
    Active,
    Halt,
    Stop,
}

/// The snapshot of IME, IE and IF taken each tick.
pub struct InterruptControl {
    pub master: bool,
    pub enable: u16,
    pub request: u16,
}

/// A wait-state pair: first and second access.
#[derive(Clone, Copy, PartialEq, Eq, Structural, Debug)]
pub struct WaitState {
    pub first: u16,
    pub second: u16,
}

/// The power state and the WAITCNT snapshot.
pub struct SystemControl {
    pub sram_wait: u16,
    pub wait_state_0: WaitState,
    pub wait_state_1: WaitState,
    pub wait_state_2: WaitState,
    pub prefetch: bool,
    pub power: PowerMode,
}

/// An interrupt is due: the master enable is on and some source is both
/// enabled and requested.
pub open spec fn irq_pending(s: MemoryState) -> bool {
    (io_hword(s.io, IME) & 1) == 1 && (io_hword(s.io, IE) & io_hword(s.io, IF) & 0x3fff) != 0
}

/// Address of the instruction being executed, from PC and the state.
pub open spec fn executing_address(c: CPU) -> u32 {
    match c.cpsr.operating_state {
        OperatingState::ARM => wsub(c.reg[15], 8),
        OperatingState::THUMB => wsub(c.reg[15], 4),
    }
}

/// The power state after a HALTCNT write of `v`: Stop when bit 7 is set, else Halt.
pub open spec fn halt_target(v: u8) -> PowerMode {
    if v & 0x80 != 0 {
        PowerMode::Stop
    } else {
        PowerMode::Halt
    }
}

impl InterruptControl {
    /// Master enable off, no source enabled or requested.
    pub fn new() -> (r: Self)
        ensures
            !r.master,
            r.enable == 0,
            r.request == 0,
    {
        InterruptControl { master: false, enable: 0, request: 0 }
    }

    fn update(&mut self, mem: &Memory)
        requires
            mem.wf(),
        ensures
            final(self).master == ((io_hword(mem.state().io, IME) & 1) == 1),
            final(self).enable == io_hword(mem.state().io, IE) & 0x3fff,
            final(self).request == io_hword(mem.state().io, IF) & 0x3fff,
    {
        self.master = (mem.read_io_hword(IME) & 1) == 1;
        self.enable = mem.read_io_hword(IE) & 0x3fff;
        self.request = mem.read_io_hword(IF) & 0x3fff;
    }

    /// Samples IME, IE and IF; when an interrupt is due, wakes the power
    /// controller and enters the IRQ exception with the return address 4
    /// beyond the executing instruction, refilling the pipeline at the vector.
    /// Otherwise the processor and the power state are left alone. The I bit
    /// of the status register does not gate injection here.
    pub fn step(&mut self, cpu: &mut CPU, mem: &mut Memory, system: &mut SystemControl)
        requires
            old(mem).wf(),
        ensures
            final(mem).wf(),
            final(mem).state() == old(mem).state(),
            irq_pending(old(mem).state()) ==> {
                &&& final(system).power == PowerMode::Active
                &&& entry_common(
                    *old(cpu),
                    *final(cpu),
                    Exception::IRQ,
                    wadd(executing_address(*old(cpu)), 4),
                )
                &&& final(cpu).reg[15] == 0x20
                &&& final(cpu).pipeline[1] == inst_at::<Memory>(old(mem).state(), 0x18, OperatingState::ARM)
                &&& final(cpu).pipeline[2] == inst_at::<Memory>(old(mem).state(), 0x1c, OperatingState::ARM)
            },
            !irq_pending(old(mem).state()) ==> *final(cpu) == *old(cpu) && final(system).power
                == old(system).power,
    {
        self.update(mem);
        proof {
            let ie = io_hword(mem.state().io, IE);
            let iff = io_hword(mem.state().io, IF);
            assert((ie & 0x3fff) & (iff & 0x3fff) == ie & iff & 0x3fff) by (bit_vector);
        }
        if self.master && (self.enable & self.request) != 0 {
            system.power = PowerMode::Active;
            let addr = match cpu.cpsr.operating_state {
                OperatingState::ARM => cpu.arm_pc(),
                OperatingState::THUMB => cpu.thumb_pc(),
            };
            cpu.enter_exception(Exception::IRQ, addr.wrapping_add(4));
            let ghost entered = *cpu;
            cpu.refill_pipeline(mem);
            proof {
                assert(0x18u32 & !3u32 == 0x18) by (bit_vector);
                let pre = *old(cpu);
                let post = *cpu;
                assert forall|b: int|
                    0 <= b < 6 && b != crate::psr::bank_of(crate::exception::target_mode(Exception::IRQ)) implies #[trigger] crate::cpu::bank_view(post, b)
                    == crate::cpu::bank_view(pre, b) by {
                    assert(crate::cpu::bank_view(entered, b) == crate::cpu::bank_view(pre, b));
                }
                assert forall|i: int| 0 <= i < 5 implies #[trigger] crate::cpu::user_high(post, i) == crate::cpu::user_high(pre, i)
                    && crate::cpu::fiq_high(post, i) == crate::cpu::fiq_high(pre, i) by {
                    assert(crate::cpu::user_high(entered, i) == crate::cpu::user_high(pre, i));
                    assert(post.reg[8 + i] == entered.reg[8 + i]);
                }
                assert forall|r: int| 0 <= r < 8 implies #[trigger] post.reg[r] == pre.reg[r] by {
                    assert(entered.reg[r] == pre.reg[r]);
                }
            }
        }
    }

    /// Asserts `interrupt`: sets its bit in the IF register, where the next
    /// `step` finds it, and in the controller's snapshot.
    pub fn interrupt_request(&mut self, mem: &mut Memory, interrupt: InterruptType)
        requires
            old(mem).wf(),
        ensures
            final(mem).wf(),
            ({
                let s0 = old(mem).state();
                final(mem).state() == MemoryState {
                    io: io_with_hword(s0.io, IF, io_hword(s0.io, IF) | (1u16 << (irq_bit(interrupt) as u16))),
                    ..s0
                }
            }),
            final(self).request == old(self).request | (1u16 << (irq_bit(interrupt) as u16)),
            final(self).master == old(self).master,
            final(self).enable == old(self).enable,
    {
        let bit = 1u16 << (interrupt.bit_index() as u16);
        let cur = mem.read_io_hword(IF);
        mem.write_io_hword(IF, cur | bit);
        self.request = self.request | bit;
    }
}

impl SystemControl {
    /// Active, with every wait state and the prefetch flag zero.
    pub fn new() -> (r: Self)
        ensures
            r.power == PowerMode::Active,
    {
        SystemControl {
            sram_wait: 0,
            wait_state_0: WaitState { first: 0, second: 0 },
            wait_state_1: WaitState { first: 0, second: 0 },
            wait_state_2: WaitState { first: 0, second: 0 },
            prefetch: false,
            power: PowerMode::Active,
        }
    }

    fn update(&mut self, mem: &Memory)
        requires
            mem.wf(),
        ensures
            ({
                let w = io_hword(mem.state().io, WAITCNT);
                &&& final(self).sram_wait == w & 3
                &&& final(self).wait_state_0 == WaitState { first: (w >> 2u16) & 3, second: (w >> 4u16) & 1 }
                &&& final(self).wait_state_1 == WaitState { first: (w >> 5u16) & 3, second: (w >> 7u16) & 1 }
                &&& final(self).wait_state_2 == WaitState { first: (w >> 8u16) & 3, second: (w >> 10u16) & 1 }
                &&& final(self).prefetch == ((w >> 14u16) & 1 == 1)
                &&& final(self).power == if old(self).power == PowerMode::Active && mem.state().haltcnt_update {
                    halt_target(mem.state().io[HALTCNT as int])
                } else {
                    old(self).power
                }
            }),
    {
        let w = mem.read_io_hword(WAITCNT);
        self.sram_wait = w & 3;
        self.wait_state_0 = WaitState { first: (w >> 2u16) & 3, second: (w >> 4u16) & 1 };
        self.wait_state_1 = WaitState { first: (w >> 5u16) & 3, second: (w >> 7u16) & 1 };
        self.wait_state_2 = WaitState { first: (w >> 8u16) & 3, second: (w >> 10u16) & 1 };
        self.prefetch = (w >> 14u16) & 1 == 1;
        if self.power == PowerMode::Active && mem.haltcnt_pending() {
            let v = mem.read_io_byte(HALTCNT);
            self.power = if v & 0x80 != 0 {
                PowerMode::Stop
            } else {
                PowerMode::Halt
            };
        }
    }

    /// Samples WAITCNT and, on an Active machine, applies a pending HALTCNT
    /// write: Stop when its bit 7 is set, Halt otherwise. A halted or stopped
    /// machine leaves that state only through an interrupt.
    pub fn step(&mut self, mem: &Memory)
        requires
            mem.wf(),
        ensures
            final(self).power == if old(self).power == PowerMode::Active && mem.state().haltcnt_update {
                halt_target(mem.state().io[HALTCNT as int])
            } else {
                old(self).power
            },
    {
        self.update(mem);
    }

    /// The current power state.
    pub fn get_power_mode(&self) -> (r: PowerMode)
        ensures
            r == self.power,
    {
        self.power
    }
}

} // verus!
