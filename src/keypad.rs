//! Keypad state and the keypad interrupt.
use vstd::prelude::*;

use crate::bus::Bus;
use crate::control::{irq_bit, InterruptType};
use crate::gba::GBA;
use crate::interrupt::bit_of;
use crate::memory::{io_hword, io_with_hword, MemoryState, IF, KEYCNT, KEYINPUT};

verus! {

/// The buttons; `true` means released, as the KEYINPUT register reports it.
#[derive(Clone, Copy, PartialEq, Eq, Structural, Debug)]
pub struct Keypad {
    pub a: bool,
    pub b: bool,
    pub l: bool,
    pub r: bool,
    pub up: bool,
    pub down: bool,
    pub left: bool,
    pub right: bool,
    pub select: bool,
    pub start: bool,
}

impl Default for Keypad {
    /// Every button released.
    fn default() -> (r: Self)
        ensures
            r.a && r.b && r.l && r.r && r.up && r.down && r.left && r.right && r.select && r.start,
    {
        Keypad {
                a: true,
                b: true,
                l: true,
                r: true,
                up: true,
                down: true,
                left: true,
                right: true,
                select: true,
                start: true,
        }
    }
}

fn bit_value(b: bool) -> (r: u16)
    ensures
        r == bit_of(b),
{
    if b {
        1
    } else {
        0
    }
}

impl Keypad {
    /// The KEYINPUT value: A, B, Select, Start, Right, Left, Up, Down, R, L
    /// at bits 0 to 9.
    pub open spec fn bits_spec(&self) -> u16 {
        (bit_of(self.a) << 0u16) | (bit_of(self.b) << 1u16) | (bit_of(self.select) << 2u16) | (bit_of(self.start) << 3u16) | (bit_of(self.right) << 4u16) | (bit_of(self.left) << 5u16) | (bit_of(self.up) << 6u16) | (bit_of(self.down) << 7u16) | (bit_of(self.r) << 8u16) | (bit_of(self.l) << 9u16)
    }

    /// The KEYINPUT value of this state.
    pub fn to_bits(&self) -> (r: u16)
        ensures
            r == self.bits_spec(),
    {
        (bit_value(self.a) << 0u16) | (bit_value(self.b) << 1u16) | (bit_value(self.select) << 2u16) | (bit_value(self.start) << 3u16) | (bit_value(self.right) << 4u16) | (bit_value(self.left) << 5u16) | (bit_value(self.up) << 6u16) | (bit_value(self.down) << 7u16) | (bit_value(self.r) << 8u16) | (bit_value(self.l) << 9u16)
    }
}

/// A keypad write of `keypad` raises the keypad interrupt under KEYCNT:
/// bit 14 enables it; bit 15 asks for every selected button pressed
/// (which holds when none is selected),
/// otherwise any selected button pressed suffices.
pub open spec fn keypad_fires(keypad: u16, keycnt: u16) -> bool {
    let pressed = !keypad & 0x3ff;
    let selection = keycnt & 0x3ff;
    &&& (keycnt >> 14u16) & 1 == 1
    &&& if (keycnt >> 15u16) & 1 == 1 {
        pressed & selection == selection
    } else {
        pressed & selection != 0
    }
}

impl GBA {
    /// Stores the host's key mask in KEYINPUT and raises the keypad
    /// interrupt in IF when KEYCNT asks for it.
    pub fn update_keypad(&mut self, keypad: u16)
        requires
            old(self).wf(),
        ensures
            final(self).wf(),
            ({
                let s0 = old(self).memory.state();
                let io1 = io_with_hword(s0.io, KEYINPUT, keypad);
                let keycnt = io_hword(io1, KEYCNT);
                let io2 = if keypad_fires(keypad, keycnt) {
                    io_with_hword(io1, IF, io_hword(io1, IF) | (1u16 << (irq_bit(InterruptType::Keypad) as u16)))
                } else {
                    io1
                };
                final(self).memory.state() == MemoryState { io: io2, ..s0 }
            }),
            final(self).cpu == old(self).cpu,
    {
        self.memory.write_io_hword(KEYINPUT, keypad);
        let keycnt = self.memory.read_io_hword(KEYCNT);
        let pressed = !keypad & 0x3ff;
        let selection = keycnt & 0x3ff;
        if (keycnt >> 14u16) & 1 == 1 {
            let fire = if (keycnt >> 15u16) & 1 == 1 {
                pressed & selection == selection
            } else {
                pressed & selection != 0
            };
            if fire {
                self.request_interrupt(InterruptType::Keypad);
            }
        }
    }
}

} // verus!
