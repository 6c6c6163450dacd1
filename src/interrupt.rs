//! The interrupt sources as a set of flags.
use vstd::prelude::*;


verus! {

/// One flag per interrupt source, in IE/IF bit order.
#[derive(Clone, Copy, PartialEq, Eq, Structural, Debug)]
#[allow(non_snake_case)]
pub struct Interrupt {
    pub VBlank: bool,
    pub HBlank: bool,
    pub VCounter: bool,
    pub Timer0: bool,
    pub Timer1: bool,
    pub Timer2: bool,
    pub Timer3: bool,
    pub Serial: bool,
    pub DMA0: bool,
    pub DMA1: bool,
    pub DMA2: bool,
    pub DMA3: bool,
    pub Keypad: bool,
    pub Cartridge: bool,
}

/// 1 for a set flag, 0 otherwise.
pub open spec fn bit_of(b: bool) -> u16 {
    if b {
        1
    } else {
        0
    }
}

fn bit_value(b: bool) -> (r: u16)
    ensures
        r == bit_of(b),
{
    if b {
        1
    } else {
        0
    }
}

impl Interrupt {
    /// The register value: source `k` at bit `k`.
    pub open spec fn bits_spec(&self) -> u16 {
        (bit_of(self.VBlank) << 0u16) | (bit_of(self.HBlank) << 1u16) | (bit_of(self.VCounter) << 2u16) | (bit_of(self.Timer0) << 3u16) | (bit_of(self.Timer1) << 4u16) | (bit_of(self.Timer2) << 5u16) | (bit_of(self.Timer3) << 6u16) | (bit_of(self.Serial) << 7u16) | (bit_of(self.DMA0) << 8u16) | (bit_of(self.DMA1) << 9u16) | (bit_of(self.DMA2) << 10u16) | (bit_of(self.DMA3) << 11u16) | (bit_of(self.Keypad) << 12u16) | (bit_of(self.Cartridge) << 13u16)
    }

    /// The register value: source `k` at bit `k`, bits 14 and 15 clear.
    pub fn to_bits(&self) -> (r: u16)
        ensures
            r == self.bits_spec(),
    {
        (bit_value(self.VBlank) << 0u16) | (bit_value(self.HBlank) << 1u16) | (bit_value(self.VCounter) << 2u16) | (bit_value(self.Timer0) << 3u16) | (bit_value(self.Timer1) << 4u16) | (bit_value(self.Timer2) << 5u16) | (bit_value(self.Timer3) << 6u16) | (bit_value(self.Serial) << 7u16) | (bit_value(self.DMA0) << 8u16) | (bit_value(self.DMA1) << 9u16) | (bit_value(self.DMA2) << 10u16) | (bit_value(self.DMA3) << 11u16) | (bit_value(self.Keypad) << 12u16) | (bit_value(self.Cartridge) << 13u16)
    }
}

} // verus!
