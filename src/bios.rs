//! The 16 KiB boot ROM.
use vstd::prelude::*;

use crate::rom::{InvalidROM, Rom};

verus! {

/// Size in bytes of a boot ROM image.
pub const BIOS_SIZE: usize = 0x4000;

/// The boot ROM, exactly 16 KiB.
pub struct Bios {
    rom: Rom,
}

impl View for Bios {
    type V = Seq<u8>;

    closed spec fn view(&self) -> Seq<u8> {
        self.rom@
    }
}

impl Bios {
    /// Size invariant of the image.
    pub open spec fn wf(&self) -> bool {
        self@.len() == BIOS_SIZE
    }

    /// Accepts an image of exactly 16 KiB and rejects every other size.
    pub fn new(rom: Rom) -> (r: Result<Bios, InvalidROM>)
        ensures
            r is Err <==> rom@.len() != BIOS_SIZE,
            r matches Ok(b) ==> b@ == rom@ && b.wf(),
    {
        if rom.len() != BIOS_SIZE {
            return Err(InvalidROM);
        }
        Ok(Bios { rom })
    }

    /// The byte at `addr` of the image.
    pub fn read(&self, addr: u32) -> (r: u8)
        requires
            self.wf(),
            addr < BIOS_SIZE,
        ensures
            r == self@[addr as int],
    {
        self.rom.read_byte(addr)
    }
}

} // verus!
