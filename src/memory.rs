//! The address-space router: dispatches byte accesses to BIOS, work RAMs,
//! I/O registers, video memories and the cartridge.
use vstd::prelude::*;

use crate::backup::zeros;
use crate::bits::lemma_mask_bounds;
use crate::bios::{Bios, BIOS_SIZE};
use crate::bus::Bus;
use crate::cartridge::{cart_load, cart_store, Cartridge, CartridgeState};
use crate::rom::OPEN_BUS;

verus! {

/// Offsets of the I/O registers the core reads or writes.
pub const DISPCNT: u32 = 0x000;
pub const IME: u32 = 0x208;
pub const IE: u32 = 0x200;
pub const IF: u32 = 0x202;
pub const WAITCNT: u32 = 0x204;
pub const HALTCNT: u32 = 0x301;
pub const KEYINPUT: u32 = 0x130;
pub const KEYCNT: u32 = 0x132;

/// Region sizes in bytes.
pub const EWRAM_SIZE: usize = 0x40000;
pub const IWRAM_SIZE: usize = 0x8000;
pub const IO_SIZE: usize = 0x400;
pub const PRAM_SIZE: usize = 0x400;
pub const VRAM_SIZE: usize = 0x18000;
pub const OAM_SIZE: usize = 0x400;

/// Everything a bus access can observe or change.
pub struct MemoryState {
    pub bios: Seq<u8>,
    pub ewram: Seq<u8>,
    pub iwram: Seq<u8>,
    pub io: Seq<u8>,
    pub pram: Seq<u8>,
    pub vram: Seq<u8>,
    pub oam: Seq<u8>,
    pub cart: CartridgeState,
    /// Set by a write to HALTCNT, cleared by the step loop.
    pub haltcnt_update: bool,
}

/// The memory system of the machine.
pub struct Memory {
    pub(crate) bios: Bios,
    pub(crate) ewram: Vec<u8>,
    pub(crate) iwram: Vec<u8>,
    pub(crate) io: Vec<u8>,
    pub(crate) pram: Vec<u8>,
    pub(crate) vram: Vec<u8>,
    pub(crate) oam: Vec<u8>,
    pub(crate) cartridge: Cartridge,
    pub(crate) haltcnt_update: bool,
}

/// The byte a read of `addr` returns, by region; the work RAMs repeat
/// through their 16 MiB windows.
pub open spec fn mem_load(s: MemoryState, addr: u32) -> u8 {
    if addr <= 0x0000_3fff {
        s.bios[addr as int]
    } else if 0x0200_0000 <= addr <= 0x02ff_ffff {
        s.ewram[(addr & 0x3_ffff) as int]
    } else if 0x0300_0000 <= addr <= 0x03ff_ffff {
        s.iwram[(addr & 0x7fff) as int]
    } else if 0x0400_0000 <= addr <= 0x0400_03fe {
        s.io[addr - 0x0400_0000]
    } else if 0x0500_0000 <= addr <= 0x0500_03ff {
        s.pram[addr - 0x0500_0000]
    } else if 0x0600_0000 <= addr <= 0x0601_7fff {
        s.vram[addr - 0x0600_0000]
    } else if 0x0700_0000 <= addr <= 0x0700_03ff {
        s.oam[addr - 0x0700_0000]
    } else if 0x0800_0000 <= addr <= 0x0fff_ffff {
        cart_load(s.cart, addr)
    } else {
        OPEN_BUS
    }
}

/// The memory after a byte write of `value` to `addr`. BIOS writes and
/// unmapped writes are ignored; a write to HALTCNT raises the one-shot flag.
pub open spec fn mem_store(s: MemoryState, addr: u32, value: u8) -> MemoryState {
    if 0x0200_0000 <= addr <= 0x02ff_ffff {
        MemoryState { ewram: s.ewram.update((addr & 0x3_ffff) as int, value), ..s }
    } else if 0x0300_0000 <= addr <= 0x03ff_ffff {
        MemoryState { iwram: s.iwram.update((addr & 0x7fff) as int, value), ..s }
    } else if 0x0400_0000 <= addr <= 0x0400_03fe {
        MemoryState {
            io: s.io.update(addr - 0x0400_0000, value),
            haltcnt_update: s.haltcnt_update || addr == 0x0400_0000 + HALTCNT,
            ..s
        }
    } else if 0x0500_0000 <= addr <= 0x0500_03ff {
        MemoryState { pram: s.pram.update(addr - 0x0500_0000, value), ..s }
    } else if 0x0600_0000 <= addr <= 0x0601_7fff {
        MemoryState { vram: s.vram.update(addr - 0x0600_0000, value), ..s }
    } else if 0x0700_0000 <= addr <= 0x0700_03ff {
        MemoryState { oam: s.oam.update(addr - 0x0700_0000, value), ..s }
    } else if 0x0800_0000 <= addr <= 0x0fff_ffff {
        MemoryState { cart: cart_store(s.cart, addr, value), ..s }
    } else {
        s
    }
}

/// The half-word of the I/O region at offset `off`, low byte first.
pub open spec fn io_hword(io: Seq<u8>, off: u32) -> u16 {
    (io[off as int] as u16) | ((io[off + 1] as u16) << 8u16)
}

/// The I/O region after storing the half-word `v` at offset `off`.
pub open spec fn io_with_hword(io: Seq<u8>, off: u32, v: u16) -> Seq<u8> {
    io.update(off as int, v as u8).update(off + 1, (v >> 8u16) as u8)
}

impl Memory {
    /// A memory system with zeroed RAMs and I/O registers.
    pub fn new(bios: Bios, cartridge: Cartridge) -> (r: Self)
        requires
            bios.wf(),
        ensures
            r.wf(),
            r.state().bios == bios@,
            r.state().cart == cartridge@,
            r.state().ewram == zeros(EWRAM_SIZE as nat),
            r.state().iwram == zeros(IWRAM_SIZE as nat),
            r.state().io == zeros(IO_SIZE as nat),
            r.state().pram == zeros(PRAM_SIZE as nat),
            r.state().vram == zeros(VRAM_SIZE as nat),
            r.state().oam == zeros(OAM_SIZE as nat),
            !r.state().haltcnt_update,
    {
        Memory {
            bios,
            ewram: zeroed(EWRAM_SIZE),
            iwram: zeroed(IWRAM_SIZE),
            io: zeroed(IO_SIZE),
            pram: zeroed(PRAM_SIZE),
            vram: zeroed(VRAM_SIZE),
            oam: zeroed(OAM_SIZE),
            cartridge,
            haltcnt_update: false,
        }
    }

    /// The cartridge plugged in.
    pub fn cartridge(&self) -> (r: &Cartridge)
        ensures
            r@ == self.state().cart,
    {
        &self.cartridge
    }

    /// Reads the I/O half-word at offset `off`.
    pub fn read_io_hword(&self, off: u32) -> (r: u16)
        requires
            self.wf(),
            off < IO_SIZE - 1,
        ensures
            r == io_hword(self.state().io, off),
    {
        let lo = self.io[off as usize];
        let hi = self.io[off as usize + 1];
        (lo as u16) | ((hi as u16) << 8u16)
    }

    /// Reads the I/O byte at offset `off`.
    pub fn read_io_byte(&self, off: u32) -> (r: u8)
        requires
            self.wf(),
            off < IO_SIZE,
        ensures
            r == self.state().io[off as int],
    {
        self.io[off as usize]
    }

    /// Stores a half-word in the I/O region at offset `off`, as a host
    /// collaborator does: no register side effects.
    pub fn write_io_hword(&mut self, off: u32, value: u16)
        requires
            old(self).wf(),
            off < IO_SIZE - 1,
        ensures
            final(self).wf(),
            final(self).state() == (MemoryState {
                io: old(self).state().io.update(off as int, value as u8).update(
                    off + 1,
                    (value >> 8u16) as u8,
                ),
                ..old(self).state()
            }),
    {
        self.io[off as usize] = value as u8;
        self.io[off as usize + 1] = (value >> 8u16) as u8;
    }

    /// A HALTCNT write is waiting to be observed.
    pub fn haltcnt_pending(&self) -> (r: bool)
        ensures
            r == self.state().haltcnt_update,
    {
        self.haltcnt_update
    }

    /// Clears the HALTCNT one-shot flag.
    pub fn clear_haltcnt_update(&mut self)
        ensures
            final(self).wf() == old(self).wf(),
            final(self).state() == (MemoryState { haltcnt_update: false, ..old(self).state() }),
    {
        self.haltcnt_update = false;
    }
}

fn zeroed(n: usize) -> (r: Vec<u8>)
    ensures
        r@ == zeros(n as nat),
{
    let mut v: Vec<u8> = Vec::new();
    let mut i: usize = 0;
    while i < n
        invariant
            i <= n,
            v@ == zeros(i as nat),
        decreases n - i,
    {
        v.push(0u8);
        i = i + 1;
        assert(v@ =~= zeros(i as nat));
    }
    v
}

/// Every region has its fixed size.
pub open spec fn region_sizes(s: MemoryState) -> bool {
    &&& s.bios.len() == BIOS_SIZE
    &&& s.ewram.len() == EWRAM_SIZE
    &&& s.iwram.len() == IWRAM_SIZE
    &&& s.io.len() == IO_SIZE
    &&& s.pram.len() == PRAM_SIZE
    &&& s.vram.len() == VRAM_SIZE
    &&& s.oam.len() == OAM_SIZE
}

impl Bus for Memory {
    type State = MemoryState;

    closed spec fn state(&self) -> MemoryState {
        MemoryState {
            bios: self.bios@,
            ewram: self.ewram@,
            iwram: self.iwram@,
            io: self.io@,
            pram: self.pram@,
            vram: self.vram@,
            oam: self.oam@,
            cart: self.cartridge@,
            haltcnt_update: self.haltcnt_update,
        }
    }

    open spec fn wf(&self) -> bool {
        region_sizes(self.state())
    }

    open spec fn load(s: MemoryState, addr: u32) -> u8 {
        mem_load(s, addr)
    }

    open spec fn store(s: MemoryState, addr: u32, value: u8) -> MemoryState {
        mem_store(s, addr, value)
    }

    fn read_byte(&self, addr: u32) -> (r: u8) {
        if addr <= 0x0000_3fff {
            self.bios.read(addr)
        } else if 0x0200_0000 <= addr && addr <= 0x02ff_ffff {
            proof {
                lemma_mask_bounds(addr);
            }
            self.ewram[(addr & 0x3_ffff) as usize]
        } else if 0x0300_0000 <= addr && addr <= 0x03ff_ffff {
            proof {
                lemma_mask_bounds(addr);
            }
            self.iwram[(addr & 0x7fff) as usize]
        } else if 0x0400_0000 <= addr && addr <= 0x0400_03fe {
            self.io[(addr - 0x0400_0000) as usize]
        } else if 0x0500_0000 <= addr && addr <= 0x0500_03ff {
            self.pram[(addr - 0x0500_0000) as usize]
        } else if 0x0600_0000 <= addr && addr <= 0x0601_7fff {
            self.vram[(addr - 0x0600_0000) as usize]
        } else if 0x0700_0000 <= addr && addr <= 0x0700_03ff {
            self.oam[(addr - 0x0700_0000) as usize]
        } else if 0x0800_0000 <= addr && addr <= 0x0fff_ffff {
            self.cartridge.read(addr)
        } else {
            OPEN_BUS
        }
    }

    fn write_byte(&mut self, addr: u32, value: u8) {
        if 0x0200_0000 <= addr && addr <= 0x02ff_ffff {
            proof {
                lemma_mask_bounds(addr);
            }
            self.ewram[(addr & 0x3_ffff) as usize] = value;
        } else if 0x0300_0000 <= addr && addr <= 0x03ff_ffff {
            proof {
                lemma_mask_bounds(addr);
            }
            self.iwram[(addr & 0x7fff) as usize] = value;
        } else if 0x0400_0000 <= addr && addr <= 0x0400_03fe {
            self.io[(addr - 0x0400_0000) as usize] = value;
            if addr == 0x0400_0000 + HALTCNT {
                self.haltcnt_update = true;
            }
        } else if 0x0500_0000 <= addr && addr <= 0x0500_03ff {
            self.pram[(addr - 0x0500_0000) as usize] = value;
        } else if 0x0600_0000 <= addr && addr <= 0x0601_7fff {
            self.vram[(addr - 0x0600_0000) as usize] = value;
        } else if 0x0700_0000 <= addr && addr <= 0x0700_03ff {
            self.oam[(addr - 0x0700_0000) as usize] = value;
        } else if 0x0800_0000 <= addr && addr <= 0x0fff_ffff {
            self.cartridge.write(addr, value);
        }
    }
}

} // verus!
