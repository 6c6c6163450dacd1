//! Cartridge save media: SRAM, Flash and EEPROM byte stores.
use vstd::prelude::*;

use crate::bus::Bus;
use crate::rom::OPEN_BUS;

verus! {

/// `n` zero bytes.
pub open spec fn zeros(n: nat) -> Seq<u8> {
    Seq::new(n, |i: int| 0u8)
}

/// The byte at `addr` of `d`, or the open-bus value past its end.
pub open spec fn byte_or_open(d: Seq<u8>, addr: u32) -> u8 {
    if addr < d.len() {
        d[addr as int]
    } else {
        OPEN_BUS
    }
}

/// `d` with the byte at `addr` replaced, when `addr` lies inside it.
pub open spec fn put_byte(d: Seq<u8>, addr: u32, value: u8) -> Seq<u8> {
    if addr < d.len() {
        d.update(addr as int, value)
    } else {
        d
    }
}

/// Storage shared by every save medium: a buffer of whole kibibytes.
pub trait BackupBuffer {
    /// A zeroed buffer of `size` KiB.
    fn init(size: usize) -> (r: Vec<u8>)
        requires
            size <= 128,
        ensures
            r@ == zeros((size * 1024) as nat),
    {
        let n: usize = size * 1024;
        let mut v: Vec<u8> = Vec::new();
        let mut i: usize = 0;
        while i < n
            invariant
                i <= n,
                v@ == zeros(i as nat),
            decreases n - i,
        {
            v.push(0u8);
            i = i + 1;
            assert(v@ =~= zeros(i as nat));
        }
        v
    }
}

/// Serial EEPROM save memory, 512 B or 8 KiB.
pub struct EEPROM {
    data: Vec<u8>,
}

/// Flash save memory, 64 or 128 KiB.
pub struct Flash {
    data: Vec<u8>,
}

/// Battery-backed static RAM, 32 KiB.
pub struct SRAM {
    data: Vec<u8>,
}

impl View for EEPROM {
    type V = Seq<u8>;

    closed spec fn view(&self) -> Seq<u8> {
        self.data@
    }
}

impl View for Flash {
    type V = Seq<u8>;

    closed spec fn view(&self) -> Seq<u8> {
        self.data@
    }
}

impl View for SRAM {
    type V = Seq<u8>;

    closed spec fn view(&self) -> Seq<u8> {
        self.data@
    }
}

impl BackupBuffer for EEPROM {

}

impl BackupBuffer for Flash {

}

impl BackupBuffer for SRAM {

}

impl EEPROM {
    /// An erased EEPROM: `size` 1 gives the 512-byte part, otherwise `size` KiB.
    pub fn new(size: usize) -> (r: Self)
        requires
            size <= 128,
        ensures
            r@ == (if size == 1 {
                zeros(512)
            } else {
                zeros((size * 1024) as nat)
            }),
    {
        let mut data = Self::init(size);
        if size == 1 {
            data.truncate(512);
            assert(data@ =~= zeros(512));
        }
        EEPROM { data }
    }

    /// An EEPROM holding the given save image.
    pub fn from_vec(data: Vec<u8>) -> (r: Self)
        ensures
            r@ == data@,
    {
        EEPROM { data }
    }

    /// The stored bytes.
    pub fn data(&self) -> (r: &Vec<u8>)
        ensures
            r@ == self@,
    {
        &self.data
    }
}

impl Flash {
    /// An erased Flash part of `size` KiB.
    pub fn new(size: usize) -> (r: Self)
        requires
            size <= 128,
        ensures
            r@ == zeros((size * 1024) as nat),
    {
        Flash { data: Self::init(size) }
    }

    /// A Flash part holding the given save image.
    pub fn from_vec(data: Vec<u8>) -> (r: Self)
        ensures
            r@ == data@,
    {
        Flash { data }
    }

    /// The stored bytes.
    pub fn data(&self) -> (r: &Vec<u8>)
        ensures
            r@ == self@,
    {
        &self.data
    }
}

impl SRAM {
    /// An erased 32 KiB SRAM.
    pub fn new() -> (r: Self)
        ensures
            r@ == zeros(0x8000),
    {
        SRAM { data: Self::init(32) }
    }

    /// An SRAM holding the given save image.
    pub fn from_vec(data: Vec<u8>) -> (r: Self)
        ensures
            r@ == data@,
    {
        SRAM { data }
    }

    /// The stored bytes.
    pub fn data(&self) -> (r: &Vec<u8>)
        ensures
            r@ == self@,
    {
        &self.data
    }
}

impl Bus for Flash {
    type State = Seq<u8>;

    open spec fn state(&self) -> Seq<u8> {
        self@
    }

    open spec fn wf(&self) -> bool {
        true
    }

    open spec fn load(s: Seq<u8>, addr: u32) -> u8 {
        byte_or_open(s, addr)
    }

    open spec fn store(s: Seq<u8>, addr: u32, value: u8) -> Seq<u8> {
        put_byte(s, addr, value)
    }

    fn read_byte(&self, addr: u32) -> (r: u8) {
        if (addr as usize) < self.data.len() {
            self.data[addr as usize]
        } else {
            OPEN_BUS
        }
    }

    fn write_byte(&mut self, addr: u32, value: u8) {
        if (addr as usize) < self.data.len() {
            self.data[addr as usize] = value;
        }
    }
}

impl Bus for SRAM {
    type State = Seq<u8>;

    open spec fn state(&self) -> Seq<u8> {
        self@
    }

    open spec fn wf(&self) -> bool {
        true
    }

    open spec fn load(s: Seq<u8>, addr: u32) -> u8 {
        byte_or_open(s, addr)
    }

    open spec fn store(s: Seq<u8>, addr: u32, value: u8) -> Seq<u8> {
        put_byte(s, addr, value)
    }

    fn read_byte(&self, addr: u32) -> (r: u8) {
        if (addr as usize) < self.data.len() {
            self.data[addr as usize]
        } else {
            OPEN_BUS
        }
    }

    fn write_byte(&mut self, addr: u32, value: u8) {
        if (addr as usize) < self.data.len() {
            self.data[addr as usize] = value;
        }
    }
}

} // verus!
