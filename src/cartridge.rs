//! The cartridge: ROM mirrors, the save-media window and media selection.
use vstd::prelude::*;

use crate::backup::{byte_or_open, put_byte, zeros, BackupBuffer, EEPROM, Flash, SRAM};
use crate::bus::Bus;
use crate::rom::{detect_backup, BackupType, InvalidROM, Rom, OPEN_BUS};

verus! {

/// Largest accepted cartridge ROM, 32 MiB.
pub const MAX_ROM_SIZE: usize = 0x0200_0000;

/// What a read of the EEPROM window yields: its serial protocol is not modelled.
pub const EEPROM_READ_VALUE: u8 = 0;

/// The save medium a cartridge carries.
pub enum BackupMedia {
    Eeprom(EEPROM),
    Flash(Flash),
    Sram(SRAM),
}

/// The contents of the save medium, by kind.
pub enum MediaState {
    Absent,
    Eeprom(Seq<u8>),
    Flash(Seq<u8>),
    Sram(Seq<u8>),
}

/// What the cartridge holds: the ROM image and the save medium.
pub struct CartridgeState {
    pub rom: Seq<u8>,
    pub media: MediaState,
}

/// A game cartridge.
pub struct Cartridge {
    rom: Rom,
    backup: Option<BackupMedia>,
}

pub open spec fn media_view(b: Option<BackupMedia>) -> MediaState {
    match b {
        None => MediaState::Absent,
        Some(BackupMedia::Eeprom(e)) => MediaState::Eeprom(e@),
        Some(BackupMedia::Flash(f)) => MediaState::Flash(f@),
        Some(BackupMedia::Sram(s)) => MediaState::Sram(s@),
    }
}

impl View for Cartridge {
    type V = CartridgeState;

    closed spec fn view(&self) -> CartridgeState {
        CartridgeState { rom: self.rom@, media: media_view(self.backup) }
    }
}

/// The medium chosen at start-up: a save image's length decides its kind;
/// without a save image the ROM's token decides, and the medium starts erased.
pub open spec fn initial_media(save: Option<Seq<u8>>, rom: Seq<u8>) -> MediaState {
    match save {
        Some(d) => if d.len() == 0x8000 {
            MediaState::Sram(d)
        } else if d.len() == 0x200 || d.len() == 0x2000 {
            MediaState::Eeprom(d)
        } else if d.len() == 0x10000 || d.len() == 0x20000 {
            MediaState::Flash(d)
        } else {
            MediaState::Absent
        },
        None => match detect_backup(rom) {
            BackupType::Eeprom512B => MediaState::Eeprom(zeros(512)),
            BackupType::Eeprom8KB => MediaState::Eeprom(zeros(0x2000)),
            BackupType::Flash64KB => MediaState::Flash(zeros(0x10000)),
            BackupType::Flash128KB => MediaState::Flash(zeros(0x20000)),
            BackupType::Sram32KB => MediaState::Sram(zeros(0x8000)),
            BackupType::NoBackup => MediaState::Absent,
        },
    }
}

/// A ROM-mirror address inside the EEPROM window: the top 256 bytes of the
/// last 16 MiB for ROMs of 16 MiB or more, the whole of that 16 MiB otherwise.
pub open spec fn in_eeprom_window(s: CartridgeState, addr: u32) -> bool {
    &&& s.media is Eeprom
    &&& addr <= 0x0dff_ffff
    &&& if s.rom.len() >= 0x0100_0000 {
        addr >= 0x0dff_ff00
    } else {
        addr >= 0x0d00_0000
    }
}

/// The byte a read of `addr` returns.
pub open spec fn cart_load(s: CartridgeState, addr: u32) -> u8 {
    if 0x0800_0000 <= addr <= 0x0dff_ffff {
        if in_eeprom_window(s, addr) {
            EEPROM_READ_VALUE
        } else {
            byte_or_open(s.rom, addr & 0x01ff_ffff)
        }
    } else if 0x0e00_0000 <= addr <= 0x0e00_ffff {
        match s.media {
            MediaState::Sram(d) => byte_or_open(d, addr & 0x7fff),
            MediaState::Flash(d) => byte_or_open(d, addr & 0xffff),
            _ => OPEN_BUS,
        }
    } else {
        OPEN_BUS
    }
}

/// The cartridge after a byte write: only SRAM and Flash in the save window take it.
pub open spec fn cart_store(s: CartridgeState, addr: u32, value: u8) -> CartridgeState {
    if 0x0e00_0000 <= addr <= 0x0e00_ffff {
        match s.media {
            MediaState::Sram(d) => CartridgeState {
                media: MediaState::Sram(put_byte(d, addr & 0x7fff, value)),
                ..s
            },
            MediaState::Flash(d) => CartridgeState {
                media: MediaState::Flash(put_byte(d, addr & 0xffff, value)),
                ..s
            },
            _ => s,
        }
    } else {
        s
    }
}

impl Cartridge {
    /// Builds a cartridge; `save` is the content of the save file if one exists.
    /// Fails when the ROM exceeds 32 MiB.
    pub fn new(rom: Rom, save: Option<Vec<u8>>) -> (r: Result<Cartridge, InvalidROM>)
        ensures
            r is Err <==> rom@.len() > MAX_ROM_SIZE,
            r matches Ok(c) ==> c@ == (CartridgeState {
                rom: rom@,
                media: initial_media(
                    match save {
                        Some(d) => Some(d@),
                        None => None,
                    },
                    rom@,
                ),
            }),
    {
        if rom.len() > MAX_ROM_SIZE {
            return Err(InvalidROM);
        }
        let backup = match save {
            Some(buf) => {
                let n = buf.len();
                if n == 0x8000 {
                    Some(BackupMedia::Sram(SRAM::from_vec(buf)))
                } else if n == 0x200 || n == 0x2000 {
                    Some(BackupMedia::Eeprom(EEPROM::from_vec(buf)))
                } else if n == 0x10000 || n == 0x20000 {
                    Some(BackupMedia::Flash(Flash::from_vec(buf)))
                } else {
                    None
                }
            },
            None => match rom.get_backup_type() {
                BackupType::Eeprom512B => Some(BackupMedia::Eeprom(EEPROM::new(1))),
                BackupType::Eeprom8KB => Some(BackupMedia::Eeprom(EEPROM::new(8))),
                BackupType::Flash64KB => Some(BackupMedia::Flash(Flash::new(64))),
                BackupType::Flash128KB => Some(BackupMedia::Flash(Flash::new(128))),
                BackupType::Sram32KB => Some(BackupMedia::Sram(SRAM::new())),
                BackupType::NoBackup => None,
            },
        };
        Ok(Cartridge { rom, backup })
    }

    /// The save medium, if any.
    pub fn backup(&self) -> (r: &Option<BackupMedia>)
        ensures
            media_view(*r) == self@.media,
    {
        &self.backup
    }

    /// The ROM image.
    pub fn rom(&self) -> (r: &Rom)
        ensures
            r@ == self@.rom,
    {
        &self.rom
    }

    fn eeprom_read(&self, addr: u32) -> (r: bool)
        ensures
            r == in_eeprom_window(self@, addr),
    {
        match self.backup {
            Some(BackupMedia::Eeprom(_)) => {
                addr <= 0x0dff_ffff && if self.rom.len() >= 0x0100_0000 {
                    addr >= 0x0dff_ff00
                } else {
                    addr >= 0x0d00_0000
                }
            },
            _ => false,
        }
    }

    /// Reads a byte at a cartridge address (0x0800_0000..=0x0FFF_FFFF).
    pub fn read(&self, addr: u32) -> (r: u8)
        ensures
            r == cart_load(self@, addr),
    {
        if 0x0800_0000 <= addr && addr <= 0x0dff_ffff {
            if self.eeprom_read(addr) {
                EEPROM_READ_VALUE
            } else {
                self.rom.read_byte(addr & 0x01ff_ffff)
            }
        } else if 0x0e00_0000 <= addr && addr <= 0x0e00_ffff {
            match &self.backup {
                Some(BackupMedia::Sram(media)) => media.read_byte(addr & 0x7fff),
                Some(BackupMedia::Flash(media)) => media.read_byte(addr & 0xffff),
                _ => OPEN_BUS,
            }
        } else {
            OPEN_BUS
        }
    }

    /// Writes a byte at a cartridge address; ROM mirrors ignore it.
    pub fn write(&mut self, addr: u32, value: u8)
        ensures
            final(self)@ == cart_store(old(self)@, addr, value),
    {
        if 0x0e00_0000 <= addr && addr <= 0x0e00_ffff {
            match &mut self.backup {
                Some(BackupMedia::Sram(media)) => media.write_byte(addr & 0x7fff, value),
                Some(BackupMedia::Flash(media)) => media.write_byte(addr & 0xffff, value),
                _ => {},
            }
        }
    }
}

} // verus!
