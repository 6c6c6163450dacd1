//! Read-only images (BIOS and cartridge ROM) and save-media autodetection.
use vstd::prelude::*;

verus! {

/// The value a read yields where no device answers.
pub const OPEN_BUS: u8 = 0;

/// An image whose size the loader refused.
#[derive(Clone, Copy, PartialEq, Eq, Structural, Debug)]
pub struct InvalidROM;

impl InvalidROM {
    /// A description of the error, for the host to print.
    pub fn message(&self) -> (r: String)
        ensures
            r@ == "Invalid Rom size detected"@,
    {
        String::from_str("Invalid Rom size detected")
    }
}

/// The kind of save media a cartridge carries.
#[derive(Clone, Copy, PartialEq, Eq, Structural, Debug)]
pub enum BackupType {
    NoBackup,
    Eeprom512B,
    Eeprom8KB,
    Flash64KB,
    Flash128KB,
    Sram32KB,
}

/// A read-only byte image.
pub struct Rom {
    data: Vec<u8>,
}

impl View for Rom {
    type V = Seq<u8>;

    closed spec fn view(&self) -> Seq<u8> {
        self.data@
    }
}

/// The literal tokens that name a save media kind, in the order they are tried.
pub open spec fn token_eeprom() -> Seq<u8> {
    seq![0x45u8, 0x45, 0x50, 0x52, 0x4f, 0x4d, 0x5f, 0x56]
}

pub open spec fn token_sram() -> Seq<u8> {
    seq![0x53u8, 0x52, 0x41, 0x4d, 0x5f, 0x56]
}

pub open spec fn token_flash() -> Seq<u8> {
    seq![0x46u8, 0x4c, 0x41, 0x53, 0x48, 0x5f, 0x56]
}

pub open spec fn token_flash512() -> Seq<u8> {
    seq![0x46u8, 0x4c, 0x41, 0x53, 0x48, 0x35, 0x31, 0x32, 0x5f, 0x56]
}

pub open spec fn token_flash1m() -> Seq<u8> {
    seq![0x46u8, 0x4c, 0x41, 0x53, 0x48, 0x31, 0x4d, 0x5f, 0x56]
}

/// `tok` occurs in `data` starting at offset `i`.
pub open spec fn token_at(data: Seq<u8>, i: int, tok: Seq<u8>) -> bool {
    0 <= i && i + tok.len() <= data.len() && data.subrange(i, i + tok.len()) == tok
}

/// The media kind whose token starts at offset `i`, trying the tokens in order.
pub open spec fn media_at(data: Seq<u8>, i: int) -> Option<BackupType> {
    if token_at(data, i, token_eeprom()) {
        Some(BackupType::Eeprom8KB)
    } else if token_at(data, i, token_sram()) {
        Some(BackupType::Sram32KB)
    } else if token_at(data, i, token_flash()) {
        Some(BackupType::Flash64KB)
    } else if token_at(data, i, token_flash512()) {
        Some(BackupType::Flash64KB)
    } else if token_at(data, i, token_flash1m()) {
        Some(BackupType::Flash128KB)
    } else {
        None
    }
}

/// Scans `data` from offset `i` at 4-byte strides; the first token found wins.
pub open spec fn detect_from(data: Seq<u8>, i: int) -> BackupType
    decreases data.len() + 4 - i,
{
    if i < 0 || i >= data.len() {
        BackupType::NoBackup
    } else {
        match media_at(data, i) {
            Some(t) => t,
            None => detect_from(data, i + 4),
        }
    }
}

/// The save media kind that an image announces.
pub open spec fn detect_backup(data: Seq<u8>) -> BackupType {
    detect_from(data, 0)
}

fn token_matches(data: &Vec<u8>, i: usize, tok: &Vec<u8>) -> (r: bool)
    ensures
        r == token_at(data@, i as int, tok@),
{
    if tok.len() > data.len() || i > data.len() - tok.len() {
        return false;
    }
    let mut j: usize = 0;
    while j < tok.len()
        invariant
            j <= tok.len(),
            i + tok.len() <= data.len(),
            forall|k: int| 0 <= k < j ==> data@[i + k] == tok@[k],
        decreases tok.len() - j,
    {
        if data[i + j] != tok[j] {
            assert(data@.subrange(i as int, i + tok@.len())[j as int] != tok@[j as int]);
            return false;
        }
        j = j + 1;
    }
    assert(data@.subrange(i as int, i + tok@.len()) =~= tok@);
    true
}

impl Rom {
    /// An image holding a copy of `data`.
    pub fn new(data: &Vec<u8>) -> (r: Self)
        ensures
            r@ == data@,
    {
        let mut v: Vec<u8> = Vec::new();
        let mut i: usize = 0;
        while i < data.len()
            invariant
                i <= data.len(),
                v@ == data@.subrange(0, i as int),
            decreases data.len() - i,
        {
            v.push(data[i]);
            i = i + 1;
        }
        assert(v@ =~= data@);
        Rom { data: v }
    }

    /// Size of the image in bytes.
    pub fn len(&self) -> (r: usize)
        ensures
            r == self@.len(),
    {
        self.data.len()
    }

    /// The bytes of the image.
    pub fn data(&self) -> (r: &Vec<u8>)
        ensures
            r@ == self@,
    {
        &self.data
    }

    /// The byte at `addr`, or the open-bus value past the end of the image.
    pub fn read_byte(&self, addr: u32) -> (r: u8)
        ensures
            r == (if addr < self@.len() {
                self@[addr as int]
            } else {
                OPEN_BUS
            }),
    {
        if (addr as usize) < self.data.len() {
            self.data[addr as usize]
        } else {
            OPEN_BUS
        }
    }

    /// Scans the image at 4-byte strides for the save-media tokens; the first hit wins.
    pub fn get_backup_type(&self) -> (r: BackupType)
        ensures
            r == detect_backup(self@),
    {
        let toks: Vec<Vec<u8>> = vec![
            vec![0x45u8, 0x45, 0x50, 0x52, 0x4f, 0x4d, 0x5f, 0x56],
            vec![0x53u8, 0x52, 0x41, 0x4d, 0x5f, 0x56],
            vec![0x46u8, 0x4c, 0x41, 0x53, 0x48, 0x5f, 0x56],
            vec![0x46u8, 0x4c, 0x41, 0x53, 0x48, 0x35, 0x31, 0x32, 0x5f, 0x56],
            vec![0x46u8, 0x4c, 0x41, 0x53, 0x48, 0x31, 0x4d, 0x5f, 0x56],
        ];
        assert(toks@[0]@ =~= token_eeprom());
        assert(toks@[1]@ =~= token_sram());
        assert(toks@[2]@ =~= token_flash());
        assert(toks@[3]@ =~= token_flash512());
        assert(toks@[4]@ =~= token_flash1m());
        let mut i: usize = 0;
        while i < self.data.len()
            invariant
                i % 4 == 0,
                toks@.len() == 5,
                toks@[0]@ == token_eeprom(),
                toks@[1]@ == token_sram(),
                toks@[2]@ == token_flash(),
                toks@[3]@ == token_flash512(),
                toks@[4]@ == token_flash1m(),
                detect_backup(self@) == detect_from(self@, i as int),
            decreases self.data.len() - i,
        {
            if token_matches(&self.data, i, &toks[0]) {
                return BackupType::Eeprom8KB;
            }
            if token_matches(&self.data, i, &toks[1]) {
                return BackupType::Sram32KB;
            }
            if token_matches(&self.data, i, &toks[2]) {
                return BackupType::Flash64KB;
            }
            if token_matches(&self.data, i, &toks[3]) {
                return BackupType::Flash64KB;
            }
            if token_matches(&self.data, i, &toks[4]) {
                return BackupType::Flash128KB;
            }
            if self.data.len() - i <= 4 {
                assert(detect_from(self@, i + 4) == BackupType::NoBackup);
                return BackupType::NoBackup;
            }
            i = i + 4;
        }
        BackupType::NoBackup
    }
}

} // verus!
