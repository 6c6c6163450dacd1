//! The program status register: its packed 32-bit form and its structured view.
use vstd::prelude::*;

use crate::bits::{bit, bit_set};

verus! {

/// One of the seven operating modes of the processor.
#[allow(non_camel_case_types)]
#[derive(Clone, Copy, PartialEq, Eq, Structural, Debug)]
pub enum OperatingMode {
    usr,
    fiq,
    irq,
    svc,
    abt,
    sys,
    und,
}

/// The instruction encoding the processor executes: wide (32-bit) or narrow (16-bit).
#[derive(Clone, Copy, PartialEq, Eq, Structural, Debug)]
pub enum OperatingState {
    ARM,
    THUMB,
}

/// A mode field that names none of the seven operating modes.
#[derive(Clone, Copy, PartialEq, Eq, Structural, Debug)]
pub struct IllegalModeEncoding {
    pub bits: u32,
}

/// The 5-bit encoding of each mode.
pub open spec fn mode_code(m: OperatingMode) -> u32 {
    match m {
        OperatingMode::usr => 0x10,
        OperatingMode::fiq => 0x11,
        OperatingMode::irq => 0x12,
        OperatingMode::svc => 0x13,
        OperatingMode::abt => 0x17,
        OperatingMode::und => 0x1b,
        OperatingMode::sys => 0x1f,
    }
}

/// The mode that a 5-bit field encodes, if any.
pub open spec fn mode_of_code(c: u32) -> Option<OperatingMode> {
    if c == 0x10 {
        Some(OperatingMode::usr)
    } else if c == 0x11 {
        Some(OperatingMode::fiq)
    } else if c == 0x12 {
        Some(OperatingMode::irq)
    } else if c == 0x13 {
        Some(OperatingMode::svc)
    } else if c == 0x17 {
        Some(OperatingMode::abt)
    } else if c == 0x1b {
        Some(OperatingMode::und)
    } else if c == 0x1f {
        Some(OperatingMode::sys)
    } else {
        None
    }
}

/// Register bank of each mode: User and System share bank 0.
pub open spec fn bank_of(m: OperatingMode) -> int {
    match m {
        OperatingMode::usr | OperatingMode::sys => 0,
        OperatingMode::fiq => 1,
        OperatingMode::irq => 2,
        OperatingMode::svc => 3,
        OperatingMode::abt => 4,
        OperatingMode::und => 5,
    }
}

impl OperatingMode {
    /// The 5-bit encoding of this mode.
    pub fn code(self) -> (r: u32)
        ensures
            r == mode_code(self),
    {
        match self {
            OperatingMode::usr => 0x10,
            OperatingMode::fiq => 0x11,
            OperatingMode::irq => 0x12,
            OperatingMode::svc => 0x13,
            OperatingMode::abt => 0x17,
            OperatingMode::und => 0x1b,
            OperatingMode::sys => 0x1f,
        }
    }

    /// Decodes a 5-bit mode field.
    pub fn from_code(c: u32) -> (r: Result<OperatingMode, IllegalModeEncoding>)
        ensures
            mode_of_code(c) is Some ==> r == Ok::<OperatingMode, IllegalModeEncoding>(
                mode_of_code(c)->Some_0,
            ),
            mode_of_code(c) is None ==> r == Err::<OperatingMode, IllegalModeEncoding>(
                IllegalModeEncoding { bits: c },
            ),
    {
        if c == 0x10 {
            Ok(OperatingMode::usr)
        } else if c == 0x11 {
            Ok(OperatingMode::fiq)
        } else if c == 0x12 {
            Ok(OperatingMode::irq)
        } else if c == 0x13 {
            Ok(OperatingMode::svc)
        } else if c == 0x17 {
            Ok(OperatingMode::abt)
        } else if c == 0x1b {
            Ok(OperatingMode::und)
        } else if c == 0x1f {
            Ok(OperatingMode::sys)
        } else {
            Err(IllegalModeEncoding { bits: c })
        }
    }

    /// A readable name of the mode.
    pub fn name(&self) -> (r: String)
        ensures
            *self == OperatingMode::usr ==> r@ == "User Mode"@,
            *self == OperatingMode::svc ==> r@ == "Supervisor Mode"@,
            *self == OperatingMode::fiq ==> r@ == "FIQ Mode"@,
            *self == OperatingMode::irq ==> r@ == "IRQ Mode"@,
            *self == OperatingMode::und ==> r@ == "Undefined Mode"@,
            *self == OperatingMode::sys ==> r@ == "System Mode"@,
            *self == OperatingMode::abt ==> r@ == "Abort Mode"@,
    {
        match self {
            OperatingMode::usr => String::from_str("User Mode"),
            OperatingMode::svc => String::from_str("Supervisor Mode"),
            OperatingMode::fiq => String::from_str("FIQ Mode"),
            OperatingMode::irq => String::from_str("IRQ Mode"),
            OperatingMode::und => String::from_str("Undefined Mode"),
            OperatingMode::sys => String::from_str("System Mode"),
            OperatingMode::abt => String::from_str("Abort Mode"),
        }
    }

    /// Index of the register bank this mode uses.
    pub fn current_bank_index(self) -> (r: usize)
        ensures
            r == bank_of(self),
            r < 6,
    {
        match self {
            OperatingMode::usr | OperatingMode::sys => 0,
            OperatingMode::fiq => 1,
            OperatingMode::irq => 2,
            OperatingMode::svc => 3,
            OperatingMode::abt => 4,
            OperatingMode::und => 5,
        }
    }

    /// Every mode but User and System has a saved status register.
    pub open spec fn has_spsr_spec(self) -> bool {
        self != OperatingMode::usr && self != OperatingMode::sys
    }

    /// User and System are the unprivileged-bank modes, which have no saved status.
    pub fn has_spsr(self) -> (r: bool)
        ensures
            r == self.has_spsr_spec(),
    {
        match self {
            OperatingMode::usr | OperatingMode::sys => false,
            _ => true,
        }
    }
}

/// The structured view of the status register.
#[derive(Clone, Copy, PartialEq, Eq, Structural, Debug)]
pub struct ProgramStatusRegister {
    pub mode: OperatingMode,
    pub operating_state: OperatingState,
    pub fiq_disable_bit: bool,
    pub irq_disable_bit: bool,
    pub v_condition_bit: bool,
    pub c_condition_bit: bool,
    pub z_condition_bit: bool,
    pub n_condition_bit: bool,
}

/// 1 for a set flag, 0 otherwise.
pub open spec fn flag(b: bool) -> u32 {
    if b {
        1
    } else {
        0
    }
}

/// The packed word: N at 31, Z at 30, C at 29, V at 28, I at 7, F at 6,
/// the state at 5 (set for narrow) and the mode in bits 4..0; all else zero.
pub open spec fn pack(p: ProgramStatusRegister) -> u32 {
    (flag(p.n_condition_bit) << 31u32) | (flag(p.z_condition_bit) << 30u32) | (flag(
        p.c_condition_bit,
    ) << 29u32) | (flag(p.v_condition_bit) << 28u32) | (flag(p.irq_disable_bit) << 7u32) | (
    flag(p.fiq_disable_bit) << 6u32) | (flag(p.operating_state == OperatingState::THUMB)
        << 5u32) | mode_code(p.mode)
}

/// The structured view of a packed word, or the illegal mode field it holds.
pub open spec fn unpack(v: u32) -> Result<ProgramStatusRegister, IllegalModeEncoding> {
    match mode_of_code(v & 0x1f) {
        Some(m) => Ok(
            ProgramStatusRegister {
                mode: m,
                operating_state: if bit_set(v, 5) {
                    OperatingState::THUMB
                } else {
                    OperatingState::ARM
                },
                fiq_disable_bit: bit_set(v, 6),
                irq_disable_bit: bit_set(v, 7),
                v_condition_bit: bit_set(v, 28),
                c_condition_bit: bit_set(v, 29),
                z_condition_bit: bit_set(v, 30),
                n_condition_bit: bit_set(v, 31),
            },
        ),
        None => Err(IllegalModeEncoding { bits: v & 0x1f }),
    }
}

fn flag_of(b: bool) -> (r: u32)
    ensures
        r == flag(b),
{
    if b {
        1
    } else {
        0
    }
}

proof fn lemma_fields_of_packed(n: u32, z: u32, c: u32, v: u32, i: u32, f: u32, t: u32, m: u32)
    by (bit_vector)
    requires
        n <= 1,
        z <= 1,
        c <= 1,
        v <= 1,
        i <= 1,
        f <= 1,
        t <= 1,
        m < 32,
    ensures
        ({
            let w = (n << 31u32) | (z << 30u32) | (c << 29u32) | (v << 28u32) | (i << 7u32) | (f
                << 6u32) | (t << 5u32) | m;
            &&& ((w >> 31u32) & 1 == 1) == (n == 1)
            &&& ((w >> 30u32) & 1 == 1) == (z == 1)
            &&& ((w >> 29u32) & 1 == 1) == (c == 1)
            &&& ((w >> 28u32) & 1 == 1) == (v == 1)
            &&& ((w >> 7u32) & 1 == 1) == (i == 1)
            &&& ((w >> 6u32) & 1 == 1) == (f == 1)
            &&& ((w >> 5u32) & 1 == 1) == (t == 1)
            &&& w & 0x1f == m
        }),
{
}

/// Unpacking a packed register gives it back.
pub proof fn lemma_psr_round_trip(p: ProgramStatusRegister)
    ensures
        unpack(pack(p)) == Ok::<ProgramStatusRegister, IllegalModeEncoding>(p),
{
    lemma_fields_of_packed(
        flag(p.n_condition_bit),
        flag(p.z_condition_bit),
        flag(p.c_condition_bit),
        flag(p.v_condition_bit),
        flag(p.irq_disable_bit),
        flag(p.fiq_disable_bit),
        flag(p.operating_state == OperatingState::THUMB),
        mode_code(p.mode),
    );
}

/// The reset state: Supervisor mode, wide state, both interrupt kinds masked, flags clear.
pub open spec fn reset_psr() -> ProgramStatusRegister {
    ProgramStatusRegister {
        mode: OperatingMode::svc,
        operating_state: OperatingState::ARM,
        fiq_disable_bit: true,
        irq_disable_bit: true,
        v_condition_bit: false,
        c_condition_bit: false,
        z_condition_bit: false,
        n_condition_bit: false,
    }
}

impl ProgramStatusRegister {
    /// The reset state: Supervisor mode, wide state, both interrupt kinds masked, flags clear.
    pub fn new() -> (r: Self)
        ensures
            r == reset_psr(),
    {
        ProgramStatusRegister {
            mode: OperatingMode::svc,
            operating_state: OperatingState::ARM,
            fiq_disable_bit: true,
            irq_disable_bit: true,
            v_condition_bit: false,
            c_condition_bit: false,
            z_condition_bit: false,
            n_condition_bit: false,
        }
    }

    /// The packed word of this register.
    pub fn to_bits(&self) -> (r: u32)
        ensures
            r == pack(*self),
    {
        (flag_of(self.n_condition_bit) << 31u32) | (flag_of(self.z_condition_bit) << 30u32) | (
        flag_of(self.c_condition_bit) << 29u32) | (flag_of(self.v_condition_bit) << 28u32) | (
        flag_of(self.irq_disable_bit) << 7u32) | (flag_of(self.fiq_disable_bit) << 6u32) | (
        flag_of(self.operating_state == OperatingState::THUMB) << 5u32) | self.mode.code()
    }

    /// Reads a packed word; fails when its mode field is not a legal mode.
    pub fn from_bits(v: u32) -> (r: Result<Self, IllegalModeEncoding>)
        ensures
            r == unpack(v),
    {
        let mode = match OperatingMode::from_code(v & 0x1f) {
            Ok(m) => m,
            Err(e) => {
                return Err(e);
            },
        };
        Ok(
            ProgramStatusRegister {
                mode,
                operating_state: if bit(v, 5) {
                    OperatingState::THUMB
                } else {
                    OperatingState::ARM
                },
                fiq_disable_bit: bit(v, 6),
                irq_disable_bit: bit(v, 7),
                v_condition_bit: bit(v, 28),
                c_condition_bit: bit(v, 29),
                z_condition_bit: bit(v, 30),
                n_condition_bit: bit(v, 31),
            },
        )
    }
}

} // verus!
