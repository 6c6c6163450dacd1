//! The bus contract: byte access plus little-endian half-word and word access
//! at naturally aligned addresses.
use vstd::prelude::*;

verus! {

/// A byte-addressed device. Half-word and word accesses clear the low address
/// bits and are composed of byte accesses in increasing address order.
pub trait Bus: Sized {
    /// What a reader can observe of the device.
    type State;

    /// The observable state of this device.
    spec fn state(&self) -> Self::State;

    /// The internal well-formedness of the device.
    spec fn wf(&self) -> bool;

    /// The byte that a read of `addr` returns in state `s`.
    spec fn load(s: Self::State, addr: u32) -> u8;

    /// State `s` after a byte write of `value` to `addr`.
    spec fn store(s: Self::State, addr: u32, value: u8) -> Self::State;

    fn read_byte(&self, addr: u32) -> (r: u8)
        requires
            self.wf(),
        ensures
            r == Self::load(self.state(), addr),
    ;

    fn write_byte(&mut self, addr: u32, value: u8)
        requires
            old(self).wf(),
        ensures
            final(self).wf(),
            final(self).state() == Self::store(old(self).state(), addr, value),
    ;
}

/// The half-word at `addr & !1`, low byte first.
pub open spec fn hword_in<B: Bus>(s: B::State, addr: u32) -> u16 {
    let a = addr & !1u32;
    (B::load(s, a) as u16) | ((B::load(s, (a + 1) as u32) as u16) << 8u16)
}

/// The word at `addr & !3`, low byte first.
pub open spec fn word_in<B: Bus>(s: B::State, addr: u32) -> u32 {
    let a = addr & !3u32;
    (B::load(s, a) as u32) | ((B::load(s, (a + 1) as u32) as u32) << 8u32) | ((B::load(
        s,
        (a + 2) as u32,
    ) as u32) << 16u32) | ((B::load(s, (a + 3) as u32) as u32) << 24u32)
}

/// `s` after the two byte writes of a half-word store, lower address first.
pub open spec fn store_hword<B: Bus>(s: B::State, addr: u32, value: u16) -> B::State {
    let a = addr & !1u32;
    B::store(B::store(s, a, value as u8), (a + 1) as u32, (value >> 8u16) as u8)
}

/// `s` after the four byte writes of a word store, in increasing address order.
pub open spec fn store_word<B: Bus>(s: B::State, addr: u32, value: u32) -> B::State {
    let a = addr & !3u32;
    let s1 = B::store(s, a, value as u8);
    let s2 = B::store(s1, (a + 1) as u32, (value >> 8u32) as u8);
    let s3 = B::store(s2, (a + 2) as u32, (value >> 16u32) as u8);
    B::store(s3, (a + 3) as u32, (value >> 24u32) as u8)
}

/// Reads the little-endian half-word at `addr & !1`.
pub fn read_hword<B: Bus>(bus: &B, addr: u32) -> (r: u16)
    requires
        bus.wf(),
    ensures
        r == hword_in::<B>(bus.state(), addr),
{
    let a = addr & !1u32;
    assert(a <= 0xffff_fffe) by (bit_vector)
        requires
            a == addr & !1u32,
    ;
    let lo = bus.read_byte(a);
    let hi = bus.read_byte(a + 1);
    (lo as u16) | ((hi as u16) << 8u16)
}

/// Writes `value` little-endian at `addr & !1`, low byte first.
pub fn write_hword<B: Bus>(bus: &mut B, addr: u32, value: u16)
    requires
        old(bus).wf(),
    ensures
        final(bus).wf(),
        final(bus).state() == store_hword::<B>(old(bus).state(), addr, value),
{
    let a = addr & !1u32;
    assert(a <= 0xffff_fffe) by (bit_vector)
        requires
            a == addr & !1u32,
    ;
    bus.write_byte(a, value as u8);
    bus.write_byte(a + 1, (value >> 8u16) as u8);
}

/// Reads the little-endian word at `addr & !3`.
pub fn read_word<B: Bus>(bus: &B, addr: u32) -> (r: u32)
    requires
        bus.wf(),
    ensures
        r == word_in::<B>(bus.state(), addr),
{
    let a = addr & !3u32;
    assert(a <= 0xffff_fffc) by (bit_vector)
        requires
            a == addr & !3u32,
    ;
    let b0 = bus.read_byte(a);
    let b1 = bus.read_byte(a + 1);
    let b2 = bus.read_byte(a + 2);
    let b3 = bus.read_byte(a + 3);
    (b0 as u32) | ((b1 as u32) << 8u32) | ((b2 as u32) << 16u32) | ((b3 as u32) << 24u32)
}

/// Writes `value` little-endian at `addr & !3`, in increasing address order.
pub fn write_word<B: Bus>(bus: &mut B, addr: u32, value: u32)
    requires
        old(bus).wf(),
    ensures
        final(bus).wf(),
        final(bus).state() == store_word::<B>(old(bus).state(), addr, value),
{
    let a = addr & !3u32;
    assert(a <= 0xffff_fffc) by (bit_vector)
        requires
            a == addr & !3u32,
    ;
    bus.write_byte(a, value as u8);
    bus.write_byte(a + 1, (value >> 8u32) as u8);
    bus.write_byte(a + 2, (value >> 16u32) as u8);
    bus.write_byte(a + 3, (value >> 24u32) as u8);
}

/// A half-word read ignores address bit 0 and a word read ignores bits 1..0.
pub proof fn lemma_alignment_masking<B: Bus>(s: B::State, a: u32)
    ensures
        hword_in::<B>(s, a) == hword_in::<B>(s, a & !1u32),
        word_in::<B>(s, a) == word_in::<B>(s, a & !3u32),
{
    assert((a & !1u32) & !1u32 == a & !1u32) by (bit_vector);
    assert((a & !3u32) & !3u32 == a & !3u32) by (bit_vector);
}

} // verus!
