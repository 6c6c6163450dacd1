//! Bit access on 32-bit words, with each result stated over shifts and masks.
use vstd::prelude::*;

verus! {

/// Bit `i` of `v` is set.
pub open spec fn bit_set(v: u32, i: u32) -> bool {
    (v >> i) & 1 == 1
}

/// Returns bit `i` of `v`.
pub fn bit(v: u32, i: u32) -> (r: bool)
    requires
        i < 32,
    ensures
        r == bit_set(v, i),
{
    (v >> i) & 1 == 1
}

/// The 4-bit register number held at bits `lo..lo + 4` of `v`.
pub open spec fn reg_field(v: u32, lo: u32) -> int {
    ((v >> lo) & 0xf) as int
}

/// Returns the register number held at bits `lo..lo + 4` of `v`.
pub fn reg_at(v: u32, lo: u32) -> (r: usize)
    requires
        lo < 32,
    ensures
        r == reg_field(v, lo),
        r < 16,
{
    let x: u32 = (v >> lo) & 0xf;
    assert(((v >> lo) & 0xf) < 16) by (bit_vector);
    x as usize
}

/// `v` with bit `i` set to `b`.
pub open spec fn with_bit(v: u32, i: u32, b: bool) -> u32 {
    if b {
        v | (1u32 << i)
    } else {
        v & !(1u32 << i)
    }
}

/// The word `v` rotated right by `n` places (`n < 32`).
pub open spec fn rotr(v: u32, n: u32) -> u32 {
    if n == 0 {
        v
    } else {
        (v >> n) | (v << ((32 - n) as u32))
    }
}

/// Rotates `v` right by `n` places, `n < 32`.
pub fn rotate_right(v: u32, n: u32) -> (r: u32)
    requires
        n < 32,
    ensures
        r == rotr(v, n),
{
    if n == 0 {
        v
    } else {
        (v >> n) | (v << (32 - n))
    }
}

/// Number of set bits among the low 16 bits of `list`.
pub open spec fn count_low16(list: u32, n: nat) -> nat
    decreases n,
{
    if n == 0 {
        0
    } else {
        count_low16(list, (n - 1) as nat) + if bit_set(list, (n - 1) as u32) {
            1nat
        } else {
            0nat
        }
    }
}

/// Counts the set bits among the low 16 bits of `list`.
pub fn count_regs(list: u32) -> (r: u32)
    ensures
        r == count_low16(list, 16),
        r <= 16,
{
    let mut n: u32 = 0;
    let mut i: u32 = 0;
    while i < 16
        invariant
            i <= 16,
            n == count_low16(list, i as nat),
            n <= i,
        decreases 16 - i,
    {
        if bit(list, i) {
            n = n + 1;
        }
        i = i + 1;
    }
    n
}

} // verus!

verus! {

/// `x + y` modulo 2^32.
pub open spec fn wadd(x: u32, y: u32) -> u32 {
    vstd::wrapping::u32_specs::wrapping_add(x, y)
}

/// `x - y` modulo 2^32.
pub open spec fn wsub(x: u32, y: u32) -> u32 {
    vstd::wrapping::u32_specs::wrapping_sub(x, y)
}

} // verus!

verus! {

/// Bounds of the masked fields of a word.
pub proof fn lemma_mask_bounds(x: u32)
    by (bit_vector)
    ensures
        x & 1 <= 1,
        x & 3 <= 3,
        x & 7 <= 7,
        x & 0xf <= 0xf,
        x & 0x1f <= 0x1f,
        x & 0xff <= 0xff,
        x & 0x7ff <= 0x7ff,
        x & 0x7fff <= 0x7fff,
        x & 0xffff <= 0xffff,
        x & 0x3_ffff <= 0x3_ffff,
        x & 0xff_ffff <= 0xff_ffff,
{
}

} // verus!
