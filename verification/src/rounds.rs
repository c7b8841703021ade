//! The arithmetic of the generator kernels, on the host.
//!
//! These functions compute on integers what the device code of the generator
//! kernels computes, so that a kernel's output can be foretold and inspected.
//! The floating-point end of the transforms is left to the caller: a value of
//! the unit interval is `unit_numerator(word)` divided by 2^53.
use vstd::prelude::*;

verus! {

/// Multiplier of the first lane pair, 64-bit lanes.
pub const MULTIPLIER_64: u64 = 0xD2B74407B1CE6E93;

/// Second multiplier, 64-bit lanes.
pub const MULTIPLIER2_64: u64 = 0xCA5A826395121157;

/// Step of the first key word per round, 64-bit lanes: the golden ratio.
pub const KEY_STEP_64: u64 = 0x9E3779B97F4A7C15;

/// Step of the second key word per round, 64-bit lanes.
pub const KEY_STEP2_64: u64 = 0xBB67AE8584CAA73B;

/// Multiplier of the first lane pair, 32-bit lanes.
pub const MULTIPLIER_32: u32 = 0xD2511F53;

/// Second multiplier, 32-bit lanes.
pub const MULTIPLIER2_32: u32 = 0xCD9E8D57;

/// Step of the first key word per round, 32-bit lanes.
pub const KEY_STEP_32: u32 = 0x9E3779B9;

/// Step of the second key word per round, 32-bit lanes.
pub const KEY_STEP2_32: u32 = 0xBB67AE85;

/// High half of the 128-bit product of two 64-bit words.
pub open spec fn high64(a: u64, b: u64) -> u64 {
    ((a as int * b as int) / 0x1_0000_0000_0000_0000) as u64
}

/// Low half of the 128-bit product of two 64-bit words.
pub open spec fn low64(a: u64, b: u64) -> u64 {
    ((a as int * b as int) % 0x1_0000_0000_0000_0000) as u64
}

/// Sum of two 64-bit words, modulo 2^64.
pub open spec fn sum64(a: u64, b: u64) -> u64 {
    ((a as int + b as int) % 0x1_0000_0000_0000_0000) as u64
}

/// High half of the 64-bit product of two 32-bit words.
pub open spec fn high32(a: u32, b: u32) -> u32 {
    ((a as int * b as int) / 0x1_0000_0000) as u32
}

/// Low half of the 64-bit product of two 32-bit words.
pub open spec fn low32(a: u32, b: u32) -> u32 {
    ((a as int * b as int) % 0x1_0000_0000) as u32
}

/// Sum of two 32-bit words, modulo 2^32.
pub open spec fn sum32(a: u32, b: u32) -> u32 {
    ((a as int + b as int) % 0x1_0000_0000) as u32
}

/// One round on two 64-bit lanes.
pub open spec fn round2x64(s: (u64, u64), key: u64) -> (u64, u64) {
    (high64(MULTIPLIER_64, s.0) ^ key ^ s.1, low64(MULTIPLIER_64, s.0))
}

/// `n` rounds on two 64-bit lanes; the key advances by its step after each.
pub open spec fn rounds2x64(s: (u64, u64), key: u64, n: nat) -> (u64, u64)
    decreases n,
{
    if n == 0 {
        s
    } else {
        rounds2x64(round2x64(s, key), sum64(key, KEY_STEP_64), (n - 1) as nat)
    }
}

/// One round on four 64-bit lanes. Lane 0 is multiplied by the first
/// multiplier and lane 2 by the second; the high half of each product goes,
/// mixed with a key word, to the other pair of lanes.
pub open spec fn round4x64(s: (u64, u64, u64, u64), key: (u64, u64)) -> (u64, u64, u64, u64) {
    (
        high64(MULTIPLIER2_64, s.2) ^ key.1 ^ s.3,
        low64(MULTIPLIER_64, s.0),
        high64(MULTIPLIER_64, s.0) ^ key.0 ^ s.1,
        low64(MULTIPLIER2_64, s.2),
    )
}

/// `n` rounds on four 64-bit lanes; each key word advances by its own step
/// after each round.
pub open spec fn rounds4x64(s: (u64, u64, u64, u64), key: (u64, u64), n: nat) -> (
    u64,
    u64,
    u64,
    u64,
)
    decreases n,
{
    if n == 0 {
        s
    } else {
        rounds4x64(
            round4x64(s, key),
            (sum64(key.0, KEY_STEP_64), sum64(key.1, KEY_STEP2_64)),
            (n - 1) as nat,
        )
    }
}

/// One round on four 32-bit lanes, of the same shape as on 64-bit lanes.
pub open spec fn round4x32(s: (u32, u32, u32, u32), key: (u32, u32)) -> (u32, u32, u32, u32) {
    (
        high32(MULTIPLIER2_32, s.2) ^ key.1 ^ s.3,
        low32(MULTIPLIER_32, s.0),
        high32(MULTIPLIER_32, s.0) ^ key.0 ^ s.1,
        low32(MULTIPLIER2_32, s.2),
    )
}

/// `n` rounds on four 32-bit lanes.
pub open spec fn rounds4x32(s: (u32, u32, u32, u32), key: (u32, u32), n: nat) -> (
    u32,
    u32,
    u32,
    u32,
)
    decreases n,
{
    if n == 0 {
        s
    } else {
        rounds4x32(
            round4x32(s, key),
            (sum32(key.0, KEY_STEP_32), sum32(key.1, KEY_STEP2_32)),
            (n - 1) as nat,
        )
    }
}

/// The key of a thread on 32-bit lanes: the high and the low half of its
/// index.
pub open spec fn key4x32(x: u64) -> (u32, u32) {
    ((x as int / 0x1_0000_0000) as u32, (x as int % 0x1_0000_0000) as u32)
}

/// High half of the full product of two 64-bit words: a true wide multiply.
pub fn mul_hi64(a: u64, b: u64) -> (hi: u64)
    ensures
        hi == high64(a, b),
{
    assert(a as int * b as int <= 0xFFFF_FFFF_FFFF_FFFF * 0xFFFF_FFFF_FFFF_FFFF
        && a as int * b as int >= 0) by (nonlinear_arith)
        requires
            0 <= a as int <= 0xFFFF_FFFF_FFFF_FFFF,
            0 <= b as int <= 0xFFFF_FFFF_FFFF_FFFF,
    ;
    let wide: u128 = (a as u128) * (b as u128);
    assert(wide >> 64 == wide / 0x1_0000_0000_0000_0000u128) by (bit_vector);
    assert(wide >> 64 <= 0xFFFF_FFFF_FFFF_FFFFu128) by (bit_vector);
    (wide >> 64) as u64
}

/// High half of the full product of two 32-bit words.
pub fn mul_hi32(a: u32, b: u32) -> (hi: u32)
    ensures
        hi == high32(a, b),
{
    assert(a as int * b as int <= 0xFFFF_FFFF * 0xFFFF_FFFF && a as int * b as int >= 0)
        by (nonlinear_arith)
        requires
            0 <= a as int <= 0xFFFF_FFFF,
            0 <= b as int <= 0xFFFF_FFFF,
    ;
    let wide: u64 = (a as u64) * (b as u64);
    assert(wide >> 32 == wide / 0x1_0000_0000u64) by (bit_vector);
    assert(wide >> 32 <= 0xFFFF_FFFFu64) by (bit_vector);
    (wide >> 32) as u32
}

/// Low half of the full product of two 64-bit words.
pub fn mul_lo64(a: u64, b: u64) -> (lo: u64)
    ensures
        lo == low64(a, b),
{
    a.wrapping_mul(b)
}

/// Sum of two 64-bit words, modulo 2^64.
fn add64(a: u64, b: u64) -> (sum: u64)
    ensures
        sum == sum64(a, b),
{
    a.wrapping_add(b)
}

/// One round on two 64-bit lanes.
fn step2x64(s: (u64, u64), key: u64) -> (out: (u64, u64))
    ensures
        out == round2x64(s, key),
{
    let hi: u64 = mul_hi64(MULTIPLIER_64, s.0);
    let lo: u64 = mul_lo64(MULTIPLIER_64, s.0);
    (hi ^ key ^ s.1, lo)
}

/// One round on four 64-bit lanes.
fn step4x64(s: (u64, u64, u64, u64), key: (u64, u64)) -> (out: (u64, u64, u64, u64))
    ensures
        out == round4x64(s, key),
{
    let hi0: u64 = mul_hi64(MULTIPLIER_64, s.0);
    let lo0: u64 = mul_lo64(MULTIPLIER_64, s.0);
    let hi1: u64 = mul_hi64(MULTIPLIER2_64, s.2);
    let lo1: u64 = mul_lo64(MULTIPLIER2_64, s.2);
    (hi1 ^ key.1 ^ s.3, lo0, hi0 ^ key.0 ^ s.1, lo1)
}

/// Low half of the full product of two 32-bit words.
pub fn mul_lo32(a: u32, b: u32) -> (lo: u32)
    ensures
        lo == low32(a, b),
{
    a.wrapping_mul(b)
}

/// Sum of two 32-bit words, modulo 2^32.
fn add32(a: u32, b: u32) -> (sum: u32)
    ensures
        sum == sum32(a, b),
{
    a.wrapping_add(b)
}

/// One round on four 32-bit lanes.
fn step4x32(s: (u32, u32, u32, u32), key: (u32, u32)) -> (out: (u32, u32, u32, u32))
    ensures
        out == round4x32(s, key),
{
    let hi0: u32 = mul_hi32(MULTIPLIER_32, s.0);
    let lo0: u32 = mul_lo32(MULTIPLIER_32, s.0);
    let hi1: u32 = mul_hi32(MULTIPLIER2_32, s.2);
    let lo1: u32 = mul_lo32(MULTIPLIER2_32, s.2);
    (hi1 ^ key.1 ^ s.3, lo0, hi0 ^ key.0 ^ s.1, lo1)
}

/// Ten rounds on two 64-bit lanes, for the thread of index `x`: the raw
/// output of the kernel on that thread's state. The result depends on the
/// state and the index alone.
pub fn philox2x64_10(state: (u64, u64), x: u64) -> (out: (u64, u64))
    ensures
        out == rounds2x64(state, x, 10),
{
    let mut s: (u64, u64) = state;
    let mut key: u64 = x;
    let mut i: u32 = 0;
    while i < 10
        invariant
            i <= 10,
            rounds2x64(s, key, (10 - i) as nat) == rounds2x64(state, x, 10),
        decreases 10 - i,
    {
        s = step2x64(s, key);
        key = add64(key, KEY_STEP_64);
        i += 1;
    }
    s
}

/// Ten rounds on four 64-bit lanes, for the thread of index `x`; the key
/// starts at zero and `x`.
pub fn philox4x64_10(state: (u64, u64, u64, u64), x: u64) -> (out: (u64, u64, u64, u64))
    ensures
        out == rounds4x64(state, (0, x), 10),
{
    let mut s: (u64, u64, u64, u64) = state;
    let mut key: (u64, u64) = (0, x);
    let mut i: u32 = 0;
    while i < 10
        invariant
            i <= 10,
            rounds4x64(s, key, (10 - i) as nat) == rounds4x64(state, (0, x), 10),
        decreases 10 - i,
    {
        s = step4x64(s, key);
        key = (add64(key.0, KEY_STEP_64), add64(key.1, KEY_STEP2_64));
        i += 1;
    }
    s
}

/// Ten rounds on four 32-bit lanes, for the thread of index `x`; the key
/// starts at the two halves of `x`.
pub fn philox4x32_10(state: (u32, u32, u32, u32), x: u64) -> (out: (u32, u32, u32, u32))
    ensures
        out == rounds4x32(state, key4x32(x), 10),
{
    assert(x >> 32 == x / 0x1_0000_0000u64) by (bit_vector);
    assert(x >> 32 <= 0xFFFF_FFFFu64) by (bit_vector);
    assert(x & 0xFFFF_FFFFu64 == x % 0x1_0000_0000u64) by (bit_vector);
    assert(x & 0xFFFF_FFFFu64 <= 0xFFFF_FFFFu64) by (bit_vector);
    let mut s: (u32, u32, u32, u32) = state;
    let mut key: (u32, u32) = ((x >> 32) as u32, (x & 0xFFFF_FFFF) as u32);
    let mut i: u32 = 0;
    while i < 10
        invariant
            i <= 10,
            rounds4x32(s, key, (10 - i) as nat) == rounds4x32(state, key4x32(x), 10),
        decreases 10 - i,
    {
        s = step4x32(s, key);
        key = (add32(key.0, KEY_STEP_32), add32(key.1, KEY_STEP2_32));
        i += 1;
    }
    s
}

/// The 64-bit word that two adjacent 32-bit lanes make: the first lane is
/// the high half.
pub open spec fn joined(hi: u32, lo: u32) -> int {
    hi as int * 0x1_0000_0000 + lo as int
}

/// The numerator, over 2^53, of the unit-interval value of a 64-bit word.
pub open spec fn numerator(word: int) -> int {
    word / 0x800
}

/// The 64-bit word that two adjacent 32-bit lanes make: the first lane is
/// the high half.
pub fn join_lanes(hi: u32, lo: u32) -> (word: u64)
    ensures
        word == joined(hi, lo),
{
    assert((hi as u64) << 32 == (hi as u64) * 0x1_0000_0000u64) by (bit_vector)
        requires
            hi as u64 <= 0xFFFF_FFFFu64,
    ;
    ((hi as u64) << 32) + (lo as u64)
}

/// The numerator, over 2^53, of the unit-interval value of a word: the word
/// without its low 11 bits. It is below 2^53, so the value lies in [0, 1);
/// the word 0 gives 0.
pub fn unit_numerator(word: u64) -> (m: u64)
    ensures
        m == numerator(word as int),
        0 <= m < 0x20_0000_0000_0000,
        word == 0 ==> m == 0,
{
    assert(word >> 11 == word / 0x800u64) by (bit_vector);
    assert(word >> 11 < 0x20_0000_0000_0000u64) by (bit_vector);
    word >> 11
}

/// The numerators of the unit-interval output of a thread on two 64-bit
/// lanes: one for each state word.
pub fn unit2x64(state: (u64, u64)) -> (out: (u64, u64))
    ensures
        out.0 == numerator(state.0 as int),
        out.1 == numerator(state.1 as int),
        out.0 < 0x20_0000_0000_0000 && out.1 < 0x20_0000_0000_0000,
{
    (unit_numerator(state.0), unit_numerator(state.1))
}

/// The numerators of the unit-interval output of a thread on four 64-bit
/// lanes: one for each state word.
pub fn unit4x64(state: (u64, u64, u64, u64)) -> (out: (u64, u64, u64, u64))
    ensures
        out.0 == numerator(state.0 as int),
        out.1 == numerator(state.1 as int),
        out.2 == numerator(state.2 as int),
        out.3 == numerator(state.3 as int),
        out.0 < 0x20_0000_0000_0000 && out.1 < 0x20_0000_0000_0000,
        out.2 < 0x20_0000_0000_0000 && out.3 < 0x20_0000_0000_0000,
{
    (
        unit_numerator(state.0),
        unit_numerator(state.1),
        unit_numerator(state.2),
        unit_numerator(state.3),
    )
}

/// The numerators of the unit-interval output of a thread on four 32-bit
/// lanes: one for each pair of adjacent state words, so half as many as
/// there are state words.
pub fn unit4x32(state: (u32, u32, u32, u32)) -> (out: (u64, u64))
    ensures
        out.0 == numerator(joined(state.0, state.1)),
        out.1 == numerator(joined(state.2, state.3)),
        out.0 < 0x20_0000_0000_0000 && out.1 < 0x20_0000_0000_0000,
{
    (
        unit_numerator(join_lanes(state.0, state.1)),
        unit_numerator(join_lanes(state.2, state.3)),
    )
}

} // verus!
