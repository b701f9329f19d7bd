//! Identifiers and integer helpers shared by every module.
use vstd::prelude::*;

verus! {

/// An account or contract address, identified by an integer.
pub type AccountId = u64;

/// A short symbolic identifier (session id, asset code, reference key).
pub type SymbolId = u64;

/// A 32-byte digest, held as four big-endian 64-bit words.
#[derive(Clone, Copy, Debug, PartialEq, Eq, Structural)]
pub struct Hash32 {
    pub w0: u64,
    pub w1: u64,
    pub w2: u64,
    pub w3: u64,
}

/// Clamp a mathematical integer into the `i128` range.
pub open spec fn clamp_i128(x: int) -> i128 {
    if x > i128::MAX {
        i128::MAX
    } else if x < i128::MIN {
        i128::MIN
    } else {
        x as i128
    }
}

/// Clamp a mathematical integer into the `u32` range.
pub open spec fn clamp_u32(x: int) -> u32 {
    if x > u32::MAX {
        u32::MAX
    } else if x < 0 {
        0
    } else {
        x as u32
    }
}

/// Clamp a mathematical integer into the `u64` range.
pub open spec fn clamp_u64(x: int) -> u64 {
    if x > u64::MAX {
        u64::MAX
    } else if x < 0 {
        0
    } else {
        x as u64
    }
}

pub open spec fn min_int(a: int, b: int) -> int {
    if a <= b { a } else { b }
}

pub open spec fn max_int(a: int, b: int) -> int {
    if a >= b { a } else { b }
}

/// Saturating `i128` addition.
pub fn sat_add_i128(a: i128, b: i128) -> (r: i128)
    ensures
        r == clamp_i128(a + b),
{
    match a.checked_add(b) {
        Some(v) => v,
        None => if b > 0 { i128::MAX } else { i128::MIN },
    }
}

/// Saturating `i128` subtraction.
pub fn sat_sub_i128(a: i128, b: i128) -> (r: i128)
    ensures
        r == clamp_i128(a - b),
{
    match a.checked_sub(b) {
        Some(v) => v,
        None => if b < 0 { i128::MAX } else { i128::MIN },
    }
}

/// Saturating `u32` multiplication.
pub fn sat_mul_u32(a: u32, b: u32) -> (r: u32)
    ensures
        r == clamp_u32(a * b),
{
    match a.checked_mul(b) {
        Some(v) => v,
        None => u32::MAX,
    }
}

pub fn min_i128(a: i128, b: i128) -> (r: i128)
    ensures
        r == min_int(a as int, b as int),
{
    if a <= b { a } else { b }
}

pub fn max_i128(a: i128, b: i128) -> (r: i128)
    ensures
        r == max_int(a as int, b as int),
{
    if a >= b { a } else { b }
}

pub fn min_u32(a: u32, b: u32) -> (r: u32)
    ensures
        r == min_int(a as int, b as int),
{
    if a <= b { a } else { b }
}

pub fn max_u32(a: u32, b: u32) -> (r: u32)
    ensures
        r == max_int(a as int, b as int),
{
    if a >= b { a } else { b }
}

pub fn min_u64(a: u64, b: u64) -> (r: u64)
    ensures
        r == min_int(a as int, b as int),
{
    if a <= b { a } else { b }
}

pub fn max_u64(a: u64, b: u64) -> (r: u64)
    ensures
        r == max_int(a as int, b as int),
{
    if a >= b { a } else { b }
}

/// Two 64-bit identifiers packed into one 128-bit map key: `a` in the high
/// half, `b` in the low half.
pub open spec fn pair_key(a: u64, b: u64) -> u128 {
    (a as int * 0x1_0000_0000_0000_0000int + b as int) as u128
}

proof fn lemma_pair_key_range(a: u64, b: u64)
    ensures
        0 <= a as int * 0x1_0000_0000_0000_0000int + b as int <= u128::MAX,
{
    assert(0 <= a as int * 0x1_0000_0000_0000_0000int + b as int <= u128::MAX) by (nonlinear_arith)
        requires
            0 <= a <= u64::MAX,
            0 <= b <= u64::MAX,
    ;
}

/// Packing is injective: two keys are equal exactly when both halves are.
pub proof fn lemma_pair_key(a1: u64, b1: u64, a2: u64, b2: u64)
    ensures
        (pair_key(a1, b1) == pair_key(a2, b2)) <==> (a1 == a2 && b1 == b2),
{
    lemma_pair_key_range(a1, b1);
    lemma_pair_key_range(a2, b2);
    if pair_key(a1, b1) == pair_key(a2, b2) {
        let p: int = 0x1_0000_0000_0000_0000int;
        assert(a1 == a2 && b1 == b2) by (nonlinear_arith)
            requires
                a1 as int * p + b1 as int == a2 as int * p + b2 as int,
                0 <= b1 < p,
                0 <= b2 < p,
                0 <= a1,
                0 <= a2,
                p == 0x1_0000_0000_0000_0000int,
        ;
    }
}

pub fn make_pair_key(a: u64, b: u64) -> (r: u128)
    ensures
        r == pair_key(a, b),
{
    proof {
        lemma_pair_key_range(a, b);
    }
    (a as u128) * 0x1_0000_0000_0000_0000u128 + (b as u128)
}

} // verus!
