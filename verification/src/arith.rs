//! Arithmetic helpers: the 128-bit comparison subroutines that the code
//! generator's runtime library does not provide, and a small minimum helper
//! used by the timer configuration defaults.

use vstd::prelude::*;

verus! {

/// The minimum of two 128-bit unsigned values.
pub fn min128(x: u128, y: u128) -> (r: u128)
    ensures
        r == if x < y { x } else { y },
{
    if x < y {
        x
    } else {
        y
    }
}

/// Three-way unsigned 128-bit comparison, as the toolchain's runtime library
/// defines it: `2` for `a > b`, `1` for `a == b`, `0` for `a < b`.
///
/// The comparison walks the four 32-bit limbs from the most significant one
/// down, exactly as the machine-word subroutine does; the contract states
/// that this lexicographic walk agrees with the numeric order.
pub fn __ucmpti2(a: u128, b: u128) -> (r: i32)
    ensures
        r == 2 <==> a > b,
        r == 1 <==> a == b,
        r == 0 <==> a < b,
{
    let a3: u32 = (a >> 96) as u32;
    let b3: u32 = (b >> 96) as u32;
    proof {
        lemma_limb3_order_u(a, b);
    }
    if a3 != b3 {
        return if a3 > b3 { 2 } else { 0 };
    }
    let a2: u32 = (a >> 64) as u32;
    let b2: u32 = (b >> 64) as u32;
    proof {
        lemma_limb2_order_u(a, b);
    }
    if a2 != b2 {
        return if a2 > b2 { 2 } else { 0 };
    }
    let a1: u32 = (a >> 32) as u32;
    let b1: u32 = (b >> 32) as u32;
    proof {
        lemma_limb1_order_u(a, b);
    }
    if a1 != b1 {
        return if a1 > b1 { 2 } else { 0 };
    }
    let a0: u32 = a as u32;
    let b0: u32 = b as u32;
    proof {
        lemma_limb0_order_u(a, b);
    }
    if a0 != b0 {
        return if a0 > b0 { 2 } else { 0 };
    }
    1
}

/// Three-way signed 128-bit comparison with the same result encoding as
/// [`__ucmpti2`]: `2` for `a > b`, `1` for `a == b`, `0` for `a < b`.
///
/// The most significant 32-bit limb is compared as a signed value and the
/// remaining limbs as unsigned values.
pub fn __cmpti2(a: i128, b: i128) -> (r: i32)
    ensures
        r == 2 <==> a > b,
        r == 1 <==> a == b,
        r == 0 <==> a < b,
{
    let a3: i32 = (a >> 96) as i32;
    let b3: i32 = (b >> 96) as i32;
    proof {
        lemma_limb3_order_s(a, b);
    }
    if a3 != b3 {
        return if a3 > b3 { 2 } else { 0 };
    }
    let a2: u32 = (a >> 64) as u32;
    let b2: u32 = (b >> 64) as u32;
    proof {
        lemma_limb2_order_s(a, b);
    }
    if a2 != b2 {
        return if a2 > b2 { 2 } else { 0 };
    }
    let a1: u32 = (a >> 32) as u32;
    let b1: u32 = (b >> 32) as u32;
    proof {
        lemma_limb1_order_s(a, b);
    }
    if a1 != b1 {
        return if a1 > b1 { 2 } else { 0 };
    }
    let a0: u32 = a as u32;
    let b0: u32 = b as u32;
    proof {
        lemma_limb0_order_s(a, b);
    }
    if a0 != b0 {
        return if a0 > b0 { 2 } else { 0 };
    }
    1
}

proof fn lemma_limb3_order_u(a: u128, b: u128)
    by (bit_vector)
    ensures
        ((a >> 96) as u32) > ((b >> 96) as u32) ==> a > b,
        ((a >> 96) as u32) < ((b >> 96) as u32) ==> a < b,
{
}

proof fn lemma_limb2_order_u(a: u128, b: u128)
    by (bit_vector)
    ensures
        ((a >> 96) as u32) == ((b >> 96) as u32) && ((a >> 64) as u32) > ((b >> 64) as u32) ==> a > b,
        ((a >> 96) as u32) == ((b >> 96) as u32) && ((a >> 64) as u32) < ((b >> 64) as u32) ==> a < b,
{
}

proof fn lemma_limb1_order_u(a: u128, b: u128)
    by (bit_vector)
    ensures
        ((a >> 64) as u32) == ((b >> 64) as u32) && ((a >> 96) as u32) == ((b >> 96) as u32)
            && ((a >> 32) as u32) > ((b >> 32) as u32) ==> a > b,
        ((a >> 64) as u32) == ((b >> 64) as u32) && ((a >> 96) as u32) == ((b >> 96) as u32)
            && ((a >> 32) as u32) < ((b >> 32) as u32) ==> a < b,
{
}

proof fn lemma_limb0_order_u(a: u128, b: u128)
    by (bit_vector)
    ensures
        ((a >> 32) as u32) == ((b >> 32) as u32) && ((a >> 64) as u32) == ((b >> 64) as u32)
            && ((a >> 96) as u32) == ((b >> 96) as u32) ==> ((a as u32) > (b as u32) ==> a > b),
        ((a >> 32) as u32) == ((b >> 32) as u32) && ((a >> 64) as u32) == ((b >> 64) as u32)
            && ((a >> 96) as u32) == ((b >> 96) as u32) ==> ((a as u32) < (b as u32) ==> a < b),
        ((a >> 32) as u32) == ((b >> 32) as u32) && ((a >> 64) as u32) == ((b >> 64) as u32)
            && ((a >> 96) as u32) == ((b >> 96) as u32) && (a as u32) == (b as u32) ==> a == b,
{
}

proof fn lemma_limb3_order_s(a: i128, b: i128)
    by (bit_vector)
    ensures
        ((a >> 96) as i32) > ((b >> 96) as i32) ==> a > b,
        ((a >> 96) as i32) < ((b >> 96) as i32) ==> a < b,
{
}

proof fn lemma_limb2_order_s(a: i128, b: i128)
    by (bit_vector)
    ensures
        ((a >> 96) as i32) == ((b >> 96) as i32) && ((a >> 64) as u32) > ((b >> 64) as u32) ==> a > b,
        ((a >> 96) as i32) == ((b >> 96) as i32) && ((a >> 64) as u32) < ((b >> 64) as u32) ==> a < b,
{
}

proof fn lemma_limb1_order_s(a: i128, b: i128)
    by (bit_vector)
    ensures
        ((a >> 64) as u32) == ((b >> 64) as u32) && ((a >> 96) as i32) == ((b >> 96) as i32)
            && ((a >> 32) as u32) > ((b >> 32) as u32) ==> a > b,
        ((a >> 64) as u32) == ((b >> 64) as u32) && ((a >> 96) as i32) == ((b >> 96) as i32)
            && ((a >> 32) as u32) < ((b >> 32) as u32) ==> a < b,
{
}

proof fn lemma_limb0_order_s(a: i128, b: i128)
    by (bit_vector)
    ensures
        ((a >> 32) as u32) == ((b >> 32) as u32) && ((a >> 64) as u32) == ((b >> 64) as u32)
            && ((a >> 96) as i32) == ((b >> 96) as i32) ==> ((a as u32) > (b as u32) ==> a > b),
        ((a >> 32) as u32) == ((b >> 32) as u32) && ((a >> 64) as u32) == ((b >> 64) as u32)
            && ((a >> 96) as i32) == ((b >> 96) as i32) ==> ((a as u32) < (b as u32) ==> a < b),
        ((a >> 32) as u32) == ((b >> 32) as u32) && ((a >> 64) as u32) == ((b >> 64) as u32)
            && ((a >> 96) as i32) == ((b >> 96) as i32) && (a as u32) == (b as u32) ==> a == b,
{
}

} // verus!
