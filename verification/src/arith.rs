//! Addition and multiplication of signed 32-bit integers.

use vstd::prelude::*;
use crate::fixed_width::wrap_i32;

verus! {

/// Adds `a` and `b`. A sum outside the 32-bit range wraps around.
pub fn add(a: i32, b: i32) -> (sum: i32)
    ensures
        sum == wrap_i32(a + b),
        i32::MIN <= a + b <= i32::MAX ==> sum == a + b,
{
    a.wrapping_add(b)
}

/// Multiplies `a` by `b`. A product outside the 32-bit range wraps around.
pub fn multiply(a: i32, b: i32) -> (product: i32)
    ensures
        product == wrap_i32(a * b),
        i32::MIN <= a * b <= i32::MAX ==> product == a * b,
{
    a.wrapping_mul(b)
}

/// Two calls of `add` on the same arguments return the same value.
pub proof fn lemma_add_repeats(a: i32, b: i32, first: i32, second: i32)
    requires
        call_ensures(self::add, (a, b), first),
        call_ensures(self::add, (a, b), second),
    ensures
        first == second,
{
}

/// Two calls of `multiply` on the same arguments return the same value.
pub proof fn lemma_multiply_repeats(a: i32, b: i32, first: i32, second: i32)
    requires
        call_ensures(multiply, (a, b), first),
        call_ensures(multiply, (a, b), second),
    ensures
        first == second,
{
}

} // verus!
