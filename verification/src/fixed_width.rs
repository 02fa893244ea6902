//! The wraparound rule of 32-bit integers, as functions on mathematical
//! integers.

use vstd::prelude::*;

verus! {

/// How many values a 32-bit integer can take.
pub open spec fn span() -> int {
    0x1_0000_0000
}

/// The value that `v` takes in an unsigned 32-bit integer: its remainder
/// modulo two to the thirty-second.
pub open spec fn wrap_u32(v: int) -> int {
    v % span()
}

/// The value that `v` takes in a signed 32-bit integer: remainders in the
/// upper half of the span stand for the negative numbers.
pub open spec fn wrap_i32(v: int) -> int {
    let low = v % span();
    if low > i32::MAX {
        low - span()
    } else {
        low
    }
}

/// `wrap_i32(v)` is a signed 32-bit value that differs from `v` by a
/// multiple of the span, and a value that already fits is left as it is.
pub proof fn lemma_wrap_i32_represents(v: int)
    ensures
        i32::MIN <= wrap_i32(v) <= i32::MAX,
        (v - wrap_i32(v)) % span() == 0,
        i32::MIN <= v <= i32::MAX ==> wrap_i32(v) == v,
{
}

/// No other signed 32-bit value differs from `v` by a multiple of the span.
pub proof fn lemma_wrap_i32_unique(v: int, w: int)
    requires
        i32::MIN <= w <= i32::MAX,
        (v - w) % span() == 0,
    ensures
        w == wrap_i32(v),
{
}

/// `wrap_u32(v)` is an unsigned 32-bit value that differs from `v` by a
/// multiple of the span, and a value that already fits is left as it is.
pub proof fn lemma_wrap_u32_represents(v: int)
    ensures
        0 <= wrap_u32(v) <= u32::MAX,
        (v - wrap_u32(v)) % span() == 0,
        0 <= v <= u32::MAX ==> wrap_u32(v) == v,
{
}

/// No other unsigned 32-bit value differs from `v` by a multiple of the
/// span.
pub proof fn lemma_wrap_u32_unique(v: int, w: int)
    requires
        0 <= w <= u32::MAX,
        (v - w) % span() == 0,
    ensures
        w == wrap_u32(v),
{
}

} // verus!
