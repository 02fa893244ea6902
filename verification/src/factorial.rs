//! Factorials in an unsigned 32-bit integer.

use vstd::prelude::*;
use vstd::arithmetic::div_mod::{lemma_mul_mod_noop_left, lemma_small_mod};
use vstd::arithmetic::mul::lemma_mul_is_commutative;
use crate::fixed_width::{span, wrap_u32};

verus! {

/// The product of the integers from one to `n`; the empty product, for
/// `n == 0`, is one.
pub open spec fn factorial_of(n: nat) -> nat
    decreases n,
{
    if n == 0 {
        1
    } else {
        n * factorial_of((n - 1) as nat)
    }
}

/// Once a factorial is a multiple of `m`, every later one is too.
pub proof fn lemma_factorial_stays_multiple(k: nat, n: nat, m: int)
    requires
        k <= n,
        m > 0,
        factorial_of(k) as int % m == 0,
    ensures
        factorial_of(n) as int % m == 0,
    decreases n - k,
{
    if k < n {
        let f = factorial_of(k) as int;
        let next = (k + 1) as nat;
        assert(factorial_of(next) == next * factorial_of(k));
        lemma_mul_mod_noop_left(f, next as int, m);
        lemma_mul_is_commutative(f, next as int);
        lemma_small_mod(0, m as nat);
        lemma_factorial_stays_multiple(next, n, m);
    }
}

/// Factorials are positive and never decrease.
pub proof fn lemma_factorial_grows(k: nat, n: nat)
    requires
        k <= n,
    ensures
        1 <= factorial_of(k) <= factorial_of(n),
    decreases n,
{
    if n > 0 {
        let below = (n - 1) as nat;
        lemma_factorial_grows(if k < n { k } else { below }, below);
        assert(factorial_of(below) <= n * factorial_of(below)) by (nonlinear_arith)
            requires
                n >= 1,
        ;
    }
}

/// The factorials up to `12!` fit in 32 bits, so they are computed exactly.
pub proof fn lemma_factorial_fits(n: nat)
    requires
        n <= 12,
    ensures
        factorial_of(n) <= u32::MAX,
        wrap_u32(factorial_of(n) as int) == factorial_of(n),
{
    assert(factorial_of(12) == 479_001_600) by {
        reveal_with_fuel(factorial_of, 13);
    }
    lemma_factorial_grows(n, 12);
}

/// From `34!` on, every factorial is a multiple of two to the
/// thirty-second and so wraps to zero.
pub proof fn lemma_factorial_wraps_to_zero(n: nat)
    requires
        n >= 34,
    ensures
        wrap_u32(factorial_of(n) as int) == 0,
{
    assert(factorial_of(34) as int % span() == 0) by {
        reveal_with_fuel(factorial_of, 35);
    }
    lemma_factorial_stays_multiple(34, n, span());
}

/// Computes `n!`. A product that does not fit in 32 bits wraps around, so
/// the result is the factorial modulo two to the thirty-second.
pub fn factorial(n: u32) -> (result: u32)
    ensures
        result == wrap_u32(factorial_of(n as nat) as int),
        n <= 1 ==> result == 1,
        n <= 12 ==> result == factorial_of(n as nat),
        n >= 34 ==> result == 0,
{
    proof {
        if n <= 12 {
            lemma_factorial_fits(n as nat);
        }
        if n >= 34 {
            lemma_factorial_wraps_to_zero(n as nat);
        }
    }
    assert(factorial_of(1) == 1) by {
        reveal_with_fuel(factorial_of, 2);
    }
    if n <= 1 {
        return 1;
    }
    let mut product: u32 = 1;
    let mut k: u32 = 1;
    // A product of zero stays zero, whatever is multiplied in afterwards.
    while k < n && product != 0
        invariant
            1 <= k <= n,
            product == wrap_u32(factorial_of(k as nat) as int),
        decreases n - k,
    {
        let ghost before = factorial_of(k as nat) as int;
        k = k + 1;
        product = product.wrapping_mul(k);
        proof {
            assert(factorial_of(k as nat) == k * before);
            lemma_mul_mod_noop_left(before, k as int, span());
            lemma_mul_is_commutative(before, k as int);
        }
    }
    proof {
        if k < n {
            lemma_factorial_stays_multiple(k as nat, n as nat, span());
        }
    }
    product
}

/// Two calls of `factorial` on the same argument return the same value.
pub proof fn lemma_factorial_repeats(n: u32, first: u32, second: u32)
    requires
        call_ensures(factorial, (n,), first),
        call_ensures(factorial, (n,), second),
    ensures
        first == second,
{
}

} // verus!
