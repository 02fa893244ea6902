//! Primality of unsigned 32-bit integers by trial division.

use vstd::prelude::*;
use vstd::arithmetic::div_mod::{lemma_fundamental_div_mod, lemma_mod_multiples_basic};

verus! {

/// `d` divides `n`: the division leaves no remainder.
pub open spec fn divides(d: int, n: int) -> bool {
    d != 0 && n % d == 0
}

/// `n` is a prime number: at least two, with no divisor strictly between
/// one and itself.
pub open spec fn is_prime_number(n: int) -> bool {
    n >= 2 && forall|d: int| 2 <= d < n ==> !#[trigger] divides(d, n)
}

/// For a positive `i`, the quotient `n / i` is at least `i` exactly when
/// the square of `i` does not exceed `n`.
pub proof fn lemma_square_within(n: int, i: int)
    requires
        n >= 0,
        i > 0,
    ensures
        i <= n / i <==> i * i <= n,
{
    let q = n / i;
    let r = n % i;
    lemma_fundamental_div_mod(n, i);
    assert(i <= q <==> i * i <= n) by (nonlinear_arith)
        requires
            n == i * q + r,
            0 <= r < i,
    ;
}

/// `n` survives trial division: no integer from two up to the square root
/// of `n` divides it.
pub open spec fn survives_trial_division(n: int) -> bool {
    forall|d: int| 2 <= d && d * d <= n ==> !#[trigger] divides(d, n)
}

/// Trial division may stop at the square root: from two on, the numbers
/// that survive it are exactly the primes.
pub proof fn lemma_trial_division_decides(n: int)
    requires
        n >= 2,
    ensures
        is_prime_number(n) <==> survives_trial_division(n),
{
    if is_prime_number(n) {
        assert forall|d: int| 2 <= d && d * d <= n implies !#[trigger] divides(d, n) by {
            assert(d < n) by (nonlinear_arith)
                requires
                    2 <= d,
                    d * d <= n,
            ;
        }
    }
    if survives_trial_division(n) {
        assert forall|d: int| 2 <= d < n implies !#[trigger] divides(d, n) by {
            if divides(d, n) && d * d > n {
                // The cofactor of a divisor above the square root lies below it.
                let q = n / d;
                lemma_fundamental_div_mod(n, d);
                assert(n == d * q);
                assert(2 <= q && q * q <= n) by (nonlinear_arith)
                    requires
                        n == d * q,
                        2 <= d < n,
                        d * d > n,
                ;
                lemma_mod_multiples_basic(d, q);
                assert(divides(q, n));
            }
        }
    }
}

/// Tells whether `n` is a prime number.
///
/// Candidates `i` are tried from two upwards for as long as `i * i` does
/// not exceed `n`; the first one that divides `n` settles the answer.
pub fn is_prime(n: u32) -> (prime: bool)
    ensures
        prime == is_prime_number(n as int),
        prime == (n >= 2 && survives_trial_division(n as int)),
{
    if n < 2 {
        return false;
    }
    proof {
        lemma_trial_division_decides(n as int);
    }
    let mut i: u32 = 2;
    while i <= n / i
        invariant
            2 <= i <= n,
            forall|d: int| 2 <= d < i ==> !#[trigger] divides(d, n as int),
        decreases n - i,
    {
        proof {
            lemma_square_within(n as int, i as int);
            assert(i < n) by (nonlinear_arith)
                requires
                    i >= 2,
                    i * i <= n,
            ;
        }
        if n % i == 0 {
            assert(divides(i as int, n as int));
            return false;
        }
        i = i + 1;
    }
    proof {
        lemma_square_within(n as int, i as int);
        assert forall|d: int| 2 <= d && d * d <= n implies !#[trigger] divides(d, n as int) by {
            assert(d < i) by (nonlinear_arith)
                requires
                    0 <= d,
                    d * d <= n,
                    n < i * i,
            ;
        }
    }
    true
}

/// Two calls of `is_prime` on the same argument return the same value.
pub proof fn lemma_is_prime_repeats(n: u32, first: bool, second: bool)
    requires
        call_ensures(is_prime, (n,), first),
        call_ensures(is_prime, (n,), second),
    ensures
        first == second,
{
}

} // verus!
