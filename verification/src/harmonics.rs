//! The harmonic basis of the synthesized signal.
//!
//! The corrective value is built from one cosine term per basis element,
//! each phase-modulated by the natural logarithm of that element. The basis
//! is fixed: the first seven primes, in ascending order.

use vstd::prelude::*;

verus! {

/// The number of terms in the synthesized signal.
pub const HARMONIC_COUNT: usize = 7;

/// The basis, in the order in which the terms are summed.
pub open spec fn prime_basis() -> Seq<u32> {
    seq![2u32, 3u32, 5u32, 7u32, 11u32, 13u32, 17u32]
}

/// `d` divides `n`.
pub open spec fn divides(d: int, n: int) -> bool {
    d != 0 && n % d == 0
}

/// `n` is at least 2 and nothing between 1 and `n` divides it.
pub open spec fn is_prime(n: int) -> bool {
    &&& 2 <= n
    &&& forall|d: int| 2 <= d < n ==> !#[trigger] divides(d, n)
}

/// The harmonic basis.
pub fn prime_harmonics() -> (basis: [u32; HARMONIC_COUNT])
    ensures
        basis@ == prime_basis(),
{
    let basis: [u32; HARMONIC_COUNT] = [2, 3, 5, 7, 11, 13, 17];
    assert(basis@ =~= prime_basis());
    basis
}

/// The basis ascends strictly, and it holds exactly the primes up to 17: the
/// first seven.
pub proof fn lemma_basis_is_first_primes()
    ensures
        prime_basis().len() == HARMONIC_COUNT,
        forall|i: int, j: int|
            0 <= i < j < prime_basis().len() ==> prime_basis()[i] < prime_basis()[j],
        forall|n: int| 0 <= n <= 17 ==> (is_prime(n) <==> #[trigger] prime_basis().contains(n as u32)),
{
    let basis = prime_basis();
    assert forall|n: int| 0 <= n <= 17 implies (is_prime(n) <==> #[trigger] basis.contains(
        n as u32,
    )) by {
        if n == 2 || n == 3 || n == 5 || n == 7 || n == 11 || n == 13 || n == 17 {
            assert(basis[0] == 2 && basis[1] == 3 && basis[2] == 5 && basis[3] == 7 && basis[4]
                == 11 && basis[5] == 13 && basis[6] == 17);
            assert forall|d: int| 2 <= d < n implies !#[trigger] divides(d, n) by {
                lemma_small_remainders(d, n);
            }
        } else {
            assert(!is_prime(n)) by {
                if n >= 2 {
                    if n % 2 == 0 {
                        assert(divides(2, n));
                    } else {
                        assert(divides(3, n));
                    }
                }
            }
        }
    }
}

/// None of 2, 3, 5, 7, 11, 13, 17 has a divisor strictly between 1 and
/// itself.
proof fn lemma_small_remainders(d: int, n: int)
    requires
        n == 2 || n == 3 || n == 5 || n == 7 || n == 11 || n == 13 || n == 17,
        2 <= d < n,
    ensures
        !divides(d, n),
{
    if d == 2 {
        assert(n % 2 != 0);
    } else if d == 3 {
        assert(n % 3 != 0);
    } else if d == 4 {
        assert(n % 4 != 0);
    } else if d == 5 {
        assert(n % 5 != 0);
    } else if d == 6 {
        assert(n % 6 != 0);
    } else if d == 7 {
        assert(n % 7 != 0);
    } else if d == 8 {
        assert(n % 8 != 0);
    } else if d == 9 {
        assert(n % 9 != 0);
    } else if d == 10 {
        assert(n % 10 != 0);
    } else if d == 11 {
        assert(n % 11 != 0);
    } else if d == 12 {
        assert(n % 12 != 0);
    } else if d == 13 {
        assert(n % 13 != 0);
    } else if d == 14 {
        assert(n % 14 != 0);
    } else if d == 15 {
        assert(n % 15 != 0);
    } else {
        assert(n % 16 != 0);
    }
}

} // verus!
