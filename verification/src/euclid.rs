//! The extended Euclidean algorithm on arbitrary-precision integers,
//! and the facts about greatest common divisors that modular inversion
//! rests on.

use crate::bigint::{
    big_clone, big_div_floor, big_eq, big_from_i128, big_mod_floor, big_mul, big_sub, big_val,
};
use vstd::arithmetic::div_mod::{
    lemma_add_mod_noop, lemma_fundamental_div_mod, lemma_mod_self_0, lemma_mul_mod_noop_left,
    lemma_small_mod,
};
use vstd::prelude::*;

verus! {

/// Greatest common divisor, by the Euclidean recursion.
pub open spec fn gcd(a: nat, b: nat) -> nat
    decreases b,
{
    if b == 0 {
        a
    } else {
        gcd(b, a % b)
    }
}

/// Primality: at least two, with no divisor strictly between one and
/// itself.
pub open spec fn is_prime(n: int) -> bool {
    n >= 2 && forall|d: int| 2 <= d < n ==> #[trigger] (n % d) != 0
}

/// Extended Euclidean algorithm: the gcd of two nonnegative integers
/// together with a pair of Bezout coefficients for it.
pub fn big_egcd(a: &num_bigint::BigInt, b: &num_bigint::BigInt) -> (r: (
    num_bigint::BigInt,
    num_bigint::BigInt,
    num_bigint::BigInt,
))
    requires
        big_val(*a) >= 0,
        big_val(*b) >= 0,
    ensures
        big_val(r.0) == gcd(big_val(*a) as nat, big_val(*b) as nat),
        big_val(r.1) * big_val(*a) + big_val(r.2) * big_val(*b) == big_val(r.0),
    decreases big_val(*b),
{
    if big_eq(b, &big_from_i128(0)) {
        (big_clone(a), big_from_i128(1), big_from_i128(0))
    } else {
        let q = big_div_floor(a, b);
        let rem = big_mod_floor(a, b);
        proof {
            vstd::arithmetic::div_mod::lemma_mod_bound(big_val(*a), big_val(*b));
        }
        let (g, x1, y1) = big_egcd(b, &rem);
        let y = big_sub(&x1, &big_mul(&q, &y1));
        proof {
            let ai = big_val(*a);
            let bi = big_val(*b);
            let qv = big_val(q);
            let rv = big_val(rem);
            let x1v = big_val(x1);
            let y1v = big_val(y1);
            lemma_fundamental_div_mod(ai, bi);
            assert((ai as nat) % (bi as nat) == rv as nat);
            assert(gcd(ai as nat, bi as nat) == gcd(bi as nat, rv as nat));
            assert(y1v * ai + (x1v - qv * y1v) * bi == x1v * bi + y1v * rv) by (nonlinear_arith)
                requires
                    rv == ai - bi * qv,
            ;
        }
        (g, y1, y)
    }
}

/// The gcd divides both of its arguments; it is zero only when both
/// are zero.
pub proof fn lemma_gcd_divides(a: nat, b: nat)
    ensures
        gcd(a, b) == 0 ==> a == 0 && b == 0,
        gcd(a, b) > 0 ==> a % gcd(a, b) == 0 && b % gcd(a, b) == 0,
    decreases b,
{
    if b == 0 {
        if a > 0 {
            lemma_mod_self_0(a as int);
            lemma_small_mod(0nat, a);
        }
    } else {
        let g = gcd(b, a % b);
        lemma_gcd_divides(b, a % b);
        if g > 0 {
            lemma_fundamental_div_mod(a as int, b as int);
            lemma_mul_mod_noop_left(b as int, (a as int) / (b as int), g as int);
            assert((b as int % g as int) * ((a as int) / (b as int)) == 0) by (nonlinear_arith)
                requires
                    b as int % g as int == 0,
            ;
            assert(0int % g as int == 0) by {
                vstd::arithmetic::div_mod::lemma_div_of0(g as int);
                vstd::arithmetic::div_mod::lemma_small_mod(0nat, g);
            }
            lemma_add_mod_noop((b as int) * ((a as int) / (b as int)), (a as int) % (b as int), g as int);
        }
    }
}

/// A positive divisor of a positive number is no larger than it.
proof fn lemma_divisor_le(v: nat, d: nat)
    requires
        d > 0,
        v > 0,
        v % d == 0,
    ensures
        d <= v,
{
    lemma_fundamental_div_mod(v as int, d as int);
    if (v as int) / (d as int) <= 0 {
        assert((d as int) * ((v as int) / (d as int)) <= 0) by (nonlinear_arith)
            requires
                d as int > 0,
                (v as int) / (d as int) <= 0,
        ;
    } else {
        assert((d as int) * ((v as int) / (d as int)) >= d as int) by (nonlinear_arith)
            requires
                d as int > 0,
                (v as int) / (d as int) >= 1,
        ;
    }
}

/// Every nonzero residue modulo a prime is coprime to the prime.
pub proof fn lemma_prime_coprime(v: nat, p: nat)
    requires
        is_prime(p as int),
        0 < v < p,
    ensures
        gcd(v, p) == 1,
{
    let g = gcd(v, p);
    lemma_gcd_divides(v, p);
    if g == 0 {
    } else {
        lemma_divisor_le(v, g);
        if g >= 2 {
            assert((p as int) % (g as int) != 0);
            assert(false);
        }
    }
}

/// A Bezout coefficient of a unit gcd, reduced, is a modular inverse.
pub proof fn lemma_bezout_inverse(a: int, m: int, x: int, y: int)
    requires
        m > 0,
        x * a + y * m == 1,
    ensures
        ((x % m) * a) % m == 1int % m,
{
    assert(x * a == m * (-y) + 1) by (nonlinear_arith)
        requires
            x * a + y * m == 1,
    ;
    vstd::arithmetic::div_mod::lemma_mod_multiples_vanish(-y, 1, m);
    lemma_mul_mod_noop_left(x, a, m);
}

} // verus!
