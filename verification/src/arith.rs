//! Facts about flooring and ceiling division shared by the interval
//! and modular layers.  Verus's `/` on `int` is Euclidean, so with a
//! positive divisor it is the floored quotient; the ceiling quotient
//! is written by negating, flooring and negating back.

use vstd::arithmetic::div_mod::{
    lemma_div_is_ordered, lemma_div_multiples_vanish, lemma_fundamental_div_mod,
    lemma_fundamental_div_mod_converse,
};
use vstd::arithmetic::mul::lemma_mul_is_commutative;
use vstd::prelude::*;

verus! {

/// Least integer at or above `p / q`, for positive `q`.
pub open spec fn ceil_div(p: int, q: int) -> int {
    -((-p) / q)
}

pub open spec fn min2(a: int, b: int) -> int {
    if a <= b {
        a
    } else {
        b
    }
}

pub open spec fn max2(a: int, b: int) -> int {
    if a >= b {
        a
    } else {
        b
    }
}

pub open spec fn min4(a: int, b: int, c: int, d: int) -> int {
    min2(min2(a, b), min2(c, d))
}

pub open spec fn max4(a: int, b: int, c: int, d: int) -> int {
    max2(max2(a, b), max2(c, d))
}

/// The floored quotient brackets the fraction from below.
pub proof fn lemma_floor_bounds(p: int, q: int)
    requires
        q > 0,
    ensures
        q * (p / q) <= p < q * (p / q + 1),
{
    lemma_fundamental_div_mod(p, q);
    assert(q * (p / q + 1) == q * (p / q) + q) by (nonlinear_arith);
}

/// The ceiling quotient brackets the fraction from above.
pub proof fn lemma_ceil_bounds(p: int, q: int)
    requires
        q > 0,
    ensures
        q * (ceil_div(p, q) - 1) < p <= q * ceil_div(p, q),
{
    lemma_floor_bounds(-p, q);
    assert(q * (ceil_div(p, q) - 1) == -(q * ((-p) / q + 1))) by (nonlinear_arith)
        requires
            ceil_div(p, q) == -((-p) / q),
    ;
    assert(q * ceil_div(p, q) == -(q * ((-p) / q))) by (nonlinear_arith)
        requires
            ceil_div(p, q) == -((-p) / q),
    ;
}

/// A quotient bracketed by `f` is `f`: floored division is unique.
pub proof fn lemma_floor_unique(p: int, q: int, f: int)
    requires
        q > 0,
        q * f <= p < q * (f + 1),
    ensures
        p / q == f,
{
    assert(p == f * q + (p - q * f)) by (nonlinear_arith);
    assert(p - q * f < q) by (nonlinear_arith)
        requires
            p < q * (f + 1),
    ;
    lemma_fundamental_div_mod_converse(p, q, f, p - q * f);
}

/// Equal fractions have equal floored quotients.
pub proof fn lemma_floor_frac_transfer(p1: int, q1: int, p2: int, q2: int)
    requires
        q1 > 0,
        q2 > 0,
        p1 * q2 == p2 * q1,
    ensures
        p1 / q1 == p2 / q2,
{
    let f = p1 / q1;
    lemma_floor_bounds(p1, q1);
    assert(q2 * f <= p2) by (nonlinear_arith)
        requires
            q1 > 0,
            q2 > 0,
            q1 * f <= p1,
            p1 * q2 == p2 * q1,
    ;
    assert(p2 < q2 * (f + 1)) by (nonlinear_arith)
        requires
            q1 > 0,
            q2 > 0,
            p1 < q1 * (f + 1),
            p1 * q2 == p2 * q1,
    ;
    lemma_floor_unique(p2, q2, f);
}

/// Equal fractions have equal ceiling quotients.
pub proof fn lemma_ceil_frac_transfer(p1: int, q1: int, p2: int, q2: int)
    requires
        q1 > 0,
        q2 > 0,
        p1 * q2 == p2 * q1,
    ensures
        ceil_div(p1, q1) == ceil_div(p2, q2),
{
    assert((-p1) * q2 == (-p2) * q1) by (nonlinear_arith)
        requires
            p1 * q2 == p2 * q1,
    ;
    lemma_floor_frac_transfer(-p1, q1, -p2, q2);
}

/// Scaling by a power and flooring it away is the identity.
pub proof fn lemma_scale_down_exact(a: int, q: int)
    requires
        q > 0,
    ensures
        (a * q) / q == a,
        ceil_div(a * q, q) == a,
{
    lemma_mul_is_commutative(a, q);
    lemma_div_multiples_vanish(a, q);
    assert((-(a * q)) == (-a) * q) by (nonlinear_arith);
    lemma_mul_is_commutative(-a, q);
    lemma_div_multiples_vanish(-a, q);
}

/// The floor of a fraction never exceeds its ceiling; both are monotone.
pub proof fn lemma_floor_le_ceil(p1: int, p2: int, q: int)
    requires
        q > 0,
        p1 <= p2,
    ensures
        p1 / q <= ceil_div(p2, q),
{
    lemma_div_is_ordered(p1, p2, q);
    lemma_floor_bounds(p2, q);
    lemma_ceil_bounds(p2, q);
    assert(p2 / q <= ceil_div(p2, q)) by (nonlinear_arith)
        requires
            q > 0,
            q * (p2 / q) <= p2,
            p2 <= q * ceil_div(p2, q),
    ;
}

/// Multiplying by a nonnegative factor preserves order.
pub proof fn lemma_mul_mono(a: int, b: int, c: int)
    by (nonlinear_arith)
    requires
        a <= b,
        c >= 0,
    ensures
        a * c <= b * c,
{
}

/// Multiplying by a nonpositive factor reverses order.
pub proof fn lemma_mul_anti(a: int, b: int, c: int)
    by (nonlinear_arith)
    requires
        a <= b,
        c <= 0,
    ensures
        b * c <= a * c,
{
}

/// A product of values drawn from two ranges lies between the least and
/// the greatest of the four endpoint products.
pub proof fn lemma_prod_bounds(u: int, u1: int, u2: int, v: int, v1: int, v2: int)
    requires
        u1 <= u <= u2,
        v1 <= v <= v2,
    ensures
        min4(u1 * v1, u1 * v2, u2 * v1, u2 * v2) <= u * v,
        u * v <= max4(u1 * v1, u1 * v2, u2 * v1, u2 * v2),
{
    assert(u1 * v == v * u1 && u2 * v == v * u2 && u1 * v1 == v1 * u1 && u1 * v2 == v2 * u1
        && u2 * v1 == v1 * u2 && u2 * v2 == v2 * u2) by (nonlinear_arith);
    if v >= 0 {
        // lower bound through u1, upper bound through u2
        lemma_mul_mono(u1, u, v);
        lemma_mul_mono(u, u2, v);
        if u1 >= 0 {
            lemma_mul_mono(v1, v, u1);  // u1 * v1 <= u1 * v
        } else {
            lemma_mul_anti(v, v2, u1);  // u1 * v2 <= u1 * v
        }
        if u2 >= 0 {
            lemma_mul_mono(v, v2, u2);  // u2 * v <= u2 * v2
        } else {
            lemma_mul_anti(v1, v, u2);  // u2 * v <= u2 * v1
        }
    } else {
        // lower bound through u2, upper bound through u1
        lemma_mul_anti(u1, u, v);
        lemma_mul_anti(u, u2, v);
        if u2 >= 0 {
            lemma_mul_mono(v1, v, u2);  // u2 * v1 <= u2 * v
        } else {
            lemma_mul_anti(v, v2, u2);  // u2 * v2 <= u2 * v
        }
        if u1 >= 0 {
            lemma_mul_mono(v, v2, u1);  // u1 * v <= u1 * v2
        } else {
            lemma_mul_anti(v1, v, u1);  // u1 * v <= u1 * v1
        }
    }
}

/// If `x1 / q1 <= x2 / q2` as rationals, the floor of the first is at
/// most the ceiling of the second.
pub proof fn lemma_floor_le_ceil_cross(x1: int, q1: int, x2: int, q2: int)
    requires
        q1 > 0,
        q2 > 0,
        x1 * q2 <= x2 * q1,
    ensures
        x1 / q1 <= ceil_div(x2, q2),
{
    lemma_floor_bounds(x1, q1);
    lemma_ceil_bounds(x2, q2);
    assert(x1 / q1 <= ceil_div(x2, q2)) by (nonlinear_arith)
        requires
            q1 > 0,
            q2 > 0,
            q1 * (x1 / q1) <= x1,
            x2 <= q2 * ceil_div(x2, q2),
            x1 * q2 <= x2 * q1,
    ;
}

/// Magnitude of an integer.
pub open spec fn abs_i(v: int) -> int {
    if v >= 0 {
        v
    } else {
        -v
    }
}

/// A ceiling quotient of a nonnegative value is nonnegative.
pub proof fn lemma_ceil_nonneg(x: int, q: int)
    requires
        x >= 0,
        q > 0,
    ensures
        ceil_div(x, q) >= 0,
{
    lemma_div_is_ordered(-x, 0, q);
    assert(0int / q == 0) by {
        vstd::arithmetic::div_mod::lemma_div_of0(q);
    }
}

/// Scaling by a positive factor commutes with taking the minimum and
/// the maximum of a pair.
pub proof fn lemma_minmax2_scale(a: int, b: int, s: int)
    requires
        s > 0,
    ensures
        min2(a * s, b * s) == min2(a, b) * s,
        max2(a * s, b * s) == max2(a, b) * s,
{
    if a <= b {
        lemma_mul_mono(a, b, s);
    } else {
        lemma_mul_mono(b, a, s);
    }
}

/// Scaling by a positive factor commutes with taking the least and the
/// greatest of four values.
pub proof fn lemma_minmax4_scale(a: int, b: int, c: int, d: int, s: int)
    requires
        s > 0,
    ensures
        min4(a * s, b * s, c * s, d * s) == min4(a, b, c, d) * s,
        max4(a * s, b * s, c * s, d * s) == max4(a, b, c, d) * s,
{
    lemma_minmax2_scale(a, b, s);
    lemma_minmax2_scale(c, d, s);
    lemma_minmax2_scale(min2(a, b), min2(c, d), s);
    lemma_minmax2_scale(max2(a, b), max2(c, d), s);
}

} // verus!
