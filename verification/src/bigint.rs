//! Trusted layer over `num_bigint::BigInt`.
//!
//! Every arbitrary-precision integer is modelled by the uninterpreted
//! value function `big_val`, and each wrapper states exactly what the
//! underlying `num_bigint` operation computes on that model.  All
//! division-like wrappers round toward negative infinity, which the
//! `num_bigint` / `num_integer` sources document; with a positive
//! divisor that is the same as Verus's Euclidean `/` and `%`.

use vstd::arithmetic::power::pow;
use vstd::arithmetic::power2::pow2;
use vstd::prelude::*;

verus! {

#[verifier::external_type_specification]
#[verifier::external_body]
pub struct ExBigInt(num_bigint::BigInt);

/// The mathematical integer that a `num_bigint::BigInt` holds.
pub uninterp spec fn big_val(b: num_bigint::BigInt) -> int;

/// Relies on `<i128 as Into<BigInt>>::into`: lossless conversion.
#[verifier::external_body]
pub fn big_from_i128(v: i128) -> (r: num_bigint::BigInt)
    ensures
        big_val(r) == v as int,
{
    v.into()
}

/// Relies on `<u128 as Into<BigInt>>::into`: lossless conversion.
#[verifier::external_body]
pub fn big_from_u128(v: u128) -> (r: num_bigint::BigInt)
    ensures
        big_val(r) == v as int,
{
    v.into()
}

/// Relies on `num_traits::ToPrimitive::to_i128`, which returns the value
/// whenever it fits in an `i128`; the caller must show that it fits.
#[verifier::external_body]
pub fn big_to_i128(a: &num_bigint::BigInt) -> (r: i128)
    requires
        i128::MIN <= big_val(*a) <= i128::MAX,
    ensures
        r as int == big_val(*a),
{
    num_traits::ToPrimitive::to_i128(a).expect("value fits in i128")
}

/// Relies on `num_traits::ToPrimitive::to_u128`, which returns the value
/// whenever it fits in a `u128`; the caller must show that it fits.
#[verifier::external_body]
pub fn big_to_u128(a: &num_bigint::BigInt) -> (r: u128)
    requires
        0 <= big_val(*a) <= u128::MAX,
    ensures
        r as int == big_val(*a),
{
    num_traits::ToPrimitive::to_u128(a).expect("value fits in u128")
}

/// Relies on `BigInt::clone`: an equal value.
#[verifier::external_body]
pub fn big_clone(a: &num_bigint::BigInt) -> (r: num_bigint::BigInt)
    ensures
        big_val(r) == big_val(*a),
{
    a.clone()
}

/// Relies on `Add for &BigInt`: exact integer addition.
#[verifier::external_body]
pub fn big_add(a: &num_bigint::BigInt, b: &num_bigint::BigInt) -> (r: num_bigint::BigInt)
    ensures
        big_val(r) == big_val(*a) + big_val(*b),
{
    a + b
}

/// Relies on `Sub for &BigInt`: exact integer subtraction.
#[verifier::external_body]
pub fn big_sub(a: &num_bigint::BigInt, b: &num_bigint::BigInt) -> (r: num_bigint::BigInt)
    ensures
        big_val(r) == big_val(*a) - big_val(*b),
{
    a - b
}

/// Relies on `Mul for &BigInt`: exact integer multiplication.
#[verifier::external_body]
pub fn big_mul(a: &num_bigint::BigInt, b: &num_bigint::BigInt) -> (r: num_bigint::BigInt)
    ensures
        big_val(r) == big_val(*a) * big_val(*b),
{
    a * b
}

/// Relies on `Neg for &BigInt`: exact negation.
#[verifier::external_body]
pub fn big_neg(a: &num_bigint::BigInt) -> (r: num_bigint::BigInt)
    ensures
        big_val(r) == -big_val(*a),
{
    -a
}

/// Relies on `Shl<usize> for &BigInt`: multiplication by `2^k`.
#[verifier::external_body]
pub fn big_shl(a: &num_bigint::BigInt, k: usize) -> (r: num_bigint::BigInt)
    ensures
        big_val(r) == big_val(*a) * pow2(k as nat),
{
    a << k
}

/// Relies on `Shr<usize> for &BigInt`, which its source rounds toward
/// negative infinity: division by `2^k`, flooring.
#[verifier::external_body]
pub fn big_shr(a: &num_bigint::BigInt, k: usize) -> (r: num_bigint::BigInt)
    ensures
        big_val(r) == big_val(*a) / pow2(k as nat) as int,
{
    a >> k
}

/// Relies on `PartialEq for BigInt`: equality of the held values.
#[verifier::external_body]
pub fn big_eq(a: &num_bigint::BigInt, b: &num_bigint::BigInt) -> (r: bool)
    ensures
        r == (big_val(*a) == big_val(*b)),
{
    a == b
}

/// Relies on `PartialOrd for BigInt`: order of the held values.
#[verifier::external_body]
pub fn big_lt(a: &num_bigint::BigInt, b: &num_bigint::BigInt) -> (r: bool)
    ensures
        r == (big_val(*a) < big_val(*b)),
{
    a < b
}

/// Relies on `num_integer::Integer::div_floor` for `BigInt`: the floored
/// quotient, which for a positive divisor is Verus's Euclidean quotient.
#[verifier::external_body]
pub fn big_div_floor(a: &num_bigint::BigInt, b: &num_bigint::BigInt) -> (r: num_bigint::BigInt)
    requires
        big_val(*b) > 0,
    ensures
        big_val(r) == big_val(*a) / big_val(*b),
{
    num_integer::Integer::div_floor(a, b)
}

/// Relies on `num_integer::Integer::mod_floor` for `BigInt`: the least
/// nonnegative residue, which for a positive modulus is Verus's `%`.
#[verifier::external_body]
pub fn big_mod_floor(a: &num_bigint::BigInt, b: &num_bigint::BigInt) -> (r: num_bigint::BigInt)
    requires
        big_val(*b) > 0,
    ensures
        big_val(r) == big_val(*a) % big_val(*b),
{
    num_integer::Integer::mod_floor(a, b)
}

/// Relies on `BigInt::sqrt` (via `num_integer::Roots`): the truncated
/// principal square root of a nonnegative value.
#[verifier::external_body]
pub fn big_sqrt(a: &num_bigint::BigInt) -> (r: num_bigint::BigInt)
    requires
        big_val(*a) >= 0,
    ensures
        big_val(r) >= 0,
        big_val(r) * big_val(r) <= big_val(*a),
        (big_val(r) + 1) * (big_val(r) + 1) > big_val(*a),
{
    a.sqrt()
}

/// Relies on `BigInt::modpow`, whose result its documentation pins to
/// `(self ^ exponent) mod modulus`, rounded like `mod_floor`, hence in
/// `[0, modulus)` for a positive modulus.
#[verifier::external_body]
pub fn big_modpow(
    base: &num_bigint::BigInt,
    exponent: &num_bigint::BigInt,
    modulus: &num_bigint::BigInt,
) -> (r: num_bigint::BigInt)
    requires
        big_val(*exponent) >= 0,
        big_val(*modulus) > 0,
    ensures
        big_val(r) == pow(big_val(*base), big_val(*exponent) as nat) % big_val(*modulus),
{
    base.modpow(exponent, modulus)
}

} // verus!
