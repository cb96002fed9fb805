//! Trusted layer over `num_rational::Ratio<BigInt>`.
//!
//! A ratio is modelled by two uninterpreted functions giving its
//! numerator and denominator.  `Ratio::new` reduces to lowest terms and
//! keeps the denominator positive, so its wrapper can only promise the
//! value of the quotient, stated by cross-multiplication; every later
//! use of a ratio goes through the numerator and denominator
//! accessors, whose wrappers tie the components to those names.

use crate::bigint::big_val;
use vstd::prelude::*;

verus! {

#[verifier::external_type_specification]
#[verifier::external_body]
#[verifier::reject_recursive_types(T)]
pub struct ExRatio<T>(num_rational::Ratio<T>);

/// The numerator that a `Ratio<BigInt>` holds.
pub uninterp spec fn rat_numer(q: num_rational::Ratio<num_bigint::BigInt>) -> int;

/// The denominator that a `Ratio<BigInt>` holds.
pub uninterp spec fn rat_denom(q: num_rational::Ratio<num_bigint::BigInt>) -> int;

/// A ratio as `num_rational` itself builds them: positive denominator.
pub open spec fn rat_wf(q: num_rational::Ratio<num_bigint::BigInt>) -> bool {
    rat_denom(q) > 0
}

/// Relies on `Ratio::new`, whose source reduces to lowest terms and
/// normalizes the denominator to be positive; it panics on a zero
/// denominator, which the precondition rules out.
#[verifier::external_body]
pub fn ratio_new(
    numer: num_bigint::BigInt,
    denom: num_bigint::BigInt,
) -> (r: num_rational::Ratio<num_bigint::BigInt>)
    requires
        big_val(denom) != 0,
    ensures
        rat_denom(r) > 0,
        rat_numer(r) * big_val(denom) == big_val(numer) * rat_denom(r),
{
    num_rational::Ratio::new(numer, denom)
}

/// Relies on `Ratio::numer`: a reference to the held numerator.
#[verifier::external_body]
pub fn ratio_numer(q: &num_rational::Ratio<num_bigint::BigInt>) -> (r: &num_bigint::BigInt)
    ensures
        big_val(*r) == rat_numer(*q),
{
    q.numer()
}

/// Relies on `Ratio::denom`: a reference to the held denominator.
#[verifier::external_body]
pub fn ratio_denom(q: &num_rational::Ratio<num_bigint::BigInt>) -> (r: &num_bigint::BigInt)
    ensures
        big_val(*r) == rat_denom(*q),
{
    q.denom()
}

} // verus!
