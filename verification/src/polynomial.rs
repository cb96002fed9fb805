//! The generic coefficient abstraction that a polynomial layer
//! consumes: a coefficient domain presents its values as elements
//! sharing a divisor, so that domains which are not fields can keep a
//! common denominator.  For field-like domains the divisor is the unit
//! type below and carries nothing.

use vstd::prelude::*;

verus! {

/// The shared divisor of a coefficient domain whose coefficients are
/// bare field elements: always the multiplicative identity.
#[derive(Clone, Copy, PartialEq, Eq, Hash, Debug)]
pub struct DivisorIsOne;

/// A polynomial-coefficient domain.  Contracts live on the
/// implementations; the two well-formedness hooks let an
/// implementation say what its operations demand of their operands.
pub trait PolynomialCoefficient: Sized {
    type Element;

    type Divisor;

    /// What the arithmetic operations below demand of an element.
    spec fn element_ok(element: &Self::Element) -> bool;

    /// What the arithmetic operations below demand of a coefficient.
    spec fn coefficient_ok(coefficient: &Self) -> bool;

    fn is_element_zero(element: &Self::Element) -> bool;

    fn is_element_one(element: &Self::Element) -> bool;

    fn is_coefficient_zero(coefficient: &Self) -> bool;

    fn is_coefficient_one(coefficient: &Self) -> bool;

    fn set_element_zero(element: &mut Self::Element)
        requires
            Self::element_ok(old(element)),
    ;

    fn set_element_one(element: &mut Self::Element)
        requires
            Self::element_ok(old(element)),
    ;

    fn set_coefficient_zero(coefficient: &mut Self)
        requires
            Self::coefficient_ok(old(coefficient)),
    ;

    fn set_coefficient_one(coefficient: &mut Self)
        requires
            Self::coefficient_ok(old(coefficient)),
    ;

    fn make_zero_element(element: &Self::Element) -> Self::Element
        requires
            Self::element_ok(element),
    ;

    fn make_one_element(element: &Self::Element) -> Self::Element
        requires
            Self::element_ok(element),
    ;

    fn make_zero_coefficient_from_element(element: &Self::Element) -> Self
        requires
            Self::element_ok(element),
    ;

    fn make_one_coefficient_from_element(element: &Self::Element) -> Self
        requires
            Self::element_ok(element),
    ;

    fn make_zero_coefficient_from_coefficient(coefficient: &Self) -> Self
        requires
            Self::coefficient_ok(coefficient),
    ;

    fn make_one_coefficient_from_coefficient(coefficient: &Self) -> Self
        requires
            Self::coefficient_ok(coefficient),
    ;

    fn negate_element(element: &mut Self::Element)
        requires
            Self::element_ok(old(element)),
    ;

    fn mul_element_by_usize(element: &Self::Element, multiplier: usize) -> Self::Element
        requires
            Self::element_ok(element),
    ;

    fn mul_assign_element_by_usize(element: &mut Self::Element, multiplier: usize)
        requires
            Self::element_ok(old(element)),
    ;

    fn divisor_to_element(divisor: &Self::Divisor, other_element: &Self::Element) -> Self::Element
        requires
            Self::element_ok(other_element),
    ;

    fn coefficients_to_elements(coefficients: Vec<Self>) -> (Vec<Self::Element>, Self::Divisor);

    fn make_coefficient(element: &Self::Element, divisor: &Self::Divisor) -> Self;

    fn reduce_divisor(elements: &mut Vec<Self::Element>, divisor: &mut Self::Divisor);

    fn get_reduced_divisor(elements: &Vec<Self::Element>, divisor: &Self::Divisor) -> (
        Vec<Self::Element>,
        Self::Divisor,
    );

    fn coefficient_to_element(coefficient: Self) -> (Self::Element, Self::Divisor);

    fn divisor_pow_usize(base: Self::Divisor, exponent: usize) -> Self::Divisor;

    fn element_pow_usize(base: Self::Element, exponent: usize) -> Self::Element
        requires
            Self::element_ok(&base),
    ;
}

/// A coefficient domain that can supply a factor to reduce a
/// polynomial by: the leading element, when there is one.
pub trait PolynomialReducingFactorSupported: PolynomialCoefficient {
    fn get_nonzero_reducing_factor(
        elements: &Vec<Self::Element>,
        divisor: &Self::Divisor,
    ) -> Option<Self>;
}

} // verus!
