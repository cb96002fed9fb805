use algebraics::interval_arithmetic::DyadicFractionInterval;
use num_bigint::BigInt;
use num_rational::Ratio;

type Dfi = DyadicFractionInterval;

fn bi(v: i128) -> BigInt {
    v.into()
}

fn r(n: i128, d: i128) -> Ratio<BigInt> {
    Ratio::new(n.into(), d.into())
}

fn ri(v: i128) -> Ratio<BigInt> {
    bi(v).into()
}

fn assert_same(a: &Dfi, b: &Dfi) {
    assert_eq!(a.log2_denom, b.log2_denom);
    assert_eq!(a.lower_bound_numer, b.lower_bound_numer);
    assert_eq!(a.upper_bound_numer, b.upper_bound_numer);
}

#[test]
fn test_from_ratio_range() {
    assert_same(
        &Dfi::from_ratio_range(r(2, 3), r(5, 7), 8),
        &Dfi::new(bi(170), bi(183), 8),
    );
    assert_same(
        &Dfi::from_ratio_range(ri(-1), r(-5, 7), 8),
        &Dfi::new(bi(-256), bi(-182), 8),
    );
    assert_same(
        &Dfi::from_ratio_range(r(5, 32), r(45, 32), 5),
        &Dfi::new(bi(5), bi(45), 5),
    );
    assert_same(
        &Dfi::from_ratio_range(r(7, 32), r(8, 32), 5),
        &Dfi::new(bi(7), bi(8), 5),
    );
}

#[test]
fn test_from_ratio() {
    assert_same(&Dfi::from_ratio(r(2, 3), 8), &Dfi::new(bi(170), bi(171), 8));
    assert_same(&Dfi::from_ratio(r(-2, 3), 8), &Dfi::new(bi(-171), bi(-170), 8));
    assert_same(&Dfi::from_ratio(r(1, 8), 8), &Dfi::new(bi(32), bi(32), 8));
}

#[test]
fn test_convert_log2_denom() {
    // raising the precision is an exact shift
    let mut a = Dfi::new(bi(5), bi(7), 4);
    a.convert_log2_denom(6);
    assert_same(&a, &Dfi::new(bi(20), bi(28), 6));
    // lowering it floors the lower bound and ceils the upper bound
    let mut b = Dfi::new(bi(5), bi(7), 4);
    b.convert_log2_denom(2);
    assert_same(&b, &Dfi::new(bi(1), bi(2), 2));
    let c = Dfi::new(bi(-5), bi(-3), 2).into_converted_log2_denom(0);
    assert_same(&c, &Dfi::new(bi(-2), bi(0), 0));
    // a round trip through a finer precision loses nothing
    let d = Dfi::new(bi(3), bi(5), 2);
    let rt = d.to_converted_log2_denom(7).into_converted_log2_denom(2);
    assert_same(&rt, &d);
}

#[test]
fn test_square() {
    // straddles zero: the least square is exactly zero
    assert_same(&Dfi::new(bi(-3), bi(5), 2).square(), &Dfi::new(bi(0), bi(7), 2));
    // [-1, 2] at several denominators
    assert_same(&Dfi::new(bi(-8), bi(16), 3).square(), &Dfi::new(bi(0), bi(32), 3));
    assert_same(&Dfi::new(bi(-32), bi(64), 5).square(), &Dfi::new(bi(0), bi(128), 5));
    // positive interval
    assert_same(&Dfi::new(bi(2), bi(3), 1).into_square(), &Dfi::new(bi(2), bi(5), 1));
    // negative interval
    let mut n = Dfi::new(bi(-3), bi(-2), 1);
    n.square_assign();
    assert_same(&n, &Dfi::new(bi(2), bi(5), 1));
}

#[test]
fn test_sqrt() {
    assert_same(&Dfi::new(bi(4), bi(9), 0).sqrt(), &Dfi::new(bi(2), bi(3), 0));
    // inexact upper bound rounds up past the truncated root
    assert_same(&Dfi::new(bi(4), bi(8), 2).into_sqrt(), &Dfi::new(bi(4), bi(6), 2));
    let mut z = Dfi::new(bi(0), bi(0), 3);
    z.sqrt_assign();
    assert_same(&z, &Dfi::new(bi(0), bi(0), 3));
}

#[test]
fn interval_arithmetic_test_add() {
    let mut a = Dfi::new(bi(1), bi(2), 1);
    a.add_assign(&Dfi::new(bi(1), bi(3), 2));
    assert_same(&a, &Dfi::new(bi(3), bi(7), 2));
    // the coarser operand may stand on either side
    let mut b = Dfi::new(bi(1), bi(3), 2);
    b.add_assign(&Dfi::new(bi(1), bi(2), 1));
    assert_same(&b, &Dfi::new(bi(3), bi(7), 2));
}

#[test]
fn test_add_int() {
    let mut a = Dfi::new(bi(1), bi(3), 2);
    a.add_assign_int(&bi(2));
    assert_same(&a, &Dfi::new(bi(9), bi(11), 2));
}

#[test]
fn test_add_ratio() {
    let mut a = Dfi::new(bi(1), bi(3), 2);
    a.add_assign_ratio(&r(1, 3));
    assert_same(&a, &Dfi::new(bi(2), bi(5), 2));
}

#[test]
fn interval_arithmetic_test_sub() {
    let mut a = Dfi::new(bi(1), bi(2), 1);
    a.sub_assign(&Dfi::new(bi(1), bi(3), 2));
    assert_same(&a, &Dfi::new(bi(-1), bi(3), 2));
}

#[test]
fn test_sub_int() {
    let mut a = Dfi::new(bi(9), bi(11), 2);
    a.sub_assign_int(&bi(2));
    assert_same(&a, &Dfi::new(bi(1), bi(3), 2));
}

#[test]
fn test_sub_ratio() {
    let mut a = Dfi::new(bi(2), bi(5), 2);
    a.sub_assign_ratio(&r(1, 3));
    assert_same(&a, &Dfi::new(bi(0), bi(4), 2));
}

#[test]
fn interval_arithmetic_test_mul() {
    let mut a = Dfi::new(bi(1), bi(2), 1);
    a.mul_assign(&Dfi::new(bi(-1), bi(1), 1));
    assert_same(&a, &Dfi::new(bi(-1), bi(1), 1));
    let mut b = Dfi::new(bi(1), bi(2), 0);
    b.mul_assign(&Dfi::new(bi(3), bi(5), 0));
    assert_same(&b, &Dfi::new(bi(3), bi(10), 0));
}

#[test]
fn test_mul_int() {
    let mut a = Dfi::new(bi(1), bi(3), 2);
    a.mul_assign_int(&bi(2));
    assert_same(&a, &Dfi::new(bi(2), bi(6), 2));
    // a negative scale swaps the bounds
    let mut b = Dfi::new(bi(1), bi(3), 2);
    b.mul_assign_int(&bi(-2));
    assert_same(&b, &Dfi::new(bi(-6), bi(-2), 2));
}

#[test]
fn test_mul_ratio() {
    let mut a = Dfi::new(bi(2), bi(5), 1);
    a.mul_assign_ratio(&r(1, 2));
    assert_same(&a, &Dfi::new(bi(1), bi(3), 1));
    let mut b = Dfi::new(bi(2), bi(5), 1);
    b.mul_assign_ratio(&r(-1, 2));
    assert_same(&b, &Dfi::new(bi(-3), bi(-1), 1));
}

#[test]
fn test_div_int() {
    let mut a = Dfi::new(bi(2), bi(5), 1);
    a.div_assign_int(&bi(2));
    assert_same(&a, &Dfi::new(bi(1), bi(3), 1));
    let mut b = Dfi::new(bi(2), bi(5), 1);
    b.div_assign_int(&bi(-2));
    assert_same(&b, &Dfi::new(bi(-3), bi(-1), 1));
}

#[test]
fn test_div_ratio() {
    let mut a = Dfi::new(bi(2), bi(5), 1);
    a.div_assign_ratio(&r(2, 3));
    assert_same(&a, &Dfi::new(bi(3), bi(8), 1));
    let mut b = Dfi::new(bi(2), bi(5), 1);
    b.div_assign_ratio(&r(-2, 3));
    assert_same(&b, &Dfi::new(bi(-8), bi(-3), 1));
}

#[test]
fn test_pow() {
    assert_same(&Dfi::new(bi(1), bi(2), 0).pow(3), &Dfi::new(bi(1), bi(8), 0));
    assert_same(&Dfi::new(bi(1), bi(2), 0).pow(0), &Dfi::new(bi(1), bi(1), 0));
    assert_same(&Dfi::new(bi(1), bi(2), 0).pow(1), &Dfi::new(bi(1), bi(2), 0));
    // an even power of an interval straddling zero starts at zero
    assert_same(&Dfi::new(bi(-1), bi(2), 0).pow(2), &Dfi::new(bi(0), bi(4), 0));
    // sound (if widened) enclosure for a negative base
    assert_same(&Dfi::new(bi(-2), bi(1), 0).pow(3), &Dfi::new(bi(-8), bi(4), 0));
}

#[test]
fn test_constants() {
    assert_same(&Dfi::zero(4), &Dfi::new(bi(0), bi(0), 4));
    assert_same(&Dfi::one(4), &Dfi::new(bi(16), bi(16), 4));
    assert_same(&Dfi::negative_one(4), &Dfi::new(bi(-16), bi(-16), 4));
    assert_same(&Dfi::from_dyadic_fraction(bi(5), 3), &Dfi::new(bi(5), bi(5), 3));
    let mut a = Dfi::new(bi(3), bi(9), 2);
    a.set_one();
    assert_same(&a, &Dfi::new(bi(4), bi(4), 2));
    a.set_negative_one();
    assert_same(&a, &Dfi::new(bi(-4), bi(-4), 2));
    a.set_zero();
    assert_same(&a, &Dfi::new(bi(0), bi(0), 2));
}

#[test]
fn test_contains_zero() {
    assert!(Dfi::new(bi(-1), bi(1), 2).contains_zero());
    assert!(Dfi::new(bi(0), bi(3), 2).contains_zero());
    assert!(!Dfi::new(bi(1), bi(3), 2).contains_zero());
    assert!(!Dfi::new(bi(-3), bi(-1), 2).contains_zero());
}

#[test]
fn test_to_ratio_range() {
    let a = Dfi::new(bi(3), bi(6), 2);
    let (lo, hi) = a.to_ratio_range();
    assert_eq!(lo, r(3, 4));
    assert_eq!(hi, r(3, 2));
    let (lo2, hi2) = a.into_ratio_range();
    assert_eq!(lo2, r(3, 4));
    assert_eq!(hi2, r(3, 2));
}
