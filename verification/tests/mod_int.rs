use algebraics::mod_int::{ModularInteger, ModularReduce, ModularReducePow, Modulus};
use algebraics::polynomial::PolynomialCoefficient;
use num_bigint::BigInt;
use num_traits::ToPrimitive;

fn check_binop_add(l: ModularInteger<i32, i32>, r: ModularInteger<i32, i32>, expected: i32) {
    assert_eq!(*l.add(r).value(), expected);
    let mut assigned = l;
    assigned.add_assign(&r);
    assert_eq!(*assigned.value(), expected);
    let checked = l.checked_add(&r).unwrap();
    assert_eq!(*checked.value(), expected);
}

fn check_binop_sub(l: ModularInteger<i32, i32>, r: ModularInteger<i32, i32>, expected: i32) {
    assert_eq!(*l.sub(r).value(), expected);
    let mut assigned = l;
    assigned.sub_assign(&r);
    assert_eq!(*assigned.value(), expected);
    let checked = l.checked_sub(&r).unwrap();
    assert_eq!(*checked.value(), expected);
}

fn check_binop_mul(l: ModularInteger<i32, i32>, r: ModularInteger<i32, i32>, expected: i32) {
    assert_eq!(*l.mul(r).value(), expected);
    let mut assigned = l;
    assigned.mul_assign(&r);
    assert_eq!(*assigned.value(), expected);
    let checked = l.checked_mul(&r).unwrap();
    assert_eq!(*checked.value(), expected);
}

#[test]
fn mod_int_test_add() {
    for m in 0..10 {
        for a in 0..m {
            for b in 0..m {
                let mut expected = a + b;
                if m != 0 {
                    expected %= m;
                }
                check_binop_add(
                    ModularInteger::new(a, m),
                    ModularInteger::new(b, m),
                    expected,
                );
            }
        }
    }
}

#[test]
fn mod_int_test_sub() {
    for m in 0..10 {
        for a in 0..m {
            for b in 0..m {
                let mut expected = a - b;
                if m != 0 {
                    expected %= m;
                    if expected < 0 {
                        expected += m;
                    }
                }
                check_binop_sub(
                    ModularInteger::new(a, m),
                    ModularInteger::new(b, m),
                    expected,
                );
            }
        }
    }
}

#[test]
fn mod_int_test_mul() {
    for m in 0..10 {
        for a in 0..m {
            for b in 0..m {
                let mut expected = a * b;
                if m != 0 {
                    expected %= m;
                }
                check_binop_mul(
                    ModularInteger::new(a, m),
                    ModularInteger::new(b, m),
                    expected,
                );
            }
        }
    }
}

#[test]
fn test_neg_identity() {
    for m in 1..10 {
        for a in 0..m {
            let x = ModularInteger::<i32, i32>::new(a, m);
            let negated = x.neg();
            assert_eq!(*x.add(negated).value(), 0);
            let mut y = ModularInteger::<i32, i32>::new(a, m);
            y.neg_assign();
            assert_eq!(*x.add(y).value(), 0);
        }
    }
}

#[test]
fn test_checked_mismatch() {
    let a = ModularInteger::<i32, i32>::new(1, 5);
    let b = ModularInteger::<i32, i32>::new(1, 7);
    assert!(a.checked_add(&b).is_none());
    assert!(a.checked_sub(&b).is_none());
    assert!(a.checked_mul(&b).is_none());
    assert!(a.checked_div(&b).is_none());
}

#[test]
fn test_checked_inverse() {
    let expected_mod_7 = [None, Some(1), Some(4), Some(5), Some(2), Some(3), Some(6)];
    for v in 0..7 {
        let got = ModularInteger::<i64, i64>::new(v, 7).checked_inverse();
        assert_eq!(got.map(|x| *x.value()), expected_mod_7[v as usize]);
    }
    assert!(ModularInteger::<i64, i64>::new(2, 4).checked_inverse().is_none());
    assert_eq!(*ModularInteger::<i64, i64>::new(3, 4).inverse().value(), 3);
    // a zero modulus means the plain integers: only the units invert
    assert_eq!(
        ModularInteger::<i64, i64>::new(1, 0).checked_inverse().map(|x| *x.value()),
        Some(1),
    );
    assert_eq!(
        ModularInteger::<i64, i64>::new(-1, 0).checked_inverse().map(|x| *x.value()),
        Some(-1),
    );
    assert!(ModularInteger::<i64, i64>::new(5, 0).checked_inverse().is_none());
    assert!(ModularInteger::<i64, i64>::new(0, 0).checked_inverse().is_none());
}

#[test]
fn test_pow_modular_reduce() {
    assert_eq!(3u64.pow_modular_reduce(&10usize, &1_000_000_007u64), 59049);
    assert_eq!(2u8.pow_modular_reduce(&10usize, &100u8), 24);
    assert_eq!(5i32.pow_modular_reduce(&0usize, &7i32), 1);
    assert_eq!(5i32.pow_modular_reduce(&1usize, &7i32), 5);
    let b = BigInt::from(3);
    let m = BigInt::from(7);
    assert_eq!(b.pow_modular_reduce(&5usize, &m), BigInt::from(5));
}

#[test]
fn test_coefficient_adapter() {
    type Mi = ModularInteger<i32, i32>;
    let x = Mi::new(3, 7);
    assert!(!Mi::is_coefficient_zero(&x));
    assert!(!Mi::is_coefficient_one(&x));
    assert!(Mi::is_element_zero(&Mi::new(0, 7)));
    assert!(Mi::is_element_one(&Mi::new(1, 7)));
    let one = Mi::make_one_element(&x);
    assert_eq!(*one.value(), 1);
    let zero = Mi::make_zero_coefficient_from_element(&x);
    assert_eq!(*zero.value(), 0);
    let scaled = Mi::mul_element_by_usize(&x, 12);
    assert_eq!(*scaled.value(), 36 % 7);
    let mut y = Mi::new(3, 7);
    Mi::negate_element(&mut y);
    assert_eq!(*y.value(), 4);
    let powed = Mi::element_pow_usize(Mi::new(3, 7), 4);
    assert_eq!(*powed.value(), 81 % 7);
    let (elements, _divisor) = Mi::coefficients_to_elements(vec![Mi::new(1, 7), Mi::new(2, 7)]);
    assert_eq!(elements.len(), 2);
    assert_eq!(*elements[1].value(), 2);
}

#[test]
fn test_value_accessors() {
    let x = ModularInteger::<i32, i32>::new(12, 7);
    assert_eq!(*x.value(), 5);
    assert_eq!(*x.modulus(), 7);
    assert!(x.has_matching_moduli(&ModularInteger::new(3, 7)));
    assert!(!x.has_matching_moduli(&ModularInteger::new(3, 5)));
    // negative inputs reduce to the least nonnegative residue
    assert_eq!(*ModularInteger::<i32, i32>::new(-3, 7).value(), 4);
    let (value, modulus) = ModularInteger::<i32, i32>::new(12, 7).into_value_and_modulus();
    assert_eq!(value, 5);
    assert_eq!(modulus, 7);
}

fn check_overflow_for_type<T, ToBig, FromBig>(modulus: T, to_big: ToBig, from_big: FromBig)
where
    T: ModularReduce + Modulus<Value = T> + Copy + PartialEq + std::fmt::Debug,
    ToBig: Fn(&T) -> BigInt,
    FromBig: Fn(&BigInt) -> T,
{
    let big_modulus = to_big(&modulus);
    for a in -5i32..=5 {
        for b in -5i32..=5 {
            let big_lhs = if a < 0 {
                &big_modulus + BigInt::from(a)
            } else {
                BigInt::from(a)
            };
            let big_rhs = if b < 0 {
                &big_modulus + BigInt::from(b)
            } else {
                BigInt::from(b)
            };
            let lhs = from_big(&big_lhs);
            let rhs = from_big(&big_rhs);
            let add_expected = (&big_lhs + &big_rhs) % &big_modulus;
            let neg_expected = (&big_modulus - &big_rhs) % &big_modulus;
            let sub_expected = (&big_lhs + &big_modulus - &big_rhs) % &big_modulus;
            let mul_expected = (&big_lhs * &big_rhs) % &big_modulus;
            let make = |v: T| ModularInteger::<T, T>::new(v, modulus);
            assert_eq!(to_big(make(lhs).add(make(rhs)).value()), add_expected);
            assert_eq!(to_big(make(rhs).neg().value()), neg_expected);
            assert_eq!(to_big(make(lhs).sub(make(rhs)).value()), sub_expected);
            assert_eq!(to_big(make(lhs).mul(make(rhs)).value()), mul_expected);
            let mut acc = make(lhs);
            acc.add_assign(&make(rhs));
            assert_eq!(to_big(acc.value()), add_expected);
            let mut acc = make(lhs);
            acc.sub_assign(&make(rhs));
            assert_eq!(to_big(acc.value()), sub_expected);
            let mut acc = make(lhs);
            acc.mul_assign(&make(rhs));
            assert_eq!(to_big(acc.value()), mul_expected);
        }
    }
}

#[test]
fn test_overflow() {
    // each modulus is the biggest prime that fits in its type
    check_overflow_for_type(251u8, |t| BigInt::from(*t), |b| b.to_u8().unwrap());
    check_overflow_for_type(127i8, |t| BigInt::from(*t), |b| b.to_i8().unwrap());
    check_overflow_for_type(65521u16, |t| BigInt::from(*t), |b| b.to_u16().unwrap());
    check_overflow_for_type(32749i16, |t| BigInt::from(*t), |b| b.to_i16().unwrap());
    check_overflow_for_type(4_294_967_291u32, |t| BigInt::from(*t), |b| b.to_u32().unwrap());
    check_overflow_for_type(2_147_483_647i32, |t| BigInt::from(*t), |b| b.to_i32().unwrap());
    check_overflow_for_type(
        18_446_744_073_709_551_557u64,
        |t| BigInt::from(*t),
        |b| b.to_u64().unwrap(),
    );
    check_overflow_for_type(
        9_223_372_036_854_775_783i64,
        |t| BigInt::from(*t),
        |b| b.to_i64().unwrap(),
    );
    check_overflow_for_type(
        340_282_366_920_938_463_463_374_607_431_768_211_297u128,
        |t| BigInt::from(*t),
        |b| b.to_u128().unwrap(),
    );
    check_overflow_for_type(
        170_141_183_460_469_231_731_687_303_715_884_105_727i128,
        |t| BigInt::from(*t),
        |b| b.to_i128().unwrap(),
    );
}

fn check_div(l: i64, r: i64, expected: Option<i64>, modulus: i64) {
    let lhs = ModularInteger::new(l, modulus);
    let rhs = ModularInteger::new(r, modulus);
    assert_eq!(lhs.checked_div(&rhs).map(|x| *x.value()), expected);
    if let Some(e) = expected {
        let quotient = ModularInteger::new(l, modulus).div(&ModularInteger::new(r, modulus));
        assert_eq!(*quotient.value(), e);
        let mut assigned = ModularInteger::new(l, modulus);
        assigned.div_assign(&ModularInteger::new(r, modulus));
        assert_eq!(*assigned.value(), e);
        // the quotient times the divisor gives back the dividend
        let back = quotient.mul(ModularInteger::new(r, modulus));
        assert_eq!(*back.value(), *ModularInteger::new(l, modulus).value());
    }
}

#[test]
fn test_div() {
    check_div(0, 0, None, 1);
    check_div(0, 0, None, 2);
    check_div(0, 1, Some(0), 2);
    check_div(1, 0, None, 2);
    check_div(1, 1, Some(1), 2);
    check_div(0, 0, None, 3);
    check_div(0, 1, Some(0), 3);
    check_div(0, 2, Some(0), 3);
    check_div(1, 0, None, 3);
    check_div(1, 1, Some(1), 3);
    check_div(1, 2, Some(2), 3);
    check_div(2, 0, None, 3);
    check_div(2, 1, Some(2), 3);
    check_div(2, 2, Some(1), 3);
    check_div(0, 0, None, 4);
    check_div(0, 1, Some(0), 4);
    check_div(0, 2, None, 4);
    check_div(0, 3, Some(0), 4);
    check_div(1, 0, None, 4);
    check_div(1, 1, Some(1), 4);
    check_div(1, 2, None, 4);
    check_div(1, 3, Some(3), 4);
    check_div(2, 0, None, 4);
    check_div(2, 1, Some(2), 4);
    check_div(2, 2, None, 4);
    check_div(2, 3, Some(2), 4);
    check_div(3, 0, None, 4);
    check_div(3, 1, Some(3), 4);
    check_div(3, 2, None, 4);
    check_div(3, 3, Some(1), 4);
    check_div(0, 0, None, 5);
    check_div(0, 1, Some(0), 5);
    check_div(0, 2, Some(0), 5);
    check_div(0, 3, Some(0), 5);
    check_div(0, 4, Some(0), 5);
    check_div(1, 0, None, 5);
    check_div(1, 1, Some(1), 5);
    check_div(1, 2, Some(3), 5);
    check_div(1, 3, Some(2), 5);
    check_div(1, 4, Some(4), 5);
    check_div(2, 0, None, 5);
    check_div(2, 1, Some(2), 5);
    check_div(2, 2, Some(1), 5);
    check_div(2, 3, Some(4), 5);
    check_div(2, 4, Some(3), 5);
    check_div(3, 0, None, 5);
    check_div(3, 1, Some(3), 5);
    check_div(3, 2, Some(4), 5);
    check_div(3, 3, Some(1), 5);
    check_div(3, 4, Some(2), 5);
    check_div(4, 0, None, 5);
    check_div(4, 1, Some(4), 5);
    check_div(4, 2, Some(2), 5);
    check_div(4, 3, Some(3), 5);
    check_div(4, 4, Some(1), 5);
    check_div(0, 0, None, 6);
    check_div(0, 1, Some(0), 6);
    check_div(0, 2, None, 6);
    check_div(0, 3, None, 6);
    check_div(0, 4, None, 6);
    check_div(0, 5, Some(0), 6);
    check_div(1, 0, None, 6);
    check_div(1, 1, Some(1), 6);
    check_div(1, 2, None, 6);
    check_div(1, 3, None, 6);
    check_div(1, 4, None, 6);
    check_div(1, 5, Some(5), 6);
    check_div(2, 0, None, 6);
    check_div(2, 1, Some(2), 6);
    check_div(2, 2, None, 6);
    check_div(2, 3, None, 6);
    check_div(2, 4, None, 6);
    check_div(2, 5, Some(4), 6);
    check_div(3, 0, None, 6);
    check_div(3, 1, Some(3), 6);
    check_div(3, 2, None, 6);
    check_div(3, 3, None, 6);
    check_div(3, 4, None, 6);
    check_div(3, 5, Some(3), 6);
    check_div(4, 0, None, 6);
    check_div(4, 1, Some(4), 6);
    check_div(4, 2, None, 6);
    check_div(4, 3, None, 6);
    check_div(4, 4, None, 6);
    check_div(4, 5, Some(2), 6);
    check_div(5, 0, None, 6);
    check_div(5, 1, Some(5), 6);
    check_div(5, 2, None, 6);
    check_div(5, 3, None, 6);
    check_div(5, 4, None, 6);
    check_div(5, 5, Some(1), 6);
    check_div(0, 0, None, 7);
    check_div(0, 1, Some(0), 7);
    check_div(0, 2, Some(0), 7);
    check_div(0, 3, Some(0), 7);
    check_div(0, 4, Some(0), 7);
    check_div(0, 5, Some(0), 7);
    check_div(0, 6, Some(0), 7);
    check_div(1, 0, None, 7);
    check_div(1, 1, Some(1), 7);
    check_div(1, 2, Some(4), 7);
    check_div(1, 3, Some(5), 7);
    check_div(1, 4, Some(2), 7);
    check_div(1, 5, Some(3), 7);
    check_div(1, 6, Some(6), 7);
    check_div(2, 0, None, 7);
    check_div(2, 1, Some(2), 7);
    check_div(2, 2, Some(1), 7);
    check_div(2, 3, Some(3), 7);
    check_div(2, 4, Some(4), 7);
    check_div(2, 5, Some(6), 7);
    check_div(2, 6, Some(5), 7);
    check_div(3, 0, None, 7);
    check_div(3, 1, Some(3), 7);
    check_div(3, 2, Some(5), 7);
    check_div(3, 3, Some(1), 7);
    check_div(3, 4, Some(6), 7);
    check_div(3, 5, Some(2), 7);
    check_div(3, 6, Some(4), 7);
    check_div(4, 0, None, 7);
    check_div(4, 1, Some(4), 7);
    check_div(4, 2, Some(2), 7);
    check_div(4, 3, Some(6), 7);
    check_div(4, 4, Some(1), 7);
    check_div(4, 5, Some(5), 7);
    check_div(4, 6, Some(3), 7);
    check_div(5, 0, None, 7);
    check_div(5, 1, Some(5), 7);
    check_div(5, 2, Some(6), 7);
    check_div(5, 3, Some(4), 7);
    check_div(5, 4, Some(3), 7);
    check_div(5, 5, Some(1), 7);
    check_div(5, 6, Some(2), 7);
    check_div(6, 0, None, 7);
    check_div(6, 1, Some(6), 7);
    check_div(6, 2, Some(3), 7);
    check_div(6, 3, Some(2), 7);
    check_div(6, 4, Some(5), 7);
    check_div(6, 5, Some(4), 7);
    check_div(6, 6, Some(1), 7);
    check_div(0, 0, None, 8);
    check_div(0, 1, Some(0), 8);
    check_div(0, 2, None, 8);
    check_div(0, 3, Some(0), 8);
    check_div(0, 4, None, 8);
    check_div(0, 5, Some(0), 8);
    check_div(0, 6, None, 8);
    check_div(0, 7, Some(0), 8);
    check_div(1, 0, None, 8);
    check_div(1, 1, Some(1), 8);
    check_div(1, 2, None, 8);
    check_div(1, 3, Some(3), 8);
    check_div(1, 4, None, 8);
    check_div(1, 5, Some(5), 8);
    check_div(1, 6, None, 8);
    check_div(1, 7, Some(7), 8);
    check_div(2, 0, None, 8);
    check_div(2, 1, Some(2), 8);
    check_div(2, 2, None, 8);
    check_div(2, 3, Some(6), 8);
    check_div(2, 4, None, 8);
    check_div(2, 5, Some(2), 8);
    check_div(2, 6, None, 8);
    check_div(2, 7, Some(6), 8);
    check_div(3, 0, None, 8);
    check_div(3, 1, Some(3), 8);
    check_div(3, 2, None, 8);
    check_div(3, 3, Some(1), 8);
    check_div(3, 4, None, 8);
    check_div(3, 5, Some(7), 8);
    check_div(3, 6, None, 8);
    check_div(3, 7, Some(5), 8);
    check_div(4, 0, None, 8);
    check_div(4, 1, Some(4), 8);
    check_div(4, 2, None, 8);
    check_div(4, 3, Some(4), 8);
    check_div(4, 4, None, 8);
    check_div(4, 5, Some(4), 8);
    check_div(4, 6, None, 8);
    check_div(4, 7, Some(4), 8);
    check_div(5, 0, None, 8);
    check_div(5, 1, Some(5), 8);
    check_div(5, 2, None, 8);
    check_div(5, 3, Some(7), 8);
    check_div(5, 4, None, 8);
    check_div(5, 5, Some(1), 8);
    check_div(5, 6, None, 8);
    check_div(5, 7, Some(3), 8);
    check_div(6, 0, None, 8);
    check_div(6, 1, Some(6), 8);
    check_div(6, 2, None, 8);
    check_div(6, 3, Some(2), 8);
    check_div(6, 4, None, 8);
    check_div(6, 5, Some(6), 8);
    check_div(6, 6, None, 8);
    check_div(6, 7, Some(2), 8);
    check_div(7, 0, None, 8);
    check_div(7, 1, Some(7), 8);
    check_div(7, 2, None, 8);
    check_div(7, 3, Some(5), 8);
    check_div(7, 4, None, 8);
    check_div(7, 5, Some(3), 8);
    check_div(7, 6, None, 8);
    check_div(7, 7, Some(1), 8);
    check_div(0, 0, None, 9);
    check_div(0, 1, Some(0), 9);
    check_div(0, 2, Some(0), 9);
    check_div(0, 3, None, 9);
    check_div(0, 4, Some(0), 9);
    check_div(0, 5, Some(0), 9);
    check_div(0, 6, None, 9);
    check_div(0, 7, Some(0), 9);
    check_div(0, 8, Some(0), 9);
    check_div(1, 0, None, 9);
    check_div(1, 1, Some(1), 9);
    check_div(1, 2, Some(5), 9);
    check_div(1, 3, None, 9);
    check_div(1, 4, Some(7), 9);
    check_div(1, 5, Some(2), 9);
    check_div(1, 6, None, 9);
    check_div(1, 7, Some(4), 9);
    check_div(1, 8, Some(8), 9);
    check_div(2, 0, None, 9);
    check_div(2, 1, Some(2), 9);
    check_div(2, 2, Some(1), 9);
    check_div(2, 3, None, 9);
    check_div(2, 4, Some(5), 9);
    check_div(2, 5, Some(4), 9);
    check_div(2, 6, None, 9);
    check_div(2, 7, Some(8), 9);
    check_div(2, 8, Some(7), 9);
    check_div(3, 0, None, 9);
    check_div(3, 1, Some(3), 9);
    check_div(3, 2, Some(6), 9);
    check_div(3, 3, None, 9);
    check_div(3, 4, Some(3), 9);
    check_div(3, 5, Some(6), 9);
    check_div(3, 6, None, 9);
    check_div(3, 7, Some(3), 9);
    check_div(3, 8, Some(6), 9);
    check_div(4, 0, None, 9);
    check_div(4, 1, Some(4), 9);
    check_div(4, 2, Some(2), 9);
    check_div(4, 3, None, 9);
    check_div(4, 4, Some(1), 9);
    check_div(4, 5, Some(8), 9);
    check_div(4, 6, None, 9);
    check_div(4, 7, Some(7), 9);
    check_div(4, 8, Some(5), 9);
    check_div(5, 0, None, 9);
    check_div(5, 1, Some(5), 9);
    check_div(5, 2, Some(7), 9);
    check_div(5, 3, None, 9);
    check_div(5, 4, Some(8), 9);
    check_div(5, 5, Some(1), 9);
    check_div(5, 6, None, 9);
    check_div(5, 7, Some(2), 9);
    check_div(5, 8, Some(4), 9);
    check_div(6, 0, None, 9);
    check_div(6, 1, Some(6), 9);
    check_div(6, 2, Some(3), 9);
    check_div(6, 3, None, 9);
    check_div(6, 4, Some(6), 9);
    check_div(6, 5, Some(3), 9);
    check_div(6, 6, None, 9);
    check_div(6, 7, Some(6), 9);
    check_div(6, 8, Some(3), 9);
    check_div(7, 0, None, 9);
    check_div(7, 1, Some(7), 9);
    check_div(7, 2, Some(8), 9);
    check_div(7, 3, None, 9);
    check_div(7, 4, Some(4), 9);
    check_div(7, 5, Some(5), 9);
    check_div(7, 6, None, 9);
    check_div(7, 7, Some(1), 9);
    check_div(7, 8, Some(2), 9);
    check_div(8, 0, None, 9);
    check_div(8, 1, Some(8), 9);
    check_div(8, 2, Some(4), 9);
    check_div(8, 3, None, 9);
    check_div(8, 4, Some(2), 9);
    check_div(8, 5, Some(7), 9);
    check_div(8, 6, None, 9);
    check_div(8, 7, Some(5), 9);
    check_div(8, 8, Some(1), 9);
    check_div(0, 0, None, 10);
    check_div(0, 1, Some(0), 10);
    check_div(0, 2, None, 10);
    check_div(0, 3, Some(0), 10);
    check_div(0, 4, None, 10);
    check_div(0, 5, None, 10);
    check_div(0, 6, None, 10);
    check_div(0, 7, Some(0), 10);
    check_div(0, 8, None, 10);
    check_div(0, 9, Some(0), 10);
    check_div(1, 0, None, 10);
    check_div(1, 1, Some(1), 10);
    check_div(1, 2, None, 10);
    check_div(1, 3, Some(7), 10);
    check_div(1, 4, None, 10);
    check_div(1, 5, None, 10);
    check_div(1, 6, None, 10);
    check_div(1, 7, Some(3), 10);
    check_div(1, 8, None, 10);
    check_div(1, 9, Some(9), 10);
    check_div(2, 0, None, 10);
    check_div(2, 1, Some(2), 10);
    check_div(2, 2, None, 10);
    check_div(2, 3, Some(4), 10);
    check_div(2, 4, None, 10);
    check_div(2, 5, None, 10);
    check_div(2, 6, None, 10);
    check_div(2, 7, Some(6), 10);
    check_div(2, 8, None, 10);
    check_div(2, 9, Some(8), 10);
    check_div(3, 0, None, 10);
    check_div(3, 1, Some(3), 10);
    check_div(3, 2, None, 10);
    check_div(3, 3, Some(1), 10);
    check_div(3, 4, None, 10);
    check_div(3, 5, None, 10);
    check_div(3, 6, None, 10);
    check_div(3, 7, Some(9), 10);
    check_div(3, 8, None, 10);
    check_div(3, 9, Some(7), 10);
    check_div(4, 0, None, 10);
    check_div(4, 1, Some(4), 10);
    check_div(4, 2, None, 10);
    check_div(4, 3, Some(8), 10);
    check_div(4, 4, None, 10);
    check_div(4, 5, None, 10);
    check_div(4, 6, None, 10);
    check_div(4, 7, Some(2), 10);
    check_div(4, 8, None, 10);
    check_div(4, 9, Some(6), 10);
    check_div(5, 0, None, 10);
    check_div(5, 1, Some(5), 10);
    check_div(5, 2, None, 10);
    check_div(5, 3, Some(5), 10);
    check_div(5, 4, None, 10);
    check_div(5, 5, None, 10);
    check_div(5, 6, None, 10);
    check_div(5, 7, Some(5), 10);
    check_div(5, 8, None, 10);
    check_div(5, 9, Some(5), 10);
    check_div(6, 0, None, 10);
    check_div(6, 1, Some(6), 10);
    check_div(6, 2, None, 10);
    check_div(6, 3, Some(2), 10);
    check_div(6, 4, None, 10);
    check_div(6, 5, None, 10);
    check_div(6, 6, None, 10);
    check_div(6, 7, Some(8), 10);
    check_div(6, 8, None, 10);
    check_div(6, 9, Some(4), 10);
    check_div(7, 0, None, 10);
    check_div(7, 1, Some(7), 10);
    check_div(7, 2, None, 10);
    check_div(7, 3, Some(9), 10);
    check_div(7, 4, None, 10);
    check_div(7, 5, None, 10);
    check_div(7, 6, None, 10);
    check_div(7, 7, Some(1), 10);
    check_div(7, 8, None, 10);
    check_div(7, 9, Some(3), 10);
    check_div(8, 0, None, 10);
    check_div(8, 1, Some(8), 10);
    check_div(8, 2, None, 10);
    check_div(8, 3, Some(6), 10);
    check_div(8, 4, None, 10);
    check_div(8, 5, None, 10);
    check_div(8, 6, None, 10);
    check_div(8, 7, Some(4), 10);
    check_div(8, 8, None, 10);
    check_div(8, 9, Some(2), 10);
    check_div(9, 0, None, 10);
    check_div(9, 1, Some(9), 10);
    check_div(9, 2, None, 10);
    check_div(9, 3, Some(3), 10);
    check_div(9, 4, None, 10);
    check_div(9, 5, None, 10);
    check_div(9, 6, None, 10);
    check_div(9, 7, Some(7), 10);
    check_div(9, 8, None, 10);
    check_div(9, 9, Some(1), 10);}
