//! Modular arithmetic over every common integer width and over
//! arbitrary-precision integers.
//!
//! A [`Modulus`] is any value that can yield a ring size; a zero
//! modulus means "no modulus", the plain integers.  [`ModularReduce`]
//! gives a value type the modular operations; each fixed-width
//! implementation first widens to a type that cannot overflow (the
//! doubled width, or an arbitrary-precision integer for the widest
//! types), combines, reduces and narrows back, so the result is always
//! the canonical least-nonnegative residue.

use crate::bigint::{
    big_add, big_clone, big_eq, big_from_i128, big_from_u128, big_mod_floor, big_modpow, big_mul,
    big_sub, big_to_i128, big_to_u128, big_val,
};
use crate::polynomial::{DivisorIsOne, PolynomialCoefficient, PolynomialReducingFactorSupported};
use vstd::arithmetic::power::pow;
use vstd::prelude::*;

verus! {

/// Reduction into `[0, m)` for a positive modulus; the identity when
/// the modulus is zero, which stands for "no modulus".
pub open spec fn reduce_val(v: int, m: int) -> int {
    if m == 0 {
        v
    } else {
        v % m
    }
}

/// The canonical negation of a residue: zero stays zero, anything else
/// becomes `m - v`.
pub open spec fn neg_val(v: int, m: int) -> int {
    if v == 0 {
        0
    } else {
        m - v
    }
}

/// What modular exponentiation returns: the multiplicative identity
/// for exponent zero regardless of base, else the reduced base raised
/// and reduced.
pub open spec fn pow_mod_val(b: int, e: nat, m: int) -> int {
    if e == 0 {
        1
    } else {
        pow(b % m, e) % m
    }
}

/// The spec-level view of a value type: the mathematical integer a
/// value holds.
pub trait IntValue {
    /// The held value as a mathematical integer.
    spec fn sval(&self) -> int;
}

/// A capability to produce "the modulus": any value-owning type whose
/// held value defines the ring.
pub trait Modulus: Sized {
    type Value: IntValue;

    /// The modulus as a mathematical integer.
    spec fn mval(&self) -> int;

    fn to_modulus(&self) -> (r: &Self::Value)
        ensures
            r.sval() == self.mval(),
    ;

    fn into_modulus(self) -> (r: Self::Value)
        ensures
            r.sval() == self.mval(),
    ;

    fn clone_modulus(&self) -> (r: Self)
        ensures
            r.mval() == self.mval(),
    ;

    /// Whether two moduli are equal by value.
    fn modulus_eq(&self, other: &Self) -> (r: bool)
        ensures
            r == (self.mval() == other.mval()),
    ;
}

/// The modular-reduction operations of a value type.
pub trait ModularReduce: IntValue + Sized {
    fn clone_value(&self) -> (r: Self)
        ensures
            r.sval() == self.sval(),
    ;

    fn value_zero() -> (r: Self)
        ensures
            r.sval() == 0,
    ;

    fn value_one() -> (r: Self)
        ensures
            r.sval() == 1,
    ;

    fn is_value_zero(&self) -> (r: bool)
        ensures
            r == (self.sval() == 0),
    ;

    fn is_value_one(&self) -> (r: bool)
        ensures
            r == (self.sval() == 1),
    ;

    /// The value carried losslessly into an arbitrary-precision integer.
    fn to_bigint_value(&self) -> (r: num_bigint::BigInt)
        ensures
            big_val(r) == self.sval(),
    ;

    fn modular_reduce_assign<M: Modulus<Value = Self>>(&mut self, modulus: &M)
        requires
            modulus.mval() >= 0,
        ensures
            final(self).sval() == reduce_val(old(self).sval(), modulus.mval()),
    ;

    fn modular_reduce<M: Modulus<Value = Self>>(self, modulus: &M) -> (r: Self)
        requires
            modulus.mval() >= 0,
        ensures
            r.sval() == reduce_val(self.sval(), modulus.mval()),
    {
        let mut value = self;
        value.modular_reduce_assign(modulus);
        value
    }

    fn modular_add_ref_assign<M: Modulus<Value = Self>>(&mut self, rhs: &Self, modulus: &M)
        requires
            modulus.mval() > 0,
            0 <= old(self).sval() < modulus.mval(),
            0 <= rhs.sval() < modulus.mval(),
        ensures
            final(self).sval() == (old(self).sval() + rhs.sval()) % modulus.mval(),
    ;

    fn modular_add_move_assign<M: Modulus<Value = Self>>(&mut self, rhs: Self, modulus: &M)
        requires
            modulus.mval() > 0,
            0 <= old(self).sval() < modulus.mval(),
            0 <= rhs.sval() < modulus.mval(),
        ensures
            final(self).sval() == (old(self).sval() + rhs.sval()) % modulus.mval(),
    {
        self.modular_add_ref_assign(&rhs, modulus);
    }

    fn modular_add_ref_ref<M: Modulus<Value = Self>>(&self, rhs: &Self, modulus: &M) -> (r: Self)
        requires
            modulus.mval() > 0,
            0 <= self.sval() < modulus.mval(),
            0 <= rhs.sval() < modulus.mval(),
        ensures
            r.sval() == (self.sval() + rhs.sval()) % modulus.mval(),
    {
        let mut value = self.clone_value();
        value.modular_add_ref_assign(rhs, modulus);
        value
    }

    fn modular_add_move_ref<M: Modulus<Value = Self>>(self, rhs: &Self, modulus: &M) -> (r: Self)
        requires
            modulus.mval() > 0,
            0 <= self.sval() < modulus.mval(),
            0 <= rhs.sval() < modulus.mval(),
        ensures
            r.sval() == (self.sval() + rhs.sval()) % modulus.mval(),
    {
        let mut value = self;
        value.modular_add_ref_assign(rhs, modulus);
        value
    }

    fn modular_add_ref_move<M: Modulus<Value = Self>>(&self, rhs: Self, modulus: &M) -> (r: Self)
        requires
            modulus.mval() > 0,
            0 <= self.sval() < modulus.mval(),
            0 <= rhs.sval() < modulus.mval(),
        ensures
            r.sval() == (self.sval() + rhs.sval()) % modulus.mval(),
    {
        self.modular_add_ref_ref(&rhs, modulus)
    }

    fn modular_add_move_move<M: Modulus<Value = Self>>(self, rhs: Self, modulus: &M) -> (r: Self)
        requires
            modulus.mval() > 0,
            0 <= self.sval() < modulus.mval(),
            0 <= rhs.sval() < modulus.mval(),
        ensures
            r.sval() == (self.sval() + rhs.sval()) % modulus.mval(),
    {
        self.modular_add_move_ref(&rhs, modulus)
    }

    fn modular_neg_assign<M: Modulus<Value = Self>>(&mut self, modulus: &M)
        requires
            modulus.mval() >= 0,
            0 <= old(self).sval(),
            modulus.mval() > 0 ==> old(self).sval() < modulus.mval(),
            modulus.mval() == 0 ==> old(self).sval() == 0,
        ensures
            final(self).sval() == neg_val(old(self).sval(), modulus.mval()),
    ;

    fn modular_neg_ref<M: Modulus<Value = Self>>(&self, modulus: &M) -> (r: Self)
        requires
            modulus.mval() >= 0,
            0 <= self.sval(),
            modulus.mval() > 0 ==> self.sval() < modulus.mval(),
            modulus.mval() == 0 ==> self.sval() == 0,
        ensures
            r.sval() == neg_val(self.sval(), modulus.mval()),
    {
        let mut value = self.clone_value();
        value.modular_neg_assign(modulus);
        value
    }

    fn modular_neg_move<M: Modulus<Value = Self>>(self, modulus: &M) -> (r: Self)
        requires
            modulus.mval() >= 0,
            0 <= self.sval(),
            modulus.mval() > 0 ==> self.sval() < modulus.mval(),
            modulus.mval() == 0 ==> self.sval() == 0,
        ensures
            r.sval() == neg_val(self.sval(), modulus.mval()),
    {
        let mut value = self;
        value.modular_neg_assign(modulus);
        value
    }

    fn modular_sub_ref_assign<M: Modulus<Value = Self>>(&mut self, rhs: &Self, modulus: &M)
        requires
            modulus.mval() > 0,
            0 <= old(self).sval() < modulus.mval(),
            0 <= rhs.sval() < modulus.mval(),
        ensures
            final(self).sval() == (old(self).sval() - rhs.sval()) % modulus.mval(),
    {
        let negated = rhs.modular_neg_ref(modulus);
        self.modular_add_ref_assign(&negated, modulus);
        proof {
            let m = modulus.mval();
            let a = old(self).sval();
            let b = rhs.sval();
            if b != 0 {
                vstd::arithmetic::div_mod::lemma_mod_add_multiples_vanish(a - b, m);
            }
        }
    }

    fn modular_sub_move_assign<M: Modulus<Value = Self>>(&mut self, rhs: Self, modulus: &M)
        requires
            modulus.mval() > 0,
            0 <= old(self).sval() < modulus.mval(),
            0 <= rhs.sval() < modulus.mval(),
        ensures
            final(self).sval() == (old(self).sval() - rhs.sval()) % modulus.mval(),
    {
        self.modular_sub_ref_assign(&rhs, modulus);
    }

    fn modular_sub_ref_ref<M: Modulus<Value = Self>>(&self, rhs: &Self, modulus: &M) -> (r: Self)
        requires
            modulus.mval() > 0,
            0 <= self.sval() < modulus.mval(),
            0 <= rhs.sval() < modulus.mval(),
        ensures
            r.sval() == (self.sval() - rhs.sval()) % modulus.mval(),
    {
        let mut value = self.clone_value();
        value.modular_sub_ref_assign(rhs, modulus);
        value
    }

    fn modular_sub_move_ref<M: Modulus<Value = Self>>(self, rhs: &Self, modulus: &M) -> (r: Self)
        requires
            modulus.mval() > 0,
            0 <= self.sval() < modulus.mval(),
            0 <= rhs.sval() < modulus.mval(),
        ensures
            r.sval() == (self.sval() - rhs.sval()) % modulus.mval(),
    {
        let mut value = self;
        value.modular_sub_ref_assign(rhs, modulus);
        value
    }

    fn modular_sub_ref_move<M: Modulus<Value = Self>>(&self, rhs: Self, modulus: &M) -> (r: Self)
        requires
            modulus.mval() > 0,
            0 <= self.sval() < modulus.mval(),
            0 <= rhs.sval() < modulus.mval(),
        ensures
            r.sval() == (self.sval() - rhs.sval()) % modulus.mval(),
    {
        self.modular_sub_ref_ref(&rhs, modulus)
    }

    fn modular_sub_move_move<M: Modulus<Value = Self>>(self, rhs: Self, modulus: &M) -> (r: Self)
        requires
            modulus.mval() > 0,
            0 <= self.sval() < modulus.mval(),
            0 <= rhs.sval() < modulus.mval(),
        ensures
            r.sval() == (self.sval() - rhs.sval()) % modulus.mval(),
    {
        self.modular_sub_move_ref(&rhs, modulus)
    }

    fn modular_mul_ref_assign<M: Modulus<Value = Self>>(&mut self, rhs: &Self, modulus: &M)
        requires
            modulus.mval() > 0,
            0 <= old(self).sval() < modulus.mval(),
            0 <= rhs.sval() < modulus.mval(),
        ensures
            final(self).sval() == (old(self).sval() * rhs.sval()) % modulus.mval(),
    ;

    fn modular_mul_move_assign<M: Modulus<Value = Self>>(&mut self, rhs: Self, modulus: &M)
        requires
            modulus.mval() > 0,
            0 <= old(self).sval() < modulus.mval(),
            0 <= rhs.sval() < modulus.mval(),
        ensures
            final(self).sval() == (old(self).sval() * rhs.sval()) % modulus.mval(),
    {
        self.modular_mul_ref_assign(&rhs, modulus);
    }

    fn modular_mul_ref_ref<M: Modulus<Value = Self>>(&self, rhs: &Self, modulus: &M) -> (r: Self)
        requires
            modulus.mval() > 0,
            0 <= self.sval() < modulus.mval(),
            0 <= rhs.sval() < modulus.mval(),
        ensures
            r.sval() == (self.sval() * rhs.sval()) % modulus.mval(),
    {
        let mut value = self.clone_value();
        value.modular_mul_ref_assign(rhs, modulus);
        value
    }

    fn modular_mul_move_ref<M: Modulus<Value = Self>>(self, rhs: &Self, modulus: &M) -> (r: Self)
        requires
            modulus.mval() > 0,
            0 <= self.sval() < modulus.mval(),
            0 <= rhs.sval() < modulus.mval(),
        ensures
            r.sval() == (self.sval() * rhs.sval()) % modulus.mval(),
    {
        let mut value = self;
        value.modular_mul_ref_assign(rhs, modulus);
        value
    }

    fn modular_mul_ref_move<M: Modulus<Value = Self>>(&self, rhs: Self, modulus: &M) -> (r: Self)
        requires
            modulus.mval() > 0,
            0 <= self.sval() < modulus.mval(),
            0 <= rhs.sval() < modulus.mval(),
        ensures
            r.sval() == (self.sval() * rhs.sval()) % modulus.mval(),
    {
        self.modular_mul_ref_ref(&rhs, modulus)
    }

    fn modular_mul_move_move<M: Modulus<Value = Self>>(self, rhs: Self, modulus: &M) -> (r: Self)
        requires
            modulus.mval() > 0,
            0 <= self.sval() < modulus.mval(),
            0 <= rhs.sval() < modulus.mval(),
        ensures
            r.sval() == (self.sval() * rhs.sval()) % modulus.mval(),
    {
        self.modular_mul_move_ref(&rhs, modulus)
    }

    fn modular_reduce_from_bigint<M: Modulus<Value = Self>>(
        v: num_bigint::BigInt,
        modulus: &M,
    ) -> (r: Self)
        requires
            modulus.mval() > 0,
        ensures
            r.sval() == big_val(v) % modulus.mval(),
    ;

    fn modular_reduce_from_u8<M: Modulus<Value = Self>>(v: u8, modulus: &M) -> (r: Self)
        requires
            modulus.mval() > 0,
        ensures
            r.sval() == v as int % modulus.mval(),
    {
        Self::modular_reduce_from_u16(v as u16, modulus)
    }

    fn modular_reduce_from_u16<M: Modulus<Value = Self>>(v: u16, modulus: &M) -> (r: Self)
        requires
            modulus.mval() > 0,
        ensures
            r.sval() == v as int % modulus.mval(),
    {
        Self::modular_reduce_from_u32(v as u32, modulus)
    }

    fn modular_reduce_from_u32<M: Modulus<Value = Self>>(v: u32, modulus: &M) -> (r: Self)
        requires
            modulus.mval() > 0,
        ensures
            r.sval() == v as int % modulus.mval(),
    {
        Self::modular_reduce_from_u64(v as u64, modulus)
    }

    fn modular_reduce_from_u64<M: Modulus<Value = Self>>(v: u64, modulus: &M) -> (r: Self)
        requires
            modulus.mval() > 0,
        ensures
            r.sval() == v as int % modulus.mval(),
    {
        Self::modular_reduce_from_u128(v as u128, modulus)
    }

    fn modular_reduce_from_u128<M: Modulus<Value = Self>>(v: u128, modulus: &M) -> (r: Self)
        requires
            modulus.mval() > 0,
        ensures
            r.sval() == v as int % modulus.mval(),
    {
        Self::modular_reduce_from_bigint(big_from_u128(v), modulus)
    }

    fn modular_reduce_from_usize<M: Modulus<Value = Self>>(v: usize, modulus: &M) -> (r: Self)
        requires
            modulus.mval() > 0,
        ensures
            r.sval() == v as int % modulus.mval(),
    {
        Self::modular_reduce_from_u128(v as u128, modulus)
    }

    fn modular_reduce_from_i8<M: Modulus<Value = Self>>(v: i8, modulus: &M) -> (r: Self)
        requires
            modulus.mval() > 0,
        ensures
            r.sval() == v as int % modulus.mval(),
    {
        Self::modular_reduce_from_i16(v as i16, modulus)
    }

    fn modular_reduce_from_i16<M: Modulus<Value = Self>>(v: i16, modulus: &M) -> (r: Self)
        requires
            modulus.mval() > 0,
        ensures
            r.sval() == v as int % modulus.mval(),
    {
        Self::modular_reduce_from_i32(v as i32, modulus)
    }

    fn modular_reduce_from_i32<M: Modulus<Value = Self>>(v: i32, modulus: &M) -> (r: Self)
        requires
            modulus.mval() > 0,
        ensures
            r.sval() == v as int % modulus.mval(),
    {
        Self::modular_reduce_from_i64(v as i64, modulus)
    }

    fn modular_reduce_from_i64<M: Modulus<Value = Self>>(v: i64, modulus: &M) -> (r: Self)
        requires
            modulus.mval() > 0,
        ensures
            r.sval() == v as int % modulus.mval(),
    {
        Self::modular_reduce_from_i128(v as i128, modulus)
    }

    fn modular_reduce_from_i128<M: Modulus<Value = Self>>(v: i128, modulus: &M) -> (r: Self)
        requires
            modulus.mval() > 0,
        ensures
            r.sval() == v as int % modulus.mval(),
    {
        Self::modular_reduce_from_bigint(big_from_i128(v), modulus)
    }

    fn modular_reduce_from_isize<M: Modulus<Value = Self>>(v: isize, modulus: &M) -> (r: Self)
        requires
            modulus.mval() > 0,
        ensures
            r.sval() == v as int % modulus.mval(),
    {
        Self::modular_reduce_from_i128(v as i128, modulus)
    }
}

/// An exponent usable by square-and-multiply exponentiation.
pub trait PowExponent: Sized {
    /// The exponent as a natural number.
    spec fn exp_val(&self) -> nat;

    fn exp_clone(&self) -> (r: Self)
        ensures
            r.exp_val() == self.exp_val(),
    ;

    fn exp_is_zero(&self) -> (r: bool)
        ensures
            r == (self.exp_val() == 0),
    ;

    fn exp_is_odd(&self) -> (r: bool)
        ensures
            r == (self.exp_val() % 2 == 1),
    ;

    fn exp_half(&self) -> (r: Self)
        ensures
            r.exp_val() == self.exp_val() / 2,
    ;
}

impl PowExponent for usize {
    open spec fn exp_val(&self) -> nat {
        *self as nat
    }

    fn exp_clone(&self) -> (r: usize) {
        *self
    }

    fn exp_is_zero(&self) -> (r: bool) {
        *self == 0
    }

    fn exp_is_odd(&self) -> (r: bool) {
        *self % 2 == 1
    }

    fn exp_half(&self) -> (r: usize) {
        *self / 2
    }
}

/// One square-and-multiply step on an odd exponent, under the modulus.
proof fn lemma_mod_mul_pow_odd(a: int, b: int, e: nat, m: int)
    requires
        m > 0,
        e % 2 == 1,
    ensures
        (a * pow(b, e)) % m == (((a * b) % m) * pow((b * b) % m, e / 2)) % m,
{
    let h = e / 2;
    vstd::arithmetic::div_mod::lemma_fundamental_div_mod(e as int, 2);
    vstd::arithmetic::power::lemma_pow1(b);
    vstd::arithmetic::power::lemma_pow_adds(b, 1, (2 * h) as nat);
    vstd::arithmetic::power::lemma_square_is_pow2(b);
    vstd::arithmetic::power::lemma_pow_multiplies(b, 2, h);
    assert(pow(b, e) == b * pow(b * b, h));
    assert(a * (b * pow(b * b, h)) == (a * b) * pow(b * b, h)) by (nonlinear_arith);
    vstd::arithmetic::div_mod::lemma_mul_mod_noop_left(a * b, pow(b * b, h), m);
    vstd::arithmetic::div_mod::lemma_mul_mod_noop_right((a * b) % m, pow(b * b, h), m);
    vstd::arithmetic::power::lemma_pow_mod_noop(b * b, h, m);
    vstd::arithmetic::div_mod::lemma_mul_mod_noop_right((a * b) % m, pow((b * b) % m, h), m);
}

/// One squaring step on a positive even exponent, under the modulus.
proof fn lemma_mod_mul_pow_even(a: int, b: int, e: nat, m: int)
    requires
        m > 0,
        e % 2 == 0,
    ensures
        (a * pow(b, e)) % m == (a * pow((b * b) % m, e / 2)) % m,
{
    let h = e / 2;
    vstd::arithmetic::div_mod::lemma_fundamental_div_mod(e as int, 2);
    vstd::arithmetic::power::lemma_square_is_pow2(b);
    vstd::arithmetic::power::lemma_pow_multiplies(b, 2, h);
    assert(pow(b, e) == pow(b * b, h));
    vstd::arithmetic::div_mod::lemma_mul_mod_noop_right(a, pow(b * b, h), m);
    vstd::arithmetic::power::lemma_pow_mod_noop(b * b, h, m);
    vstd::arithmetic::div_mod::lemma_mul_mod_noop_right(a, pow((b * b) % m, h), m);
}

/// Modular exponentiation by binary square-and-multiply, with a
/// reduction after every multiplication.
pub trait ModularReducePow<E: PowExponent>: ModularReduce {
    fn pow_modular_reduce<M: Modulus<Value = Self>>(&self, exponent: &E, modulus: &M) -> (r: Self)
        requires
            modulus.mval() > 0,
        ensures
            r.sval() == pow_mod_val(self.sval(), exponent.exp_val(), modulus.mval()),
    {
        let ghost m = modulus.mval();
        let ghost etotal = exponent.exp_val();
        if exponent.exp_is_zero() {
            return Self::value_one();
        }
        let mut base = self.clone_value();
        base.modular_reduce_assign(modulus);
        let ghost b0 = base.sval();
        let mut acc = Self::value_one().modular_reduce(modulus);
        let mut e = exponent.exp_clone();
        proof {
            vstd::arithmetic::div_mod::lemma_mul_mod_noop_left(1, pow(b0, etotal), m);
            vstd::arithmetic::div_mod::lemma_mod_twice(pow(b0, etotal), m);
        }
        while !e.exp_is_zero()
            invariant
                m == modulus.mval(),
                m > 0,
                0 <= acc.sval() < m,
                0 <= base.sval() < m,
                (acc.sval() * pow(base.sval(), e.exp_val())) % m == pow(b0, etotal) % m,
            decreases e.exp_val(),
        {
            let ghost acc0 = acc.sval();
            let ghost bb0 = base.sval();
            let ghost ee0 = e.exp_val();
            if e.exp_is_odd() {
                acc.modular_mul_ref_assign(&base, modulus);
                proof {
                    lemma_mod_mul_pow_odd(acc0, bb0, ee0, m);
                }
            } else {
                proof {
                    lemma_mod_mul_pow_even(acc0, bb0, ee0, m);
                }
            }
            e = e.exp_half();
            if !e.exp_is_zero() {
                let sq = base.clone_value();
                base.modular_mul_ref_assign(&sq, modulus);
            } else {
                proof {
                    // exponent exhausted: pow(_, 0) == 1, so the modulus
                    // of the accumulated value is already the result
                    vstd::arithmetic::power::lemma_pow0((bb0 * bb0) % m);
                    vstd::arithmetic::power::lemma_pow0(bb0);
                }
            }
        }
        proof {
            vstd::arithmetic::power::lemma_pow0(base.sval());
            vstd::arithmetic::div_mod::lemma_small_mod(acc.sval() as nat, m as nat);
            vstd::arithmetic::power::lemma_pow_mod_noop(self.sval(), etotal, m);
        }
        acc
    }
}

impl IntValue for u8 {
    open spec fn sval(&self) -> int {
        *self as int
    }
}

impl Modulus for u8 {
    type Value = u8;

    open spec fn mval(&self) -> int {
        *self as int
    }

    fn to_modulus(&self) -> (r: &u8) {
        self
    }

    fn into_modulus(self) -> (r: u8) {
        self
    }

    fn clone_modulus(&self) -> (r: u8) {
        *self
    }

    fn modulus_eq(&self, other: &u8) -> (r: bool) {
        *self == *other
    }
}

impl ModularReduce for u8 {
    fn clone_value(&self) -> (r: u8) {
        *self
    }

    fn value_zero() -> (r: u8) {
        0
    }

    fn value_one() -> (r: u8) {
        1
    }

    fn is_value_zero(&self) -> (r: bool) {
        *self == 0
    }

    fn is_value_one(&self) -> (r: bool) {
        *self == 1
    }

    fn to_bigint_value(&self) -> (r: num_bigint::BigInt) {
        big_from_i128(*self as i128)
    }

    fn modular_reduce_assign<M: Modulus<Value = u8>>(&mut self, modulus: &M) {
        let m = *modulus.to_modulus();
        if m != 0 {
            *self = *self % m;
        }
    }

    fn modular_add_ref_assign<M: Modulus<Value = u8>>(&mut self, rhs: &u8, modulus: &M) {
        let m = *modulus.to_modulus();
        let wide: u16 = (*self as u16) + (*rhs as u16);
        *self = (wide % (m as u16)) as u8;
    }

    fn modular_neg_assign<M: Modulus<Value = u8>>(&mut self, modulus: &M) {
        let m = *modulus.to_modulus();
        if *self != 0 {
            *self = m - *self;
        }
    }

    fn modular_mul_ref_assign<M: Modulus<Value = u8>>(&mut self, rhs: &u8, modulus: &M) {
        let m = *modulus.to_modulus();
        proof {
            assert((*self as int) * (*rhs as int) <= (255) * (255)) by (nonlinear_arith)
                requires
                    0 <= *self as int <= (255),
                    0 <= *rhs as int <= (255),
            ;
        }
        let wide: u16 = (*self as u16) * (*rhs as u16);
        *self = (wide % (m as u16)) as u8;
    }

    fn modular_reduce_from_bigint<M: Modulus<Value = u8>>(v: num_bigint::BigInt, modulus: &M) -> (r:
        u8) {
        let m = *modulus.to_modulus();
        let mb = big_from_i128(m as i128);
        let residue = big_mod_floor(&v, &mb);
        let x = big_to_i128(&residue);
        x as u8
    }
}

impl ModularReducePow<usize> for u8 {
}

impl IntValue for u16 {
    open spec fn sval(&self) -> int {
        *self as int
    }
}

impl Modulus for u16 {
    type Value = u16;

    open spec fn mval(&self) -> int {
        *self as int
    }

    fn to_modulus(&self) -> (r: &u16) {
        self
    }

    fn into_modulus(self) -> (r: u16) {
        self
    }

    fn clone_modulus(&self) -> (r: u16) {
        *self
    }

    fn modulus_eq(&self, other: &u16) -> (r: bool) {
        *self == *other
    }
}

impl ModularReduce for u16 {
    fn clone_value(&self) -> (r: u16) {
        *self
    }

    fn value_zero() -> (r: u16) {
        0
    }

    fn value_one() -> (r: u16) {
        1
    }

    fn is_value_zero(&self) -> (r: bool) {
        *self == 0
    }

    fn is_value_one(&self) -> (r: bool) {
        *self == 1
    }

    fn to_bigint_value(&self) -> (r: num_bigint::BigInt) {
        big_from_i128(*self as i128)
    }

    fn modular_reduce_assign<M: Modulus<Value = u16>>(&mut self, modulus: &M) {
        let m = *modulus.to_modulus();
        if m != 0 {
            *self = *self % m;
        }
    }

    fn modular_add_ref_assign<M: Modulus<Value = u16>>(&mut self, rhs: &u16, modulus: &M) {
        let m = *modulus.to_modulus();
        let wide: u32 = (*self as u32) + (*rhs as u32);
        *self = (wide % (m as u32)) as u16;
    }

    fn modular_neg_assign<M: Modulus<Value = u16>>(&mut self, modulus: &M) {
        let m = *modulus.to_modulus();
        if *self != 0 {
            *self = m - *self;
        }
    }

    fn modular_mul_ref_assign<M: Modulus<Value = u16>>(&mut self, rhs: &u16, modulus: &M) {
        let m = *modulus.to_modulus();
        proof {
            assert((*self as int) * (*rhs as int) <= (65535) * (65535)) by (nonlinear_arith)
                requires
                    0 <= *self as int <= (65535),
                    0 <= *rhs as int <= (65535),
            ;
        }
        let wide: u32 = (*self as u32) * (*rhs as u32);
        *self = (wide % (m as u32)) as u16;
    }

    fn modular_reduce_from_bigint<M: Modulus<Value = u16>>(v: num_bigint::BigInt, modulus: &M) -> (r:
        u16) {
        let m = *modulus.to_modulus();
        let mb = big_from_i128(m as i128);
        let residue = big_mod_floor(&v, &mb);
        let x = big_to_i128(&residue);
        x as u16
    }
}

impl ModularReducePow<usize> for u16 {
}

impl IntValue for u32 {
    open spec fn sval(&self) -> int {
        *self as int
    }
}

impl Modulus for u32 {
    type Value = u32;

    open spec fn mval(&self) -> int {
        *self as int
    }

    fn to_modulus(&self) -> (r: &u32) {
        self
    }

    fn into_modulus(self) -> (r: u32) {
        self
    }

    fn clone_modulus(&self) -> (r: u32) {
        *self
    }

    fn modulus_eq(&self, other: &u32) -> (r: bool) {
        *self == *other
    }
}

impl ModularReduce for u32 {
    fn clone_value(&self) -> (r: u32) {
        *self
    }

    fn value_zero() -> (r: u32) {
        0
    }

    fn value_one() -> (r: u32) {
        1
    }

    fn is_value_zero(&self) -> (r: bool) {
        *self == 0
    }

    fn is_value_one(&self) -> (r: bool) {
        *self == 1
    }

    fn to_bigint_value(&self) -> (r: num_bigint::BigInt) {
        big_from_i128(*self as i128)
    }

    fn modular_reduce_assign<M: Modulus<Value = u32>>(&mut self, modulus: &M) {
        let m = *modulus.to_modulus();
        if m != 0 {
            *self = *self % m;
        }
    }

    fn modular_add_ref_assign<M: Modulus<Value = u32>>(&mut self, rhs: &u32, modulus: &M) {
        let m = *modulus.to_modulus();
        let wide: u64 = (*self as u64) + (*rhs as u64);
        *self = (wide % (m as u64)) as u32;
    }

    fn modular_neg_assign<M: Modulus<Value = u32>>(&mut self, modulus: &M) {
        let m = *modulus.to_modulus();
        if *self != 0 {
            *self = m - *self;
        }
    }

    fn modular_mul_ref_assign<M: Modulus<Value = u32>>(&mut self, rhs: &u32, modulus: &M) {
        let m = *modulus.to_modulus();
        proof {
            assert((*self as int) * (*rhs as int) <= (4294967295) * (4294967295)) by (nonlinear_arith)
                requires
                    0 <= *self as int <= (4294967295),
                    0 <= *rhs as int <= (4294967295),
            ;
        }
        let wide: u64 = (*self as u64) * (*rhs as u64);
        *self = (wide % (m as u64)) as u32;
    }

    fn modular_reduce_from_bigint<M: Modulus<Value = u32>>(v: num_bigint::BigInt, modulus: &M) -> (r:
        u32) {
        let m = *modulus.to_modulus();
        let mb = big_from_i128(m as i128);
        let residue = big_mod_floor(&v, &mb);
        let x = big_to_i128(&residue);
        x as u32
    }
}

impl ModularReducePow<usize> for u32 {
}

impl IntValue for u64 {
    open spec fn sval(&self) -> int {
        *self as int
    }
}

impl Modulus for u64 {
    type Value = u64;

    open spec fn mval(&self) -> int {
        *self as int
    }

    fn to_modulus(&self) -> (r: &u64) {
        self
    }

    fn into_modulus(self) -> (r: u64) {
        self
    }

    fn clone_modulus(&self) -> (r: u64) {
        *self
    }

    fn modulus_eq(&self, other: &u64) -> (r: bool) {
        *self == *other
    }
}

impl ModularReduce for u64 {
    fn clone_value(&self) -> (r: u64) {
        *self
    }

    fn value_zero() -> (r: u64) {
        0
    }

    fn value_one() -> (r: u64) {
        1
    }

    fn is_value_zero(&self) -> (r: bool) {
        *self == 0
    }

    fn is_value_one(&self) -> (r: bool) {
        *self == 1
    }

    fn to_bigint_value(&self) -> (r: num_bigint::BigInt) {
        big_from_i128(*self as i128)
    }

    fn modular_reduce_assign<M: Modulus<Value = u64>>(&mut self, modulus: &M) {
        let m = *modulus.to_modulus();
        if m != 0 {
            *self = *self % m;
        }
    }

    fn modular_add_ref_assign<M: Modulus<Value = u64>>(&mut self, rhs: &u64, modulus: &M) {
        let m = *modulus.to_modulus();
        let wide: u128 = (*self as u128) + (*rhs as u128);
        *self = (wide % (m as u128)) as u64;
    }

    fn modular_neg_assign<M: Modulus<Value = u64>>(&mut self, modulus: &M) {
        let m = *modulus.to_modulus();
        if *self != 0 {
            *self = m - *self;
        }
    }

    fn modular_mul_ref_assign<M: Modulus<Value = u64>>(&mut self, rhs: &u64, modulus: &M) {
        let m = *modulus.to_modulus();
        proof {
            assert((*self as int) * (*rhs as int) <= (18446744073709551615) * (18446744073709551615)) by (nonlinear_arith)
                requires
                    0 <= *self as int <= (18446744073709551615),
                    0 <= *rhs as int <= (18446744073709551615),
            ;
        }
        let wide: u128 = (*self as u128) * (*rhs as u128);
        *self = (wide % (m as u128)) as u64;
    }

    fn modular_reduce_from_bigint<M: Modulus<Value = u64>>(v: num_bigint::BigInt, modulus: &M) -> (r:
        u64) {
        let m = *modulus.to_modulus();
        let mb = big_from_i128(m as i128);
        let residue = big_mod_floor(&v, &mb);
        let x = big_to_i128(&residue);
        x as u64
    }
}

impl ModularReducePow<usize> for u64 {
}

impl IntValue for usize {
    open spec fn sval(&self) -> int {
        *self as int
    }
}

impl Modulus for usize {
    type Value = usize;

    open spec fn mval(&self) -> int {
        *self as int
    }

    fn to_modulus(&self) -> (r: &usize) {
        self
    }

    fn into_modulus(self) -> (r: usize) {
        self
    }

    fn clone_modulus(&self) -> (r: usize) {
        *self
    }

    fn modulus_eq(&self, other: &usize) -> (r: bool) {
        *self == *other
    }
}

impl ModularReduce for usize {
    fn clone_value(&self) -> (r: usize) {
        *self
    }

    fn value_zero() -> (r: usize) {
        0
    }

    fn value_one() -> (r: usize) {
        1
    }

    fn is_value_zero(&self) -> (r: bool) {
        *self == 0
    }

    fn is_value_one(&self) -> (r: bool) {
        *self == 1
    }

    fn to_bigint_value(&self) -> (r: num_bigint::BigInt) {
        big_from_i128(*self as i128)
    }

    fn modular_reduce_assign<M: Modulus<Value = usize>>(&mut self, modulus: &M) {
        let m = *modulus.to_modulus();
        if m != 0 {
            *self = *self % m;
        }
    }

    fn modular_add_ref_assign<M: Modulus<Value = usize>>(&mut self, rhs: &usize, modulus: &M) {
        let m = *modulus.to_modulus();
        let wide: u128 = (*self as u128) + (*rhs as u128);
        *self = (wide % (m as u128)) as usize;
    }

    fn modular_neg_assign<M: Modulus<Value = usize>>(&mut self, modulus: &M) {
        let m = *modulus.to_modulus();
        if *self != 0 {
            *self = m - *self;
        }
    }

    fn modular_mul_ref_assign<M: Modulus<Value = usize>>(&mut self, rhs: &usize, modulus: &M) {
        let m = *modulus.to_modulus();
        proof {
            assert((*self as int) * (*rhs as int) <= (usize::MAX as int) * (usize::MAX as int)) by (nonlinear_arith)
                requires
                    0 <= *self as int <= (usize::MAX as int),
                    0 <= *rhs as int <= (usize::MAX as int),
            ;
        }
        let wide: u128 = (*self as u128) * (*rhs as u128);
        *self = (wide % (m as u128)) as usize;
    }

    fn modular_reduce_from_bigint<M: Modulus<Value = usize>>(v: num_bigint::BigInt, modulus: &M) -> (r:
        usize) {
        let m = *modulus.to_modulus();
        let mb = big_from_i128(m as i128);
        let residue = big_mod_floor(&v, &mb);
        let x = big_to_i128(&residue);
        x as usize
    }
}

impl ModularReducePow<usize> for usize {
}

impl IntValue for i8 {
    open spec fn sval(&self) -> int {
        *self as int
    }
}

impl Modulus for i8 {
    type Value = i8;

    open spec fn mval(&self) -> int {
        *self as int
    }

    fn to_modulus(&self) -> (r: &i8) {
        self
    }

    fn into_modulus(self) -> (r: i8) {
        self
    }

    fn clone_modulus(&self) -> (r: i8) {
        *self
    }

    fn modulus_eq(&self, other: &i8) -> (r: bool) {
        *self == *other
    }
}

impl ModularReduce for i8 {
    fn clone_value(&self) -> (r: i8) {
        *self
    }

    fn value_zero() -> (r: i8) {
        0
    }

    fn value_one() -> (r: i8) {
        1
    }

    fn is_value_zero(&self) -> (r: bool) {
        *self == 0
    }

    fn is_value_one(&self) -> (r: bool) {
        *self == 1
    }

    fn to_bigint_value(&self) -> (r: num_bigint::BigInt) {
        big_from_i128(*self as i128)
    }

    fn modular_reduce_assign<M: Modulus<Value = i8>>(&mut self, modulus: &M) {
        let m = *modulus.to_modulus();
        if m != 0 {
            *self = Self::modular_reduce_from_bigint(big_from_i128(*self as i128), modulus);
        }
    }

    fn modular_add_ref_assign<M: Modulus<Value = i8>>(&mut self, rhs: &i8, modulus: &M) {
        let m = *modulus.to_modulus();
        let wide: u16 = (*self as u16) + (*rhs as u16);
        *self = (wide % (m as u16)) as i8;
    }

    fn modular_neg_assign<M: Modulus<Value = i8>>(&mut self, modulus: &M) {
        let m = *modulus.to_modulus();
        if *self != 0 {
            *self = m - *self;
        }
    }

    fn modular_mul_ref_assign<M: Modulus<Value = i8>>(&mut self, rhs: &i8, modulus: &M) {
        let m = *modulus.to_modulus();
        proof {
            assert((*self as int) * (*rhs as int) <= (127) * (127)) by (nonlinear_arith)
                requires
                    0 <= *self as int <= (127),
                    0 <= *rhs as int <= (127),
            ;
        }
        let wide: u16 = (*self as u16) * (*rhs as u16);
        *self = (wide % (m as u16)) as i8;
    }

    fn modular_reduce_from_bigint<M: Modulus<Value = i8>>(v: num_bigint::BigInt, modulus: &M) -> (r:
        i8) {
        let m = *modulus.to_modulus();
        let mb = big_from_i128(m as i128);
        let residue = big_mod_floor(&v, &mb);
        let x = big_to_i128(&residue);
        x as i8
    }
}

impl ModularReducePow<usize> for i8 {
}

impl IntValue for i16 {
    open spec fn sval(&self) -> int {
        *self as int
    }
}

impl Modulus for i16 {
    type Value = i16;

    open spec fn mval(&self) -> int {
        *self as int
    }

    fn to_modulus(&self) -> (r: &i16) {
        self
    }

    fn into_modulus(self) -> (r: i16) {
        self
    }

    fn clone_modulus(&self) -> (r: i16) {
        *self
    }

    fn modulus_eq(&self, other: &i16) -> (r: bool) {
        *self == *other
    }
}

impl ModularReduce for i16 {
    fn clone_value(&self) -> (r: i16) {
        *self
    }

    fn value_zero() -> (r: i16) {
        0
    }

    fn value_one() -> (r: i16) {
        1
    }

    fn is_value_zero(&self) -> (r: bool) {
        *self == 0
    }

    fn is_value_one(&self) -> (r: bool) {
        *self == 1
    }

    fn to_bigint_value(&self) -> (r: num_bigint::BigInt) {
        big_from_i128(*self as i128)
    }

    fn modular_reduce_assign<M: Modulus<Value = i16>>(&mut self, modulus: &M) {
        let m = *modulus.to_modulus();
        if m != 0 {
            *self = Self::modular_reduce_from_bigint(big_from_i128(*self as i128), modulus);
        }
    }

    fn modular_add_ref_assign<M: Modulus<Value = i16>>(&mut self, rhs: &i16, modulus: &M) {
        let m = *modulus.to_modulus();
        let wide: u32 = (*self as u32) + (*rhs as u32);
        *self = (wide % (m as u32)) as i16;
    }

    fn modular_neg_assign<M: Modulus<Value = i16>>(&mut self, modulus: &M) {
        let m = *modulus.to_modulus();
        if *self != 0 {
            *self = m - *self;
        }
    }

    fn modular_mul_ref_assign<M: Modulus<Value = i16>>(&mut self, rhs: &i16, modulus: &M) {
        let m = *modulus.to_modulus();
        proof {
            assert((*self as int) * (*rhs as int) <= (32767) * (32767)) by (nonlinear_arith)
                requires
                    0 <= *self as int <= (32767),
                    0 <= *rhs as int <= (32767),
            ;
        }
        let wide: u32 = (*self as u32) * (*rhs as u32);
        *self = (wide % (m as u32)) as i16;
    }

    fn modular_reduce_from_bigint<M: Modulus<Value = i16>>(v: num_bigint::BigInt, modulus: &M) -> (r:
        i16) {
        let m = *modulus.to_modulus();
        let mb = big_from_i128(m as i128);
        let residue = big_mod_floor(&v, &mb);
        let x = big_to_i128(&residue);
        x as i16
    }
}

impl ModularReducePow<usize> for i16 {
}

impl IntValue for i32 {
    open spec fn sval(&self) -> int {
        *self as int
    }
}

impl Modulus for i32 {
    type Value = i32;

    open spec fn mval(&self) -> int {
        *self as int
    }

    fn to_modulus(&self) -> (r: &i32) {
        self
    }

    fn into_modulus(self) -> (r: i32) {
        self
    }

    fn clone_modulus(&self) -> (r: i32) {
        *self
    }

    fn modulus_eq(&self, other: &i32) -> (r: bool) {
        *self == *other
    }
}

impl ModularReduce for i32 {
    fn clone_value(&self) -> (r: i32) {
        *self
    }

    fn value_zero() -> (r: i32) {
        0
    }

    fn value_one() -> (r: i32) {
        1
    }

    fn is_value_zero(&self) -> (r: bool) {
        *self == 0
    }

    fn is_value_one(&self) -> (r: bool) {
        *self == 1
    }

    fn to_bigint_value(&self) -> (r: num_bigint::BigInt) {
        big_from_i128(*self as i128)
    }

    fn modular_reduce_assign<M: Modulus<Value = i32>>(&mut self, modulus: &M) {
        let m = *modulus.to_modulus();
        if m != 0 {
            *self = Self::modular_reduce_from_bigint(big_from_i128(*self as i128), modulus);
        }
    }

    fn modular_add_ref_assign<M: Modulus<Value = i32>>(&mut self, rhs: &i32, modulus: &M) {
        let m = *modulus.to_modulus();
        let wide: u64 = (*self as u64) + (*rhs as u64);
        *self = (wide % (m as u64)) as i32;
    }

    fn modular_neg_assign<M: Modulus<Value = i32>>(&mut self, modulus: &M) {
        let m = *modulus.to_modulus();
        if *self != 0 {
            *self = m - *self;
        }
    }

    fn modular_mul_ref_assign<M: Modulus<Value = i32>>(&mut self, rhs: &i32, modulus: &M) {
        let m = *modulus.to_modulus();
        proof {
            assert((*self as int) * (*rhs as int) <= (2147483647) * (2147483647)) by (nonlinear_arith)
                requires
                    0 <= *self as int <= (2147483647),
                    0 <= *rhs as int <= (2147483647),
            ;
        }
        let wide: u64 = (*self as u64) * (*rhs as u64);
        *self = (wide % (m as u64)) as i32;
    }

    fn modular_reduce_from_bigint<M: Modulus<Value = i32>>(v: num_bigint::BigInt, modulus: &M) -> (r:
        i32) {
        let m = *modulus.to_modulus();
        let mb = big_from_i128(m as i128);
        let residue = big_mod_floor(&v, &mb);
        let x = big_to_i128(&residue);
        x as i32
    }
}

impl ModularReducePow<usize> for i32 {
}

impl IntValue for i64 {
    open spec fn sval(&self) -> int {
        *self as int
    }
}

impl Modulus for i64 {
    type Value = i64;

    open spec fn mval(&self) -> int {
        *self as int
    }

    fn to_modulus(&self) -> (r: &i64) {
        self
    }

    fn into_modulus(self) -> (r: i64) {
        self
    }

    fn clone_modulus(&self) -> (r: i64) {
        *self
    }

    fn modulus_eq(&self, other: &i64) -> (r: bool) {
        *self == *other
    }
}

impl ModularReduce for i64 {
    fn clone_value(&self) -> (r: i64) {
        *self
    }

    fn value_zero() -> (r: i64) {
        0
    }

    fn value_one() -> (r: i64) {
        1
    }

    fn is_value_zero(&self) -> (r: bool) {
        *self == 0
    }

    fn is_value_one(&self) -> (r: bool) {
        *self == 1
    }

    fn to_bigint_value(&self) -> (r: num_bigint::BigInt) {
        big_from_i128(*self as i128)
    }

    fn modular_reduce_assign<M: Modulus<Value = i64>>(&mut self, modulus: &M) {
        let m = *modulus.to_modulus();
        if m != 0 {
            *self = Self::modular_reduce_from_bigint(big_from_i128(*self as i128), modulus);
        }
    }

    fn modular_add_ref_assign<M: Modulus<Value = i64>>(&mut self, rhs: &i64, modulus: &M) {
        let m = *modulus.to_modulus();
        let wide: u128 = (*self as u128) + (*rhs as u128);
        *self = (wide % (m as u128)) as i64;
    }

    fn modular_neg_assign<M: Modulus<Value = i64>>(&mut self, modulus: &M) {
        let m = *modulus.to_modulus();
        if *self != 0 {
            *self = m - *self;
        }
    }

    fn modular_mul_ref_assign<M: Modulus<Value = i64>>(&mut self, rhs: &i64, modulus: &M) {
        let m = *modulus.to_modulus();
        proof {
            assert((*self as int) * (*rhs as int) <= (9223372036854775807) * (9223372036854775807)) by (nonlinear_arith)
                requires
                    0 <= *self as int <= (9223372036854775807),
                    0 <= *rhs as int <= (9223372036854775807),
            ;
        }
        let wide: u128 = (*self as u128) * (*rhs as u128);
        *self = (wide % (m as u128)) as i64;
    }

    fn modular_reduce_from_bigint<M: Modulus<Value = i64>>(v: num_bigint::BigInt, modulus: &M) -> (r:
        i64) {
        let m = *modulus.to_modulus();
        let mb = big_from_i128(m as i128);
        let residue = big_mod_floor(&v, &mb);
        let x = big_to_i128(&residue);
        x as i64
    }
}

impl ModularReducePow<usize> for i64 {
}

impl IntValue for isize {
    open spec fn sval(&self) -> int {
        *self as int
    }
}

impl Modulus for isize {
    type Value = isize;

    open spec fn mval(&self) -> int {
        *self as int
    }

    fn to_modulus(&self) -> (r: &isize) {
        self
    }

    fn into_modulus(self) -> (r: isize) {
        self
    }

    fn clone_modulus(&self) -> (r: isize) {
        *self
    }

    fn modulus_eq(&self, other: &isize) -> (r: bool) {
        *self == *other
    }
}

impl ModularReduce for isize {
    fn clone_value(&self) -> (r: isize) {
        *self
    }

    fn value_zero() -> (r: isize) {
        0
    }

    fn value_one() -> (r: isize) {
        1
    }

    fn is_value_zero(&self) -> (r: bool) {
        *self == 0
    }

    fn is_value_one(&self) -> (r: bool) {
        *self == 1
    }

    fn to_bigint_value(&self) -> (r: num_bigint::BigInt) {
        big_from_i128(*self as i128)
    }

    fn modular_reduce_assign<M: Modulus<Value = isize>>(&mut self, modulus: &M) {
        let m = *modulus.to_modulus();
        if m != 0 {
            *self = Self::modular_reduce_from_bigint(big_from_i128(*self as i128), modulus);
        }
    }

    fn modular_add_ref_assign<M: Modulus<Value = isize>>(&mut self, rhs: &isize, modulus: &M) {
        let m = *modulus.to_modulus();
        let wide: u128 = (*self as u128) + (*rhs as u128);
        *self = (wide % (m as u128)) as isize;
    }

    fn modular_neg_assign<M: Modulus<Value = isize>>(&mut self, modulus: &M) {
        let m = *modulus.to_modulus();
        if *self != 0 {
            *self = m - *self;
        }
    }

    fn modular_mul_ref_assign<M: Modulus<Value = isize>>(&mut self, rhs: &isize, modulus: &M) {
        let m = *modulus.to_modulus();
        proof {
            assert((*self as int) * (*rhs as int) <= (isize::MAX as int) * (isize::MAX as int)) by (nonlinear_arith)
                requires
                    0 <= *self as int <= (isize::MAX as int),
                    0 <= *rhs as int <= (isize::MAX as int),
            ;
        }
        let wide: u128 = (*self as u128) * (*rhs as u128);
        *self = (wide % (m as u128)) as isize;
    }

    fn modular_reduce_from_bigint<M: Modulus<Value = isize>>(v: num_bigint::BigInt, modulus: &M) -> (r:
        isize) {
        let m = *modulus.to_modulus();
        let mb = big_from_i128(m as i128);
        let residue = big_mod_floor(&v, &mb);
        let x = big_to_i128(&residue);
        x as isize
    }
}

impl ModularReducePow<usize> for isize {
}

impl IntValue for u128 {
    open spec fn sval(&self) -> int {
        *self as int
    }
}

impl Modulus for u128 {
    type Value = u128;

    open spec fn mval(&self) -> int {
        *self as int
    }

    fn to_modulus(&self) -> (r: &u128) {
        self
    }

    fn into_modulus(self) -> (r: u128) {
        self
    }

    fn clone_modulus(&self) -> (r: u128) {
        *self
    }

    fn modulus_eq(&self, other: &u128) -> (r: bool) {
        *self == *other
    }
}

impl ModularReduce for u128 {
    fn clone_value(&self) -> (r: u128) {
        *self
    }

    fn value_zero() -> (r: u128) {
        0
    }

    fn value_one() -> (r: u128) {
        1
    }

    fn is_value_zero(&self) -> (r: bool) {
        *self == 0
    }

    fn is_value_one(&self) -> (r: bool) {
        *self == 1
    }

    fn to_bigint_value(&self) -> (r: num_bigint::BigInt) {
        big_from_u128(*self)
    }

    fn modular_reduce_assign<M: Modulus<Value = u128>>(&mut self, modulus: &M) {
        let m = *modulus.to_modulus();
        if m != 0 {
            *self = Self::modular_reduce_from_bigint(big_from_u128(*self), modulus);
        }
    }

    fn modular_add_ref_assign<M: Modulus<Value = u128>>(&mut self, rhs: &u128, modulus: &M) {
        let m = *modulus.to_modulus();
        let sum = big_add(&big_from_u128(*self), &big_from_u128(*rhs));
        let residue = big_mod_floor(&sum, &big_from_u128(m));
        *self = big_to_u128(&residue);
    }

    fn modular_neg_assign<M: Modulus<Value = u128>>(&mut self, modulus: &M) {
        let m = *modulus.to_modulus();
        if *self != 0 {
            *self = m - *self;
        }
    }

    fn modular_mul_ref_assign<M: Modulus<Value = u128>>(&mut self, rhs: &u128, modulus: &M) {
        let m = *modulus.to_modulus();
        let product = big_mul(&big_from_u128(*self), &big_from_u128(*rhs));
        let residue = big_mod_floor(&product, &big_from_u128(m));
        *self = big_to_u128(&residue);
    }

    fn modular_reduce_from_bigint<M: Modulus<Value = u128>>(v: num_bigint::BigInt, modulus: &M) -> (r:
        u128) {
        let m = *modulus.to_modulus();
        let mb = big_from_u128(m);
        let residue = big_mod_floor(&v, &mb);
        big_to_u128(&residue)
    }
}

impl ModularReducePow<usize> for u128 {
}

impl IntValue for i128 {
    open spec fn sval(&self) -> int {
        *self as int
    }
}

impl Modulus for i128 {
    type Value = i128;

    open spec fn mval(&self) -> int {
        *self as int
    }

    fn to_modulus(&self) -> (r: &i128) {
        self
    }

    fn into_modulus(self) -> (r: i128) {
        self
    }

    fn clone_modulus(&self) -> (r: i128) {
        *self
    }

    fn modulus_eq(&self, other: &i128) -> (r: bool) {
        *self == *other
    }
}

impl ModularReduce for i128 {
    fn clone_value(&self) -> (r: i128) {
        *self
    }

    fn value_zero() -> (r: i128) {
        0
    }

    fn value_one() -> (r: i128) {
        1
    }

    fn is_value_zero(&self) -> (r: bool) {
        *self == 0
    }

    fn is_value_one(&self) -> (r: bool) {
        *self == 1
    }

    fn to_bigint_value(&self) -> (r: num_bigint::BigInt) {
        big_from_i128(*self)
    }

    fn modular_reduce_assign<M: Modulus<Value = i128>>(&mut self, modulus: &M) {
        let m = *modulus.to_modulus();
        if m != 0 {
            *self = Self::modular_reduce_from_bigint(big_from_i128(*self), modulus);
        }
    }

    fn modular_add_ref_assign<M: Modulus<Value = i128>>(&mut self, rhs: &i128, modulus: &M) {
        let m = *modulus.to_modulus();
        let sum = big_add(&big_from_i128(*self), &big_from_i128(*rhs));
        let residue = big_mod_floor(&sum, &big_from_i128(m));
        *self = big_to_i128(&residue);
    }

    fn modular_neg_assign<M: Modulus<Value = i128>>(&mut self, modulus: &M) {
        let m = *modulus.to_modulus();
        if *self != 0 {
            *self = m - *self;
        }
    }

    fn modular_mul_ref_assign<M: Modulus<Value = i128>>(&mut self, rhs: &i128, modulus: &M) {
        let m = *modulus.to_modulus();
        let product = big_mul(&big_from_i128(*self), &big_from_i128(*rhs));
        let residue = big_mod_floor(&product, &big_from_i128(m));
        *self = big_to_i128(&residue);
    }

    fn modular_reduce_from_bigint<M: Modulus<Value = i128>>(v: num_bigint::BigInt, modulus: &M) -> (r:
        i128) {
        let m = *modulus.to_modulus();
        let mb = big_from_i128(m);
        let residue = big_mod_floor(&v, &mb);
        big_to_i128(&residue)
    }
}

impl ModularReducePow<usize> for i128 {
}

impl IntValue for num_bigint::BigInt {
    open spec fn sval(&self) -> int {
        big_val(*self)
    }
}

impl Modulus for num_bigint::BigInt {
    type Value = num_bigint::BigInt;

    open spec fn mval(&self) -> int {
        big_val(*self)
    }

    fn to_modulus(&self) -> (r: &num_bigint::BigInt) {
        self
    }

    fn into_modulus(self) -> (r: num_bigint::BigInt) {
        self
    }

    fn clone_modulus(&self) -> (r: num_bigint::BigInt) {
        big_clone(self)
    }

    fn modulus_eq(&self, other: &num_bigint::BigInt) -> (r: bool) {
        crate::bigint::big_eq(self, other)
    }
}

impl ModularReduce for num_bigint::BigInt {
    fn clone_value(&self) -> (r: num_bigint::BigInt) {
        big_clone(self)
    }

    fn value_zero() -> (r: num_bigint::BigInt) {
        big_from_i128(0)
    }

    fn value_one() -> (r: num_bigint::BigInt) {
        big_from_i128(1)
    }

    fn is_value_zero(&self) -> (r: bool) {
        crate::bigint::big_eq(self, &big_from_i128(0))
    }

    fn is_value_one(&self) -> (r: bool) {
        crate::bigint::big_eq(self, &big_from_i128(1))
    }

    fn to_bigint_value(&self) -> (r: num_bigint::BigInt) {
        big_clone(self)
    }

    fn modular_reduce_assign<M: Modulus<Value = num_bigint::BigInt>>(&mut self, modulus: &M) {
        let m = modulus.to_modulus();
        if !crate::bigint::big_eq(m, &big_from_i128(0)) {
            *self = big_mod_floor(self, m);
        }
    }

    fn modular_add_ref_assign<M: Modulus<Value = num_bigint::BigInt>>(
        &mut self,
        rhs: &num_bigint::BigInt,
        modulus: &M,
    ) {
        let m = modulus.to_modulus();
        let sum = big_add(self, rhs);
        *self = big_mod_floor(&sum, m);
    }

    fn modular_neg_assign<M: Modulus<Value = num_bigint::BigInt>>(&mut self, modulus: &M) {
        let m = modulus.to_modulus();
        if !crate::bigint::big_eq(self, &big_from_i128(0)) {
            *self = big_sub(m, self);
        }
    }

    fn modular_mul_ref_assign<M: Modulus<Value = num_bigint::BigInt>>(
        &mut self,
        rhs: &num_bigint::BigInt,
        modulus: &M,
    ) {
        let m = modulus.to_modulus();
        let product = big_mul(self, rhs);
        *self = big_mod_floor(&product, m);
    }

    fn modular_reduce_from_bigint<M: Modulus<Value = num_bigint::BigInt>>(
        v: num_bigint::BigInt,
        modulus: &M,
    ) -> (r: num_bigint::BigInt) {
        big_mod_floor(&v, modulus.to_modulus())
    }
}

impl ModularReducePow<usize> for num_bigint::BigInt {
    /// Delegates to `BigInt::modpow`, the substrate's native modular
    /// exponentiation.
    fn pow_modular_reduce<M: Modulus<Value = num_bigint::BigInt>>(
        &self,
        exponent: &usize,
        modulus: &M,
    ) -> (r: num_bigint::BigInt) {
        if *exponent == 0 {
            return big_from_i128(1);
        }
        let m = modulus.to_modulus();
        let reduced = big_mod_floor(self, m);
        big_modpow(&reduced, &big_from_i128(*exponent as i128), m)
    }
}


/// Multiplying by a residue and then by an inverse of that residue
/// gives back the original value, modulo `m`.
proof fn lemma_inverse_cancels(sv: int, iv: int, rv: int, m: int)
    requires
        m > 0,
        (iv * rv) % m == 1int % m,
    ensures
        (((sv * iv) % m) * rv) % m == sv % m,
{
    vstd::arithmetic::div_mod::lemma_mul_mod_noop_left(sv * iv, rv, m);
    assert((sv * iv) * rv == sv * (iv * rv)) by (nonlinear_arith);
    vstd::arithmetic::div_mod::lemma_mul_mod_noop_right(sv, iv * rv, m);
    vstd::arithmetic::div_mod::lemma_mul_mod_noop_right(sv, 1, m);
}

/// A value bound to a modulus, kept as the canonical least-nonnegative
/// residue — or as a plain unreduced integer when the modulus is zero,
/// which stands for "no modulus".
#[derive(Clone, Copy, PartialEq, Eq, Hash, Debug)]
pub struct ModularInteger<V, M> {
    value: V,
    modulus: M,
}

impl<V: ModularReduce, M: Modulus<Value = V>> ModularInteger<V, M> {
    /// The held residue as a mathematical integer.
    pub closed spec fn v(&self) -> int {
        self.value.sval()
    }

    /// The modulus as a mathematical integer.
    pub closed spec fn m(&self) -> int {
        self.modulus.mval()
    }

    /// The invariant every operation keeps: a nonnegative modulus, and
    /// a canonical residue whenever the modulus is positive.
    pub open spec fn wf(&self) -> bool {
        self.m() >= 0 && (self.m() > 0 ==> 0 <= self.v() < self.m())
    }

    pub fn value(&self) -> (r: &V)
        ensures
            r.sval() == self.v(),
    {
        &self.value
    }

    pub fn modulus(&self) -> (r: &M)
        ensures
            r.mval() == self.m(),
    {
        &self.modulus
    }

    /// Whether two values live in the same ring.
    pub fn has_matching_moduli(&self, rhs: &Self) -> (r: bool)
        ensures
            r == (self.m() == rhs.m()),
    {
        self.modulus.modulus_eq(&rhs.modulus)
    }

    /// An identical value.
    fn dup(&self) -> (r: Self)
        ensures
            r.v() == self.v(),
            r.m() == self.m(),
    {
        Self { value: self.value.clone_value(), modulus: self.modulus.clone_modulus() }
    }

    /// Takes the value and the modulus apart.
    pub fn into_value_and_modulus(self) -> (r: (V, M))
        ensures
            r.0.sval() == self.v(),
            r.1.mval() == self.m(),
    {
        let Self { value, modulus } = self;
        (value, modulus)
    }

    /// Binds `value` to `modulus`, reducing it to canonical form at
    /// once.
    pub fn new(value: V, modulus: M) -> (r: Self)
        requires
            modulus.mval() >= 0,
        ensures
            r.m() == modulus.mval(),
            r.v() == reduce_val(value.sval(), modulus.mval()),
            r.wf(),
    {
        proof {
            if modulus.mval() > 0 {
                vstd::arithmetic::div_mod::lemma_mod_bound(value.sval(), modulus.mval());
            }
        }
        let value = value.modular_reduce(&modulus);
        Self { value, modulus }
    }

    /// `*self = -*self`
    pub fn neg_assign(&mut self)
        requires
            old(self).wf(),
            old(self).m() == 0 ==> old(self).v() == 0,
        ensures
            final(self).m() == old(self).m(),
            final(self).v() == neg_val(old(self).v(), old(self).m()),
            final(self).wf(),
    {
        self.value.modular_neg_assign(&self.modulus);
    }

    /// `-self`
    pub fn neg(self) -> (r: Self)
        requires
            self.wf(),
            self.m() == 0 ==> self.v() == 0,
        ensures
            r.m() == self.m(),
            r.v() == neg_val(self.v(), self.m()),
            r.wf(),
    {
        let mut ret = self;
        ret.neg_assign();
        ret
    }

    /// Sum of two residues of one ring.
    pub fn add(self, rhs: Self) -> (r: Self)
        requires
            self.wf(),
            rhs.wf(),
            self.m() == rhs.m(),
            self.m() > 0,
        ensures
            r.m() == self.m(),
            r.v() == (self.v() + rhs.v()) % self.m(),
            r.wf(),
    {
        proof {
            vstd::arithmetic::div_mod::lemma_mod_bound(self.v() + rhs.v(), self.m());
        }
        let Self { value, modulus } = self;
        let Self { value: rhs_value, modulus: _rhs_modulus } = rhs;
        let value = value.modular_add_move_move(rhs_value, &modulus);
        Self { value, modulus }
    }

    pub fn add_assign(&mut self, rhs: &Self)
        requires
            old(self).wf(),
            rhs.wf(),
            old(self).m() == rhs.m(),
            old(self).m() > 0,
        ensures
            final(self).m() == old(self).m(),
            final(self).v() == (old(self).v() + rhs.v()) % old(self).m(),
            final(self).wf(),
    {
        proof {
            vstd::arithmetic::div_mod::lemma_mod_bound(old(self).v() + rhs.v(), old(self).m());
        }
        self.value.modular_add_ref_assign(&rhs.value, &self.modulus);
    }

    /// `add`, with a modulus mismatch reported as `None` instead of a
    /// precondition.
    pub fn checked_add(&self, rhs: &Self) -> (r: Option<Self>)
        requires
            self.wf(),
            rhs.wf(),
            self.m() == rhs.m() ==> self.m() > 0,
        ensures
            self.m() != rhs.m() ==> r is None,
            self.m() == rhs.m() ==> (r matches Some(s) && s.m() == self.m() && s.v() == (self.v()
                + rhs.v()) % self.m() && s.wf()),
    {
        if !self.has_matching_moduli(rhs) {
            return None;
        }
        proof {
            vstd::arithmetic::div_mod::lemma_mod_bound(self.v() + rhs.v(), self.m());
        }
        Some(
            Self {
                value: self.value.modular_add_ref_ref(&rhs.value, &self.modulus),
                modulus: self.modulus.clone_modulus(),
            },
        )
    }

    /// Difference of two residues of one ring.
    pub fn sub(self, rhs: Self) -> (r: Self)
        requires
            self.wf(),
            rhs.wf(),
            self.m() == rhs.m(),
            self.m() > 0,
        ensures
            r.m() == self.m(),
            r.v() == (self.v() - rhs.v()) % self.m(),
            r.wf(),
    {
        proof {
            vstd::arithmetic::div_mod::lemma_mod_bound(self.v() - rhs.v(), self.m());
        }
        let Self { value, modulus } = self;
        let Self { value: rhs_value, modulus: _rhs_modulus } = rhs;
        let value = value.modular_sub_move_move(rhs_value, &modulus);
        Self { value, modulus }
    }

    pub fn sub_assign(&mut self, rhs: &Self)
        requires
            old(self).wf(),
            rhs.wf(),
            old(self).m() == rhs.m(),
            old(self).m() > 0,
        ensures
            final(self).m() == old(self).m(),
            final(self).v() == (old(self).v() - rhs.v()) % old(self).m(),
            final(self).wf(),
    {
        proof {
            vstd::arithmetic::div_mod::lemma_mod_bound(old(self).v() - rhs.v(), old(self).m());
        }
        self.value.modular_sub_ref_assign(&rhs.value, &self.modulus);
    }

    pub fn checked_sub(&self, rhs: &Self) -> (r: Option<Self>)
        requires
            self.wf(),
            rhs.wf(),
            self.m() == rhs.m() ==> self.m() > 0,
        ensures
            self.m() != rhs.m() ==> r is None,
            self.m() == rhs.m() ==> (r matches Some(s) && s.m() == self.m() && s.v() == (self.v()
                - rhs.v()) % self.m() && s.wf()),
    {
        if !self.has_matching_moduli(rhs) {
            return None;
        }
        proof {
            vstd::arithmetic::div_mod::lemma_mod_bound(self.v() - rhs.v(), self.m());
        }
        Some(
            Self {
                value: self.value.modular_sub_ref_ref(&rhs.value, &self.modulus),
                modulus: self.modulus.clone_modulus(),
            },
        )
    }

    /// Product of two residues of one ring.
    pub fn mul(self, rhs: Self) -> (r: Self)
        requires
            self.wf(),
            rhs.wf(),
            self.m() == rhs.m(),
            self.m() > 0,
        ensures
            r.m() == self.m(),
            r.v() == (self.v() * rhs.v()) % self.m(),
            r.wf(),
    {
        proof {
            vstd::arithmetic::div_mod::lemma_mod_bound(self.v() * rhs.v(), self.m());
        }
        let Self { value, modulus } = self;
        let Self { value: rhs_value, modulus: _rhs_modulus } = rhs;
        let value = value.modular_mul_move_move(rhs_value, &modulus);
        Self { value, modulus }
    }

    pub fn mul_assign(&mut self, rhs: &Self)
        requires
            old(self).wf(),
            rhs.wf(),
            old(self).m() == rhs.m(),
            old(self).m() > 0,
        ensures
            final(self).m() == old(self).m(),
            final(self).v() == (old(self).v() * rhs.v()) % old(self).m(),
            final(self).wf(),
    {
        proof {
            vstd::arithmetic::div_mod::lemma_mod_bound(old(self).v() * rhs.v(), old(self).m());
        }
        self.value.modular_mul_ref_assign(&rhs.value, &self.modulus);
    }

    pub fn checked_mul(&self, rhs: &Self) -> (r: Option<Self>)
        requires
            self.wf(),
            rhs.wf(),
            self.m() == rhs.m() ==> self.m() > 0,
        ensures
            self.m() != rhs.m() ==> r is None,
            self.m() == rhs.m() ==> (r matches Some(s) && s.m() == self.m() && s.v() == (self.v()
                * rhs.v()) % self.m() && s.wf()),
    {
        if !self.has_matching_moduli(rhs) {
            return None;
        }
        proof {
            vstd::arithmetic::div_mod::lemma_mod_bound(self.v() * rhs.v(), self.m());
        }
        Some(
            Self {
                value: self.value.modular_mul_ref_ref(&rhs.value, &self.modulus),
                modulus: self.modulus.clone_modulus(),
            },
        )
    }

    /// The modular inverse, by the extended Euclidean algorithm: it
    /// exists exactly when the value is nonzero and coprime to the
    /// modulus (for a zero modulus, exactly when the value is a unit
    /// of the plain integers).
    pub fn checked_inverse(&self) -> (r: Option<Self>)
        requires
            self.wf(),
        ensures
            self.m() > 0 ==> ((r is Some) <==> (self.v() != 0 && crate::euclid::gcd(
                self.v() as nat,
                self.m() as nat,
            ) == 1)),
            self.m() == 0 ==> ((r is Some) <==> (self.v() == 1 || self.v() == -1)),
            r matches Some(s) ==> s.wf() && s.m() == self.m() && (self.m() > 0 ==> (s.v()
                * self.v()) % self.m() == 1int % self.m()) && (self.m() == 0 ==> s.v() == self.v()),
    {
        if self.value.is_value_zero() {
            return None;
        }
        let vb = self.value.to_bigint_value();
        if self.modulus.to_modulus().is_value_zero() {
            // no modulus: the only invertible plain integers are the
            // units, each of which is its own inverse
            if big_eq(&vb, &big_from_i128(1)) || big_eq(&vb, &big_from_i128(-1)) {
                return Some(self.dup());
            }
            return None;
        }
        let mb = self.modulus.to_modulus().to_bigint_value();
        let (g, x, y) = crate::euclid::big_egcd(&vb, &mb);
        if big_eq(&g, &big_from_i128(1)) {
            proof {
                crate::euclid::lemma_bezout_inverse(self.v(), self.m(), big_val(x), big_val(y));
                vstd::arithmetic::div_mod::lemma_mod_bound(big_val(x), self.m());
            }
            let inv = V::modular_reduce_from_bigint(x, &self.modulus);
            Some(Self { value: inv, modulus: self.modulus.clone_modulus() })
        } else {
            None
        }
    }

    /// The modular inverse of an invertible residue.
    pub fn inverse(&self) -> (r: Self)
        requires
            self.wf(),
            self.m() > 0 ==> self.v() != 0 && crate::euclid::gcd(self.v() as nat, self.m() as nat)
                == 1,
            self.m() == 0 ==> self.v() == 1 || self.v() == -1,
        ensures
            r.wf(),
            r.m() == self.m(),
            self.m() > 0 ==> (r.v() * self.v()) % self.m() == 1int % self.m(),
            self.m() == 0 ==> r.v() == self.v(),
    {
        self.checked_inverse().unwrap()
    }

    /// Division as multiplication by the divisor's inverse; it fails
    /// exactly when the divisor has no inverse or the rings differ,
    /// whether or not the dividend is zero.
    pub fn checked_div(&self, rhs: &Self) -> (r: Option<Self>)
        requires
            self.wf(),
            rhs.wf(),
            self.m() == rhs.m() ==> self.m() > 0,
        ensures
            (r is Some) <==> (self.m() == rhs.m() && rhs.v() != 0 && crate::euclid::gcd(
                rhs.v() as nat,
                self.m() as nat,
            ) == 1),
            r matches Some(s) ==> s.wf() && s.m() == self.m() && (s.v() * rhs.v()) % self.m()
                == self.v() % self.m(),
    {
        if !self.has_matching_moduli(rhs) {
            return None;
        }
        match rhs.checked_inverse() {
            None => None,
            Some(inv) => {
                proof {
                    vstd::arithmetic::div_mod::lemma_mod_bound(self.v() * inv.v(), self.m());
                    lemma_inverse_cancels(self.v(), inv.v(), rhs.v(), self.m());
                    vstd::arithmetic::div_mod::lemma_small_mod(
                        self.v() as nat,
                        self.m() as nat,
                    );
                }
                Some(
                    Self {
                        value: self.value.modular_mul_ref_ref(&inv.value, &self.modulus),
                        modulus: self.modulus.clone_modulus(),
                    },
                )
            },
        }
    }

    /// Division by an invertible residue of the same ring.
    pub fn div(self, rhs: &Self) -> (r: Self)
        requires
            self.wf(),
            rhs.wf(),
            self.m() == rhs.m(),
            self.m() > 0,
            rhs.v() != 0,
            crate::euclid::gcd(rhs.v() as nat, self.m() as nat) == 1,
        ensures
            r.wf(),
            r.m() == self.m(),
            (r.v() * rhs.v()) % self.m() == self.v() % self.m(),
    {
        self.checked_div(rhs).unwrap()
    }

    pub fn div_assign(&mut self, rhs: &Self)
        requires
            old(self).wf(),
            rhs.wf(),
            old(self).m() == rhs.m(),
            old(self).m() > 0,
            rhs.v() != 0,
            crate::euclid::gcd(rhs.v() as nat, old(self).m() as nat) == 1,
        ensures
            final(self).wf(),
            final(self).m() == old(self).m(),
            (final(self).v() * rhs.v()) % old(self).m() == old(self).v() % old(self).m(),
    {
        let r = self.dup().div(rhs);
        self.value = r.value;
        self.modulus = r.modulus;
    }
}


/// A prime power written out as its base and exponent.
pub struct BaseAndExponent<T> {
    pub base: T,
    pub exponent: usize,
}

/// A modulus fixed at compile time.
pub trait StaticModulus: Modulus + Copy + 'static {
    /// The compile-time modulus.
    spec fn static_mval() -> int;

    /// Every value of the type carries the one static modulus.
    proof fn lemma_static(&self)
        ensures
            self.mval() == Self::static_mval(),
    ;

    fn get_modulus() -> (r: Self::Value)
        ensures
            r.sval() == Self::static_mval(),
    ;
}

/// A modulus known to be a power of a prime.
pub trait PrimePowerModulus: Modulus {
    fn base_and_exponent(&self) -> (r: BaseAndExponent<Self::Value>)
        ensures
            r.exponent >= 1,
            crate::euclid::is_prime(r.base.sval()),
            pow(r.base.sval(), r.exponent as nat) == self.mval(),
    ;
}

/// A modulus known to be prime: the capability that makes modular
/// division provably total on nonzero residues.
pub trait PrimeModulus: PrimePowerModulus {
    proof fn lemma_modulus_prime(&self)
        ensures
            crate::euclid::is_prime(self.mval()),
    ;
}

impl<V: ModularReduce, M: Modulus<Value = V> + PrimeModulus> ModularInteger<V, M> {
    /// Division that can never fail: over a prime modulus every
    /// nonzero residue is coprime to the modulus, so its inverse
    /// always exists.  A compile-time capability, not a runtime check.
    pub fn exact_div(self, rhs: &Self) -> (r: Self)
        requires
            self.wf(),
            rhs.wf(),
            self.m() == rhs.m(),
            rhs.v() != 0,
        ensures
            r.wf(),
            r.m() == self.m(),
            (r.v() * rhs.v()) % self.m() == self.v() % self.m(),
    {
        proof {
            self.modulus.lemma_modulus_prime();
            crate::euclid::lemma_prime_coprime(rhs.v() as nat, self.m() as nat);
        }
        self.div(rhs)
    }
}

/// Negation identity: adding a residue to its modular negation always
/// reduces to zero.
pub proof fn lemma_neg_add_zero(v: int, m: int)
    requires
        m > 0,
        0 <= v < m,
    ensures
        (v + neg_val(v, m)) % m == 0,
{
    if v == 0 {
        vstd::arithmetic::div_mod::lemma_small_mod(0nat, m as nat);
    } else {
        vstd::arithmetic::div_mod::lemma_mod_self_0(m);
    }
}

/// Division consistency: over a modulus of at least two, a divisor is
/// invertible — and `checked_div` succeeds — exactly when its gcd with
/// the modulus is one; the "nonzero divisor" condition in
/// `checked_div` adds nothing, since a zero divisor is never coprime.
pub proof fn lemma_division_consistency(b: int, m: int)
    requires
        m >= 2,
        0 <= b < m,
    ensures
        (b != 0 && crate::euclid::gcd(b as nat, m as nat) == 1) <==> crate::euclid::gcd(
            b as nat,
            m as nat,
        ) == 1,
{
    if b == 0 {
        assert(crate::euclid::gcd(0, m as nat) == crate::euclid::gcd(m as nat, 0nat % m as nat));
        vstd::arithmetic::div_mod::lemma_small_mod(0nat, m as nat);
    }
}

impl<V: ModularReduce + ModularReducePow<usize>, M: Modulus<Value = V>> PolynomialCoefficient
    for ModularInteger<V, M> {
    type Element = ModularInteger<V, M>;

    type Divisor = DivisorIsOne;

    /// The divisor is always the identity here: every nonzero residue
    /// modulo a prime already has an inverse, so nothing need be
    /// carried.
    open spec fn element_ok(element: &Self) -> bool {
        element.wf() && element.m() > 0
    }

    open spec fn coefficient_ok(coefficient: &Self) -> bool {
        coefficient.wf() && coefficient.m() > 0
    }

    fn is_element_zero(element: &Self) -> (r: bool)
        ensures
            r == (element.v() == 0),
    {
        element.value.is_value_zero()
    }

    fn is_element_one(element: &Self) -> (r: bool)
        ensures
            r == (element.v() == 1),
    {
        element.value.is_value_one()
    }

    fn is_coefficient_zero(coefficient: &Self) -> (r: bool)
        ensures
            r == (coefficient.v() == 0),
    {
        coefficient.value.is_value_zero()
    }

    fn is_coefficient_one(coefficient: &Self) -> (r: bool)
        ensures
            r == (coefficient.v() == 1),
    {
        coefficient.value.is_value_one()
    }

    fn set_element_zero(element: &mut Self)
        ensures
            final(element).m() == old(element).m(),
            final(element).v() == 0,
            final(element).wf(),
    {
        element.value = V::value_zero();
    }

    fn set_element_one(element: &mut Self)
        ensures
            final(element).m() == old(element).m(),
            final(element).v() == 1int % old(element).m(),
            final(element).wf(),
    {
        proof {
            vstd::arithmetic::div_mod::lemma_mod_bound(1, old(element).m());
        }
        let one = V::value_one();
        let reduced = one.modular_reduce(&element.modulus);
        element.value = reduced;
    }

    fn set_coefficient_zero(coefficient: &mut Self)
        ensures
            final(coefficient).m() == old(coefficient).m(),
            final(coefficient).v() == 0,
            final(coefficient).wf(),
    {
        Self::set_element_zero(coefficient);
    }

    fn set_coefficient_one(coefficient: &mut Self)
        ensures
            final(coefficient).m() == old(coefficient).m(),
            final(coefficient).v() == 1int % old(coefficient).m(),
            final(coefficient).wf(),
    {
        Self::set_element_one(coefficient);
    }

    fn make_zero_element(element: &Self) -> (r: Self)
        ensures
            r.m() == element.m(),
            r.v() == 0,
            r.wf(),
    {
        proof {
            vstd::arithmetic::div_mod::lemma_small_mod(0nat, element.m() as nat);
        }
        Self::new(V::value_zero(), element.modulus.clone_modulus())
    }

    fn make_one_element(element: &Self) -> (r: Self)
        ensures
            r.m() == element.m(),
            r.v() == 1int % element.m(),
            r.wf(),
    {
        Self::new(V::value_one(), element.modulus.clone_modulus())
    }

    fn make_zero_coefficient_from_element(element: &Self) -> (r: Self)
        ensures
            r.m() == element.m(),
            r.v() == 0,
            r.wf(),
    {
        Self::make_zero_element(element)
    }

    fn make_one_coefficient_from_element(element: &Self) -> (r: Self)
        ensures
            r.m() == element.m(),
            r.v() == 1int % element.m(),
            r.wf(),
    {
        Self::make_one_element(element)
    }

    fn make_zero_coefficient_from_coefficient(coefficient: &Self) -> (r: Self)
        ensures
            r.m() == coefficient.m(),
            r.v() == 0,
            r.wf(),
    {
        Self::make_zero_element(coefficient)
    }

    fn make_one_coefficient_from_coefficient(coefficient: &Self) -> (r: Self)
        ensures
            r.m() == coefficient.m(),
            r.v() == 1int % coefficient.m(),
            r.wf(),
    {
        Self::make_one_element(coefficient)
    }

    fn negate_element(element: &mut Self)
        ensures
            final(element).m() == old(element).m(),
            final(element).v() == neg_val(old(element).v(), old(element).m()),
            final(element).wf(),
    {
        element.neg_assign();
    }

    fn mul_element_by_usize(element: &Self, multiplier: usize) -> (r: Self)
        ensures
            r.m() == element.m(),
            r.v() == (element.v() * multiplier as int) % element.m(),
            r.wf(),
    {
        let mut ret = element.dup();
        Self::mul_assign_element_by_usize(&mut ret, multiplier);
        ret
    }

    /// Scaling by a plain multiplier: the multiplier is reduced and
    /// the residues multiplied under the modulus.
    fn mul_assign_element_by_usize(element: &mut Self, multiplier: usize)
        ensures
            final(element).m() == old(element).m(),
            final(element).v() == (old(element).v() * multiplier as int) % old(element).m(),
            final(element).wf(),
    {
        proof {
            vstd::arithmetic::div_mod::lemma_mod_bound(multiplier as int, old(element).m());
            vstd::arithmetic::div_mod::lemma_mod_bound(
                old(element).v() * (multiplier as int % old(element).m()),
                old(element).m(),
            );
            vstd::arithmetic::div_mod::lemma_mul_mod_noop_right(
                old(element).v(),
                multiplier as int,
                old(element).m(),
            );
        }
        let factor = V::modular_reduce_from_usize(multiplier, &element.modulus);
        element.value.modular_mul_move_assign(factor, &element.modulus);
    }

    fn divisor_to_element(divisor: &DivisorIsOne, other_element: &Self) -> (r: Self)
        ensures
            r.m() == other_element.m(),
            r.v() == 1int % other_element.m(),
            r.wf(),
    {
        Self::make_one_element(other_element)
    }

    fn coefficients_to_elements(coefficients: Vec<Self>) -> (r: (Vec<Self>, DivisorIsOne))
        ensures
            r.0 == coefficients,
    {
        (coefficients, DivisorIsOne)
    }

    fn make_coefficient(element: &Self, divisor: &DivisorIsOne) -> (r: Self)
        ensures
            r.m() == element.m(),
            r.v() == element.v(),
    {
        element.dup()
    }

    fn reduce_divisor(elements: &mut Vec<Self>, divisor: &mut DivisorIsOne)
        ensures
            final(elements)@ == old(elements)@,
    {
    }

    fn get_reduced_divisor(elements: &Vec<Self>, divisor: &DivisorIsOne) -> (r: (
        Vec<Self>,
        DivisorIsOne,
    ))
        ensures
            r.0@.len() == elements@.len(),
            forall|i: int|
                0 <= i < elements@.len() ==> #[trigger] r.0@[i].v() == elements@[i].v()
                    && r.0@[i].m() == elements@[i].m(),
    {
        let mut out: Vec<Self> = Vec::new();
        let mut i: usize = 0;
        while i < elements.len()
            invariant
                i <= elements.len(),
                out@.len() == i as nat,
                forall|k: int|
                    0 <= k < i as int ==> #[trigger] out@[k].v() == elements@[k].v()
                        && out@[k].m() == elements@[k].m(),
            decreases elements.len() - i,
        {
            out.push(elements[i].dup());
            i = i + 1;
        }
        (out, DivisorIsOne)
    }

    fn coefficient_to_element(coefficient: Self) -> (r: (Self, DivisorIsOne))
        ensures
            r.0 == coefficient,
    {
        (coefficient, DivisorIsOne)
    }

    fn divisor_pow_usize(base: DivisorIsOne, exponent: usize) -> (r: DivisorIsOne) {
        DivisorIsOne
    }

    /// Raising an element to a plain power via the modular
    /// exponentiation primitive.
    fn element_pow_usize(base: Self, exponent: usize) -> (r: Self)
        ensures
            r.m() == base.m(),
            r.v() == pow_mod_val(base.v(), exponent as nat, base.m()),
            exponent != 0 ==> r.wf(),
    {
        proof {
            if exponent != 0 {
                vstd::arithmetic::div_mod::lemma_mod_bound(
                    pow(base.v() % base.m(), exponent as nat),
                    base.m(),
                );
            }
        }
        let Self { value, modulus } = base;
        let value = value.pow_modular_reduce(&exponent, &modulus);
        Self { value, modulus }
    }
}

impl<
    V: ModularReduce + ModularReducePow<usize>,
    M: Modulus<Value = V> + PrimeModulus,
> PolynomialReducingFactorSupported for ModularInteger<V, M> {
    fn get_nonzero_reducing_factor(elements: &Vec<Self>, divisor: &DivisorIsOne) -> (r: Option<
        Self,
    >)
        ensures
            (r is Some) <==> elements@.len() > 0,
            r matches Some(s) ==> s.v() == elements@[elements@.len() - 1].v() && s.m()
                == elements@[elements@.len() - 1].m(),
    {
        if elements.len() == 0 {
            None
        } else {
            Some(elements[elements.len() - 1].dup())
        }
    }
}

} // verus!

