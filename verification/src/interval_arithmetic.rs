//! Dyadic-fraction intervals: closed intervals `[a / 2^n, b / 2^n]`
//! with arbitrary-precision numerators and a shared power-of-two
//! denominator.  Every operation rounds outward — the lower bound
//! floors, the upper bound ceils — so the result always encloses the
//! exact set of values it stands for.

use crate::arith::{abs_i, ceil_div, lemma_floor_le_ceil, lemma_floor_le_ceil_cross, max4, min4};
use crate::bigint::{
    big_add, big_clone, big_div_floor, big_eq, big_from_i128, big_lt, big_mul, big_neg, big_shl,
    big_shr, big_sqrt, big_sub, big_val,
};
use crate::rational::{rat_denom, rat_numer, rat_wf, ratio_denom, ratio_new, ratio_numer};
use vstd::arithmetic::power::pow;
use vstd::arithmetic::power2::{lemma_pow2_pos, pow2};
use vstd::prelude::*;

verus! {

/// The larger of two precisions.
pub open spec fn join_n(a: nat, b: nat) -> nat {
    if a >= b {
        a
    } else {
        b
    }
}

/// A numerator re-expressed at a finer precision, exactly.
pub open spec fn lifted(v: int, from_n: nat, to_n: nat) -> int
    recommends
        from_n <= to_n,
{
    v * pow2((to_n - from_n) as nat) as int
}

/// Inclusive interval of the form `[a / 2^n, b / 2^n]` where `a` and `b` are
/// arbitrary-precision integers and `n` is an unsigned integer.
pub struct DyadicFractionInterval {
    pub lower_bound_numer: num_bigint::BigInt,
    pub upper_bound_numer: num_bigint::BigInt,
    pub log2_denom: usize,
}

impl DyadicFractionInterval {
    /// The lower-bound numerator as a mathematical integer.
    pub open spec fn lo(&self) -> int {
        big_val(self.lower_bound_numer)
    }

    /// The upper-bound numerator as a mathematical integer.
    pub open spec fn hi(&self) -> int {
        big_val(self.upper_bound_numer)
    }

    /// The base-two logarithm of the shared denominator.
    pub open spec fn n(&self) -> nat {
        self.log2_denom as nat
    }

    /// The bounds are ordered; every operation keeps this.
    pub open spec fn wf(&self) -> bool {
        self.lo() <= self.hi()
    }

    /// The rational `p / q` (with `q > 0`) lies inside the interval.
    pub open spec fn contains_frac(&self, p: int, q: int) -> bool
        recommends
            q > 0,
    {
        self.lo() * q <= p * pow2(self.n()) as int && p * pow2(self.n()) as int <= self.hi() * q
    }

    pub fn new(
        lower_bound_numer: num_bigint::BigInt,
        upper_bound_numer: num_bigint::BigInt,
        log2_denom: usize,
    ) -> (r: Self)
        requires
            big_val(lower_bound_numer) <= big_val(upper_bound_numer),
        ensures
            r.lo() == big_val(lower_bound_numer),
            r.hi() == big_val(upper_bound_numer),
            r.n() == log2_denom as nat,
            r.wf(),
    {
        Self { lower_bound_numer, upper_bound_numer, log2_denom }
    }

    /// The tightest interval at the given precision that encloses the
    /// whole range `[lower_bound, upper_bound]`: the lower bound is
    /// `lower_bound * 2^n` floored, the upper is `upper_bound * 2^n`
    /// ceiled.
    pub fn from_ratio_range(
        lower_bound: num_rational::Ratio<num_bigint::BigInt>,
        upper_bound: num_rational::Ratio<num_bigint::BigInt>,
        log2_denom: usize,
    ) -> (r: Self)
        requires
            rat_wf(lower_bound),
            rat_wf(upper_bound),
            rat_numer(lower_bound) * rat_denom(upper_bound) <= rat_numer(upper_bound) * rat_denom(
                lower_bound,
            ),
        ensures
            r.n() == log2_denom as nat,
            r.lo() == (rat_numer(lower_bound) * pow2(log2_denom as nat) as int) / rat_denom(
                lower_bound,
            ),
            r.hi() == ceil_div(
                rat_numer(upper_bound) * pow2(log2_denom as nat) as int,
                rat_denom(upper_bound),
            ),
            r.wf(),
    {
        proof {
            lemma_pow2_pos(log2_denom as nat);
        }
        let one = big_from_i128(1);
        let pw = big_shl(&one, log2_denom);
        let scaled_lower = big_mul(ratio_numer(&lower_bound), &pw);
        let scaled_upper = big_mul(ratio_numer(&upper_bound), &pw);
        let lower_bound_numer = big_div_floor(&scaled_lower, ratio_denom(&lower_bound));
        let neg_scaled_upper = big_neg(&scaled_upper);
        let neg_upper = big_div_floor(&neg_scaled_upper, ratio_denom(&upper_bound));
        let upper_bound_numer = big_neg(&neg_upper);
        proof {
            let p = pow2(log2_denom as nat) as int;
            assert(big_val(scaled_lower) * rat_denom(upper_bound) <= big_val(scaled_upper)
                * rat_denom(lower_bound)) by (nonlinear_arith)
                requires
                    p >= 0,
                    big_val(scaled_lower) == rat_numer(lower_bound) * p,
                    big_val(scaled_upper) == rat_numer(upper_bound) * p,
                    rat_numer(lower_bound) * rat_denom(upper_bound) <= rat_numer(upper_bound)
                        * rat_denom(lower_bound),
            ;
            lemma_floor_le_ceil_cross(
                big_val(scaled_lower),
                rat_denom(lower_bound),
                big_val(scaled_upper),
                rat_denom(upper_bound),
            );
        }
        Self { lower_bound_numer, upper_bound_numer, log2_denom }
    }

    /// A single rational as the tightest bracketing pair `(floor, ceil)`
    /// of `ratio * 2^n`; a point interval when the ratio is exactly
    /// dyadic at this precision.
    pub fn from_ratio(ratio: num_rational::Ratio<num_bigint::BigInt>, log2_denom: usize) -> (r:
        Self)
        requires
            rat_wf(ratio),
        ensures
            r.n() == log2_denom as nat,
            r.lo() == (rat_numer(ratio) * pow2(log2_denom as nat) as int) / rat_denom(ratio),
            r.hi() == ceil_div(rat_numer(ratio) * pow2(log2_denom as nat) as int, rat_denom(ratio)),
            r.wf(),
    {
        proof {
            lemma_pow2_pos(log2_denom as nat);
        }
        let one = big_from_i128(1);
        let pw = big_shl(&one, log2_denom);
        let scaled = big_mul(ratio_numer(&ratio), &pw);
        let lower_bound_numer = big_div_floor(&scaled, ratio_denom(&ratio));
        let neg_scaled = big_neg(&scaled);
        let neg_upper = big_div_floor(&neg_scaled, ratio_denom(&ratio));
        let upper_bound_numer = big_neg(&neg_upper);
        proof {
            lemma_floor_le_ceil_cross(
                big_val(scaled),
                rat_denom(ratio),
                big_val(scaled),
                rat_denom(ratio),
            );
        }
        Self { lower_bound_numer, upper_bound_numer, log2_denom }
    }

    /// The point interval `numer / 2^n`.
    pub fn from_dyadic_fraction(numer: num_bigint::BigInt, log2_denom: usize) -> (r: Self)
        ensures
            r.lo() == big_val(numer),
            r.hi() == big_val(numer),
            r.n() == log2_denom as nat,
            r.wf(),
    {
        let lower_bound_numer = big_clone(&numer);
        Self { lower_bound_numer, upper_bound_numer: numer, log2_denom }
    }

    /// The point interval holding zero.
    pub fn zero(log2_denom: usize) -> (r: Self)
        ensures
            r.lo() == 0,
            r.hi() == 0,
            r.n() == log2_denom as nat,
            r.wf(),
    {
        Self {
            lower_bound_numer: big_from_i128(0),
            upper_bound_numer: big_from_i128(0),
            log2_denom,
        }
    }

    /// The point interval holding one.
    pub fn one(log2_denom: usize) -> (r: Self)
        ensures
            r.lo() == pow2(log2_denom as nat),
            r.hi() == pow2(log2_denom as nat),
            r.n() == log2_denom as nat,
            r.wf(),
    {
        let one = big_from_i128(1);
        Self::from_dyadic_fraction(big_shl(&one, log2_denom), log2_denom)
    }

    /// The point interval holding negative one.
    pub fn negative_one(log2_denom: usize) -> (r: Self)
        ensures
            r.lo() == -(pow2(log2_denom as nat) as int),
            r.hi() == -(pow2(log2_denom as nat) as int),
            r.n() == log2_denom as nat,
            r.wf(),
    {
        let one = big_from_i128(1);
        Self::from_dyadic_fraction(big_neg(&big_shl(&one, log2_denom)), log2_denom)
    }

    /// Turns the interval into the point zero, keeping the precision.
    pub fn set_zero(&mut self)
        ensures
            final(self).lo() == 0,
            final(self).hi() == 0,
            final(self).n() == old(self).n(),
            final(self).wf(),
    {
        self.lower_bound_numer = big_from_i128(0);
        self.upper_bound_numer = big_from_i128(0);
    }

    /// Turns the interval into the point one, keeping the precision.
    pub fn set_one(&mut self)
        ensures
            final(self).lo() == pow2(old(self).n()),
            final(self).hi() == pow2(old(self).n()),
            final(self).n() == old(self).n(),
            final(self).wf(),
    {
        let one = big_from_i128(1);
        let v = big_shl(&one, self.log2_denom);
        self.lower_bound_numer = big_clone(&v);
        self.upper_bound_numer = v;
    }

    /// Turns the interval into the point negative one, keeping the precision.
    pub fn set_negative_one(&mut self)
        ensures
            final(self).lo() == -(pow2(old(self).n()) as int),
            final(self).hi() == -(pow2(old(self).n()) as int),
            final(self).n() == old(self).n(),
            final(self).wf(),
    {
        let one = big_from_i128(1);
        let v = big_neg(&big_shl(&one, self.log2_denom));
        self.lower_bound_numer = big_clone(&v);
        self.upper_bound_numer = v;
    }

    /// The two bounds as exact rationals `lower / 2^n` and `upper / 2^n`.
    pub fn into_ratio_range(self) -> (r: (
        num_rational::Ratio<num_bigint::BigInt>,
        num_rational::Ratio<num_bigint::BigInt>,
    ))
        ensures
            rat_wf(r.0),
            rat_wf(r.1),
            rat_numer(r.0) * pow2(self.n()) as int == self.lo() * rat_denom(r.0),
            rat_numer(r.1) * pow2(self.n()) as int == self.hi() * rat_denom(r.1),
    {
        proof {
            lemma_pow2_pos(self.log2_denom as nat);
        }
        let one = big_from_i128(1);
        let pw = big_shl(&one, self.log2_denom);
        let pw2 = big_clone(&pw);
        (ratio_new(self.lower_bound_numer, pw), ratio_new(self.upper_bound_numer, pw2))
    }

    /// The two bounds as exact rationals, without consuming the interval.
    pub fn to_ratio_range(&self) -> (r: (
        num_rational::Ratio<num_bigint::BigInt>,
        num_rational::Ratio<num_bigint::BigInt>,
    ))
        ensures
            rat_wf(r.0),
            rat_wf(r.1),
            rat_numer(r.0) * pow2(self.n()) as int == self.lo() * rat_denom(r.0),
            rat_numer(r.1) * pow2(self.n()) as int == self.hi() * rat_denom(r.1),
    {
        self.dup().into_ratio_range()
    }

    /// An identical interval.
    fn dup(&self) -> (r: Self)
        ensures
            r.lo() == self.lo(),
            r.hi() == self.hi(),
            r.n() == self.n(),
    {
        Self {
            lower_bound_numer: big_clone(&self.lower_bound_numer),
            upper_bound_numer: big_clone(&self.upper_bound_numer),
            log2_denom: self.log2_denom,
        }
    }

    /// Re-expresses the interval at a new precision.  Raising the
    /// precision is an exact shift; lowering it floors the lower bound
    /// and ceils the upper bound, so the new interval still contains
    /// everything the old one did.
    pub fn convert_log2_denom(&mut self, log2_denom: usize)
        ensures
            final(self).n() == log2_denom as nat,
            log2_denom as nat >= old(self).n() ==> {
                &&& final(self).lo() == lifted(old(self).lo(), old(self).n(), log2_denom as nat)
                &&& final(self).hi() == lifted(old(self).hi(), old(self).n(), log2_denom as nat)
            },
            (log2_denom as nat) < old(self).n() ==> {
                &&& final(self).lo() == old(self).lo() / pow2(
                    (old(self).n() - log2_denom as nat) as nat,
                ) as int
                &&& final(self).hi() == ceil_div(
                    old(self).hi(),
                    pow2((old(self).n() - log2_denom as nat) as nat) as int,
                )
            },
            old(self).wf() ==> final(self).wf(),
    {
        if log2_denom >= self.log2_denom {
            let shift = log2_denom - self.log2_denom;
            let lower = big_shl(&self.lower_bound_numer, shift);
            let upper = big_shl(&self.upper_bound_numer, shift);
            proof {
                lemma_pow2_pos(shift as nat);
                if old(self).wf() {
                    crate::arith::lemma_mul_mono(
                        old(self).lo(),
                        old(self).hi(),
                        pow2(shift as nat) as int,
                    );
                }
            }
            self.lower_bound_numer = lower;
            self.upper_bound_numer = upper;
            self.log2_denom = log2_denom;
        } else {
            let shift = self.log2_denom - log2_denom;
            let lower = big_shr(&self.lower_bound_numer, shift);
            let neg_upper = big_shr(&big_neg(&self.upper_bound_numer), shift);
            let upper = big_neg(&neg_upper);
            proof {
                lemma_pow2_pos(shift as nat);
                if old(self).wf() {
                    lemma_floor_le_ceil(old(self).lo(), old(self).hi(), pow2(shift as nat) as int);
                }
            }
            self.lower_bound_numer = lower;
            self.upper_bound_numer = upper;
            self.log2_denom = log2_denom;
        }
    }

    /// `convert_log2_denom` on an owned interval.
    pub fn into_converted_log2_denom(self, log2_denom: usize) -> (r: Self)
        ensures
            r.n() == log2_denom as nat,
            log2_denom as nat >= self.n() ==> {
                &&& r.lo() == lifted(self.lo(), self.n(), log2_denom as nat)
                &&& r.hi() == lifted(self.hi(), self.n(), log2_denom as nat)
            },
            (log2_denom as nat) < self.n() ==> {
                &&& r.lo() == self.lo() / pow2((self.n() - log2_denom as nat) as nat) as int
                &&& r.hi() == ceil_div(self.hi(), pow2((self.n() - log2_denom as nat) as nat) as int)
            },
            self.wf() ==> r.wf(),
    {
        let mut ret = self;
        ret.convert_log2_denom(log2_denom);
        ret
    }

    /// `convert_log2_denom` on a borrowed interval.
    pub fn to_converted_log2_denom(&self, log2_denom: usize) -> (r: Self)
        ensures
            r.n() == log2_denom as nat,
            log2_denom as nat >= self.n() ==> {
                &&& r.lo() == lifted(self.lo(), self.n(), log2_denom as nat)
                &&& r.hi() == lifted(self.hi(), self.n(), log2_denom as nat)
            },
            (log2_denom as nat) < self.n() ==> {
                &&& r.lo() == self.lo() / pow2((self.n() - log2_denom as nat) as nat) as int
                &&& r.hi() == ceil_div(self.hi(), pow2((self.n() - log2_denom as nat) as nat) as int)
            },
            self.wf() ==> r.wf(),
    {
        self.dup().into_converted_log2_denom(log2_denom)
    }

    /// Whether the interval contains zero.
    pub fn contains_zero(&self) -> (r: bool)
        ensures
            r == (self.lo() <= 0 && 0 <= self.hi()),
    {
        let zero = big_from_i128(0);
        !big_lt(&zero, &self.lower_bound_numer) && !big_lt(&self.upper_bound_numer, &zero)
    }
    /// The smaller of two owned numerators.
    fn big_min(a: num_bigint::BigInt, b: num_bigint::BigInt) -> (r: num_bigint::BigInt)
        ensures
            big_val(r) == crate::arith::min2(big_val(a), big_val(b)),
    {
        if big_lt(&b, &a) {
            b
        } else {
            a
        }
    }

    /// The larger of two owned numerators.
    fn big_max(a: num_bigint::BigInt, b: num_bigint::BigInt) -> (r: num_bigint::BigInt)
        ensures
            big_val(r) == crate::arith::max2(big_val(a), big_val(b)),
    {
        if big_lt(&a, &b) {
            b
        } else {
            a
        }
    }

    /// Brings both operands to the coarser of the two precisions:
    /// shifts `self` in place and hands back `rhs`'s numerators at that
    /// precision.  All shifts widen, so nothing is rounded.
    fn align_with(&mut self, rhs: &Self) -> (r: (num_bigint::BigInt, num_bigint::BigInt))
        ensures
            final(self).n() == join_n(old(self).n(), rhs.n()),
            final(self).lo() == lifted(
                old(self).lo(),
                old(self).n(),
                join_n(old(self).n(), rhs.n()),
            ),
            final(self).hi() == lifted(
                old(self).hi(),
                old(self).n(),
                join_n(old(self).n(), rhs.n()),
            ),
            big_val(r.0) == lifted(rhs.lo(), rhs.n(), join_n(old(self).n(), rhs.n())),
            big_val(r.1) == lifted(rhs.hi(), rhs.n(), join_n(old(self).n(), rhs.n())),
    {
        proof {
            assert(pow2(0) == 1) by {
                vstd::arithmetic::power2::lemma2_to64();
            }
        }
        if rhs.log2_denom >= self.log2_denom {
            let shift = rhs.log2_denom - self.log2_denom;
            let lower = big_shl(&self.lower_bound_numer, shift);
            let upper = big_shl(&self.upper_bound_numer, shift);
            self.lower_bound_numer = lower;
            self.upper_bound_numer = upper;
            self.log2_denom = rhs.log2_denom;
            proof {
                let j = join_n(old(self).n(), rhs.n());
                assert((j - old(self).n()) as nat == shift as nat);
                assert(pow2((j - rhs.n()) as nat) == 1);
                assert(rhs.lo() * pow2((j - rhs.n()) as nat) as int == rhs.lo());
                assert(rhs.hi() * pow2((j - rhs.n()) as nat) as int == rhs.hi());
            }
            (big_clone(&rhs.lower_bound_numer), big_clone(&rhs.upper_bound_numer))
        } else {
            let shift = self.log2_denom - rhs.log2_denom;
            proof {
                let j = join_n(old(self).n(), rhs.n());
                assert((j - rhs.n()) as nat == shift as nat);
                assert(pow2((j - old(self).n()) as nat) == 1);
                assert(old(self).lo() * pow2((j - old(self).n()) as nat) as int == old(self).lo());
                assert(old(self).hi() * pow2((j - old(self).n()) as nat) as int == old(self).hi());
            }
            (big_shl(&rhs.lower_bound_numer, shift), big_shl(&rhs.upper_bound_numer, shift))
        }
    }

    /// Componentwise addition after aligning precisions.
    pub fn add_assign(&mut self, rhs: &Self)
        ensures
            final(self).n() == join_n(old(self).n(), rhs.n()),
            final(self).lo() == lifted(old(self).lo(), old(self).n(), final(self).n()) + lifted(
                rhs.lo(),
                rhs.n(),
                final(self).n(),
            ),
            final(self).hi() == lifted(old(self).hi(), old(self).n(), final(self).n()) + lifted(
                rhs.hi(),
                rhs.n(),
                final(self).n(),
            ),
            old(self).wf() && rhs.wf() ==> final(self).wf(),
    {
        let (rl, rh) = self.align_with(rhs);
        let lower = big_add(&self.lower_bound_numer, &rl);
        let upper = big_add(&self.upper_bound_numer, &rh);
        proof {
            let j = join_n(old(self).n(), rhs.n());
            if old(self).wf() && rhs.wf() {
                crate::arith::lemma_mul_mono(
                    old(self).lo(),
                    old(self).hi(),
                    pow2((j - old(self).n()) as nat) as int,
                );
                crate::arith::lemma_mul_mono(
                    rhs.lo(),
                    rhs.hi(),
                    pow2((j - rhs.n()) as nat) as int,
                );
            }
        }
        self.lower_bound_numer = lower;
        self.upper_bound_numer = upper;
    }

    /// Componentwise subtraction: the subtrahend's bounds swap roles.
    pub fn sub_assign(&mut self, rhs: &Self)
        ensures
            final(self).n() == join_n(old(self).n(), rhs.n()),
            final(self).lo() == lifted(old(self).lo(), old(self).n(), final(self).n()) - lifted(
                rhs.hi(),
                rhs.n(),
                final(self).n(),
            ),
            final(self).hi() == lifted(old(self).hi(), old(self).n(), final(self).n()) - lifted(
                rhs.lo(),
                rhs.n(),
                final(self).n(),
            ),
            old(self).wf() && rhs.wf() ==> final(self).wf(),
    {
        let (rl, rh) = self.align_with(rhs);
        let lower = big_sub(&self.lower_bound_numer, &rh);
        let upper = big_sub(&self.upper_bound_numer, &rl);
        proof {
            let j = join_n(old(self).n(), rhs.n());
            if old(self).wf() && rhs.wf() {
                crate::arith::lemma_mul_mono(
                    old(self).lo(),
                    old(self).hi(),
                    pow2((j - old(self).n()) as nat) as int,
                );
                crate::arith::lemma_mul_mono(
                    rhs.lo(),
                    rhs.hi(),
                    pow2((j - rhs.n()) as nat) as int,
                );
            }
        }
        self.lower_bound_numer = lower;
        self.upper_bound_numer = upper;
    }

    /// Interval multiplication: the four endpoint products are formed
    /// at the doubled denominator, their least is floored and their
    /// greatest is ceiled back to the shared denominator.
    pub fn mul_assign(&mut self, rhs: &Self)
        ensures
            final(self).n() == join_n(old(self).n(), rhs.n()),
            ({
                let j = join_n(old(self).n(), rhs.n());
                let al = lifted(old(self).lo(), old(self).n(), j);
                let au = lifted(old(self).hi(), old(self).n(), j);
                let bl = lifted(rhs.lo(), rhs.n(), j);
                let bu = lifted(rhs.hi(), rhs.n(), j);
                &&& final(self).lo() == min4(al * bl, al * bu, au * bl, au * bu) / pow2(j) as int
                &&& final(self).hi() == ceil_div(
                    max4(al * bl, al * bu, au * bl, au * bu),
                    pow2(j) as int,
                )
            }),
            old(self).n() == rhs.n() ==> final(self).lo() == min4(
                old(self).lo() * rhs.lo(),
                old(self).lo() * rhs.hi(),
                old(self).hi() * rhs.lo(),
                old(self).hi() * rhs.hi(),
            ) / pow2(old(self).n()) as int && final(self).hi() == ceil_div(
                max4(
                    old(self).lo() * rhs.lo(),
                    old(self).lo() * rhs.hi(),
                    old(self).hi() * rhs.lo(),
                    old(self).hi() * rhs.hi(),
                ),
                pow2(old(self).n()) as int,
            ),
            final(self).wf(),
    {
        let (rl, rh) = self.align_with(rhs);
        let p00 = big_mul(&self.lower_bound_numer, &rl);
        let p01 = big_mul(&self.lower_bound_numer, &rh);
        let p10 = big_mul(&self.upper_bound_numer, &rl);
        let p11 = big_mul(&self.upper_bound_numer, &rh);
        let q00 = big_clone(&p00);
        let q01 = big_clone(&p01);
        let q10 = big_clone(&p10);
        let q11 = big_clone(&p11);
        let mn = Self::big_min(Self::big_min(q00, q01), Self::big_min(q10, q11));
        let mx = Self::big_max(Self::big_max(p00, p01), Self::big_max(p10, p11));
        let ghost mnv = big_val(mn);
        let ghost mxv = big_val(mx);
        let lower = big_shr(&mn, self.log2_denom);
        let upper = big_neg(&big_shr(&big_neg(&mx), self.log2_denom));
        proof {
            let j = join_n(old(self).n(), rhs.n());
            lemma_pow2_pos(j);
            lemma_floor_le_ceil(mnv, mxv, pow2(j) as int);
            if old(self).n() == rhs.n() {
                let l0 = old(self).lo();
                let h0 = old(self).hi();
                let n0 = old(self).n();
                assert(pow2(0) == 1) by {
                    vstd::arithmetic::power2::lemma2_to64();
                }
                assert((j - n0) as nat == 0);
                assert((j - rhs.n()) as nat == 0);
                assert(pow2((j - n0) as nat) == 1);
                assert(pow2((j - rhs.n()) as nat) == 1);
                assert(lifted(l0, n0, j) == l0) by (nonlinear_arith)
                    requires
                        lifted(l0, n0, j) == l0 * pow2((j - n0) as nat) as int,
                        pow2((j - n0) as nat) == 1,
                ;
                assert(lifted(h0, n0, j) == h0) by (nonlinear_arith)
                    requires
                        lifted(h0, n0, j) == h0 * pow2((j - n0) as nat) as int,
                        pow2((j - n0) as nat) == 1,
                ;
                assert(lifted(rhs.lo(), rhs.n(), j) == rhs.lo()) by (nonlinear_arith)
                    requires
                        lifted(rhs.lo(), rhs.n(), j) == rhs.lo() * pow2((j - rhs.n()) as nat) as int,
                        pow2((j - rhs.n()) as nat) == 1,
                ;
                assert(lifted(rhs.hi(), rhs.n(), j) == rhs.hi()) by (nonlinear_arith)
                    requires
                        lifted(rhs.hi(), rhs.n(), j) == rhs.hi() * pow2((j - rhs.n()) as nat) as int,
                        pow2((j - rhs.n()) as nat) == 1,
                ;
            }
        }
        self.lower_bound_numer = lower;
        self.upper_bound_numer = upper;
    }

    /// `add_assign` on an owned interval.
    pub fn add(self, rhs: &Self) -> (r: Self)
        ensures
            r.n() == join_n(self.n(), rhs.n()),
            r.lo() == lifted(self.lo(), self.n(), r.n()) + lifted(rhs.lo(), rhs.n(), r.n()),
            r.hi() == lifted(self.hi(), self.n(), r.n()) + lifted(rhs.hi(), rhs.n(), r.n()),
            self.wf() && rhs.wf() ==> r.wf(),
    {
        let mut ret = self;
        ret.add_assign(rhs);
        ret
    }

    /// `sub_assign` on an owned interval.
    pub fn sub(self, rhs: &Self) -> (r: Self)
        ensures
            r.n() == join_n(self.n(), rhs.n()),
            r.lo() == lifted(self.lo(), self.n(), r.n()) - lifted(rhs.hi(), rhs.n(), r.n()),
            r.hi() == lifted(self.hi(), self.n(), r.n()) - lifted(rhs.lo(), rhs.n(), r.n()),
            self.wf() && rhs.wf() ==> r.wf(),
    {
        let mut ret = self;
        ret.sub_assign(rhs);
        ret
    }

    /// `mul_assign` on an owned interval.
    pub fn mul(self, rhs: &Self) -> (r: Self)
        ensures
            r.n() == join_n(self.n(), rhs.n()),
            ({
                let j = join_n(self.n(), rhs.n());
                let al = lifted(self.lo(), self.n(), j);
                let au = lifted(self.hi(), self.n(), j);
                let bl = lifted(rhs.lo(), rhs.n(), j);
                let bu = lifted(rhs.hi(), rhs.n(), j);
                &&& r.lo() == min4(al * bl, al * bu, au * bl, au * bu) / pow2(j) as int
                &&& r.hi() == ceil_div(max4(al * bl, al * bu, au * bl, au * bu), pow2(j) as int)
            }),
            r.wf(),
    {
        let mut ret = self;
        ret.mul_assign(rhs);
        ret
    }

    /// Exact scaling by an integer; a negative scale swaps the bounds.
    pub fn mul_assign_int(&mut self, rhs: &num_bigint::BigInt)
        ensures
            final(self).n() == old(self).n(),
            big_val(*rhs) >= 0 ==> final(self).lo() == old(self).lo() * big_val(*rhs) && final(self).hi() == old(self).hi() * big_val(*rhs),
            big_val(*rhs) < 0 ==> final(self).lo() == old(self).hi() * big_val(*rhs) && final(self).hi() == old(self).lo() * big_val(*rhs),
            old(self).wf() ==> final(self).wf(),
    {
        let zero = big_from_i128(0);
        if big_lt(rhs, &zero) {
            let lower = big_mul(&self.upper_bound_numer, rhs);
            let upper = big_mul(&self.lower_bound_numer, rhs);
            proof {
                if old(self).wf() {
                    crate::arith::lemma_mul_anti(old(self).lo(), old(self).hi(), big_val(*rhs));
                }
            }
            self.lower_bound_numer = lower;
            self.upper_bound_numer = upper;
        } else {
            let lower = big_mul(&self.lower_bound_numer, rhs);
            let upper = big_mul(&self.upper_bound_numer, rhs);
            proof {
                if old(self).wf() {
                    crate::arith::lemma_mul_mono(old(self).lo(), old(self).hi(), big_val(*rhs));
                }
            }
            self.lower_bound_numer = lower;
            self.upper_bound_numer = upper;
        }
    }

    /// Scaling by a rational `p / q`: a negative scale swaps the
    /// bounds, then the new lower bound floors and the new upper bound
    /// ceils.
    pub fn mul_assign_ratio(&mut self, rhs: &num_rational::Ratio<num_bigint::BigInt>)
        requires
            rat_wf(*rhs),
        ensures
            final(self).n() == old(self).n(),
            rat_numer(*rhs) >= 0 ==> final(self).lo() == (old(self).lo() * rat_numer(*rhs))
                / rat_denom(*rhs) && final(self).hi() == ceil_div(
                old(self).hi() * rat_numer(*rhs),
                rat_denom(*rhs),
            ),
            rat_numer(*rhs) < 0 ==> final(self).lo() == (old(self).hi() * rat_numer(*rhs))
                / rat_denom(*rhs) && final(self).hi() == ceil_div(
                old(self).lo() * rat_numer(*rhs),
                rat_denom(*rhs),
            ),
            old(self).wf() ==> final(self).wf(),
    {
        let zero = big_from_i128(0);
        let p = ratio_numer(rhs);
        let q = ratio_denom(rhs);
        let negative = big_lt(p, &zero);
        let scaled_lo = if negative {
            big_mul(&self.upper_bound_numer, p)
        } else {
            big_mul(&self.lower_bound_numer, p)
        };
        let scaled_hi = if negative {
            big_mul(&self.lower_bound_numer, p)
        } else {
            big_mul(&self.upper_bound_numer, p)
        };
        let lower = big_div_floor(&scaled_lo, q);
        let upper = big_neg(&big_div_floor(&big_neg(&scaled_hi), q));
        proof {
            if old(self).wf() {
                if rat_numer(*rhs) < 0 {
                    crate::arith::lemma_mul_anti(old(self).lo(), old(self).hi(), rat_numer(*rhs));
                } else {
                    crate::arith::lemma_mul_mono(old(self).lo(), old(self).hi(), rat_numer(*rhs));
                }
                lemma_floor_le_ceil(big_val(scaled_lo), big_val(scaled_hi), rat_denom(*rhs));
            }
        }
        self.lower_bound_numer = lower;
        self.upper_bound_numer = upper;
    }

    /// Adds the integer `rhs`, exactly, to both bounds.
    pub fn add_assign_int(&mut self, rhs: &num_bigint::BigInt)
        ensures
            final(self).n() == old(self).n(),
            final(self).lo() == old(self).lo() + big_val(*rhs) * pow2(old(self).n()) as int,
            final(self).hi() == old(self).hi() + big_val(*rhs) * pow2(old(self).n()) as int,
            old(self).wf() ==> final(self).wf(),
    {
        let shifted = big_shl(rhs, self.log2_denom);
        let lower = big_add(&self.lower_bound_numer, &shifted);
        let upper = big_add(&self.upper_bound_numer, &shifted);
        self.lower_bound_numer = lower;
        self.upper_bound_numer = upper;
    }

    /// Subtracts the integer `rhs`, exactly, from both bounds.
    pub fn sub_assign_int(&mut self, rhs: &num_bigint::BigInt)
        ensures
            final(self).n() == old(self).n(),
            final(self).lo() == old(self).lo() - big_val(*rhs) * pow2(old(self).n()) as int,
            final(self).hi() == old(self).hi() - big_val(*rhs) * pow2(old(self).n()) as int,
            old(self).wf() ==> final(self).wf(),
    {
        let shifted = big_shl(rhs, self.log2_denom);
        let lower = big_sub(&self.lower_bound_numer, &shifted);
        let upper = big_sub(&self.upper_bound_numer, &shifted);
        self.lower_bound_numer = lower;
        self.upper_bound_numer = upper;
    }

    /// Adds the rational `rhs`, bracketed at this precision: the lower
    /// bound gains its floor, the upper bound its ceiling.
    pub fn add_assign_ratio(&mut self, rhs: &num_rational::Ratio<num_bigint::BigInt>)
        requires
            rat_wf(*rhs),
        ensures
            final(self).n() == old(self).n(),
            final(self).lo() == old(self).lo() + (rat_numer(*rhs) * pow2(old(self).n()) as int)
                / rat_denom(*rhs),
            final(self).hi() == old(self).hi() + ceil_div(
                rat_numer(*rhs) * pow2(old(self).n()) as int,
                rat_denom(*rhs),
            ),
            old(self).wf() ==> final(self).wf(),
    {
        let one = big_from_i128(1);
        let pw = big_shl(&one, self.log2_denom);
        let scaled = big_mul(ratio_numer(rhs), &pw);
        let fl = big_div_floor(&scaled, ratio_denom(rhs));
        let cl = big_neg(&big_div_floor(&big_neg(&scaled), ratio_denom(rhs)));
        let lower = big_add(&self.lower_bound_numer, &fl);
        let upper = big_add(&self.upper_bound_numer, &cl);
        proof {
            lemma_floor_le_ceil(big_val(scaled), big_val(scaled), rat_denom(*rhs));
        }
        self.lower_bound_numer = lower;
        self.upper_bound_numer = upper;
    }

    /// Subtracts the rational `rhs`: the lower bound loses its ceiling,
    /// the upper bound its floor.
    pub fn sub_assign_ratio(&mut self, rhs: &num_rational::Ratio<num_bigint::BigInt>)
        requires
            rat_wf(*rhs),
        ensures
            final(self).n() == old(self).n(),
            final(self).lo() == old(self).lo() - ceil_div(
                rat_numer(*rhs) * pow2(old(self).n()) as int,
                rat_denom(*rhs),
            ),
            final(self).hi() == old(self).hi() - (rat_numer(*rhs) * pow2(old(self).n()) as int)
                / rat_denom(*rhs),
            old(self).wf() ==> final(self).wf(),
    {
        let one = big_from_i128(1);
        let pw = big_shl(&one, self.log2_denom);
        let scaled = big_mul(ratio_numer(rhs), &pw);
        let fl = big_div_floor(&scaled, ratio_denom(rhs));
        let cl = big_neg(&big_div_floor(&big_neg(&scaled), ratio_denom(rhs)));
        let lower = big_sub(&self.lower_bound_numer, &cl);
        let upper = big_sub(&self.upper_bound_numer, &fl);
        proof {
            lemma_floor_le_ceil(big_val(scaled), big_val(scaled), rat_denom(*rhs));
        }
        self.lower_bound_numer = lower;
        self.upper_bound_numer = upper;
    }

    /// Division by an integer scalar: scaling by its reciprocal, so the
    /// bounds swap when the divisor is negative, the new lower bound
    /// floors and the new upper bound ceils.
    pub fn div_assign_int(&mut self, rhs: &num_bigint::BigInt)
        requires
            big_val(*rhs) != 0,
        ensures
            final(self).n() == old(self).n(),
            big_val(*rhs) > 0 ==> final(self).lo() == old(self).lo() / big_val(*rhs) && final(self).hi() == ceil_div(old(self).hi(), big_val(*rhs)),
            big_val(*rhs) < 0 ==> final(self).lo() == (-old(self).hi()) / (-big_val(*rhs)) && final(self).hi() == ceil_div(-old(self).lo(), -big_val(*rhs)),
            old(self).wf() ==> final(self).wf(),
    {
        let recip = ratio_new(big_from_i128(1), big_clone(rhs));
        let ghost rn = rat_numer(recip);
        let ghost rd = rat_denom(recip);
        self.mul_assign_ratio(&recip);
        proof {
            let b = big_val(*rhs);
            let l0 = old(self).lo();
            let h0 = old(self).hi();
            if b > 0 {
                assert(rn > 0) by (nonlinear_arith)
                    requires
                        rn * b == rd,
                        rd > 0,
                        b > 0,
                ;
                assert((l0 * rn) * b == l0 * rd) by (nonlinear_arith)
                    requires
                        rn * b == rd,
                ;
                crate::arith::lemma_floor_frac_transfer(l0 * rn, rd, l0, b);
                assert((h0 * rn) * b == h0 * rd) by (nonlinear_arith)
                    requires
                        rn * b == rd,
                ;
                crate::arith::lemma_ceil_frac_transfer(h0 * rn, rd, h0, b);
            } else {
                assert(rn < 0) by (nonlinear_arith)
                    requires
                        rn * b == rd,
                        rd > 0,
                        b < 0,
                ;
                assert((h0 * rn) * (-b) == (-h0) * rd) by (nonlinear_arith)
                    requires
                        rn * b == rd,
                ;
                crate::arith::lemma_floor_frac_transfer(
                    h0 * rn,
                    rd,
                    -h0,
                    -b,
                );
                assert((l0 * rn) * (-b) == (-l0) * rd) by (nonlinear_arith)
                    requires
                        rn * b == rd,
                ;
                crate::arith::lemma_ceil_frac_transfer(l0 * rn, rd, -l0, -b);
            }
        }
    }

    /// Division by a rational scalar: scaling by its reciprocal.
    pub fn div_assign_ratio(&mut self, rhs: &num_rational::Ratio<num_bigint::BigInt>)
        requires
            rat_wf(*rhs),
            rat_numer(*rhs) != 0,
        ensures
            final(self).n() == old(self).n(),
            rat_numer(*rhs) > 0 ==> final(self).lo() == (old(self).lo() * rat_denom(*rhs))
                / rat_numer(*rhs) && final(self).hi() == ceil_div(
                old(self).hi() * rat_denom(*rhs),
                rat_numer(*rhs),
            ),
            rat_numer(*rhs) < 0 ==> final(self).lo() == (-(old(self).hi() * rat_denom(*rhs))) / (-rat_numer(
                *rhs,
            )) && final(self).hi() == ceil_div(
                -(old(self).lo() * rat_denom(*rhs)),
                -rat_numer(*rhs),
            ),
            old(self).wf() ==> final(self).wf(),
    {
        let recip = ratio_new(big_clone(ratio_denom(rhs)), big_clone(ratio_numer(rhs)));
        let ghost rn = rat_numer(recip);
        let ghost rd = rat_denom(recip);
        self.mul_assign_ratio(&recip);
        proof {
            let p1 = rat_numer(*rhs);
            let q1 = rat_denom(*rhs);
            let l0 = old(self).lo();
            let h0 = old(self).hi();
            if p1 > 0 {
                assert(rn > 0) by (nonlinear_arith)
                    requires
                        rn * p1 == q1 * rd,
                        rd > 0,
                        q1 > 0,
                        p1 > 0,
                ;
                assert((l0 * rn) * p1 == (l0 * q1) * rd) by (nonlinear_arith)
                    requires
                        rn * p1 == q1 * rd,
                ;
                crate::arith::lemma_floor_frac_transfer(
                    l0 * rn,
                    rd,
                    l0 * q1,
                    p1,
                );
                assert((h0 * rn) * p1 == (h0 * q1) * rd) by (nonlinear_arith)
                    requires
                        rn * p1 == q1 * rd,
                ;
                crate::arith::lemma_ceil_frac_transfer(
                    h0 * rn,
                    rd,
                    h0 * q1,
                    p1,
                );
            } else {
                assert(rn < 0) by (nonlinear_arith)
                    requires
                        rn * p1 == q1 * rd,
                        rd > 0,
                        q1 > 0,
                        p1 < 0,
                ;
                assert((h0 * rn) * (-p1) == (-(h0 * q1)) * rd)
                    by (nonlinear_arith)
                    requires
                        rn * p1 == q1 * rd,
                ;
                crate::arith::lemma_floor_frac_transfer(
                    h0 * rn,
                    rd,
                    -(h0 * q1),
                    -p1,
                );
                assert((l0 * rn) * (-p1) == (-(l0 * q1)) * rd)
                    by (nonlinear_arith)
                    requires
                        rn * p1 == q1 * rd,
                ;
                crate::arith::lemma_ceil_frac_transfer(
                    l0 * rn,
                    rd,
                    -(l0 * q1),
                    -p1,
                );
            }
        }
    }

    /// Squares the interval.  When it straddles zero the true least
    /// square is exactly zero, so the lower bound is forced to zero;
    /// otherwise the smaller magnitude is squared and floored.  The
    /// upper bound is always the larger magnitude squared and ceiled.
    pub fn into_square(self) -> (r: Self)
        requires
            self.wf(),
        ensures
            r.n() == self.n(),
            ({
                let small = crate::arith::min2(abs_i(self.lo()), abs_i(self.hi()));
                let large = crate::arith::max2(abs_i(self.lo()), abs_i(self.hi()));
                &&& r.hi() == ceil_div(large * large, pow2(self.n()) as int)
                &&& (self.lo() <= 0 && 0 <= self.hi()) ==> r.lo() == 0
                &&& !(self.lo() <= 0 && 0 <= self.hi()) ==> r.lo() == (small * small) / pow2(
                    self.n(),
                ) as int
            }),
            r.lo() >= 0,
            r.wf(),
    {
        proof {
            lemma_pow2_pos(self.n());
        }
        let contains_zero = self.contains_zero();
        let zero = big_from_i128(0);
        let lower_neg = big_lt(&self.lower_bound_numer, &zero);
        let upper_neg = big_lt(&self.upper_bound_numer, &zero);
        let min_mag = if lower_neg {
            big_neg(&self.lower_bound_numer)
        } else {
            big_clone(&self.lower_bound_numer)
        };
        let max_mag = if upper_neg {
            big_neg(&self.upper_bound_numer)
        } else {
            big_clone(&self.upper_bound_numer)
        };
        let swap = big_lt(&max_mag, &min_mag);
        let (small, large) = if swap {
            (max_mag, min_mag)
        } else {
            (min_mag, max_mag)
        };
        let large_sq = big_mul(&large, &large);
        let upper = big_neg(&big_shr(&big_neg(&large_sq), self.log2_denom));
        let ghost small_v = big_val(small);
        let ghost large_v = big_val(large);
        let lower = if contains_zero {
            big_from_i128(0)
        } else {
            big_shr(&big_mul(&small, &small), self.log2_denom)
        };
        proof {
            let p = pow2(self.n()) as int;
            assert(small_v * small_v <= large_v * large_v) by (nonlinear_arith)
                requires
                    0 <= small_v <= large_v,
            ;
            assert(small_v * small_v >= 0) by (nonlinear_arith);
            if self.lo() <= 0 && 0 <= self.hi() {
                crate::arith::lemma_ceil_nonneg(large_v * large_v, p);
            } else {
                lemma_floor_le_ceil(small_v * small_v, large_v * large_v, p);
                vstd::arithmetic::div_mod::lemma_div_pos_is_pos(small_v * small_v, p);
            }
        }
        Self { lower_bound_numer: lower, upper_bound_numer: upper, log2_denom: self.log2_denom }
    }

    /// `into_square` in place.
    pub fn square_assign(&mut self)
        requires
            old(self).wf(),
        ensures
            final(self).n() == old(self).n(),
            ({
                let small = crate::arith::min2(abs_i(old(self).lo()), abs_i(old(self).hi()));
                let large = crate::arith::max2(abs_i(old(self).lo()), abs_i(old(self).hi()));
                &&& final(self).hi() == ceil_div(large * large, pow2(old(self).n()) as int)
                &&& (old(self).lo() <= 0 && 0 <= old(self).hi()) ==> final(self).lo() == 0
                &&& !(old(self).lo() <= 0 && 0 <= old(self).hi()) ==> final(self).lo() == (small
                    * small) / pow2(old(self).n()) as int
            }),
            final(self).lo() >= 0,
            final(self).wf(),
    {
        let r = self.dup().into_square();
        self.lower_bound_numer = r.lower_bound_numer;
        self.upper_bound_numer = r.upper_bound_numer;
        self.log2_denom = r.log2_denom;
    }

    /// `into_square` on a borrowed interval.
    pub fn square(&self) -> (r: Self)
        requires
            self.wf(),
        ensures
            r.n() == self.n(),
            ({
                let small = crate::arith::min2(abs_i(self.lo()), abs_i(self.hi()));
                let large = crate::arith::max2(abs_i(self.lo()), abs_i(self.hi()));
                &&& r.hi() == ceil_div(large * large, pow2(self.n()) as int)
                &&& (self.lo() <= 0 && 0 <= self.hi()) ==> r.lo() == 0
                &&& !(self.lo() <= 0 && 0 <= self.hi()) ==> r.lo() == (small * small) / pow2(
                    self.n(),
                ) as int
            }),
            r.lo() >= 0,
            r.wf(),
    {
        self.dup().into_square()
    }

    /// Square root of a nonnegative interval: the lower bound is the
    /// integer square root of `lower * 2^n` (a floor), the upper bound
    /// is the integer square root of `upper * 2^n` rounded up unless it
    /// is exact, so the result encloses the root of every value inside.
    pub fn sqrt(&self) -> (r: Self)
        requires
            self.wf(),
            self.lo() >= 0,
        ensures
            r.n() == self.n(),
            r.lo() >= 0,
            r.lo() * r.lo() <= self.lo() * pow2(self.n()) as int,
            (r.lo() + 1) * (r.lo() + 1) > self.lo() * pow2(self.n()) as int,
            r.hi() >= 0,
            r.hi() * r.hi() >= self.hi() * pow2(self.n()) as int,
            r.hi() == 0 || (r.hi() - 1) * (r.hi() - 1) < self.hi() * pow2(self.n()) as int,
            r.wf(),
    {
        proof {
            lemma_pow2_pos(self.n());
            crate::arith::lemma_mul_mono(0, self.lo(), pow2(self.n()) as int);
            crate::arith::lemma_mul_mono(self.lo(), self.hi(), pow2(self.n()) as int);
        }
        let scaled_lo = big_shl(&self.lower_bound_numer, self.log2_denom);
        let scaled_hi = big_shl(&self.upper_bound_numer, self.log2_denom);
        let lower = big_sqrt(&scaled_lo);
        let root = big_sqrt(&scaled_hi);
        let root_sq = big_mul(&root, &root);
        let ghost root_v = big_val(root);
        let ghost lower_v = big_val(lower);
        let exact = big_eq(&root_sq, &scaled_hi);
        let upper = if exact {
            root
        } else {
            big_add(&root, &big_from_i128(1))
        };
        proof {
            let slo = self.lo() * pow2(self.n()) as int;
            let shi = self.hi() * pow2(self.n()) as int;
            assert(lower_v <= root_v) by (nonlinear_arith)
                requires
                    lower_v >= 0,
                    root_v >= 0,
                    lower_v * lower_v <= slo,
                    slo <= shi,
                    (root_v + 1) * (root_v + 1) > shi,
            ;
            if exact {
                if root_v > 0 {
                    assert((root_v - 1) * (root_v - 1) < root_v * root_v) by (nonlinear_arith)
                        requires
                            root_v > 0,
                    ;
                }
            } else {
                assert(root_v * root_v < shi);
            }
        }
        Self { lower_bound_numer: lower, upper_bound_numer: upper, log2_denom: self.log2_denom }
    }

    /// `sqrt` on an owned interval.
    pub fn into_sqrt(self) -> (r: Self)
        requires
            self.wf(),
            self.lo() >= 0,
        ensures
            r.n() == self.n(),
            r.lo() >= 0,
            r.lo() * r.lo() <= self.lo() * pow2(self.n()) as int,
            (r.lo() + 1) * (r.lo() + 1) > self.lo() * pow2(self.n()) as int,
            r.hi() >= 0,
            r.hi() * r.hi() >= self.hi() * pow2(self.n()) as int,
            r.hi() == 0 || (r.hi() - 1) * (r.hi() - 1) < self.hi() * pow2(self.n()) as int,
            r.wf(),
    {
        self.sqrt()
    }

    /// `sqrt` in place.
    pub fn sqrt_assign(&mut self)
        requires
            old(self).wf(),
            old(self).lo() >= 0,
        ensures
            final(self).n() == old(self).n(),
            final(self).lo() >= 0,
            final(self).lo() * final(self).lo() <= old(self).lo() * pow2(old(self).n()) as int,
            (final(self).lo() + 1) * (final(self).lo() + 1) > old(self).lo() * pow2(
                old(self).n(),
            ) as int,
            final(self).hi() >= 0,
            final(self).hi() * final(self).hi() >= old(self).hi() * pow2(old(self).n()) as int,
            final(self).hi() == 0 || (final(self).hi() - 1) * (final(self).hi() - 1) < old(self).hi() * pow2(old(self).n()) as int,
            final(self).wf(),
    {
        let r = self.sqrt();
        self.lower_bound_numer = r.lower_bound_numer;
        self.upper_bound_numer = r.upper_bound_numer;
        self.log2_denom = r.log2_denom;
    }

    /// A sound enclosure of `x^exponent` for every `x` in the
    /// interval, by interval square-and-multiply: every multiplication
    /// is an interval multiplication, so rounding always widens.
    /// Exponent zero gives the point one, exponent one the interval
    /// itself; an even exponent pins the lower bound at zero or above.
    pub fn pow(self, exponent: usize) -> (r: Self)
        requires
            self.wf(),
        ensures
            r.n() == self.n(),
            r.wf(),
            forall|p: int, q: int|
                q > 0 && #[trigger] self.contains_frac(p, q) ==> r.contains_frac(
                    pow(p, exponent as nat),
                    pow(q, exponent as nat),
                ),
            exponent == 0 ==> r.lo() == pow2(self.n()) && r.hi() == pow2(self.n()),
            exponent == 1 ==> r.lo() == self.lo() && r.hi() == self.hi(),
            exponent % 2 == 0 ==> r.lo() >= 0,
    {
        let ghost orig = self;
        if exponent == 0 {
            let mut ret = self;
            ret.set_one();
            proof {
                lemma_pow2_pos(orig.n());
                assert forall|p: int, q: int|
                    q > 0 && #[trigger] orig.contains_frac(p, q) implies ret.contains_frac(
                    pow(p, 0),
                    pow(q, 0),
                ) by {
                    vstd::arithmetic::power::lemma_pow0(p);
                    vstd::arithmetic::power::lemma_pow0(q);
                }
            }
            return ret;
        }
        if exponent == 1 {
            proof {
                assert forall|p: int, q: int|
                    q > 0 && #[trigger] orig.contains_frac(p, q) implies orig.contains_frac(
                    pow(p, 1),
                    pow(q, 1),
                ) by {
                    vstd::arithmetic::power::lemma_pow1(p);
                    vstd::arithmetic::power::lemma_pow1(q);
                }
            }
            return self;
        }
        let mut acc = Self::one(self.log2_denom);
        let mut base = self;
        let mut e = exponent;
        let ghost mut consumed: nat = 0;
        let ghost mut bexp: nat = 1;
        proof {
            lemma_pow2_pos(orig.n());
            assert forall|p: int, q: int|
                q > 0 && #[trigger] orig.contains_frac(p, q) implies acc.contains_frac(
                pow(p, consumed),
                pow(q, consumed),
            ) by {
                vstd::arithmetic::power::lemma_pow0(p);
                vstd::arithmetic::power::lemma_pow0(q);
            }
            assert forall|p: int, q: int|
                q > 0 && #[trigger] orig.contains_frac(p, q) implies base.contains_frac(
                pow(p, bexp),
                pow(q, bexp),
            ) by {
                vstd::arithmetic::power::lemma_pow1(p);
                vstd::arithmetic::power::lemma_pow1(q);
            }
        }
        while e > 0
            invariant
                acc.n() == orig.n(),
                base.n() == orig.n(),
                acc.wf(),
                base.wf(),
                consumed + bexp * e == exponent as nat,
                forall|p: int, q: int|
                    q > 0 && #[trigger] orig.contains_frac(p, q) ==> acc.contains_frac(
                        pow(p, consumed),
                        pow(q, consumed),
                    ),
                forall|p: int, q: int|
                    q > 0 && #[trigger] orig.contains_frac(p, q) ==> base.contains_frac(
                        pow(p, bexp),
                        pow(q, bexp),
                    ),
            decreases e,
        {
            let ghost e0 = e as nat;
            let ghost c0 = consumed;
            let ghost b0 = bexp;
            if e % 2 == 1 {
                let ghost acc0 = acc;
                acc.mul_assign(&base);
                proof {
                    assert forall|p: int, q: int|
                        q > 0 && #[trigger] orig.contains_frac(p, q) implies acc.contains_frac(
                        pow(p, (consumed + bexp) as nat),
                        pow(q, (consumed + bexp) as nat),
                    ) by {
                        vstd::arithmetic::power::lemma_pow_positive(q, consumed);
                        vstd::arithmetic::power::lemma_pow_positive(q, bexp);
                        lemma_mul_enclosure(
                            acc0.lo(),
                            acc0.hi(),
                            base.lo(),
                            base.hi(),
                            orig.n(),
                            pow(p, consumed),
                            pow(q, consumed),
                            pow(p, bexp),
                            pow(q, bexp),
                        );
                        vstd::arithmetic::power::lemma_pow_adds(p, consumed, bexp);
                        vstd::arithmetic::power::lemma_pow_adds(q, consumed, bexp);
                    }
                    consumed = consumed + bexp;
                }
            }
            e = e / 2;
            if e > 0 {
                let base_copy = base.dup();
                let ghost base0 = base;
                base.mul_assign(&base_copy);
                proof {
                    assert forall|p: int, q: int|
                        q > 0 && #[trigger] orig.contains_frac(p, q) implies base.contains_frac(
                        pow(p, (bexp + bexp) as nat),
                        pow(q, (bexp + bexp) as nat),
                    ) by {
                        vstd::arithmetic::power::lemma_pow_positive(q, bexp);
                        lemma_mul_enclosure(
                            base0.lo(),
                            base0.hi(),
                            base0.lo(),
                            base0.hi(),
                            orig.n(),
                            pow(p, bexp),
                            pow(q, bexp),
                            pow(p, bexp),
                            pow(q, bexp),
                        );
                        vstd::arithmetic::power::lemma_pow_adds(p, bexp, bexp);
                        vstd::arithmetic::power::lemma_pow_adds(q, bexp, bexp);
                    }
                    bexp = bexp + bexp;
                }
            }
            proof {
                vstd::arithmetic::div_mod::lemma_fundamental_div_mod(e0 as int, 2);
                if e0 % 2 == 1 {
                    if e0 / 2 > 0 {
                        assert(consumed + bexp * (e as nat) == exponent as nat) by (nonlinear_arith)
                            requires
                                c0 + b0 * e0 == exponent as nat,
                                consumed == c0 + b0,
                                bexp == b0 + b0,
                                e as nat == e0 / 2,
                                e0 == 2 * (e0 / 2) + 1,
                        ;
                    } else {
                        assert(consumed + bexp * (e as nat) == exponent as nat) by (nonlinear_arith)
                            requires
                                c0 + b0 * e0 == exponent as nat,
                                consumed == c0 + b0,
                                bexp == b0,
                                e as nat == 0,
                                e0 == 1,
                        ;
                    }
                } else {
                    assert(consumed + bexp * (e as nat) == exponent as nat) by (nonlinear_arith)
                        requires
                            c0 + b0 * e0 == exponent as nat,
                            consumed == c0,
                            bexp == b0 + b0,
                            e as nat == e0 / 2,
                            e0 == 2 * (e0 / 2),
                    ;
                }
            }
        }
        if exponent % 2 == 0 {
            let zero = big_from_i128(0);
            if big_lt(&acc.lower_bound_numer, &zero) {
                proof {
                    lemma_pow2_pos(orig.n());
                    crate::arith::lemma_mul_mono(orig.lo(), orig.hi(), pow2(orig.n()) as int);
                    assert(orig.contains_frac(orig.lo(), pow2(orig.n()) as int));
                    vstd::arithmetic::power::lemma_pow_positive(
                        pow2(orig.n()) as int,
                        exponent as nat,
                    );
                    lemma_pow_even_nonneg(orig.lo(), exponent as nat);
                    assert(acc.hi() >= 0) by (nonlinear_arith)
                        requires
                            acc.hi() * pow(pow2(orig.n()) as int, exponent as nat) >= pow(
                                orig.lo(),
                                exponent as nat,
                            ) * pow2(orig.n()) as int,
                            pow(pow2(orig.n()) as int, exponent as nat) > 0,
                            pow(orig.lo(), exponent as nat) >= 0,
                            pow2(orig.n()) as int > 0,
                    ;
                }
                let ghost acc0 = acc;
                acc.lower_bound_numer = big_from_i128(0);
                proof {
                    assert forall|p: int, q: int|
                        q > 0 && #[trigger] orig.contains_frac(p, q) implies acc.contains_frac(
                        pow(p, exponent as nat),
                        pow(q, exponent as nat),
                    ) by {
                        lemma_pow_even_nonneg(p, exponent as nat);
                        vstd::arithmetic::power::lemma_pow_positive(q, exponent as nat);
                        assert(0 * pow(q, exponent as nat) <= pow(p, exponent as nat) * pow2(
                            orig.n(),
                        ) as int) by (nonlinear_arith)
                            requires
                                pow(p, exponent as nat) >= 0,
                                pow(q, exponent as nat) > 0,
                        ;
                        assert(acc0.contains_frac(pow(p, exponent as nat), pow(q, exponent as nat)));
                    }
                }
            }
        }
        acc
    }
}
/// An even power of any integer is nonnegative.
proof fn lemma_pow_even_nonneg(b: int, e: nat)
    requires
        e % 2 == 0,
    ensures
        pow(b, e) >= 0,
{
    let h = e / 2;
    vstd::arithmetic::div_mod::lemma_fundamental_div_mod(e as int, 2);
    vstd::arithmetic::power::lemma_pow_adds(b, h, h);
    assert(pow(b, h) * pow(b, h) >= 0) by (nonlinear_arith);
}

/// Interval multiplication is sound.  If `p1 / q1` lies in `[al, au] /
/// 2^nn` and `p2 / q2` lies in `[bl, bu] / 2^nn`, then their product
/// lies between the floored least and the ceiled greatest of the four
/// endpoint products — the bounds `mul_assign` computes.
pub proof fn lemma_mul_enclosure(
    al: int,
    au: int,
    bl: int,
    bu: int,
    nn: nat,
    p1: int,
    q1: int,
    p2: int,
    q2: int,
)
    requires
        q1 > 0,
        q2 > 0,
        al * q1 <= p1 * pow2(nn) as int,
        p1 * pow2(nn) as int <= au * q1,
        bl * q2 <= p2 * pow2(nn) as int,
        p2 * pow2(nn) as int <= bu * q2,
    ensures
        (min4(al * bl, al * bu, au * bl, au * bu) / pow2(nn) as int) * (q1 * q2) <= (p1 * p2)
            * pow2(nn) as int,
        (p1 * p2) * pow2(nn) as int <= ceil_div(
            max4(al * bl, al * bu, au * bl, au * bu),
            pow2(nn) as int,
        ) * (q1 * q2),
{
    let pp = pow2(nn) as int;
    lemma_pow2_pos(nn);
    let u = p1 * pp;
    let v = p2 * pp;
    crate::arith::lemma_prod_bounds(u, al * q1, au * q1, v, bl * q2, bu * q2);
    assert((al * q1) * (bl * q2) == (al * bl) * (q1 * q2) && (al * q1) * (bu * q2) == (al * bu) * (
    q1 * q2) && (au * q1) * (bl * q2) == (au * bl) * (q1 * q2) && (au * q1) * (bu * q2) == (au * bu)
        * (q1 * q2)) by (nonlinear_arith);
    assert(q1 * q2 > 0) by (nonlinear_arith)
        requires
            q1 > 0,
            q2 > 0,
    ;
    crate::arith::lemma_minmax4_scale(al * bl, al * bu, au * bl, au * bu, q1 * q2);
    let m = min4(al * bl, al * bu, au * bl, au * bu);
    let x = max4(al * bl, al * bu, au * bl, au * bu);
    let w = (p1 * p2) * pp;
    assert(u * v == w * pp) by (nonlinear_arith)
        requires
            w == (p1 * p2) * pp,
            u == p1 * pp,
            v == p2 * pp,
    ;
    crate::arith::lemma_floor_bounds(m, pp);
    assert((m / pp) * (q1 * q2) <= w) by (nonlinear_arith)
        requires
            pp > 0,
            q1 * q2 > 0,
            pp * (m / pp) <= m,
            m * (q1 * q2) <= w * pp,
    ;
    crate::arith::lemma_ceil_bounds(x, pp);
    assert(w <= ceil_div(x, pp) * (q1 * q2)) by (nonlinear_arith)
        requires
            pp > 0,
            q1 * q2 > 0,
            x <= pp * ceil_div(x, pp),
            w * pp <= x * (q1 * q2),
    ;
}

/// Soundness of enclosure: an interval whose bounds are the floor of
/// `pl/ql * 2^n` and the ceiling of `ph/qh * 2^n` — what
/// `from_ratio_range` builds — contains every rational between
/// `pl / ql` and `ph / qh`.
pub proof fn lemma_from_ratio_range_sound(
    r: DyadicFractionInterval,
    pl: int,
    ql: int,
    ph: int,
    qh: int,
    px: int,
    qx: int,
)
    requires
        ql > 0,
        qh > 0,
        qx > 0,
        r.lo() == (pl * pow2(r.n()) as int) / ql,
        r.hi() == ceil_div(ph * pow2(r.n()) as int, qh),
        pl * qx <= px * ql,
        px * qh <= ph * qx,
    ensures
        r.contains_frac(px, qx),
{
    let pp = pow2(r.n()) as int;
    lemma_pow2_pos(r.n());
    crate::arith::lemma_floor_bounds(pl * pp, ql);
    assert(((pl * pp) / ql) * qx <= px * pp) by (nonlinear_arith)
        requires
            ql > 0,
            qx > 0,
            pp > 0,
            ql * ((pl * pp) / ql) <= pl * pp,
            pl * qx <= px * ql,
    ;
    crate::arith::lemma_ceil_bounds(ph * pp, qh);
    assert(px * pp <= ceil_div(ph * pp, qh) * qx) by (nonlinear_arith)
        requires
            qh > 0,
            qx > 0,
            pp > 0,
            ph * pp <= qh * ceil_div(ph * pp, qh),
            px * qh <= ph * qx,
    ;
}

/// Converting to a finer precision and back is the identity on both
/// bounds, so a round trip through `convert_log2_denom` loses nothing
/// the interval contained.
pub proof fn lemma_convert_round_trip(lo: int, hi: int, n1: nat, n2: nat)
    requires
        n1 <= n2,
    ensures
        lifted(lo, n1, n2) / pow2((n2 - n1) as nat) as int == lo,
        ceil_div(lifted(hi, n1, n2), pow2((n2 - n1) as nat) as int) == hi,
{
    lemma_pow2_pos((n2 - n1) as nat);
    crate::arith::lemma_scale_down_exact(lo, pow2((n2 - n1) as nat) as int);
    crate::arith::lemma_scale_down_exact(hi, pow2((n2 - n1) as nat) as int);
}

/// Squaring is sound: for every rational `p / q` in `[lo, hi] / 2^nn`,
/// its square lies between the bounds that `into_square` computes.
pub proof fn lemma_square_enclosure(lo: int, hi: int, nn: nat, p: int, q: int)
    requires
        q > 0,
        lo <= hi,
        lo * q <= p * pow2(nn) as int,
        p * pow2(nn) as int <= hi * q,
    ensures
        (lo <= 0 && 0 <= hi) ==> 0 <= (p * p) * pow2(nn) as int,
        !(lo <= 0 && 0 <= hi) ==> ((crate::arith::min2(abs_i(lo), abs_i(hi)) * crate::arith::min2(
            abs_i(lo),
            abs_i(hi),
        )) / pow2(nn) as int) * (q * q) <= (p * p) * pow2(nn) as int,
        (p * p) * pow2(nn) as int <= ceil_div(
            crate::arith::max2(abs_i(lo), abs_i(hi)) * crate::arith::max2(abs_i(lo), abs_i(hi)),
            pow2(nn) as int,
        ) * (q * q),
{
    let pp = pow2(nn) as int;
    lemma_pow2_pos(nn);
    let u = p * pp;
    let small = crate::arith::min2(abs_i(lo), abs_i(hi));
    let large = crate::arith::max2(abs_i(lo), abs_i(hi));
    let w = (p * p) * pp;
    assert(u * u == w * pp) by (nonlinear_arith)
        requires
            u == p * pp,
            w == (p * p) * pp,
    ;
    assert(q * q > 0) by (nonlinear_arith)
        requires
            q > 0,
    ;
    // the magnitude of u is at most large * q
    crate::arith::lemma_mul_mono(hi, large, q);
    crate::arith::lemma_mul_mono(-large, lo, q);
    assert(u * u <= (large * large) * (q * q)) by (nonlinear_arith)
        requires
            (-large) * q <= u,
            u <= large * q,
            large >= 0,
            q > 0,
    ;
    crate::arith::lemma_ceil_bounds(large * large, pp);
    assert(w <= ceil_div(large * large, pp) * (q * q)) by (nonlinear_arith)
        requires
            pp > 0,
            q * q > 0,
            large * large <= pp * ceil_div(large * large, pp),
            w * pp <= (large * large) * (q * q),
    ;
    if lo <= 0 && 0 <= hi {
        assert(0 <= w) by (nonlinear_arith)
            requires
                w == (p * p) * pp,
                pp > 0,
        ;
    } else {
        if lo > 0 {
            crate::arith::lemma_mul_mono(small, lo, q);
            assert((small * small) * (q * q) <= u * u) by (nonlinear_arith)
                requires
                    small * q <= u,
                    small >= 0,
                    q > 0,
            ;
        } else {
            // hi < 0: u <= hi * q == -(small * q)
            crate::arith::lemma_mul_mono(small, -hi, q);
            assert((small * small) * (q * q) <= u * u) by (nonlinear_arith)
                requires
                    u <= (-small) * q,
                    small >= 0,
                    q > 0,
            ;
        }
        crate::arith::lemma_floor_bounds(small * small, pp);
        assert(((small * small) / pp) * (q * q) <= w) by (nonlinear_arith)
            requires
                pp > 0,
                q * q > 0,
                pp * ((small * small) / pp) <= small * small,
                (small * small) * (q * q) <= w * pp,
        ;
    }
}

impl Default for DyadicFractionInterval {
    /// The point zero at the coarsest precision.
    fn default() -> (r: Self)
        ensures
            r.lo() == 0,
            r.hi() == 0,
            r.n() == 0,
            r.wf(),
    {
        Self::zero(0)
    }
}

} // verus!
