//! Exact non-negative fractions: the numbers in which prices and amounts
//! are held. Contracts speak of a fraction through its value, a `real`.

use vstd::prelude::*;
use vstd::arithmetic::div_mod::lemma_div_by_multiple;
use crate::gcd::{
    gcd,
    gcd_u128,
    lemma_gcd_divides,
    lemma_gcd_positive,
    lemma_gcd_symmetric,
    lemma_lowest_terms_least,
    lemma_quotients_coprime,
};

verus! {

/// The value of the fraction `n / d`.
pub open spec fn ratio_value(n: nat, d: nat) -> real {
    n as real / d as real
}

/// Whether `v` can be written as a fraction of two 64-bit numbers.
pub open spec fn representable(v: real) -> bool {
    exists|n: nat, d: nat|
        0 < d <= u64::MAX && n <= u64::MAX && v == #[trigger] ratio_value(n, d)
}

/// The distance between two numbers.
pub open spec fn abs_diff(a: real, b: real) -> real {
    if a >= b {
        a - b
    } else {
        b - a
    }
}

/// Whether `a` and `b` are closer to each other than `epsilon`.
pub open spec fn within_epsilon(a: real, b: real, epsilon: real) -> bool {
    abs_diff(a, b) < epsilon
}

/// Two fractions have the same value exactly when their cross products agree.
pub proof fn lemma_ratio_eq(n1: nat, d1: nat, n2: nat, d2: nat)
    requires
        d1 > 0,
        d2 > 0,
    ensures
        (ratio_value(n1, d1) == ratio_value(n2, d2)) <==> (n1 * d2 == n2 * d1),
{
    assert((n1 as real / d1 as real == n2 as real / d2 as real) <==> (n1 * d2 == n2 * d1))
        by (nonlinear_arith)
        requires
            d1 > 0,
            d2 > 0,
    ;
}

/// Fractions are ordered as their cross products are.
pub proof fn lemma_ratio_lt(n1: nat, d1: nat, n2: nat, d2: nat)
    requires
        d1 > 0,
        d2 > 0,
    ensures
        (ratio_value(n1, d1) < ratio_value(n2, d2)) <==> (n1 * d2 < n2 * d1),
{
    assert((n1 as real / d1 as real) < (n2 as real / d2 as real) <==> (n1 * d2 < n2 * d1))
        by (nonlinear_arith)
        requires
            d1 > 0,
            d2 > 0,
    ;
}

/// The product of two fractions.
pub proof fn lemma_ratio_mul(n1: nat, d1: nat, n2: nat, d2: nat)
    requires
        d1 > 0,
        d2 > 0,
    ensures
        ratio_value(n1, d1) * ratio_value(n2, d2) == ratio_value(n1 * n2, d1 * d2),
{
    assert((n1 as real / d1 as real) * (n2 as real / d2 as real) == ((n1 * n2) as real / (d1
        * d2) as real)) by (nonlinear_arith)
        requires
            d1 > 0,
            d2 > 0,
    ;
}

/// The difference of two fractions, the larger first.
pub proof fn lemma_ratio_sub(n1: nat, d1: nat, n2: nat, d2: nat)
    requires
        d1 > 0,
        d2 > 0,
        n1 * d2 >= n2 * d1,
    ensures
        ratio_value(n1, d1) - ratio_value(n2, d2) == ratio_value(
            (n1 * d2 - n2 * d1) as nat,
            d1 * d2,
        ),
{
    assert((n1 as real / d1 as real) - (n2 as real / d2 as real) == ((n1 * d2 - n2 * d1) as real
        / (d1 * d2) as real)) by (nonlinear_arith)
        requires
            d1 > 0,
            d2 > 0,
    ;
}

/// A fraction with denominator 1 is a whole number.
pub proof fn lemma_ratio_integer(n: nat)
    ensures
        ratio_value(n, 1) == n as real,
{
    assert(n as real / 1nat as real == n as real) by (nonlinear_arith);
}

/// A fraction in lowest terms whose numerator or denominator exceeds 64 bits
/// has a value that no fraction of two 64-bit numbers has.
pub proof fn lemma_not_representable(n: nat, d: nat)
    requires
        d > 0,
        gcd(n, d) == 1,
        n > u64::MAX || d > u64::MAX,
    ensures
        !representable(ratio_value(n, d)),
{
    if representable(ratio_value(n, d)) {
        let (big_n, big_d): (nat, nat) = choose|big_n: nat, big_d: nat|
            0 < big_d <= u64::MAX && big_n <= u64::MAX && ratio_value(n, d)
                == #[trigger] ratio_value(big_n, big_d);
        lemma_ratio_eq(big_n, big_d, n, d);
        let k = lemma_lowest_terms_least(n, d, big_n, big_d);
        assert(big_n >= n && big_d >= d) by (nonlinear_arith)
            requires
                k > 0,
                big_n == n * k,
                big_d == d * k,
        ;
    }
}

/// An exact non-negative fraction of two 64-bit numbers, kept in lowest
/// terms, so that two fractions with the same value are the same fraction.
#[derive(Clone, Copy, Debug, PartialEq, Eq)]
pub struct Ratio {
    num: u64,
    den: u64,
}

impl View for Ratio {
    type V = real;

    closed spec fn view(&self) -> real {
        ratio_value(self.num as nat, self.den as nat)
    }
}

/// Brings `n / d` to lowest terms.
fn reduce(n: u128, d: u128) -> (r: (u128, u128))
    requires
        d > 0,
    ensures
        r.1 > 0,
        r.0 <= n,
        r.1 <= d,
        gcd(r.0 as nat, r.1 as nat) == 1,
        ratio_value(r.0 as nat, r.1 as nat) == ratio_value(n as nat, d as nat),
{
    let g = gcd_u128(n, d);
    proof {
        lemma_gcd_positive(n as nat, d as nat);
        let (qn, qd) = lemma_gcd_divides(n as nat, d as nat);
        lemma_div_by_multiple(qn as int, g as int);
        lemma_div_by_multiple(qd as int, g as int);
        assert(qn * g == g * qn && qd * g == g * qd) by (nonlinear_arith);
        assert(n / g == qn);
        assert(d / g == qd);
        lemma_quotients_coprime(n as nat, d as nat, qn, qd);
        assert(qd > 0 && qn <= n && qd <= d) by (nonlinear_arith)
            requires
                d > 0,
                g > 0,
                n == g * qn,
                d == g * qd,
                qn >= 0,
                qd >= 0,
        ;
        assert(qn * d == n * qd) by (nonlinear_arith)
            requires
                n == g * qn,
                d == g * qd,
        ;
        lemma_ratio_eq(qn, qd, n as nat, d as nat);
    }
    (n / g, d / g)
}

impl Ratio {
    /// What holds of every fraction: the denominator is not zero, and the
    /// fraction is in lowest terms.
    #[verifier::type_invariant]
    pub closed spec fn wf(self) -> bool {
        self.den > 0 && gcd(self.num as nat, self.den as nat) == 1
    }

    /// The numerator, in lowest terms.
    pub closed spec fn spec_num(self) -> nat {
        self.num as nat
    }

    /// The denominator, in lowest terms.
    pub closed spec fn spec_den(self) -> nat {
        self.den as nat
    }

    /// The value is the numerator over the denominator, and is not negative.
    pub proof fn lemma_value(self)
        requires
            self.wf(),
        ensures
            self.spec_den() > 0,
            self@ == ratio_value(self.spec_num(), self.spec_den()),
            self@ >= 0real,
            representable(self@),
    {
        let n = self.num as nat;
        let d = self.den as nat;
        assert(n as real / d as real >= 0real) by (nonlinear_arith)
            requires
                d > 0,
                n >= 0,
        ;
        assert(self@ == ratio_value(n, d));
    }

    /// Two fractions with the same value are equal.
    pub proof fn lemma_same_value_same_ratio(self, other: Ratio)
        requires
            self.wf(),
            other.wf(),
            self@ == other@,
        ensures
            self == other,
    {
        let (n1, d1) = (self.num as nat, self.den as nat);
        let (n2, d2) = (other.num as nat, other.den as nat);
        lemma_ratio_eq(n1, d1, n2, d2);
        lemma_ratio_eq(n2, d2, n1, d1);
        let k1 = lemma_lowest_terms_least(n1, d1, n2, d2);
        let k2 = lemma_lowest_terms_least(n2, d2, n1, d1);
        assert(k1 == 1) by (nonlinear_arith)
            requires
                d1 > 0,
                k1 > 0,
                k2 > 0,
                d2 == d1 * k1,
                d1 == d2 * k2,
        ;
        assert(n2 == n1 && d2 == d1) by (nonlinear_arith)
            requires
                k1 == 1,
                n2 == n1 * k1,
                d2 == d1 * k1,
        ;
    }

    /// The fraction of the wide numbers `n` and `d`, where it fits.
    fn from_wide(n: u128, d: u128) -> (r: Option<Ratio>)
        requires
            d > 0,
        ensures
            r is Some <==> representable(ratio_value(n as nat, d as nat)),
            r matches Some(x) ==> x@ == ratio_value(n as nat, d as nat),
    {
        let (rn, rd) = reduce(n, d);
        if rn <= u64::MAX as u128 && rd <= u64::MAX as u128 {
            let x = Ratio { num: rn as u64, den: rd as u64 };
            assert(ratio_value(x.num as nat, x.den as nat) == ratio_value(rn as nat, rd as nat));
            Some(x)
        } else {
            proof {
                lemma_not_representable(rn as nat, rd as nat);
            }
            None
        }
    }

    /// Zero.
    pub fn zero() -> (r: Ratio)
        ensures
            r@ == 0real,
    {
        assert(gcd(0, 1) == 1) by {
            assert(gcd(1, 0) == 1);
            assert(0nat % 1 == 0);
        }
        proof {
            lemma_ratio_integer(0);
        }
        Ratio { num: 0, den: 1 }
    }

    /// The whole number `n`.
    pub fn from_integer(n: u64) -> (r: Ratio)
        ensures
            r@ == n as real,
    {
        assert(gcd(n as nat, 1) == 1) by {
            assert(gcd(1, 0) == 1);
            assert((n as nat) % 1 == 0);
        }
        proof {
            lemma_ratio_integer(n as nat);
        }
        Ratio { num: n, den: 1 }
    }

    /// The fraction `num / den`.
    pub fn fraction(num: u64, den: u64) -> (r: Ratio)
        requires
            den != 0,
        ensures
            r@ == ratio_value(num as nat, den as nat),
    {
        let (rn, rd) = reduce(num as u128, den as u128);
        let x = Ratio { num: rn as u64, den: rd as u64 };
        assert(ratio_value(x.num as nat, x.den as nat) == ratio_value(rn as nat, rd as nat));
        x
    }

    /// The fraction `num / den`, unless `den` is zero.
    pub fn new(num: u64, den: u64) -> (r: Option<Ratio>)
        ensures
            r is Some <==> den != 0,
            r matches Some(x) ==> x@ == ratio_value(num as nat, den as nat),
    {
        if den == 0 {
            None
        } else {
            Some(Ratio::fraction(num, den))
        }
    }

    /// The numerator, in lowest terms.
    pub fn num(&self) -> (n: u64)
        ensures
            n == self.spec_num(),
    {
        self.num
    }

    /// The denominator, in lowest terms.
    pub fn den(&self) -> (d: u64)
        ensures
            d == self.spec_den(),
            d > 0,
    {
        proof {
            use_type_invariant(self);
        }
        self.den
    }

    /// Whether the value is zero.
    pub fn is_zero(&self) -> (b: bool)
        ensures
            b == (self@ == 0real),
    {
        proof {
            use_type_invariant(self);
            lemma_ratio_eq(self.num as nat, self.den as nat, 0, 1);
            lemma_ratio_integer(0);
        }
        self.num == 0
    }

    /// Whether the value is above zero.
    pub fn is_positive(&self) -> (b: bool)
        ensures
            b == (self@ > 0real),
    {
        proof {
            use_type_invariant(self);
            lemma_ratio_lt(0, 1, self.num as nat, self.den as nat);
            lemma_ratio_integer(0);
        }
        self.num > 0
    }

    /// One over a fraction that is not zero.
    pub fn inverse(&self) -> (r: Ratio)
        requires
            self@ > 0real,
        ensures
            r@ == 1real / self@,
    {
        proof {
            use_type_invariant(self);
            lemma_ratio_lt(0, 1, self.num as nat, self.den as nat);
            lemma_ratio_integer(0);
            lemma_gcd_symmetric(self.num as nat, self.den as nat);
            let n = self.num as nat;
            let d = self.den as nat;
            assert(d as real / n as real == 1real / (n as real / d as real)) by (nonlinear_arith)
                requires
                    n > 0,
                    d > 0,
            ;
        }
        Ratio { num: self.den, den: self.num }
    }

    /// One over the fraction, unless the fraction is zero.
    pub fn reciprocal(&self) -> (r: Option<Ratio>)
        ensures
            r is Some <==> self@ > 0real,
            r matches Some(x) ==> x@ == 1real / self@,
    {
        if self.is_positive() {
            Some(self.inverse())
        } else {
            None
        }
    }

    /// The product of two fractions, where it can be written as a fraction
    /// of two 64-bit numbers.
    pub fn checked_mul(&self, other: &Ratio) -> (r: Option<Ratio>)
        ensures
            r is Some <==> representable(self@ * other@),
            r matches Some(x) ==> x@ == self@ * other@,
    {
        proof {
            use_type_invariant(self);
            use_type_invariant(other);
            lemma_ratio_mul(
                self.num as nat,
                self.den as nat,
                other.num as nat,
                other.den as nat,
            );
            assert(self.num * other.num <= u128::MAX && 0 < self.den * other.den <= u128::MAX)
                by (nonlinear_arith)
                requires
                    self.num <= u64::MAX,
                    other.num <= u64::MAX,
                    0 < self.den <= u64::MAX,
                    0 < other.den <= u64::MAX,
            ;
        }
        let n: u128 = (self.num as u128) * (other.num as u128);
        let d: u128 = (self.den as u128) * (other.den as u128);
        Ratio::from_wide(n, d)
    }

    /// The fraction less `other`, where that is not negative and can be
    /// written as a fraction of two 64-bit numbers.
    pub fn checked_sub(&self, other: &Ratio) -> (r: Option<Ratio>)
        ensures
            r is Some <==> self@ >= other@ && representable(self@ - other@),
            r matches Some(x) ==> x@ == self@ - other@,
    {
        proof {
            use_type_invariant(self);
            use_type_invariant(other);
            lemma_ratio_lt(
                self.num as nat,
                self.den as nat,
                other.num as nat,
                other.den as nat,
            );
            assert(self.num * other.den <= u128::MAX && other.num * self.den <= u128::MAX && 0
                < self.den * other.den <= u128::MAX) by (nonlinear_arith)
                requires
                    self.num <= u64::MAX,
                    other.num <= u64::MAX,
                    0 < self.den <= u64::MAX,
                    0 < other.den <= u64::MAX,
            ;
        }
        let x: u128 = (self.num as u128) * (other.den as u128);
        let y: u128 = (other.num as u128) * (self.den as u128);
        if x < y {
            None
        } else {
            proof {
                lemma_ratio_sub(
                    self.num as nat,
                    self.den as nat,
                    other.num as nat,
                    other.den as nat,
                );
            }
            let d: u128 = (self.den as u128) * (other.den as u128);
            Ratio::from_wide(x - y, d)
        }
    }

    /// Whether the value is below that of `other`.
    pub fn less_than(&self, other: &Ratio) -> (b: bool)
        ensures
            b == (self@ < other@),
    {
        proof {
            use_type_invariant(self);
            use_type_invariant(other);
            lemma_ratio_lt(
                self.num as nat,
                self.den as nat,
                other.num as nat,
                other.den as nat,
            );
            assert(self.num * other.den <= u128::MAX && other.num * self.den <= u128::MAX)
                by (nonlinear_arith)
                requires
                    self.num <= u64::MAX,
                    other.num <= u64::MAX,
                    self.den <= u64::MAX,
                    other.den <= u64::MAX,
            ;
        }
        (self.num as u128) * (other.den as u128) < (other.num as u128) * (self.den as u128)
    }

    /// Whether the two values are equal.
    pub fn same(&self, other: &Ratio) -> (b: bool)
        ensures
            b == (self@ == other@),
            b == (*self == *other),
    {
        proof {
            use_type_invariant(self);
            use_type_invariant(other);
            if self@ == other@ {
                self.lemma_same_value_same_ratio(*other);
            }
        }
        self.num == other.num && self.den == other.den
    }
}

/// Two to the power 64.
pub open spec fn limb() -> nat {
    0x1_0000_0000_0000_0000
}

/// The product of a 128-bit and a 64-bit number, as `hi * 2^64 + lo`.
fn mul_wide(x: u128, y: u64) -> (r: (u128, u64))
    ensures
        r.0 * limb() + r.1 == x * y,
{
    let xh: u128 = x / 0x1_0000_0000_0000_0000u128;
    let xl: u128 = x % 0x1_0000_0000_0000_0000u128;
    assert(xl * y <= 0xffff_ffff_ffff_ffff * 0xffff_ffff_ffff_ffff && xh * y
        <= 0xffff_ffff_ffff_ffff * 0xffff_ffff_ffff_ffff) by (nonlinear_arith)
        requires
            0 <= xl <= 0xffff_ffff_ffff_ffff,
            0 <= xh <= 0xffff_ffff_ffff_ffff,
            0 <= y <= 0xffff_ffff_ffff_ffff,
    ;
    let low: u128 = xl * (y as u128);
    let high: u128 = xh * (y as u128);
    let carry: u128 = low / 0x1_0000_0000_0000_0000u128;
    let lo: u128 = low % 0x1_0000_0000_0000_0000u128;
    let hi: u128 = high + carry;
    assert(hi * limb() + lo == x * y) by (nonlinear_arith)
        requires
            x == xh * limb() + xl,
            low == xl * y,
            high == xh * y,
            low == carry * limb() + lo,
            hi == high + carry,
    ;
    (hi, lo as u64)
}

impl Ratio {
    /// Whether the two values are closer to each other than `epsilon`.
    pub fn within(&self, other: &Ratio, epsilon: &Ratio) -> (b: bool)
        ensures
            b == within_epsilon(self@, other@, epsilon@),
    {
        proof {
            use_type_invariant(self);
            use_type_invariant(other);
            use_type_invariant(epsilon);
            assert(self.num * other.den <= u128::MAX && other.num * self.den <= u128::MAX
                && self.den * other.den <= u128::MAX) by (nonlinear_arith)
                requires
                    self.num <= u64::MAX,
                    other.num <= u64::MAX,
                    self.den <= u64::MAX,
                    other.den <= u64::MAX,
            ;
        }
        let x: u128 = (self.num as u128) * (other.den as u128);
        let y: u128 = (other.num as u128) * (self.den as u128);
        let d: u128 = (self.den as u128) * (other.den as u128);
        let diff: u128 = if x >= y {
            x - y
        } else {
            y - x
        };
        let (lh, ll) = mul_wide(diff, epsilon.den);
        let (rh, rl) = mul_wide(d, epsilon.num);
        proof {
            lemma_within_cross(
                self.num as nat,
                self.den as nat,
                other.num as nat,
                other.den as nat,
                epsilon.num as nat,
                epsilon.den as nat,
            );
            assert((lh < rh || (lh == rh && ll < rl)) <==> (lh * limb() + ll < rh * limb() + rl))
                by (nonlinear_arith)
                requires
                    0 <= ll < limb(),
                    0 <= rl < limb(),
                    limb() > 0,
            ;
            assert(d * epsilon.num == epsilon.num * d) by (nonlinear_arith);
        }
        lh < rh || (lh == rh && ll < rl)
    }
}

/// The distance between two fractions is below a third exactly when the
/// cross products say so.
proof fn lemma_within_cross(n1: nat, d1: nat, n2: nat, d2: nat, en: nat, ed: nat)
    requires
        d1 > 0,
        d2 > 0,
        ed > 0,
    ensures
        within_epsilon(ratio_value(n1, d1), ratio_value(n2, d2), ratio_value(en, ed)) <==> (if n1
            * d2 >= n2 * d1 {
            (n1 * d2 - n2 * d1) * ed < en * (d1 * d2)
        } else {
            (n2 * d1 - n1 * d2) * ed < en * (d1 * d2)
        }),
{
    lemma_ratio_lt(n1, d1, n2, d2);
    if n1 * d2 >= n2 * d1 {
        assert(((n1 as real / d1 as real) - (n2 as real / d2 as real) < (en as real / ed as real))
            <==> ((n1 * d2 - n2 * d1) * ed < en * (d1 * d2))) by (nonlinear_arith)
            requires
                d1 > 0,
                d2 > 0,
                ed > 0,
        ;
    } else {
        assert(((n2 as real / d2 as real) - (n1 as real / d1 as real) < (en as real / ed as real))
            <==> ((n2 * d1 - n1 * d2) * ed < en * (d1 * d2))) by (nonlinear_arith)
            requires
                d1 > 0,
                d2 > 0,
                ed > 0,
        ;
    }
}


} // verus!
