//! Greatest common divisors, and the facts about lowest terms that the
//! exact fractions of this crate rest on.

use vstd::prelude::*;

verus! {

/// The greatest common divisor of `a` and `b`, by Euclid's recursion.
/// `gcd(0, 0)` is 0.
pub open spec fn gcd(a: nat, b: nat) -> nat
    decreases b,
{
    if b == 0 {
        a
    } else {
        gcd(b, a % b)
    }
}

/// `gcd(a, b)` divides both `a` and `b`: the quotients are returned.
pub proof fn lemma_gcd_divides(a: nat, b: nat) -> (q: (nat, nat))
    ensures
        a == gcd(a, b) * q.0,
        b == gcd(a, b) * q.1,
    decreases b,
{
    if b == 0 {
        (1, 0)
    } else {
        let r = a % b;
        let (qb, qr) = lemma_gcd_divides(b, r);
        let g = gcd(b, r);
        let k = a / b;
        assert(a == b * k + r) by (nonlinear_arith)
            requires
                b > 0,
                k == a / b,
                r == a % b,
        ;
        assert(a == g * (qb * k + qr)) by (nonlinear_arith)
            requires
                a == b * k + r,
                b == g * qb,
                r == g * qr,
        ;
        (qb * k + qr, qb)
    }
}

/// Bezout's identity: `gcd(a, b)` is an integer combination of `a` and `b`.
pub proof fn lemma_bezout(a: nat, b: nat) -> (c: (int, int))
    ensures
        a * c.0 + b * c.1 == gcd(a, b),
    decreases b,
{
    if b == 0 {
        (1, 0)
    } else {
        let r = a % b;
        let (x, y) = lemma_bezout(b, r);
        let k = a / b;
        assert(a * y + b * (x - k * y) == b * x + r * y) by (nonlinear_arith)
            requires
                b > 0,
                k == a / b,
                r == a % b,
        ;
        (y, x - k * y)
    }
}

/// The gcd is positive unless both arguments are zero.
pub proof fn lemma_gcd_positive(a: nat, b: nat)
    requires
        a > 0 || b > 0,
    ensures
        gcd(a, b) > 0,
    decreases b,
{
    if b != 0 {
        lemma_gcd_positive(b, a % b);
    }
}

/// The gcd does not depend on the order of its arguments.
pub proof fn lemma_gcd_symmetric(a: nat, b: nat)
    ensures
        gcd(a, b) == gcd(b, a),
{
    if a == b {
    } else if a < b {
        if a == 0 {
            assert(gcd(b, a) == b);
            assert(gcd(a, b) == gcd(b, a % b));
            assert(a % b == 0);
        } else {
            assert(a % b == a) by (nonlinear_arith)
                requires
                    a < b,
            ;
            assert(gcd(a, b) == gcd(b, a));
        }
    } else {
        if b == 0 {
            assert(gcd(a, b) == a);
            assert(gcd(b, a) == gcd(a, b % a));
            assert(b % a == 0);
        } else {
            assert(b % a == b) by (nonlinear_arith)
                requires
                    b < a,
            ;
            assert(gcd(b, a) == gcd(a, b));
        }
    }
}

/// Dividing two numbers by their gcd leaves numbers whose gcd is 1.
pub proof fn lemma_quotients_coprime(a: nat, b: nat, qa: nat, qb: nat)
    requires
        gcd(a, b) > 0,
        a == gcd(a, b) * qa,
        b == gcd(a, b) * qb,
    ensures
        gcd(qa, qb) == 1,
{
    let g = gcd(a, b);
    let h = gcd(qa, qb);
    let (p, q) = lemma_gcd_divides(qa, qb);
    let (x, y) = lemma_bezout(a, b);
    assert(g * (h * (p * x + q * y)) == g) by (nonlinear_arith)
        requires
            a * x + b * y == g,
            a == g * qa,
            b == g * qb,
            qa == h * p,
            qb == h * q,
    ;
    assert(h * (p * x + q * y) == 1) by (nonlinear_arith)
        requires
            g > 0,
            g * (h * (p * x + q * y)) == g,
    ;
    assert(h == 1) by (nonlinear_arith)
        requires
            h >= 0,
            h * (p * x + q * y) == 1,
    ;
}

/// A fraction in lowest terms is the smallest way to write its value: every
/// other fraction with the same value is a positive multiple of it.
pub proof fn lemma_lowest_terms_least(n: nat, d: nat, big_n: nat, big_d: nat) -> (k: nat)
    requires
        gcd(n, d) == 1,
        big_d > 0,
        big_n * d == n * big_d,
    ensures
        k > 0,
        big_n == n * k,
        big_d == d * k,
{
    let (x, y) = lemma_bezout(n, d);
    let k = big_n * x + big_d * y;
    assert(big_d == d * k) by (nonlinear_arith)
        requires
            n * x + d * y == 1,
            big_n * d == n * big_d,
            k == big_n * x + big_d * y,
    ;
    assert(k > 0 && d > 0) by (nonlinear_arith)
        requires
            big_d > 0,
            d >= 0,
            big_d == d * k,
    ;
    assert(big_n == n * k) by (nonlinear_arith)
        requires
            d > 0,
            big_n * d == n * big_d,
            big_d == d * k,
    ;
    k as nat
}

/// Computes the greatest common divisor.
pub fn gcd_u128(a: u128, b: u128) -> (g: u128)
    ensures
        g == gcd(a as nat, b as nat),
{
    let mut x: u128 = a;
    let mut y: u128 = b;
    while y != 0
        invariant
            gcd(x as nat, y as nat) == gcd(a as nat, b as nat),
        decreases y,
    {
        let r: u128 = x % y;
        x = y;
        y = r;
    }
    x
}

} // verus!
