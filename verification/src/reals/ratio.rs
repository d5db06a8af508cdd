//! Exact fractions of machine integers.
use vstd::prelude::*;
use vstd::arithmetic::div_mod::{
    lemma_fundamental_div_mod, lemma_mod_multiples_basic, lemma_mod_self_0,
};
use super::Real;

verus! {

/// A fraction of a 64-bit numerator over a 64-bit denominator.
///
/// A fraction whose denominator is zero is not finite: it marks a result that
/// does not fit, a division by zero, or an operation on such a value.
#[derive(Clone, Copy, Debug)]
pub struct Ratio {
    /// The numerator.
    pub num: i64,
    /// The denominator.
    pub den: u64,
}

/// The fraction that is not finite and that every failed operation returns.
pub open spec fn nan() -> Ratio {
    Ratio { num: 0, den: 0 }
}

/// The greatest common divisor of two natural numbers, by Euclid's algorithm.
pub open spec fn gcd(a: nat, b: nat) -> nat
    decreases b,
{
    if b == 0 {
        a
    } else {
        gcd(b, a % b)
    }
}

/// The magnitude of an integer.
pub open spec fn magnitude(n: int) -> nat {
    if n < 0 {
        (-n) as nat
    } else {
        n as nat
    }
}

/// The fraction `n / d` in lowest terms where that fits, and `nan()` where it
/// does not: where `d` is not positive, where `n` or `d` is beyond 128 bits,
/// or where a part of the fraction in lowest terms is beyond 64 bits. Of the
/// 64-bit numerators the least, which has no negative, counts as beyond.
pub open spec fn fit(n: int, d: int) -> Ratio {
    let g = gcd(magnitude(n), d as nat);
    let (m, e) = (magnitude(n) / g, d / (g as int));
    if 0 < d <= u128::MAX && i128::MIN <= n <= i128::MAX && m <= i64::MAX && e <= u64::MAX {
        Ratio { num: (if n < 0 { -(m as int) } else { m as int }) as i64, den: e as u64 }
    } else {
        nan()
    }
}

/// The number `n / d` over the reals.
pub open spec fn quotient(n: int, d: int) -> real {
    n as real / d as real
}

impl Ratio {
    /// The fraction `num / den`. It is not finite when `den` is zero.
    pub fn new(num: i64, den: u64) -> (r: Ratio)
        ensures
            r == (Ratio { num, den }),
    {
        Ratio { num, den }
    }

    /// The whole number `n`.
    pub fn from_integer(n: i64) -> (r: Ratio)
        ensures
            r == (Ratio { num: n, den: 1 }),
    {
        Ratio { num: n, den: 1 }
    }

    /// The fraction `n / d` in lowest terms where that fits.
    fn fitted(n: i128, d: u128) -> (r: Ratio)
        ensures
            r == fit(n as int, d as int),
    {
        if d == 0 {
            return Ratio { num: 0, den: 0 };
        }
        let size: u128 = if n >= 0 {
            n as u128
        } else if n == i128::MIN {
            0x8000_0000_0000_0000_0000_0000_0000_0000u128
        } else {
            (-n) as u128
        };
        let g = greatest_common_divisor(size, d);
        proof {
            gcd_divides(size as nat, d as nat);
        }
        let m = size / g;
        let e = d / g;
        if m > i64::MAX as u128 || e > u64::MAX as u128 {
            Ratio { num: 0, den: 0 }
        } else if n < 0 {
            Ratio { num: -(m as i64), den: e as u64 }
        } else {
            Ratio { num: m as i64, den: e as u64 }
        }
    }
}

/// Computes the greatest common divisor of two numbers.
fn greatest_common_divisor(a: u128, b: u128) -> (g: u128)
    ensures
        g == gcd(a as nat, b as nat),
{
    let mut x = a;
    let mut y = b;
    while y != 0
        invariant
            gcd(x as nat, y as nat) == gcd(a as nat, b as nat),
        decreases y,
    {
        let r = x % y;
        x = y;
        y = r;
    }
    x
}

/// The greatest common divisor of two numbers that are not both zero is
/// positive and divides both.
pub proof fn gcd_divides(a: nat, b: nat)
    requires
        a > 0 || b > 0,
    ensures
        gcd(a, b) > 0,
        a % gcd(a, b) == 0,
        b % gcd(a, b) == 0,
    decreases b,
{
    if b == 0 {
        lemma_mod_self_0(a as int);
    } else {
        let g = gcd(b, a % b);
        gcd_divides(b, a % b);
        lemma_fundamental_div_mod(a as int, b as int);
        lemma_fundamental_div_mod(b as int, g as int);
        lemma_fundamental_div_mod((a % b) as int, g as int);
        let k = (b / g) * (a / b) + (a % b) / g;
        assert(a == k * g) by (nonlinear_arith)
            requires
                a == b * (a / b) + a % b,
                b == g * (b / g),
                a % b == g * ((a % b) / g),
                k == (b / g) * (a / b) + (a % b) / g,
        ;
        lemma_mod_multiples_basic(k as int, g as int);
    }
}

/// A fraction that fits stands for the number that was to be fitted.
proof fn fit_is_exact(n: int, d: int)
    requires
        fit(n, d).den != 0,
    ensures
        quotient(fit(n, d).num as int, fit(n, d).den as int) == quotient(n, d),
{
    let g = gcd(magnitude(n), d as nat);
    gcd_divides(magnitude(n), d as nat);
    lemma_fundamental_div_mod(magnitude(n) as int, g as int);
    lemma_fundamental_div_mod(d, g as int);
    let (m, e) = ((magnitude(n) / g) as int, d / (g as int));
    if n < 0 {
        quotient_in_lowest_terms(-m, e, g as int);
        assert((-m) * g == n) by (nonlinear_arith)
            requires
                -n == g * m,
        ;
    } else {
        quotient_in_lowest_terms(m, e, g as int);
        assert(m * g == n) by (nonlinear_arith)
            requires
                n == g * m,
        ;
    }
    assert(e * g == d) by (nonlinear_arith)
        requires
            d == g * e,
    ;
}

/// Dividing both parts of a fraction by a common divisor leaves the number
/// that it stands for.
proof fn quotient_in_lowest_terms(m: int, e: int, g: int)
    by (nonlinear_arith)
    requires
        g > 0,
        e > 0,
    ensures
        quotient(m * g, e * g) == quotient(m, e),
{
}

impl PartialEq for Ratio {
    fn eq(&self, other: &Self) -> (b: bool) {
        self.same(*other)
    }
}

impl vstd::std_specs::cmp::PartialEqSpecImpl for Ratio {
    open spec fn obeys_eq_spec() -> bool {
        true
    }

    /// Two fractions are equal when both are finite and stand for the same
    /// number.
    open spec fn eq_spec(&self, other: &Self) -> bool {
        self.same_spec(*other)
    }
}

impl Real for Ratio {
    open spec fn finite(self) -> bool {
        self.den != 0
    }

    open spec fn value(self) -> real {
        quotient(self.num as int, self.den as int)
    }

    open spec fn zero_spec() -> Self {
        Ratio { num: 0, den: 1 }
    }

    open spec fn one_spec() -> Self {
        Ratio { num: 1, den: 1 }
    }

    open spec fn infinity_spec() -> Self {
        Ratio { num: 1, den: 0 }
    }

    open spec fn add_spec(self, rhs: Self) -> Self {
        if self.finite() && rhs.finite() {
            fit(self.num * rhs.den + rhs.num * self.den, self.den * rhs.den)
        } else {
            nan()
        }
    }

    open spec fn sub_spec(self, rhs: Self) -> Self {
        if self.finite() && rhs.finite() {
            fit(self.num * rhs.den - rhs.num * self.den, self.den * rhs.den)
        } else {
            nan()
        }
    }

    open spec fn mul_spec(self, rhs: Self) -> Self {
        if self.finite() && rhs.finite() {
            fit(self.num * rhs.num, self.den * rhs.den)
        } else {
            nan()
        }
    }

    open spec fn recip_spec(self) -> Self {
        if !self.finite() || self.num == 0 {
            nan()
        } else if self.num > 0 {
            fit(self.den as int, self.num as int)
        } else {
            fit(-self.den, -self.num)
        }
    }

    open spec fn same_spec(self, rhs: Self) -> bool {
        self.finite() && rhs.finite() && self.num * rhs.den == rhs.num * self.den
    }

    proof fn zero_is_exact() {
        quotient_of_whole(0);
    }

    proof fn one_is_exact() {
        quotient_of_whole(1);
    }

    proof fn infinity_is_not_finite() {
    }

    proof fn add_is_exact(a: Self, b: Self) {
        fit_is_exact(a.num * b.den + b.num * a.den, a.den * b.den);
        quotient_of_sum(a.num as int, a.den as int, b.num as int, b.den as int);
    }

    proof fn sub_is_exact(a: Self, b: Self) {
        fit_is_exact(a.num * b.den - b.num * a.den, a.den * b.den);
        quotient_of_difference(a.num as int, a.den as int, b.num as int, b.den as int);
    }

    proof fn mul_is_exact(a: Self, b: Self) {
        fit_is_exact(a.num * b.num, a.den * b.den);
        quotient_of_product(a.num as int, a.den as int, b.num as int, b.den as int);
    }

    proof fn recip_is_exact(a: Self) {
        if a.num > 0 {
            fit_is_exact(a.den as int, a.num as int);
        } else {
            fit_is_exact(-a.den, -a.num);
        }
        quotient_of_inverse(a.num as int, a.den as int);
    }

    proof fn same_is_exact(a: Self, b: Self) {
        quotient_decides(a.num as int, a.den as int, b.num as int, b.den as int);
    }

    fn zero() -> (r: Self) {
        Ratio { num: 0, den: 1 }
    }

    fn one() -> (r: Self) {
        Ratio { num: 1, den: 1 }
    }

    fn infinity() -> (r: Self) {
        Ratio { num: 1, den: 0 }
    }

    fn is_finite(self) -> (b: bool) {
        self.den != 0
    }

    fn add(self, rhs: Self) -> (r: Self) {
        if self.den == 0 || rhs.den == 0 {
            return Ratio { num: 0, den: 0 };
        }
        let left = cross(self.num, rhs.den);
        let right = cross(rhs.num, self.den);
        let den = below(self.den, rhs.den);
        match left.checked_add(right) {
            Some(num) => Ratio::fitted(num, den),
            None => Ratio { num: 0, den: 0 },
        }
    }

    fn sub(self, rhs: Self) -> (r: Self) {
        if self.den == 0 || rhs.den == 0 {
            return Ratio { num: 0, den: 0 };
        }
        let left = cross(self.num, rhs.den);
        let right = cross(rhs.num, self.den);
        let den = below(self.den, rhs.den);
        match left.checked_sub(right) {
            Some(num) => Ratio::fitted(num, den),
            None => Ratio { num: 0, den: 0 },
        }
    }

    fn mul(self, rhs: Self) -> (r: Self) {
        if self.den == 0 || rhs.den == 0 {
            return Ratio { num: 0, den: 0 };
        }
        let num = above(self.num, rhs.num);
        let den = below(self.den, rhs.den);
        Ratio::fitted(num, den)
    }

    fn recip(self) -> (r: Self) {
        if self.den == 0 || self.num == 0 {
            Ratio { num: 0, den: 0 }
        } else if self.num > 0 {
            Ratio::fitted(self.den as i128, self.num as u128)
        } else {
            Ratio::fitted(-(self.den as i128), (-(self.num as i128)) as u128)
        }
    }

    fn same(self, rhs: Self) -> (b: bool) {
        self.den != 0 && rhs.den != 0 && cross(self.num, rhs.den) == cross(rhs.num, self.den)
    }
}

/// The product of a numerator and a denominator.
fn cross(n: i64, d: u64) -> (p: i128)
    ensures
        p == n * d,
{
    assert(-0x8000_0000_0000_0000 * 0xffff_ffff_ffff_ffff <= n * d <= 0x7fff_ffff_ffff_ffff
        * 0xffff_ffff_ffff_ffff) by (nonlinear_arith)
        requires
            -0x8000_0000_0000_0000 <= n <= 0x7fff_ffff_ffff_ffff,
            0 <= d <= 0xffff_ffff_ffff_ffff,
    ;
    (n as i128) * (d as i128)
}

/// The product of two numerators.
fn above(n: i64, m: i64) -> (p: i128)
    ensures
        p == n * m,
{
    assert(-0x8000_0000_0000_0000 * 0x8000_0000_0000_0000 <= n * m <= 0x8000_0000_0000_0000
        * 0x8000_0000_0000_0000) by (nonlinear_arith)
        requires
            -0x8000_0000_0000_0000 <= n <= 0x7fff_ffff_ffff_ffff,
            -0x8000_0000_0000_0000 <= m <= 0x7fff_ffff_ffff_ffff,
    ;
    (n as i128) * (m as i128)
}

/// The product of two denominators.
fn below(d: u64, e: u64) -> (p: u128)
    ensures
        p == d * e,
{
    assert(0 <= d * e <= 0xffff_ffff_ffff_ffff * 0xffff_ffff_ffff_ffff) by (nonlinear_arith)
        requires
            0 <= d <= 0xffff_ffff_ffff_ffff,
            0 <= e <= 0xffff_ffff_ffff_ffff,
    ;
    (d as u128) * (e as u128)
}

/// A whole number over one is that number.
proof fn quotient_of_whole(n: int)
    by (nonlinear_arith)
    ensures
        quotient(n, 1) == n as real,
{
}

/// Fractions are added by cross-multiplying.
proof fn quotient_of_sum(an: int, ad: int, bn: int, bd: int)
    by (nonlinear_arith)
    requires
        ad > 0,
        bd > 0,
    ensures
        quotient(an * bd + bn * ad, ad * bd) == quotient(an, ad) + quotient(bn, bd),
{
}

/// Fractions are subtracted by cross-multiplying.
proof fn quotient_of_difference(an: int, ad: int, bn: int, bd: int)
    by (nonlinear_arith)
    requires
        ad > 0,
        bd > 0,
    ensures
        quotient(an * bd - bn * ad, ad * bd) == quotient(an, ad) - quotient(bn, bd),
{
}

/// Fractions are multiplied part by part.
proof fn quotient_of_product(an: int, ad: int, bn: int, bd: int)
    by (nonlinear_arith)
    requires
        ad > 0,
        bd > 0,
    ensures
        quotient(an * bn, ad * bd) == quotient(an, ad) * quotient(bn, bd),
{
}

/// A fraction is inverted by exchanging its parts, whatever their signs.
proof fn quotient_of_inverse(an: int, ad: int)
    by (nonlinear_arith)
    requires
        ad != 0,
        an != 0,
    ensures
        quotient(ad, an) * quotient(an, ad) == 1real,
        quotient(-ad, -an) * quotient(an, ad) == 1real,
        quotient(an, ad) != 0real,
{
}

/// Two fractions are the same number exactly when their cross products agree.
proof fn quotient_decides(an: int, ad: int, bn: int, bd: int)
    by (nonlinear_arith)
    requires
        ad > 0,
        bd > 0,
    ensures
        an * bd == bn * ad <==> quotient(an, ad) == quotient(bn, bd),
{
}

} // verus!
