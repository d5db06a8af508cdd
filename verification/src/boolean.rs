//! Implementation of [`bool`] as a measurable space.
use vstd::prelude::*;
use vstd::std_specs::convert::FromSpec;
use vstd::std_specs::ops::{AddSpec, MulSpec};
use crate::measurable::{
    DiracMeasure, Measurable, MeasurableFn, Measure, PointMeasurable, PointMeasure, SigmaAlgebra,
};
use crate::measurable::sigma::union_of;
use crate::reals::{normalize_static, scale_factor, total, total_of_two, Real};

verus! {

/// A subset of [`bool`].
#[derive(Debug, Clone, Copy, PartialEq, Eq, Structural)]
pub struct BoolSubset {
    /// Whether the subset includes `true`.
    pub includes_true: bool,
    /// Whether the subset includes `false`.
    pub includes_false: bool,
}

impl BoolSubset {
    /// The subset that includes exactly the points that this one does not.
    pub open spec fn flipped(self) -> Self {
        Self { includes_true: !self.includes_true, includes_false: !self.includes_false }
    }

    /// Computes the subset that includes exactly the points that this one
    /// does not.
    pub fn not(self) -> (r: Self)
        ensures
            r == self.flipped(),
    {
        Self { includes_true: !self.includes_true, includes_false: !self.includes_false }
    }

    /// Whether the subset includes the point.
    pub open spec fn includes(self, p: bool) -> bool {
        if p {
            self.includes_true
        } else {
            self.includes_false
        }
    }
}

impl SigmaAlgebra for BoolSubset {
    type Space = bool;

    open spec fn points(&self) -> Set<bool> {
        Set::new(|p: bool| self.includes(p))
    }

    fn empty() -> (r: Self)
        ensures
            r == (BoolSubset { includes_true: false, includes_false: false }),
    {
        BoolSubset { includes_true: false, includes_false: false }
    }

    fn full() -> (r: Self)
        ensures
            r == (BoolSubset { includes_true: true, includes_false: true }),
    {
        BoolSubset { includes_true: true, includes_false: true }
    }

    fn is_empty(&self) -> (b: bool)
        ensures
            b == (!self.includes_true && !self.includes_false),
    {
        proof {
            if self.includes_true {
                assert(self.points().contains(true));
            } else if self.includes_false {
                assert(self.points().contains(false));
            } else {
                assert(self.points() =~= Set::<bool>::empty());
            }
        }
        !self.includes_true && !self.includes_false
    }

    fn complement(&self) -> (r: Self)
        ensures
            r == self.flipped(),
    {
        self.not()
    }

    fn union(subsets: &[&Self]) -> (r: Self)
        ensures
            r.includes_true <==> exists|i: int|
                0 <= i < subsets@.len() && (#[trigger] subsets@[i]).includes_true,
            r.includes_false <==> exists|i: int|
                0 <= i < subsets@.len() && (#[trigger] subsets@[i]).includes_false,
    {
        let mut result = BoolSubset { includes_true: false, includes_false: false };
        let mut i: usize = 0;
        while i < subsets.len()
            invariant_except_break
                i <= subsets@.len(),
                result.includes_true <==> exists|k: int|
                    0 <= k < i && (#[trigger] subsets@[k]).includes_true,
                result.includes_false <==> exists|k: int|
                    0 <= k < i && (#[trigger] subsets@[k]).includes_false,
            ensures
                result.includes_true <==> exists|k: int|
                    0 <= k < subsets@.len() && (#[trigger] subsets@[k]).includes_true,
                result.includes_false <==> exists|k: int|
                    0 <= k < subsets@.len() && (#[trigger] subsets@[k]).includes_false,
            decreases subsets@.len() - i,
        {
            let s = subsets[i];
            result.includes_true = result.includes_true || s.includes_true;
            result.includes_false = result.includes_false || s.includes_false;
            i += 1;
            if result.includes_true && result.includes_false {
                break ;
            }
        }
        proof {
            let sets = subsets@.map_values(|s: &Self| s.points());
            assert forall|p: bool| result.points().contains(p) == union_of(sets).contains(p) by {
                if result.includes(p) {
                    let k = choose|k: int|
                        0 <= k < subsets@.len() && (#[trigger] subsets@[k]).includes(p);
                    assert(sets[k].contains(p));
                }
                if union_of(sets).contains(p) {
                    let k = choose|k: int| 0 <= k < sets.len() && #[trigger] sets[k].contains(p);
                    assert(subsets@[k].includes(p));
                }
            }
        }
        result
    }

    fn duplicate(&self) -> (r: Self)
        ensures
            r == *self,
    {
        *self
    }
}

impl Measurable for bool {
    type Subset = BoolSubset;

    fn subset_upcast<'a>(s: &'a BoolSubset) -> (r: &'a BoolSubset) {
        s
    }
}

impl PointMeasurable for bool {
    fn point_subset(&self) -> (r: BoolSubset)
        ensures
            r == (BoolSubset { includes_true: *self, includes_false: !*self }),
    {
        let r = BoolSubset { includes_true: *self, includes_false: !*self };
        assert(r.points() =~= set![*self]);
        r
    }
}

/// A subset of [`bool`] is the complement of its complement.
pub proof fn not_is_involution(s: BoolSubset)
    ensures
        s.flipped().flipped() == s,
{
}

/// A measurable function whose codomain is [`bool`]: it takes the points of
/// one subset of its domain to `true`, and all others to `false`.
pub struct BoolFunction<T: Measurable> {
    /// The subset of the domain which maps to `true`.
    pub true_primage: T::Subset,
}

impl<T: Measurable> MeasurableFn for BoolFunction<T> {
    type Domain = T;

    type Codomain = bool;

    open spec fn apply(&self, x: T) -> bool {
        self.true_primage.points().contains(x)
    }

    fn preimage(&self, s: &BoolSubset) -> (r: T::Subset) {
        let r = match (s.includes_true, s.includes_false) {
            (true, true) => T::full_subset(),
            (true, false) => T::subset_upcast(&self.true_primage).duplicate(),
            (false, true) => T::subset_complement(T::subset_upcast(&self.true_primage)),
            (false, false) => T::empty_subset(),
        };
        assert(r.points() =~= Set::new(|x: T| s.points().contains(self.apply(x))));
        r
    }
}

/// A measure on [`bool`].
#[derive(Clone, Copy, PartialEq)]
pub struct BoolMeasure<R: Real> {
    /// The value of the measure for `true`.
    pub true_value: R,
    /// The value of the measure for `false`.
    pub false_value: R,
}

/// A probability measure on [`bool`].
#[derive(Clone, Copy, PartialEq)]
pub struct BoolPMeasure<R: Real> {
    /// The value of the probability measure for `true`.
    pub true_value: R,
}

impl<R: Real> vstd::std_specs::convert::FromSpecImpl<BoolPMeasure<R>> for BoolMeasure<R> {
    open spec fn obeys_from_spec() -> bool {
        true
    }

    open spec fn from_spec(m: BoolPMeasure<R>) -> Self {
        Self { true_value: m.true_value, false_value: R::one_spec().sub_spec(m.true_value) }
    }
}

impl<R: Real> From<BoolPMeasure<R>> for BoolMeasure<R> {
    fn from(m: BoolPMeasure<R>) -> (r: Self) {
        Self { true_value: m.true_value, false_value: R::one().sub(m.true_value) }
    }
}

impl<R: Real> vstd::std_specs::ops::AddSpecImpl for BoolMeasure<R> {
    open spec fn obeys_add_spec() -> bool {
        true
    }

    open spec fn add_req(self, rhs: Self) -> bool {
        true
    }

    open spec fn add_spec(self, rhs: Self) -> Self {
        Self {
            true_value: self.true_value.add_spec(rhs.true_value),
            false_value: self.false_value.add_spec(rhs.false_value),
        }
    }
}

impl<R: Real> core::ops::Add for BoolMeasure<R> {
    type Output = Self;

    fn add(self, rhs: Self) -> (r: Self) {
        Self {
            true_value: self.true_value.add(rhs.true_value),
            false_value: self.false_value.add(rhs.false_value),
        }
    }
}

impl<R: Real> vstd::std_specs::ops::MulSpecImpl<R> for BoolMeasure<R> {
    open spec fn obeys_mul_spec() -> bool {
        true
    }

    open spec fn mul_req(self, rhs: R) -> bool {
        true
    }

    open spec fn mul_spec(self, rhs: R) -> Self {
        Self {
            true_value: self.true_value.mul_spec(rhs),
            false_value: self.false_value.mul_spec(rhs),
        }
    }
}

impl<R: Real> core::ops::Mul<R> for BoolMeasure<R> {
    type Output = Self;

    fn mul(self, rhs: R) -> (r: Self) {
        Self { true_value: self.true_value.mul(rhs), false_value: self.false_value.mul(rhs) }
    }
}

impl<R: Real> BoolMeasure<R> {
    /// Adds another measure to this one, value by value.
    pub fn add_assign(&mut self, rhs: Self)
        ensures
            *final(self) == old(self).add_spec(rhs),
    {
        self.true_value = self.true_value.add(rhs.true_value);
        self.false_value = self.false_value.add(rhs.false_value);
    }
}

impl<R: Real> Measure for BoolMeasure<R> {
    type R = R;

    type Space = bool;

    type Measurement = R;

    type PMeasure = BoolPMeasure<R>;

    open spec fn measure_of(&self, t: Set<bool>) -> R {
        let with_true = if t.contains(true) {
            R::zero_spec().add_spec(self.true_value)
        } else {
            R::zero_spec()
        };
        if t.contains(false) {
            with_true.add_spec(self.false_value)
        } else {
            with_true
        }
    }

    open spec fn weights(&self) -> Seq<R> {
        seq![self.true_value, self.false_value]
    }

    open spec fn normalize_spec(&self) -> Option<BoolPMeasure<R>> {
        let factor = scale_factor(self.weights());
        if factor.finite() {
            Some(BoolPMeasure { true_value: self.true_value.mul_spec(factor) })
        } else {
            None
        }
    }

    open spec fn exact(p: BoolPMeasure<R>) -> bool {
        p.true_value.finite()
    }

    open spec fn same_probability(p: BoolPMeasure<R>, q: BoolPMeasure<R>) -> bool {
        p.true_value.value() == q.true_value.value()
    }

    proof fn operators_obey() {
    }

    proof fn normalize_decides(&self) {
    }

    proof fn normalize_ignores_scale(self, c: R, p: BoolPMeasure<R>, q: BoolPMeasure<R>) {
        let (a, b) = (self.true_value, self.false_value);
        let (ac, bc) = (a.mul_spec(c), b.mul_spec(c));
        let sum = total(self.weights());
        let scaled = total(self.mul_spec(c).weights());
        total_of_two(a, b);
        total_of_two(ac, bc);
        R::mul_is_exact(a, sum.recip_spec());
        R::recip_is_exact(sum);
        R::add_is_exact(R::zero_spec().add_spec(a), b);
        R::add_is_exact(R::zero_spec(), a);
        R::mul_is_exact(ac, scaled.recip_spec());
        R::recip_is_exact(scaled);
        R::add_is_exact(R::zero_spec().add_spec(ac), bc);
        R::add_is_exact(R::zero_spec(), ac);
        R::mul_is_exact(a, c);
        R::mul_is_exact(b, c);
        R::zero_is_exact();
        rescaled_share(
            a.value(),
            b.value(),
            c.value(),
            sum.recip_spec().value(),
            scaled.recip_spec().value(),
        );
    }

    proof fn normalize_inverts_from(p: BoolPMeasure<R>, q: BoolPMeasure<R>) {
        let a = p.true_value;
        let b = R::one_spec().sub_spec(a);
        let sum = total(Self::from_spec(p).weights());
        total_of_two(a, b);
        R::mul_is_exact(a, sum.recip_spec());
        R::recip_is_exact(sum);
        R::add_is_exact(R::zero_spec().add_spec(a), b);
        R::add_is_exact(R::zero_spec(), a);
        R::sub_is_exact(R::one_spec(), a);
        R::zero_is_exact();
        R::one_is_exact();
        share_of_one(a.value(), sum.recip_spec().value());
    }

    fn measure(&self, domain: &BoolSubset) -> (r: R) {
        let mut result = R::zero();
        if domain.includes_true {
            result = result.add(self.true_value);
        }
        if domain.includes_false {
            result = result.add(self.false_value);
        }
        result
    }

    fn normalize(&self) -> (r: Option<BoolPMeasure<R>>) {
        let nums = [self.true_value, self.false_value];
        assert(nums@ =~= self.weights());
        match normalize_static(nums) {
            Some(scaled) => Some(BoolPMeasure { true_value: scaled[0] }),
            None => None,
        }
    }

    fn mul_assign(&mut self, rhs: R) {
        self.true_value = self.true_value.mul(rhs);
        self.false_value = self.false_value.mul(rhs);
    }
}

impl<R: Real> PointMeasure for BoolMeasure<R> {
    type PointMeasurement = R;

    open spec fn measure_at_spec(&self, value: bool) -> R {
        if value {
            self.true_value
        } else {
            self.false_value
        }
    }

    fn measure_at(&self, value: &bool) -> (r: R) {
        if *value {
            self.true_value
        } else {
            self.false_value
        }
    }
}

impl<R: Real> DiracMeasure for BoolMeasure<R> {
    open spec fn dirac_spec(point: bool) -> Self {
        if point {
            Self { true_value: R::one_spec(), false_value: R::zero_spec() }
        } else {
            Self { true_value: R::zero_spec(), false_value: R::one_spec() }
        }
    }

    proof fn dirac_has_weight_one(point: bool) {
        let w = Self::dirac_spec(point).weights();
        total_of_two(w[0], w[1]);
        if total(w).finite() {
            R::add_is_exact(R::zero_spec().add_spec(w[0]), w[1]);
            R::add_is_exact(R::zero_spec(), w[0]);
            R::zero_is_exact();
            R::one_is_exact();
        }
    }

    fn dirac(point: &bool) -> (r: Self) {
        if *point {
            Self { true_value: R::one(), false_value: R::zero() }
        } else {
            Self { true_value: R::zero(), false_value: R::one() }
        }
    }
}

/// On the two-point space the point measure at a point is the measure of the
/// subset that holds only that point, where that measure is finite.
pub proof fn point_measure_is_measure_of_point<R: Real>(m: BoolMeasure<R>, point: bool)
    requires
        m.measure_of(set![point]).finite(),
    ensures
        m.measure_of(set![point]).value() == m.measure_at_spec(point).value(),
{
    R::add_is_exact(R::zero_spec(), m.measure_at_spec(point));
    R::zero_is_exact();
}

/// A finite measure of a subset of the two-point space stands for the sum of
/// the values of the points in the subset.
pub proof fn measure_is_sum_of_values<R: Real>(m: BoolMeasure<R>, s: Set<bool>)
    requires
        m.measure_of(s).finite(),
    ensures
        m.measure_of(s).value() == (if s.contains(true) {
            m.true_value.value()
        } else {
            0real
        }) + (if s.contains(false) {
            m.false_value.value()
        } else {
            0real
        }),
{
    let zero = R::zero_spec();
    R::zero_is_exact();
    if s.contains(true) {
        if s.contains(false) {
            R::add_is_exact(zero.add_spec(m.true_value), m.false_value);
        }
        R::add_is_exact(zero, m.true_value);
    } else if s.contains(false) {
        R::add_is_exact(zero, m.false_value);
    }
}

/// A measure on the two-point space is additive: the measure of the union of
/// two subsets without a common point is the sum of their measures, where
/// the three measures are finite.
pub proof fn measure_is_additive<R: Real>(m: BoolMeasure<R>, s: Set<bool>, t: Set<bool>)
    requires
        s.disjoint(t),
        m.measure_of(s).finite(),
        m.measure_of(t).finite(),
        m.measure_of(s.union(t)).finite(),
    ensures
        m.measure_of(s.union(t)).value() == m.measure_of(s).value() + m.measure_of(t).value(),
{
    measure_is_sum_of_values(m, s);
    measure_is_sum_of_values(m, t);
    measure_is_sum_of_values(m, s.union(t));
}

/// A measure on the two-point space whose values are not negative is
/// monotone: a subset has no more measure than a subset that includes it,
/// where the two measures are finite.
pub proof fn measure_is_monotone<R: Real>(m: BoolMeasure<R>, s: Set<bool>, t: Set<bool>)
    requires
        s.subset_of(t),
        m.measure_of(s).finite(),
        m.measure_of(t).finite(),
        t.contains(true) ==> m.true_value.value() >= 0real,
        t.contains(false) ==> m.false_value.value() >= 0real,
    ensures
        m.measure_of(s).value() <= m.measure_of(t).value(),
{
    measure_is_sum_of_values(m, s);
    measure_is_sum_of_values(m, t);
}

/// A measure on the two-point space gives the empty subset the measure zero.
pub proof fn measure_of_nothing_is_zero<R: Real>(m: BoolMeasure<R>)
    ensures
        m.measure_of(Set::empty()) == R::zero_spec(),
{
}

/// The share `a / (a + b)` of one of two weights is the same after both are
/// multiplied by `c`. The reciprocals `f` of `a + b` and `g` of `a c + b c`
/// are given by what they multiply to.
proof fn rescaled_share(a: real, b: real, c: real, f: real, g: real)
    by (nonlinear_arith)
    requires
        f * (0real + a + b) == 1real,
        g * (0real + a * c + b * c) == 1real,
    ensures
        a * f == (a * c) * g,
{
}

/// A weight is its own share where the weights sum to one. The reciprocal `f`
/// of that sum is given by what it multiplies to.
proof fn share_of_one(a: real, f: real)
    by (nonlinear_arith)
    requires
        f * (0real + a + (1real - a)) == 1real,
    ensures
        a * f == a,
{
}

} // verus!
