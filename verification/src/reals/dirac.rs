//! Implementation of (univariate) Dirac delta measure.
use vstd::prelude::*;
use crate::measurable::{DiracMeasure, Measure, PointMeasure};
use super::{
    normalize_static, scale_factor, total, total_of_one, Real, RealDistribution, RealSet,
    RealSubset,
};

verus! {

/// A (univariate) weighted Dirac delta measure.
#[derive(Clone, Copy, PartialEq)]
pub struct Dirac<R: Real> {
    /// The location of the point mass.
    pub point: R,
    /// The weight of the measure.
    pub weight: R,
}

/// A (univariate) Dirac delta probability measure.
#[derive(Clone, Copy, PartialEq)]
pub struct PDirac<R: Real> {
    /// The location of the point mass.
    pub point: R,
}

impl<R: Real> RealDistribution for PDirac<R> {
    type R = R;
}

impl<R: Real> vstd::std_specs::convert::FromSpecImpl<PDirac<R>> for Dirac<R> {
    open spec fn obeys_from_spec() -> bool {
        true
    }

    open spec fn from_spec(m: PDirac<R>) -> Self {
        Self { point: m.point, weight: R::one_spec() }
    }
}

impl<R: Real> From<PDirac<R>> for Dirac<R> {
    fn from(m: PDirac<R>) -> (r: Self) {
        Self { point: m.point, weight: R::one() }
    }
}

impl<R: Real> vstd::std_specs::ops::MulSpecImpl<R> for Dirac<R> {
    open spec fn obeys_mul_spec() -> bool {
        true
    }

    open spec fn mul_req(self, rhs: R) -> bool {
        true
    }

    open spec fn mul_spec(self, rhs: R) -> Self {
        Self { point: self.point, weight: self.weight.mul_spec(rhs) }
    }
}

impl<R: Real> core::ops::Mul<R> for Dirac<R> {
    type Output = Self;

    fn mul(self, rhs: R) -> (r: Self) {
        Self { point: self.point, weight: self.weight.mul(rhs) }
    }
}

impl<R: Real> Measure for Dirac<R> {
    type R = R;

    type Space = R;

    type Measurement = R;

    type PMeasure = PDirac<R>;

    open spec fn measure_of(&self, t: Set<R>) -> R {
        if t.contains(self.point) {
            self.weight
        } else {
            R::zero_spec()
        }
    }

    open spec fn weights(&self) -> Seq<R> {
        seq![self.weight]
    }

    open spec fn normalize_spec(&self) -> Option<PDirac<R>> {
        if scale_factor(self.weights()).finite() {
            Some(PDirac { point: self.point })
        } else {
            None
        }
    }

    open spec fn exact(p: PDirac<R>) -> bool {
        true
    }

    open spec fn same_probability(p: PDirac<R>, q: PDirac<R>) -> bool {
        p == q
    }

    proof fn operators_obey() {
    }

    proof fn normalize_decides(&self) {
    }

    proof fn normalize_ignores_scale(self, c: R, p: PDirac<R>, q: PDirac<R>) {
    }

    proof fn normalize_inverts_from(p: PDirac<R>, q: PDirac<R>) {
    }

    fn measure(&self, domain: &RealSet<R>) -> (r: R) {
        if domain.contains(&self.point) {
            self.weight
        } else {
            R::zero()
        }
    }

    fn normalize(&self) -> (r: Option<PDirac<R>>) {
        let nums = [self.weight];
        assert(nums@ =~= self.weights());
        match normalize_static(nums) {
            Some(_) => Some(PDirac { point: self.point }),
            None => None,
        }
    }

    fn mul_assign(&mut self, rhs: R) {
        self.weight = self.weight.mul(rhs);
    }
}

impl<R: Real> PointMeasure for Dirac<R> {
    type PointMeasurement = R;

    open spec fn measure_at_spec(&self, value: R) -> R {
        if value.same_spec(self.point) {
            R::infinity_spec()
        } else {
            R::zero_spec()
        }
    }

    fn measure_at(&self, value: &R) -> (r: R) {
        if value.same(self.point) {
            R::infinity()
        } else {
            R::zero()
        }
    }
}

impl<R: Real> DiracMeasure for Dirac<R> {
    open spec fn dirac_spec(point: R) -> Self {
        Self { point, weight: R::one_spec() }
    }

    proof fn dirac_has_weight_one(point: R) {
        total_of_one(R::one_spec());
        if total(Self::dirac_spec(point).weights()).finite() {
            R::add_is_exact(R::zero_spec(), R::one_spec());
            R::zero_is_exact();
            R::one_is_exact();
        }
    }

    fn dirac(point: &R) -> (r: Self) {
        Self { point: *point, weight: R::one() }
    }
}

/// A Dirac measure is additive: the measure of the union of two sets of
/// numbers without a common number stands for the sum of the numbers that
/// their measures stand for, where the weight is finite.
pub proof fn measure_is_additive<R: Real>(m: Dirac<R>, s: Set<R>, t: Set<R>)
    requires
        s.disjoint(t),
        m.weight.finite(),
    ensures
        m.measure_of(s.union(t)).value() == m.measure_of(s).value() + m.measure_of(t).value(),
{
    R::zero_is_exact();
}

} // verus!
