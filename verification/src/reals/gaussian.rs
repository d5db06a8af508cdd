//! Implementation of (univariate) Gaussian distributions.
use vstd::prelude::*;
use vstd::std_specs::ops::AddSpec;
use crate::measurable::Measure;
use super::dirac::Dirac;
use super::{normalize_static, scale_factor, Real, RealDistribution, RealSet, RealSubset};

verus! {

/// A (univariate) weighted Gaussian measure.
#[derive(Clone, Copy, PartialEq)]
pub struct Gaussian<R: Real> {
    /// The distribution that the measure is a multiple of.
    pub distribution: PGaussian<R>,
    /// The weight of the measure.
    pub weight: R,
}

/// A (univariate) Gaussian distribution.
#[derive(Clone, Copy, PartialEq)]
pub struct PGaussian<R: Real> {
    /// The mean of the distribution.
    pub mean: R,
    /// The variance of the distribution.
    pub variance: R,
}

impl<R: Real> RealDistribution for PGaussian<R> {
    type R = R;
}

impl<R: Real> vstd::std_specs::ops::AddSpecImpl for PGaussian<R> {
    open spec fn obeys_add_spec() -> bool {
        true
    }

    open spec fn add_req(self, rhs: Self) -> bool {
        true
    }

    open spec fn add_spec(self, rhs: Self) -> Self {
        Self {
            mean: self.mean.add_spec(rhs.mean),
            variance: self.variance.add_spec(rhs.variance),
        }
    }
}

impl<R: Real> core::ops::Add for PGaussian<R> {
    type Output = Self;

    fn add(self, rhs: Self) -> (r: Self) {
        Self { mean: self.mean.add(rhs.mean), variance: self.variance.add(rhs.variance) }
    }
}

impl<R: Real> PGaussian<R> {
    /// Adds the mean and the variance of another distribution to those of this
    /// one.
    pub fn add_assign(&mut self, rhs: Self)
        ensures
            *final(self) == old(self).add_spec(rhs),
    {
        self.mean = self.mean.add(rhs.mean);
        self.variance = self.variance.add(rhs.variance);
    }
}

impl<R: Real> vstd::std_specs::convert::FromSpecImpl<Dirac<R>> for Gaussian<R> {
    open spec fn obeys_from_spec() -> bool {
        true
    }

    open spec fn from_spec(m: Dirac<R>) -> Self {
        Self {
            distribution: PGaussian { mean: m.point, variance: R::zero_spec() },
            weight: m.weight,
        }
    }
}

impl<R: Real> From<Dirac<R>> for Gaussian<R> {
    fn from(m: Dirac<R>) -> (r: Self) {
        Self { distribution: PGaussian { mean: m.point, variance: R::zero() }, weight: m.weight }
    }
}

impl<R: Real> vstd::std_specs::convert::FromSpecImpl<PGaussian<R>> for Gaussian<R> {
    open spec fn obeys_from_spec() -> bool {
        true
    }

    open spec fn from_spec(distribution: PGaussian<R>) -> Self {
        Self { distribution, weight: R::one_spec() }
    }
}

impl<R: Real> From<PGaussian<R>> for Gaussian<R> {
    fn from(distribution: PGaussian<R>) -> (r: Self) {
        Self { distribution, weight: R::one() }
    }
}

impl<R: Real> vstd::std_specs::ops::MulSpecImpl<R> for Gaussian<R> {
    open spec fn obeys_mul_spec() -> bool {
        true
    }

    open spec fn mul_req(self, rhs: R) -> bool {
        true
    }

    open spec fn mul_spec(self, rhs: R) -> Self {
        Self { distribution: self.distribution, weight: self.weight.mul_spec(rhs) }
    }
}

impl<R: Real> core::ops::Mul<R> for Gaussian<R> {
    type Output = Self;

    fn mul(self, rhs: R) -> (r: Self) {
        Self { distribution: self.distribution, weight: self.weight.mul(rhs) }
    }
}

impl<R: Real> Measure for Gaussian<R> {
    type R = R;

    type Space = R;

    type Measurement = R;

    type PMeasure = PGaussian<R>;

    /// The whole line has the weight of the measure. The only other
    /// measurable subset of the line is empty, and has measure zero.
    open spec fn measure_of(&self, t: Set<R>) -> R {
        if t == Set::<R>::full() {
            self.weight
        } else {
            R::zero_spec()
        }
    }

    open spec fn weights(&self) -> Seq<R> {
        seq![self.weight]
    }

    open spec fn normalize_spec(&self) -> Option<PGaussian<R>> {
        if scale_factor(self.weights()).finite() {
            Some(self.distribution)
        } else {
            None
        }
    }

    open spec fn exact(p: PGaussian<R>) -> bool {
        true
    }

    open spec fn same_probability(p: PGaussian<R>, q: PGaussian<R>) -> bool {
        p == q
    }

    proof fn operators_obey() {
    }

    proof fn normalize_decides(&self) {
    }

    proof fn normalize_ignores_scale(self, c: R, p: PGaussian<R>, q: PGaussian<R>) {
    }

    proof fn normalize_inverts_from(p: PGaussian<R>, q: PGaussian<R>) {
    }

    fn measure(&self, domain: &RealSet<R>) -> (r: R) {
        if domain.is_full() {
            self.weight
        } else {
            R::zero()
        }
    }

    fn normalize(&self) -> (r: Option<PGaussian<R>>) {
        let nums = [self.weight];
        assert(nums@ =~= self.weights());
        match normalize_static(nums) {
            Some(_) => Some(self.distribution),
            None => None,
        }
    }

    fn mul_assign(&mut self, rhs: R) {
        self.weight = self.weight.mul(rhs);
    }
}

} // verus!
