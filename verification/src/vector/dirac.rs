//! Implementation of multivariate Dirac delta distributions.
use vstd::prelude::*;
use vstd::std_specs::ops::MulSpec;
use crate::reals::{normalize_static, scale_factor, Real};
use super::{is_same_point, same_point, Vector};

verus! {

/// A multivariate weighted Dirac delta measure.
#[derive(Clone, Copy, PartialEq)]
pub struct VDirac<R: Real, const D: usize> {
    /// The location of the point mass.
    pub point: Vector<R, D>,
    /// The weight of the measure.
    pub weight: R,
}

/// A multivariate Dirac delta distribution.
#[derive(Clone, Copy, PartialEq)]
pub struct PVDirac<R: Real, const D: usize> {
    /// The location of the point mass.
    pub point: Vector<R, D>,
}

impl<R: Real, const D: usize> vstd::std_specs::convert::FromSpecImpl<PVDirac<R, D>>
    for VDirac<R, D> {
    open spec fn obeys_from_spec() -> bool {
        true
    }

    open spec fn from_spec(m: PVDirac<R, D>) -> Self {
        Self { point: m.point, weight: R::one_spec() }
    }
}

impl<R: Real, const D: usize> From<PVDirac<R, D>> for VDirac<R, D> {
    fn from(m: PVDirac<R, D>) -> (r: Self) {
        Self { point: m.point, weight: R::one() }
    }
}

impl<R: Real, const D: usize> vstd::std_specs::ops::MulSpecImpl<R> for VDirac<R, D> {
    open spec fn obeys_mul_spec() -> bool {
        true
    }

    open spec fn mul_req(self, rhs: R) -> bool {
        true
    }

    open spec fn mul_spec(self, rhs: R) -> Self {
        Self { point: self.point, weight: self.weight.mul_spec(rhs) }
    }
}

impl<R: Real, const D: usize> core::ops::Mul<R> for VDirac<R, D> {
    type Output = Self;

    fn mul(self, rhs: R) -> (r: Self) {
        Self { point: self.point, weight: self.weight.mul(rhs) }
    }
}

impl<R: Real, const D: usize> VDirac<R, D> {
    /// Rescales the measure in place.
    pub fn mul_assign(&mut self, rhs: R)
        ensures
            *final(self) == old(self).mul_spec(rhs),
    {
        self.weight = self.weight.mul(rhs);
    }

    /// Computes the point measure at a given point: not finite at the location
    /// of the mass, and zero elsewhere.
    pub fn measure_at(&self, value: &Vector<R, D>) -> (r: R)
        ensures
            r == if same_point(value@, self.point@) {
                R::infinity_spec()
            } else {
                R::zero_spec()
            },
    {
        if is_same_point(value, &self.point) {
            R::infinity()
        } else {
            R::zero()
        }
    }

    /// Attempts to normalize the measure into a distribution: the one at the
    /// same location.
    ///
    /// Returns [`None`] when the reciprocal of the weight is not finite.
    pub fn normalize(&self) -> (r: Option<PVDirac<R, D>>)
        ensures
            r == if scale_factor(seq![self.weight]).finite() {
                Some(PVDirac { point: self.point })
            } else {
                None
            },
    {
        let nums = [self.weight];
        assert(nums@ =~= seq![self.weight]);
        match normalize_static(nums) {
            Some(_) => Some(PVDirac { point: self.point }),
            None => None,
        }
    }
}

} // verus!
