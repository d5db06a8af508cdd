//! Measures, and the probability measures that they normalize to.
use vstd::prelude::*;
use vstd::std_specs::convert::FromSpec;
use vstd::std_specs::ops::MulSpec;
use crate::measurable::{Measurable, SigmaAlgebra};
use crate::reals::{scale_factor, total, zeros_do_not_normalize, Real};

verus! {

/// Describes a measure on a measurable space.
///
/// A measure is known by the measurement that it gives to each set of points.
/// It is made of components, each with a weight; it can be rescaled by a
/// number, made from a probability measure, and normalized to one.
pub trait Measure: Sized + From<Self::PMeasure> + core::ops::Mul<Self::R, Output = Self> {
    /// The type of real number used in the measure.
    type R: Real;

    /// The measurable space.
    type Space: Measurable;

    /// The type of measurements.
    type Measurement;

    /// The type of analogous probability measures.
    type PMeasure;

    /// The measurement of a set of points.
    spec fn measure_of(&self, t: Set<Self::Space>) -> Self::Measurement;

    /// The weights of the components of the measure. Their sum is the total
    /// weight.
    spec fn weights(&self) -> Seq<Self::R>;

    /// What `normalize` returns.
    spec fn normalize_spec(&self) -> Option<Self::PMeasure>;

    /// Whether every number that the probability measure holds is finite.
    spec fn exact(p: Self::PMeasure) -> bool;

    /// Whether the two are the same probability measure.
    spec fn same_probability(p: Self::PMeasure, q: Self::PMeasure) -> bool;

    /// Conversion from a probability measure and multiplication by a number
    /// are defined on every value, and are what `from_spec` and `mul_spec`
    /// say.
    proof fn operators_obey()
        ensures
            <Self as FromSpec<Self::PMeasure>>::obeys_from_spec(),
            <Self as MulSpec<Self::R>>::obeys_mul_spec(),
            forall|m: Self, c: Self::R| #[trigger] m.mul_req(c),
    ;

    /// A measure normalizes exactly when the reciprocal of its total weight is
    /// finite.
    proof fn normalize_decides(&self)
        ensures
            self.normalize_spec() is Some <==> scale_factor(self.weights()).finite(),
    ;

    /// Rescaling a measure does not change what it normalizes to: where the
    /// measure and the rescaled measure both normalize, and to exact
    /// probability measures, these are the same.
    proof fn normalize_ignores_scale(self, c: Self::R, p: Self::PMeasure, q: Self::PMeasure)
        requires
            self.normalize_spec() == Some(p),
            self.mul_spec(c).normalize_spec() == Some(q),
            Self::exact(p),
            Self::exact(q),
        ensures
            Self::same_probability(p, q),
    ;

    /// A probability measure is what its measure normalizes to: where that
    /// measure normalizes to an exact probability measure, it is the one that
    /// was converted.
    proof fn normalize_inverts_from(p: Self::PMeasure, q: Self::PMeasure)
        requires
            Self::from_spec(p).normalize_spec() == Some(q),
            Self::exact(q),
        ensures
            Self::same_probability(q, p),
    ;

    /// Computes the measure of the given subset.
    fn measure(&self, domain: &<Self::Space as Measurable>::Subset) -> (r: Self::Measurement)
        ensures
            r == self.measure_of(domain.points()),
    ;

    /// Attempts to normalize the measure into a probability measure.
    ///
    /// Returns [`None`] if that is impossible, such as if the measure has zero
    /// weight.
    fn normalize(&self) -> (r: Option<Self::PMeasure>)
        ensures
            r == self.normalize_spec(),
    ;

    /// Rescales the measure in place.
    fn mul_assign(&mut self, rhs: Self::R)
        ensures
            *final(self) == old(self).mul_spec(rhs),
    ;
}

/// Describes a measure for which point measurements can be made.
///
/// Generally this will either be a measure over a discrete measurable space, in
/// which case point measurements are equivalent to subset measurements over the
/// corresponding point subset (where it exists), or a measure whose derivative
/// with respect to the space can be considered.
pub trait PointMeasure: Measure {
    /// The type of point measurements.
    type PointMeasurement;

    /// The point measurement at a point.
    spec fn measure_at_spec(&self, value: Self::Space) -> Self::PointMeasurement;

    /// Computes the point measure at a given point.
    fn measure_at(&self, value: &Self::Space) -> (r: Self::PointMeasurement)
        ensures
            r == self.measure_at_spec(*value),
    ;
}

/// Describes a type of measure which is capable of representing Dirac measures.
pub trait DiracMeasure: Measure {
    /// The Dirac measure at a point.
    spec fn dirac_spec(point: Self::Space) -> Self;

    /// A Dirac measure has total weight one, where that total is finite.
    proof fn dirac_has_weight_one(point: Self::Space)
        ensures
            total(Self::dirac_spec(point).weights()).finite() ==> total(
                Self::dirac_spec(point).weights(),
            ).value() == 1real,
    ;

    /// Constructs a Dirac measure at the given point.
    fn dirac(point: &Self::Space) -> (r: Self)
        ensures
            r == Self::dirac_spec(*point),
    ;
}

/// A measure whose component weights are all zero does not normalize.
pub proof fn zero_weights_do_not_normalize<M: Measure>(m: M)
    requires
        forall|i: int|
            0 <= i < m.weights().len() ==> {
                &&& (#[trigger] m.weights()[i]).finite()
                &&& m.weights()[i].value() == 0real
            },
    ensures
        m.normalize_spec() is None,
{
    m.normalize_decides();
    zeros_do_not_normalize(m.weights());
}

} // verus!
