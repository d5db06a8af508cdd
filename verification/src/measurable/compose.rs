//! Composition: of a function with a measure, and of two functions.
use vstd::prelude::*;
use vstd::std_specs::convert::FromSpec;
use vstd::std_specs::ops::MulSpec;
use type_variance::Invariant;
use crate::measurable::{
    preimage_of, Measurable, MeasurableFn, Measure, PointMeasurable, PointMeasure, SigmaAlgebra,
};
use crate::variance::invariant_marker;

verus! {

/// A measure which is the composition of a function with another measure: the
/// measure of a subset of the function's codomain is the other measure's
/// measure of its preimage.
pub struct CompositeMeasure<'a, F: MeasurableFn, M: Measure<Space = F::Domain>> {
    /// The function.
    pub function: &'a F,
    /// The measure on the function's domain.
    pub measure: M,
}

/// A probability measure which is the composition of a function with another
/// probability measure.
pub struct CompositePMeasure<'a, F: MeasurableFn, M: Measure<Space = F::Domain>> {
    /// The function.
    pub function: &'a F,
    /// The probability measure on the function's domain.
    pub measure: M::PMeasure,
}

impl<'a, F: MeasurableFn, M: Measure<Space = F::Domain>> vstd::std_specs::convert::FromSpecImpl<
    CompositePMeasure<'a, F, M>,
> for CompositeMeasure<'a, F, M> {
    open spec fn obeys_from_spec() -> bool {
        true
    }

    open spec fn from_spec(p: CompositePMeasure<'a, F, M>) -> Self {
        Self { function: p.function, measure: M::from_spec(p.measure) }
    }
}

impl<'a, F: MeasurableFn, M: Measure<Space = F::Domain>> From<
    CompositePMeasure<'a, F, M>,
> for CompositeMeasure<'a, F, M> {
    fn from(p: CompositePMeasure<'a, F, M>) -> (r: Self) {
        proof {
            M::operators_obey();
        }
        Self { function: p.function, measure: M::from(p.measure) }
    }
}

impl<'a, F: MeasurableFn, M: Measure<Space = F::Domain>> vstd::std_specs::ops::MulSpecImpl<
    M::R,
> for CompositeMeasure<'a, F, M> {
    open spec fn obeys_mul_spec() -> bool {
        true
    }

    open spec fn mul_req(self, rhs: M::R) -> bool {
        true
    }

    open spec fn mul_spec(self, rhs: M::R) -> Self {
        Self { function: self.function, measure: self.measure.mul_spec(rhs) }
    }
}

impl<'a, F: MeasurableFn, M: Measure<Space = F::Domain>> core::ops::Mul<
    M::R,
> for CompositeMeasure<'a, F, M> {
    type Output = Self;

    fn mul(self, rhs: M::R) -> (r: Self) {
        proof {
            M::operators_obey();
        }
        Self { function: self.function, measure: self.measure * rhs }
    }
}

impl<'a, F: MeasurableFn, M: Measure<Space = F::Domain>> Measure for CompositeMeasure<'a, F, M> {
    type R = M::R;

    type Space = F::Codomain;

    type Measurement = M::Measurement;

    type PMeasure = CompositePMeasure<'a, F, M>;

    open spec fn measure_of(&self, t: Set<F::Codomain>) -> M::Measurement {
        self.measure.measure_of(preimage_of(*self.function, t))
    }

    open spec fn weights(&self) -> Seq<M::R> {
        self.measure.weights()
    }

    open spec fn normalize_spec(&self) -> Option<CompositePMeasure<'a, F, M>> {
        match self.measure.normalize_spec() {
            Some(p) => Some(CompositePMeasure { function: self.function, measure: p }),
            None => None,
        }
    }

    open spec fn exact(p: CompositePMeasure<'a, F, M>) -> bool {
        M::exact(p.measure)
    }

    open spec fn same_probability(
        p: CompositePMeasure<'a, F, M>,
        q: CompositePMeasure<'a, F, M>,
    ) -> bool {
        p.function == q.function && M::same_probability(p.measure, q.measure)
    }

    proof fn operators_obey() {
    }

    proof fn normalize_decides(&self) {
        self.measure.normalize_decides();
    }

    proof fn normalize_ignores_scale(
        self,
        c: M::R,
        p: CompositePMeasure<'a, F, M>,
        q: CompositePMeasure<'a, F, M>,
    ) {
        self.measure.normalize_ignores_scale(c, p.measure, q.measure);
    }

    proof fn normalize_inverts_from(
        p: CompositePMeasure<'a, F, M>,
        q: CompositePMeasure<'a, F, M>,
    ) {
        M::normalize_inverts_from(p.measure, q.measure);
    }

    fn measure(&self, domain: &<F::Codomain as Measurable>::Subset) -> (r: M::Measurement) {
        let s = self.function.preimage(domain);
        assert(s.points() =~= preimage_of(*self.function, domain.points()));
        self.measure.measure(<F::Domain as Measurable>::subset_upcast(&s))
    }

    fn normalize(&self) -> (r: Option<CompositePMeasure<'a, F, M>>) {
        match self.measure.normalize() {
            Some(p) => Some(CompositePMeasure { function: self.function, measure: p }),
            None => None,
        }
    }

    fn mul_assign(&mut self, rhs: M::R) {
        self.measure.mul_assign(rhs);
    }
}

impl<'a, F: MeasurableFn, M: Measure<Space = F::Domain>> PointMeasure for CompositeMeasure<
    'a,
    F,
    M,
> where F::Codomain: PointMeasurable {
    type PointMeasurement = M::Measurement;

    open spec fn measure_at_spec(&self, value: F::Codomain) -> M::Measurement {
        self.measure_of(set![value])
    }

    fn measure_at(&self, value: &F::Codomain) -> (r: M::Measurement) {
        let domain = value.point_subset();
        let s = self.function.preimage(<F::Codomain as Measurable>::subset_upcast(&domain));
        assert(s.points() =~= preimage_of(*self.function, set![*value]));
        self.measure.measure(<F::Domain as Measurable>::subset_upcast(&s))
    }
}

/// Composes a function with a measure.
///
/// The domain of the function should be the measurable space associated with
/// the measure.
pub fn compose_measure<'a, F: MeasurableFn, M: Measure<Space = F::Domain>>(
    function: &'a F,
    measure: M,
) -> (r: CompositeMeasure<'a, F, M>)
    ensures
        r.function == function,
        r.measure == measure,
{
    CompositeMeasure { function, measure }
}

/// A function which is the composition of two other functions: `f` first, then
/// `g`.
pub struct CompositeFunction<'a, F: MeasurableFn, G: MeasurableFn<Domain = F::Codomain>> {
    /// The function that is applied first.
    pub f: &'a F,
    /// The function that is applied to what the first returns.
    pub g: &'a G,
}

impl<'a, F: MeasurableFn, G: MeasurableFn<Domain = F::Codomain>> MeasurableFn for CompositeFunction<
    'a,
    F,
    G,
> {
    type Domain = F::Domain;

    type Codomain = G::Codomain;

    open spec fn apply(&self, x: F::Domain) -> G::Codomain {
        self.g.apply(self.f.apply(x))
    }

    fn preimage(&self, s: &<G::Codomain as Measurable>::Subset) -> (r: <
        F::Domain as Measurable
    >::Subset) {
        let s = self.g.preimage(<G::Codomain as Measurable>::subset_upcast(s));
        let s = self.f.preimage(<F::Codomain as Measurable>::subset_upcast(&s));
        s
    }
}

/// Composes two functions: the result applies `f` first, then `g`.
pub fn compose<'a, F: MeasurableFn, G: MeasurableFn<Domain = F::Codomain>>(
    g: &'a G,
    f: &'a F,
) -> (r: CompositeFunction<'a, F, G>)
    ensures
        r.f == f,
        r.g == g,
{
    CompositeFunction { f, g }
}

/// An identity function on a measurable space.
#[verifier::reject_recursive_types(T)]
pub struct Identity<T: Measurable>(pub Invariant<T>);

impl<T: Measurable> MeasurableFn for Identity<T> {
    type Domain = T;

    type Codomain = T;

    open spec fn apply(&self, x: T) -> T {
        x
    }

    fn preimage(&self, s: &T::Subset) -> (r: T::Subset) {
        s.duplicate()
    }
}

/// Constructs an identity function on a measurable space.
pub fn identity<T: Measurable>() -> (r: Identity<T>)
    ensures
        forall|x: T| r.apply(x) == x,
{
    Identity(invariant_marker())
}

/// The preimage under the identity function of a set is that set.
pub proof fn preimage_under_identity<T: Measurable>(id: Identity<T>, t: Set<T>)
    ensures
        preimage_of(id, t) == t,
{
    assert(preimage_of(id, t) =~= t);
}

/// The preimage under a composition `g` after `f` is the preimage under `f`
/// of the preimage under `g`.
pub proof fn preimage_under_composition<F: MeasurableFn, G: MeasurableFn<Domain = F::Codomain>>(
    g: G,
    f: F,
    t: Set<G::Codomain>,
)
    ensures
        preimage_of(CompositeFunction { f: &f, g: &g }, t) == preimage_of(f, preimage_of(g, t)),
{
    assert(preimage_of(CompositeFunction { f: &f, g: &g }, t) =~= preimage_of(
        f,
        preimage_of(g, t),
    ));
}

} // verus!
