//! Implementation of the unit type as a measurable space.
use vstd::prelude::*;
use vstd::std_specs::ops::AddSpec;
use type_variance::Contravariant;
use crate::measurable::{
    DiracMeasure, Measurable, MeasurableFn, Measure, PointMeasurable, PointMeasure, SigmaAlgebra,
};
use crate::measurable::sigma::union_of;
use crate::reals::{normalize_static, scale_factor, total, total_of_one, Real};
use crate::variance::contravariant_marker;

verus! {

/// A subset of the unit type.
#[derive(Debug, Clone, Copy, PartialEq, Eq, Structural)]
pub struct UnitSubset {
    /// Whether the subset is the full or empty subset.
    pub full: bool,
}

impl SigmaAlgebra for UnitSubset {
    type Space = ();

    open spec fn points(&self) -> Set<()> {
        Set::new(|p: ()| self.full)
    }

    fn empty() -> (r: Self)
        ensures
            r == (UnitSubset { full: false }),
    {
        UnitSubset { full: false }
    }

    fn full() -> (r: Self)
        ensures
            r == (UnitSubset { full: true }),
    {
        UnitSubset { full: true }
    }

    fn is_empty(&self) -> (b: bool)
        ensures
            b == !self.full,
    {
        proof {
            if self.full {
                assert(self.points().contains(()));
            } else {
                assert(self.points() =~= Set::<()>::empty());
            }
        }
        !self.full
    }

    fn complement(&self) -> (r: Self)
        ensures
            r == (UnitSubset { full: !self.full }),
    {
        UnitSubset { full: !self.full }
    }

    fn union(subsets: &[&Self]) -> (r: Self)
        ensures
            r.full <==> exists|i: int| 0 <= i < subsets@.len() && (#[trigger] subsets@[i]).full,
    {
        let mut any = false;
        let mut i: usize = 0;
        while i < subsets.len() && !any
            invariant
                i <= subsets@.len(),
                any <==> exists|k: int| 0 <= k < i && (#[trigger] subsets@[k]).full,
            decreases subsets@.len() - i,
        {
            any = subsets[i].full;
            i += 1;
        }
        let result = UnitSubset { full: any };
        proof {
            let sets = subsets@.map_values(|s: &Self| s.points());
            assert forall|p: ()| result.points().contains(p) == union_of(sets).contains(p) by {
                if result.full {
                    let k = choose|k: int| 0 <= k < subsets@.len() && (#[trigger] subsets@[k]).full;
                    assert(sets[k].contains(p));
                }
                if union_of(sets).contains(p) {
                    let k = choose|k: int| 0 <= k < sets.len() && #[trigger] sets[k].contains(p);
                    assert(subsets@[k].full);
                }
            }
        }
        result
    }

    fn duplicate(&self) -> (r: Self)
        ensures
            r == *self,
    {
        *self
    }
}

impl Measurable for () {
    type Subset = UnitSubset;

    fn subset_upcast<'a>(s: &'a UnitSubset) -> (r: &'a UnitSubset) {
        s
    }
}

impl PointMeasurable for () {
    fn point_subset(&self) -> (r: UnitSubset)
        ensures
            r == (UnitSubset { full: true }),
    {
        let r = Self::full_subset();
        assert(r.points().contains(()));
        assert(r.points() =~= set![()]);
        r
    }
}

/// A function whose codomain is the unit type.
#[verifier::reject_recursive_types(T)]
pub struct UnitFunction<T: Measurable>(pub Contravariant<T>);

impl<T: Measurable> UnitFunction<T> {
    /// Constructs the function from `T` to the unit type.
    pub fn new() -> (r: Self) {
        UnitFunction(contravariant_marker())
    }
}

impl<T: Measurable> MeasurableFn for UnitFunction<T> {
    type Domain = T;

    type Codomain = ();

    open spec fn apply(&self, x: T) -> () {
        ()
    }

    fn preimage(&self, s: &UnitSubset) -> (r: T::Subset) {
        let r = if s.full {
            T::full_subset()
        } else {
            T::empty_subset()
        };
        assert(r.points() =~= Set::new(|x: T| s.points().contains(self.apply(x))));
        r
    }
}

/// A measure on the unit type.
#[derive(Clone, Copy, PartialEq)]
pub struct UnitMeasure<R: Real> {
    /// The weight of the measure.
    pub weight: R,
}

/// A probability measure on the unit type.
#[derive(Clone, Copy, Debug, PartialEq, Eq, PartialOrd, Ord)]
pub struct UnitPMeasure;

impl<R: Real> vstd::std_specs::convert::FromSpecImpl<UnitPMeasure> for UnitMeasure<R> {
    open spec fn obeys_from_spec() -> bool {
        true
    }

    open spec fn from_spec(p: UnitPMeasure) -> Self {
        Self { weight: R::one_spec() }
    }
}

impl<R: Real> From<UnitPMeasure> for UnitMeasure<R> {
    fn from(p: UnitPMeasure) -> (r: Self) {
        Self { weight: R::one() }
    }
}

impl<R: Real> vstd::std_specs::ops::AddSpecImpl for UnitMeasure<R> {
    open spec fn obeys_add_spec() -> bool {
        true
    }

    open spec fn add_req(self, rhs: Self) -> bool {
        true
    }

    open spec fn add_spec(self, rhs: Self) -> Self {
        Self { weight: self.weight.add_spec(rhs.weight) }
    }
}

impl<R: Real> core::ops::Add for UnitMeasure<R> {
    type Output = Self;

    fn add(self, rhs: Self) -> (r: Self) {
        Self { weight: self.weight.add(rhs.weight) }
    }
}

impl<R: Real> vstd::std_specs::ops::MulSpecImpl<R> for UnitMeasure<R> {
    open spec fn obeys_mul_spec() -> bool {
        true
    }

    open spec fn mul_req(self, rhs: R) -> bool {
        true
    }

    open spec fn mul_spec(self, rhs: R) -> Self {
        Self { weight: self.weight.mul_spec(rhs) }
    }
}

impl<R: Real> core::ops::Mul<R> for UnitMeasure<R> {
    type Output = Self;

    fn mul(self, rhs: R) -> (r: Self) {
        Self { weight: self.weight.mul(rhs) }
    }
}

impl<R: Real> UnitMeasure<R> {
    /// Adds the weight of another measure to this one.
    pub fn add_assign(&mut self, rhs: Self)
        ensures
            *final(self) == old(self).add_spec(rhs),
    {
        self.weight = self.weight.add(rhs.weight);
    }
}

impl<R: Real> Measure for UnitMeasure<R> {
    type R = R;

    type Space = ();

    type Measurement = R;

    type PMeasure = UnitPMeasure;

    open spec fn measure_of(&self, t: Set<()>) -> R {
        if t.contains(()) {
            self.weight
        } else {
            R::zero_spec()
        }
    }

    open spec fn weights(&self) -> Seq<R> {
        seq![self.weight]
    }

    open spec fn normalize_spec(&self) -> Option<UnitPMeasure> {
        if scale_factor(self.weights()).finite() {
            Some(UnitPMeasure)
        } else {
            None
        }
    }

    open spec fn exact(p: UnitPMeasure) -> bool {
        true
    }

    open spec fn same_probability(p: UnitPMeasure, q: UnitPMeasure) -> bool {
        p == q
    }

    proof fn operators_obey() {
    }

    proof fn normalize_decides(&self) {
    }

    proof fn normalize_ignores_scale(self, c: R, p: UnitPMeasure, q: UnitPMeasure) {
    }

    proof fn normalize_inverts_from(p: UnitPMeasure, q: UnitPMeasure) {
    }

    fn measure(&self, domain: &UnitSubset) -> (r: R) {
        if domain.full {
            self.weight
        } else {
            R::zero()
        }
    }

    fn normalize(&self) -> (r: Option<UnitPMeasure>) {
        let nums = [self.weight];
        assert(nums@ =~= self.weights());
        match normalize_static(nums) {
            Some(_) => Some(UnitPMeasure),
            None => None,
        }
    }

    fn mul_assign(&mut self, rhs: R) {
        self.weight = self.weight.mul(rhs);
    }
}

impl<R: Real> PointMeasure for UnitMeasure<R> {
    type PointMeasurement = R;

    open spec fn measure_at_spec(&self, value: ()) -> R {
        self.weight
    }

    fn measure_at(&self, value: &()) -> (r: R) {
        self.weight
    }
}

impl<R: Real> DiracMeasure for UnitMeasure<R> {
    open spec fn dirac_spec(point: ()) -> Self {
        Self { weight: R::one_spec() }
    }

    proof fn dirac_has_weight_one(point: ()) {
        total_of_one(R::one_spec());
        if total(Self::dirac_spec(point).weights()).finite() {
            R::add_is_exact(R::zero_spec(), R::one_spec());
            R::zero_is_exact();
            R::one_is_exact();
        }
    }

    fn dirac(point: &()) -> (r: Self) {
        Self { weight: R::one() }
    }
}

/// On the unit space the point measure is the measure of the subset that
/// holds the point.
pub proof fn point_measure_is_measure_of_point<R: Real>(m: UnitMeasure<R>)
    ensures
        m.measure_of(set![()]) == m.measure_at_spec(()),
{
}

/// A measure on the unit space is additive: the measure of the union of two
/// subsets without a common point stands for the sum of the numbers that
/// their measures stand for, where these are finite.
pub proof fn measure_is_additive<R: Real>(m: UnitMeasure<R>, s: Set<()>, t: Set<()>)
    requires
        s.disjoint(t),
        m.weight.finite(),
    ensures
        m.measure_of(s.union(t)).value() == m.measure_of(s).value() + m.measure_of(t).value(),
{
    R::zero_is_exact();
}

} // verus!
