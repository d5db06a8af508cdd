//! Measurable spaces and the functions between them.
use vstd::prelude::*;

pub mod compose;
pub mod measure;
pub mod sigma;

pub use compose::{
    compose, compose_measure, identity, CompositeFunction, CompositeMeasure, CompositePMeasure,
    Identity,
};
pub use measure::{DiracMeasure, Measure, PointMeasure};
pub use sigma::SigmaAlgebra;
use sigma::{intersection_of, union_of};

verus! {

/// A measurable space: a type whose values are the points of the space, tied
/// to the type of its measurable subsets.
pub trait Measurable: Sized {
    /// The type representing measurable subsets of [`Self`].
    type Subset: SigmaAlgebra<Space = Self>;

    /// Hands back the subset it is given, for as long as the caller holds it.
    fn subset_upcast<'a>(s: &'a Self::Subset) -> (r: &'a Self::Subset)
        ensures
            *r == *s,
    ;

    /// Computes the empty subset.
    fn empty_subset() -> (r: Self::Subset)
        ensures
            r.points() == Set::<Self>::empty(),
    {
        Self::Subset::empty()
    }

    /// Computes the full subset.
    fn full_subset() -> (r: Self::Subset)
        ensures
            r.points() == Set::<Self>::full(),
    {
        Self::Subset::full()
    }

    /// Checks whether the given subset is the empty subset.
    fn subset_is_empty(s: &Self::Subset) -> (b: bool)
        ensures
            b <==> s.points() == Set::<Self>::empty(),
    {
        s.is_empty()
    }

    /// Computes the complement of a subset.
    fn subset_complement(s: &Self::Subset) -> (r: Self::Subset)
        ensures
            r.points() == s.points().complement(),
    {
        s.complement()
    }

    /// Computes the union of a finite collection of subsets.
    fn subset_union(subsets: &[&Self::Subset]) -> (r: Self::Subset)
        ensures
            r.points() == union_of(subsets@.map_values(|s: &Self::Subset| s.points())),
    {
        Self::Subset::union(subsets)
    }

    /// Computes the intersection of a finite collection of subsets.
    fn subset_intersect(subsets: &[&Self::Subset]) -> (r: Self::Subset)
        ensures
            r.points() == intersection_of(subsets@.map_values(|s: &Self::Subset| s.points())),
    {
        Self::Subset::intersection(subsets)
    }
}

/// A measurable space for which subsets containing a single point exist for all
/// points in the space.
pub trait PointMeasurable: Measurable {
    /// Computes the subset containing the given point and no other.
    fn point_subset(&self) -> (r: Self::Subset)
        ensures
            r.points() == set![*self],
    ;
}

/// Describes a measurable function between two measurable spaces.
///
/// The function is known by the point to which it takes each point of its
/// domain; what it offers to compute is the preimage of a subset.
pub trait MeasurableFn {
    /// The domain of the function.
    type Domain: Measurable;

    /// The codomain of the function.
    type Codomain: Measurable;

    /// The point of the codomain to which the function takes `x`.
    spec fn apply(&self, x: Self::Domain) -> Self::Codomain;

    /// Computes the preimage of the given subset of the codomain: the subset
    /// of the points that the function takes into it.
    fn preimage(&self, s: &<Self::Codomain as Measurable>::Subset) -> (r: <
        Self::Domain as Measurable
    >::Subset)
        ensures
            r.points() == Set::new(|x: Self::Domain| s.points().contains(self.apply(x))),
    ;
}

/// The points that a function takes into the set `t`.
pub open spec fn preimage_of<F: MeasurableFn>(f: F, t: Set<F::Codomain>) -> Set<F::Domain> {
    Set::new(|x: F::Domain| t.contains(f.apply(x)))
}

} // verus!
