//! The real line as a measurable space.
use vstd::prelude::*;
use type_variance::Invariant;
use crate::measurable::{Measurable, SigmaAlgebra};
use crate::measurable::sigma::union_of;
use crate::variance::invariant_marker;
use super::Real;

verus! {

/// Describes a subset of the real number line.
pub trait RealSubset<R: Real> {
    /// The numbers that lie in the subset.
    spec fn numbers(&self) -> Set<R>;

    /// Checks whether the subset is empty.
    fn is_empty(&self) -> (b: bool)
        ensures
            b <==> self.numbers() == Set::<R>::empty(),
    ;

    /// Checks whether the subset is full (i.e., contains the entire real line).
    fn is_full(&self) -> (b: bool)
        ensures
            b <==> self.numbers() == Set::<R>::full(),
    ;

    /// Checks whether the subset contains the given value.
    fn contains(&self, value: &R) -> (b: bool)
        ensures
            b == self.numbers().contains(*value),
    ;
}

/// How a subset of the real line is put together from the empty subset and
/// the full subset by complements and unions.
#[derive(Debug)]
pub enum Shape {
    /// The empty subset.
    Empty,
    /// The full subset.
    Full,
    /// The complement of a subset.
    Inverse(Box<Shape>),
    /// The union of finitely many subsets.
    Union(Vec<Shape>),
}

impl Shape {
    /// Whether a subset of this shape holds every number. One that does not,
    /// holds none.
    pub open spec fn covers(self) -> bool
        decreases self,
    {
        match self {
            Shape::Empty => false,
            Shape::Full => true,
            Shape::Inverse(inner) => !inner.covers(),
            Shape::Union(parts) => exists|i: int|
                0 <= i < parts@.len() && (#[trigger] parts@[i]).covers(),
        }
    }

    /// Whether the other shape is put together in the same way as this one.
    pub open spec fn alike(self, other: Shape) -> bool
        decreases self,
    {
        match (self, other) {
            (Shape::Empty, Shape::Empty) => true,
            (Shape::Full, Shape::Full) => true,
            (Shape::Inverse(a), Shape::Inverse(b)) => a.alike(*b),
            (Shape::Union(a), Shape::Union(b)) => a@.len() == b@.len() && forall|i: int|
                0 <= i < a@.len() ==> (#[trigger] a@[i]).alike(b@[i]),
            _ => false,
        }
    }

    /// Shapes that are put together in the same way are shapes of subsets
    /// with the same numbers.
    pub proof fn alike_shapes_cover_alike(self, other: Shape)
        requires
            self.alike(other),
        ensures
            self.covers() == other.covers(),
        decreases self,
    {
        match (self, other) {
            (Shape::Inverse(a), Shape::Inverse(b)) => {
                a.alike_shapes_cover_alike(*b);
            },
            (Shape::Union(a), Shape::Union(b)) => {
                assert forall|i: int| 0 <= i < a@.len() implies (#[trigger] a@[i]).covers()
                    == b@[i].covers() by {
                    a@[i].alike_shapes_cover_alike(b@[i]);
                }
                if self.covers() {
                    let k = choose|k: int| 0 <= k < a@.len() && (#[trigger] a@[k]).covers();
                    assert(b@[k].covers());
                }
                if other.covers() {
                    let k = choose|k: int| 0 <= k < b@.len() && (#[trigger] b@[k]).covers();
                    assert(a@[k].covers());
                }
            },
            _ => {},
        }
    }

    /// Checks whether a subset of this shape holds every number.
    #[verifier::loop_isolation(false)]
    pub fn is_full(&self) -> (b: bool)
        ensures
            b == self.covers(),
        decreases self,
    {
        match self {
            Shape::Empty => false,
            Shape::Full => true,
            Shape::Inverse(inner) => inner.is_empty(),
            Shape::Union(parts) => {
                let mut i: usize = 0;
                while i < parts.len()
                    invariant
                        i <= parts@.len(),
                        forall|k: int| 0 <= k < i ==> !(#[trigger] parts@[k]).covers(),
                    decreases parts@.len() - i,
                {
                    if parts[i].is_full() {
                        assert(parts@[i as int].covers());
                        return true;
                    }
                    i += 1;
                }
                false
            },
        }
    }

    /// Checks whether a subset of this shape holds no number.
    #[verifier::loop_isolation(false)]
    pub fn is_empty(&self) -> (b: bool)
        ensures
            b == !self.covers(),
        decreases self,
    {
        match self {
            Shape::Empty => true,
            Shape::Full => false,
            Shape::Inverse(inner) => inner.is_full(),
            Shape::Union(parts) => {
                let mut i: usize = 0;
                while i < parts.len()
                    invariant
                        i <= parts@.len(),
                        forall|k: int| 0 <= k < i ==> !(#[trigger] parts@[k]).covers(),
                    decreases parts@.len() - i,
                {
                    if !parts[i].is_empty() {
                        assert(parts@[i as int].covers());
                        return false;
                    }
                    i += 1;
                }
                true
            },
        }
    }

    /// Makes another shape put together in the same way.
    #[verifier::loop_isolation(false)]
    pub fn duplicate(&self) -> (r: Shape)
        ensures
            self.alike(r),
            r.covers() == self.covers(),
        decreases self,
    {
        let r = match self {
            Shape::Empty => Shape::Empty,
            Shape::Full => Shape::Full,
            Shape::Inverse(inner) => Shape::Inverse(Box::new(inner.duplicate())),
            Shape::Union(parts) => {
                let mut copies: Vec<Shape> = Vec::new();
                let mut i: usize = 0;
                while i < parts.len()
                    invariant
                        i <= parts@.len(),
                        copies@.len() == i,
                        forall|k: int| 0 <= k < i ==> (#[trigger] parts@[k]).alike(copies@[k]),
                    decreases parts@.len() - i,
                {
                    copies.push(parts[i].duplicate());
                    i += 1;
                }
                Shape::Union(copies)
            },
        };
        proof {
            self.alike_shapes_cover_alike(r);
        }
        r
    }
}

/// A measurable subset of the real line, as this library builds them: from the
/// empty and the full subset by complements and unions. Such a subset holds
/// every number or none.
#[verifier::reject_recursive_types(R)]
pub struct RealSet<R: Real> {
    /// How the subset is put together.
    pub shape: Shape,
    /// The type of the numbers of the line.
    pub line: Invariant<R>,
}

impl<R: Real> RealSet<R> {
    /// Makes the subset of the given shape.
    pub fn new(shape: Shape) -> (r: Self)
        ensures
            r.shape == shape,
    {
        RealSet { shape, line: invariant_marker() }
    }
}

impl<R: Real> RealSubset<R> for RealSet<R> {
    open spec fn numbers(&self) -> Set<R> {
        if self.shape.covers() {
            Set::full()
        } else {
            Set::empty()
        }
    }

    fn is_empty(&self) -> (b: bool) {
        proof {
            assert(Set::<R>::full().contains(arbitrary()));
        }
        self.shape.is_empty()
    }

    fn is_full(&self) -> (b: bool)
        ensures
            b == self.shape.covers(),
    {
        proof {
            assert(Set::<R>::full().contains(arbitrary()));
        }
        self.shape.is_full()
    }

    fn contains(&self, value: &R) -> (b: bool)
        ensures
            b == self.shape.covers(),
    {
        self.shape.is_full()
    }
}

impl<R: Real> SigmaAlgebra for RealSet<R> {
    type Space = R;

    open spec fn points(&self) -> Set<R> {
        self.numbers()
    }

    fn empty() -> (r: Self)
        ensures
            r.shape == Shape::Empty,
    {
        RealSet::new(Shape::Empty)
    }

    fn full() -> (r: Self)
        ensures
            r.shape == Shape::Full,
    {
        RealSet::new(Shape::Full)
    }

    fn is_empty(&self) -> (b: bool) {
        RealSubset::is_empty(self)
    }

    fn complement(&self) -> (r: Self)
        ensures
            r.shape matches Shape::Inverse(inner) && self.shape.alike(*inner),
    {
        let r = RealSet::new(Shape::Inverse(Box::new(self.shape.duplicate())));
        assert(r.points() =~= self.points().complement());
        r
    }

    fn union(subsets: &[&Self]) -> (r: Self)
        ensures
            r.shape matches Shape::Union(parts) && parts@.len() == subsets@.len() && forall|
                i: int,
            |
                0 <= i < subsets@.len() ==> (#[trigger] subsets@[i]).shape.alike(parts@[i]),
    {
        let mut parts: Vec<Shape> = Vec::new();
        let mut i: usize = 0;
        while i < subsets.len()
            invariant
                i <= subsets@.len(),
                parts@.len() == i,
                forall|k: int| 0 <= k < i ==> (#[trigger] subsets@[k]).shape.alike(parts@[k]),
                forall|k: int|
                    0 <= k < i ==> (#[trigger] parts@[k]).covers() == subsets@[k].shape.covers(),
            decreases subsets@.len() - i,
        {
            parts.push(subsets[i].shape.duplicate());
            i += 1;
        }
        let ghost shapes = parts@;
        let r = RealSet::new(Shape::Union(parts));
        proof {
            let parts = shapes;
            let sets = subsets@.map_values(|s: &Self| s.points());
            assert(r.shape matches Shape::Union(v) && v@ == parts);
            assert(r.shape.covers() <==> exists|k: int|
                0 <= k < parts.len() && (#[trigger] parts[k]).covers());
            if r.shape.covers() {
                let k = choose|k: int| 0 <= k < parts.len() && (#[trigger] parts[k]).covers();
                assert(subsets@[k].shape.covers());
            }
            if exists|i: int| 0 <= i < subsets@.len() && (#[trigger] subsets@[i]).shape.covers() {
                let k = choose|k: int|
                    0 <= k < subsets@.len() && (#[trigger] subsets@[k]).shape.covers();
                assert(parts[k].covers());
            }
            assert forall|x: R| r.points().contains(x) == union_of(sets).contains(x) by {
                if r.shape.covers() {
                    let k = choose|k: int|
                        0 <= k < subsets@.len() && (#[trigger] subsets@[k]).shape.covers();
                    assert(sets[k].contains(x));
                }
                if union_of(sets).contains(x) {
                    let k = choose|k: int| 0 <= k < sets.len() && (#[trigger] sets[k]).contains(x);
                    assert(subsets@[k].shape.covers());
                }
            }
        }
        r
    }

    fn duplicate(&self) -> (r: Self)
        ensures
            self.shape.alike(r.shape),
    {
        RealSet::new(self.shape.duplicate())
    }
}

impl<R: Real> Measurable for R {
    type Subset = RealSet<R>;

    fn subset_upcast<'a>(s: &'a RealSet<R>) -> (r: &'a RealSet<R>) {
        s
    }
}

/// Describes a probability distribution over real numbers.
pub trait RealDistribution {
    /// The type of real number used for measure values in the distribution.
    type R: Real;
}

} // verus!
