//! Implementation of binary Cartesian products as measurable spaces.
use vstd::prelude::*;
use type_variance::{Contravariant, Invariant};
use crate::measurable::{Measurable, MeasurableFn, PointMeasurable, SigmaAlgebra};
use crate::measurable::sigma::{intersection_of, intersection_of_next, union_of, union_of_next};
use crate::variance::{contravariant_marker, invariant_marker};

verus! {

/// A rectangle in a product space: the pairs whose first part lies in a subset
/// of `T` and whose second part lies in a subset of `U`.
///
/// The measurable subsets of the product space are the finite unions of
/// rectangles, held as a vector of them.
pub struct PairSubset<T: Measurable, U: Measurable> {
    /// The subset of `T`.
    pub left: T::Subset,
    /// The subset of `U`.
    pub right: U::Subset,
}

impl<T: Measurable, U: Measurable> PairSubset<T, U> {
    /// The pairs that lie in the rectangle.
    pub open spec fn points(self) -> Set<(T, U)> {
        Set::new(|p: (T, U)| self.left.points().contains(p.0) && self.right.points().contains(p.1))
    }

    /// Makes another rectangle with the same sides.
    pub fn duplicate(&self) -> (r: Self)
        ensures
            r.left.points() == self.left.points(),
            r.right.points() == self.right.points(),
            r.points() == self.points(),
    {
        PairSubset { left: self.left.duplicate(), right: self.right.duplicate() }
    }

    /// Checks whether no pair lies in the rectangle: whether one of its sides
    /// is empty.
    pub fn is_empty(&self) -> (b: bool)
        ensures
            b <==> self.points() == Set::<(T, U)>::empty(),
    {
        let b = T::subset_is_empty(&self.left) || U::subset_is_empty(&self.right);
        proof {
            if b {
                assert(self.points() =~= Set::<(T, U)>::empty());
            } else {
                let t = choose|t: T| self.left.points().contains(t);
                let u = choose|u: U| self.right.points().contains(u);
                assert(!(self.left.points() =~= Set::<T>::empty()));
                assert(!(self.right.points() =~= Set::<U>::empty()));
                assert(self.points().contains((t, u)));
            }
        }
        b
    }

    /// Computes the pairs that lie in both rectangles, which are a rectangle
    /// again.
    pub fn meet(&self, other: &Self) -> (r: Self)
        ensures
            r.left.points() == self.left.points().intersect(other.left.points()),
            r.right.points() == self.right.points().intersect(other.right.points()),
            r.points() == self.points().intersect(other.points()),
    {
        let left = T::subset_intersect(&[&self.left, &other.left]);
        let right = U::subset_intersect(&[&self.right, &other.right]);
        let r: Self = PairSubset { left, right };
        proof {
            let lefts = seq![&self.left, &other.left].map_values(|s: &T::Subset| s.points());
            let rights = seq![&self.right, &other.right].map_values(|s: &U::Subset| s.points());
            assert(lefts[0] == self.left.points() && lefts[1] == other.left.points());
            assert(rights[0] == self.right.points() && rights[1] == other.right.points());
            assert forall|t: T|
                r.left.points().contains(t) == self.left.points().intersect(
                    other.left.points(),
                ).contains(t) by {
                if self.left.points().contains(t) && other.left.points().contains(t) {
                    assert forall|k: int| 0 <= k < lefts.len() implies (#[trigger] lefts[k])
                        .contains(t) by {}
                }
                if r.left.points().contains(t) {
                    assert(lefts[0].contains(t) && lefts[1].contains(t));
                }
            }
            assert forall|u: U|
                r.right.points().contains(u) == self.right.points().intersect(
                    other.right.points(),
                ).contains(u) by {
                if self.right.points().contains(u) && other.right.points().contains(u) {
                    assert forall|k: int| 0 <= k < rights.len() implies (#[trigger] rights[k])
                        .contains(u) by {}
                }
                if r.right.points().contains(u) {
                    assert(rights[0].contains(u) && rights[1].contains(u));
                }
            }
            assert(r.left.points() =~= self.left.points().intersect(other.left.points()));
            assert(r.right.points() =~= self.right.points().intersect(other.right.points()));
            assert(r.points() =~= self.points().intersect(other.points()));
        }
        r
    }

    /// Computes the pairs that do not lie in the rectangle, as three
    /// rectangles: those with only the second part outside, those with only
    /// the first part outside, and those with both parts outside.
    pub fn outside(&self) -> (r: Vec<Self>)
        ensures
            r@.len() == 3,
            r@[0].left.points() == self.left.points(),
            r@[0].right.points() == self.right.points().complement(),
            r@[1].left.points() == self.left.points().complement(),
            r@[1].right.points() == self.right.points(),
            r@[2].left.points() == self.left.points().complement(),
            r@[2].right.points() == self.right.points().complement(),
            pair_points(r@) == self.points().complement(),
    {
        let left_c = T::subset_complement(&self.left);
        let right_c = U::subset_complement(&self.right);
        let mut r: Vec<Self> = Vec::new();
        r.push(PairSubset { left: self.left.duplicate(), right: right_c.duplicate() });
        r.push(PairSubset { left: left_c.duplicate(), right: self.right.duplicate() });
        r.push(PairSubset { left: left_c, right: right_c });
        proof {
            assert forall|p: (T, U)|
                pair_points(r@).contains(p) == self.points().complement().contains(p) by {
                if !self.points().contains(p) {
                    if self.left.points().contains(p.0) {
                        assert(r@[0].points().contains(p));
                    } else if self.right.points().contains(p.1) {
                        assert(r@[1].points().contains(p));
                    } else {
                        assert(r@[2].points().contains(p));
                    }
                }
            }
        }
        r
    }
}

/// The pairs that lie in at least one of the rectangles.
pub open spec fn pair_points<T: Measurable, U: Measurable>(parts: Seq<PairSubset<T, U>>) -> Set<
    (T, U),
> {
    Set::new(
        |p: (T, U)| exists|i: int| 0 <= i < parts.len() && (#[trigger] parts[i]).points().contains(p),
    )
}

/// No pair lies in a union of no rectangles.
proof fn pair_points_of_none<T: Measurable, U: Measurable>()
    ensures
        pair_points(Seq::<PairSubset<T, U>>::empty()) == Set::<(T, U)>::empty(),
{
    assert(pair_points(Seq::<PairSubset<T, U>>::empty()) =~= Set::<(T, U)>::empty());
}

/// One more rectangle adds its pairs to the union.
proof fn pair_points_of_more<T: Measurable, U: Measurable>(
    parts: Seq<PairSubset<T, U>>,
    last: PairSubset<T, U>,
)
    ensures
        pair_points(parts.push(last)) == pair_points(parts).union(last.points()),
{
    let more = parts.push(last);
    assert forall|p: (T, U)|
        pair_points(more).contains(p) == pair_points(parts).union(last.points()).contains(p) by {
        if pair_points(more).contains(p) {
            let i = choose|i: int| 0 <= i < more.len() && (#[trigger] more[i]).points().contains(p);
            if i < parts.len() {
                assert(parts[i].points().contains(p));
            }
        }
        if pair_points(parts).contains(p) {
            let i = choose|i: int|
                0 <= i < parts.len() && (#[trigger] parts[i]).points().contains(p);
            assert(more[i].points().contains(p));
        }
        if last.points().contains(p) {
            assert(more[parts.len() as int].points().contains(p));
        }
    }
}

/// The union of the first `i + 1` rectangles is the union of the first `i`
/// with the pairs of the one that follows them.
proof fn pair_points_of_next<T: Measurable, U: Measurable>(parts: Seq<PairSubset<T, U>>, i: int)
    requires
        0 <= i < parts.len(),
    ensures
        pair_points(parts.take(i + 1)) == pair_points(parts.take(i)).union(parts[i].points()),
{
    assert(parts.take(i + 1) =~= parts.take(i).push(parts[i]));
    pair_points_of_more(parts.take(i), parts[i]);
}

/// Computes the pairs that lie in both of two unions of rectangles: the union
/// of the rectangles in which one of the first meets one of the second and
/// which are not empty.
fn meet_all<T: Measurable, U: Measurable>(
    a: &Vec<PairSubset<T, U>>,
    b: &Vec<PairSubset<T, U>>,
) -> (r: Vec<PairSubset<T, U>>)
    ensures
        pair_points(r@) == pair_points(a@).intersect(pair_points(b@)),
{
    let mut r: Vec<PairSubset<T, U>> = Vec::new();
    let mut i: usize = 0;
    proof {
        pair_points_of_none::<T, U>();
        assert(a@.take(0) =~= Seq::empty());
    }
    while i < a.len()
        invariant
            i <= a@.len(),
            pair_points(r@) == pair_points(a@.take(i as int)).intersect(pair_points(b@)),
        decreases a@.len() - i,
    {
        let ghost before = r@;
        let mut j: usize = 0;
        proof {
            assert(b@.take(0) =~= Seq::empty());
        }
        while j < b.len()
            invariant
                i < a@.len(),
                j <= b@.len(),
                pair_points(before) == pair_points(a@.take(i as int)).intersect(pair_points(b@)),
                pair_points(r@) == pair_points(before).union(
                    a@[i as int].points().intersect(pair_points(b@.take(j as int))),
                ),
            decreases b@.len() - j,
        {
            let part = a[i].meet(&b[j]);
            proof {
                pair_points_of_more(r@, part);
                pair_points_of_next(b@, j as int);
            }
            if !part.is_empty() {
                r.push(part);
            } else {
                proof {
                    let side = a@[i as int].points();
                    let met = pair_points(b@.take(j as int));
                    let next = b@[j as int].points();
                    assert(side.intersect(next) == Set::<(T, U)>::empty());
                    assert forall|p: (T, U)|
                        side.intersect(met.union(next)).contains(p) == side.intersect(
                            met,
                        ).contains(p) by {
                        assert(!side.intersect(next).contains(p));
                    }
                    assert(side.intersect(met.union(next)) =~= side.intersect(met));
                }
            }
            j += 1;
        }
        proof {
            assert(b@.take(b@.len() as int) =~= b@);
            pair_points_of_next(a@, i as int);
        }
        i += 1;
    }
    proof {
        assert(a@.take(a@.len() as int) =~= a@);
    }
    r
}

/// The left projection function from `(T, U)` to `T`.
#[verifier::reject_recursive_types(T)]
#[verifier::reject_recursive_types(U)]
pub struct LeftProjection<T: Measurable, U: Measurable>(pub Invariant<T>, pub Contravariant<U>);

impl<T: Measurable, U: Measurable> LeftProjection<T, U> {
    /// Constructs the left projection.
    pub fn new() -> (r: Self)
        ensures
            forall|p: (T, U)| r.apply(p) == p.0,
    {
        LeftProjection(invariant_marker(), contravariant_marker())
    }
}

impl<T: Measurable, U: Measurable> MeasurableFn for LeftProjection<T, U> {
    type Domain = (T, U);

    type Codomain = T;

    open spec fn apply(&self, x: (T, U)) -> T {
        x.0
    }

    fn preimage(&self, s: &T::Subset) -> (r: Vec<PairSubset<T, U>>)
        ensures
            r@.len() == 1,
            r@[0].left.points() == s.points(),
            r@[0].right.points() == Set::<U>::full(),
    {
        let right = U::full_subset();
        let mut r: Vec<PairSubset<T, U>> = Vec::new();
        r.push(PairSubset { left: T::subset_upcast(s).duplicate(), right });
        proof {
            assert forall|p: (T, U)|
                pair_points(r@).contains(p) == s.points().contains(self.apply(p)) by {
                if s.points().contains(p.0) {
                    assert(r@[0].points().contains(p));
                }
            }
            assert(pair_points(r@) =~= Set::new(|x: (T, U)| s.points().contains(self.apply(x))));
        }
        r
    }
}

/// The right projection function from `(T, U)` to `U`.
#[verifier::reject_recursive_types(T)]
#[verifier::reject_recursive_types(U)]
pub struct RightProjection<T: Measurable, U: Measurable>(pub Contravariant<T>, pub Invariant<U>);

impl<T: Measurable, U: Measurable> RightProjection<T, U> {
    /// Constructs the right projection.
    pub fn new() -> (r: Self)
        ensures
            forall|p: (T, U)| r.apply(p) == p.1,
    {
        RightProjection(contravariant_marker(), invariant_marker())
    }
}

impl<T: Measurable, U: Measurable> MeasurableFn for RightProjection<T, U> {
    type Domain = (T, U);

    type Codomain = U;

    open spec fn apply(&self, x: (T, U)) -> U {
        x.1
    }

    fn preimage(&self, s: &U::Subset) -> (r: Vec<PairSubset<T, U>>)
        ensures
            r@.len() == 1,
            r@[0].left.points() == Set::<T>::full(),
            r@[0].right.points() == s.points(),
    {
        let left = T::full_subset();
        let mut r: Vec<PairSubset<T, U>> = Vec::new();
        r.push(PairSubset { left, right: U::subset_upcast(s).duplicate() });
        proof {
            assert forall|p: (T, U)|
                pair_points(r@).contains(p) == s.points().contains(self.apply(p)) by {
                if s.points().contains(p.1) {
                    assert(r@[0].points().contains(p));
                }
            }
            assert(pair_points(r@) =~= Set::new(|x: (T, U)| s.points().contains(self.apply(x))));
        }
        r
    }
}

/// The fork function, which, given functions from `T` to `U` and `T` to `V`,
/// gives a function from `T` to `(U, V)`.
#[verifier::reject_recursive_types(T)]
pub struct ForkFunction<
    'a,
    T: Measurable,
    F: MeasurableFn<Domain = T>,
    G: MeasurableFn<Domain = T>,
> {
    /// The function that gives the first part of the pair.
    pub left: &'a F,
    /// The function that gives the second part of the pair.
    pub right: &'a G,
}

impl<'a, T: Measurable, F: MeasurableFn<Domain = T>, G: MeasurableFn<Domain = T>> MeasurableFn
    for ForkFunction<'a, T, F, G> {
    type Domain = T;

    type Codomain = (F::Codomain, G::Codomain);

    open spec fn apply(&self, x: T) -> (F::Codomain, G::Codomain) {
        (self.left.apply(x), self.right.apply(x))
    }

    fn preimage(&self, s: &Vec<PairSubset<F::Codomain, G::Codomain>>) -> (r: T::Subset) {
        let mut parts: Vec<T::Subset> = Vec::new();
        let mut i: usize = 0;
        while i < s.len()
            invariant
                i <= s@.len(),
                parts@.len() == i,
                forall|k: int|
                    0 <= k < i ==> (#[trigger] parts@[k]).points() == Set::new(
                        |x: T| s@[k].points().contains(self.apply(x)),
                    ),
            decreases s@.len() - i,
        {
            let left = self.left.preimage(&s[i].left);
            let right = self.right.preimage(&s[i].right);
            let part = T::subset_intersect(&[T::subset_upcast(&left), T::subset_upcast(&right)]);
            proof {
                let sides = seq![&left, &right].map_values(|s: &T::Subset| s.points());
                assert(sides[0] == left.points() && sides[1] == right.points());
                assert forall|x: T|
                    part.points().contains(x) == s@[i as int].points().contains(self.apply(x)) by {
                    if left.points().contains(x) && right.points().contains(x) {
                        assert forall|k: int| 0 <= k < sides.len() implies (#[trigger] sides[k])
                            .contains(x) by {}
                    }
                    if part.points().contains(x) {
                        assert(sides[0].contains(x) && sides[1].contains(x));
                    }
                }
                assert(part.points() =~= Set::new(
                    |x: T| s@[i as int].points().contains(self.apply(x)),
                ));
            }
            parts.push(part);
            i += 1;
        }
        let mut borrowed: Vec<&T::Subset> = Vec::new();
        let mut j: usize = 0;
        while j < parts.len()
            invariant
                j <= parts@.len(),
                borrowed@.len() == j,
                forall|k: int| 0 <= k < j ==> *(#[trigger] borrowed@[k]) == parts@[k],
            decreases parts@.len() - j,
        {
            borrowed.push(&parts[j]);
            j += 1;
        }
        let r = T::subset_union(borrowed.as_slice());
        proof {
            let sets = borrowed@.map_values(|s: &T::Subset| s.points());
            assert forall|x: T| r.points().contains(x) == s.points().contains(self.apply(x)) by {
                if union_of(sets).contains(x) {
                    let k = choose|k: int| 0 <= k < sets.len() && (#[trigger] sets[k]).contains(x);
                    assert(parts@[k].points().contains(x));
                    assert(s@[k].points().contains(self.apply(x)));
                }
                if pair_points(s@).contains(self.apply(x)) {
                    let k = choose|k: int|
                        0 <= k < s@.len() && (#[trigger] s@[k]).points().contains(self.apply(x));
                    assert(parts@[k].points().contains(x));
                    assert(sets[k].contains(x));
                }
            }
            assert(r.points() =~= Set::new(|x: T| s.points().contains(self.apply(x))));
        }
        r
    }
}

impl<T: Measurable, U: Measurable> SigmaAlgebra for Vec<PairSubset<T, U>> {
    type Space = (T, U);

    open spec fn points(&self) -> Set<(T, U)> {
        pair_points(self@)
    }

    fn empty() -> (r: Self) {
        let mut r: Vec<PairSubset<T, U>> = Vec::new();
        r.push(PairSubset { left: T::empty_subset(), right: U::empty_subset() });
        assert(pair_points(r@) =~= Set::<(T, U)>::empty());
        r
    }

    fn full() -> (r: Self) {
        let mut r: Vec<PairSubset<T, U>> = Vec::new();
        r.push(PairSubset { left: T::full_subset(), right: U::full_subset() });
        assert forall|p: (T, U)| pair_points(r@).contains(p) by {
            assert(r@[0].points().contains(p));
        }
        assert(pair_points(r@) =~= Set::<(T, U)>::full());
        r
    }

    fn is_empty(&self) -> (b: bool) {
        let mut i: usize = 0;
        proof {
            pair_points_of_none::<T, U>();
            assert(self@.take(0) =~= Seq::empty());
        }
        while i < self.len()
            invariant
                i <= self@.len(),
                pair_points(self@.take(i as int)) == Set::<(T, U)>::empty(),
            decreases self@.len() - i,
        {
            if !self[i].is_empty() {
                proof {
                    let p = choose|p: (T, U)| self@[i as int].points().contains(p);
                    assert(!(self@[i as int].points() =~= Set::<(T, U)>::empty()));
                    assert(pair_points(self@).contains(p));
                }
                return false;
            }
            proof {
                pair_points_of_next(self@, i as int);
            }
            i += 1;
        }
        proof {
            assert(self@.take(self@.len() as int) =~= self@);
        }
        true
    }

    fn complement(&self) -> (r: Self) {
        let mut r = Self::full();
        let mut i: usize = 0;
        proof {
            pair_points_of_none::<T, U>();
            assert(self@.take(0) =~= Seq::empty());
        }
        while i < self.len()
            invariant
                i <= self@.len(),
                pair_points(r@) == pair_points(self@.take(i as int)).complement(),
            decreases self@.len() - i,
        {
            let outside = self[i].outside();
            proof {
                pair_points_of_next(self@, i as int);
            }
            r = meet_all(&r, &outside);
            i += 1;
        }
        proof {
            assert(self@.take(self@.len() as int) =~= self@);
        }
        r
    }

    fn union(subsets: &[&Self]) -> (r: Self) {
        let mut r: Vec<PairSubset<T, U>> = Vec::new();
        let ghost sets = subsets@.map_values(|s: &Self| s.points());
        let mut i: usize = 0;
        proof {
            pair_points_of_none::<T, U>();
            assert(union_of(sets.take(0)) =~= Set::<(T, U)>::empty());
        }
        while i < subsets.len()
            invariant
                i <= subsets@.len(),
                sets == subsets@.map_values(|s: &Self| s.points()),
                pair_points(r@) == union_of(sets.take(i as int)),
            decreases subsets@.len() - i,
        {
            let s = subsets[i];
            let ghost before = r@;
            let mut j: usize = 0;
            proof {
                assert(s@.take(0) =~= Seq::empty());
            }
            while j < s.len()
                invariant
                    j <= s@.len(),
                    pair_points(r@) == pair_points(before).union(pair_points(s@.take(j as int))),
                decreases s@.len() - j,
            {
                let part = s[j].duplicate();
                proof {
                    pair_points_of_more(r@, part);
                    pair_points_of_next(s@, j as int);
                }
                r.push(part);
                j += 1;
            }
            proof {
                assert(s@.take(s@.len() as int) =~= s@);
                union_of_next(sets, i as int);
            }
            i += 1;
        }
        proof {
            assert(sets.take(sets.len() as int) =~= sets);
        }
        r
    }

    fn intersection(subsets: &[&Self]) -> (r: Self) {
        let mut r = Self::full();
        let ghost sets = subsets@.map_values(|s: &Self| s.points());
        let mut i: usize = 0;
        proof {
            assert(intersection_of(sets.take(0)) =~= Set::<(T, U)>::full());
        }
        while i < subsets.len()
            invariant
                i <= subsets@.len(),
                sets == subsets@.map_values(|s: &Self| s.points()),
                pair_points(r@) == intersection_of(sets.take(i as int)),
            decreases subsets@.len() - i,
        {
            proof {
                intersection_of_next(sets, i as int);
            }
            r = meet_all(&r, subsets[i]);
            i += 1;
        }
        proof {
            assert(sets.take(sets.len() as int) =~= sets);
        }
        r
    }

    fn duplicate(&self) -> (r: Self) {
        let mut r: Vec<PairSubset<T, U>> = Vec::new();
        let mut i: usize = 0;
        proof {
            assert(self@.take(0) =~= Seq::empty());
            assert(pair_points(r@) =~= pair_points(self@.take(0)));
        }
        while i < self.len()
            invariant
                i <= self@.len(),
                pair_points(r@) == pair_points(self@.take(i as int)),
            decreases self@.len() - i,
        {
            let part = self[i].duplicate();
            proof {
                pair_points_of_more(r@, part);
                pair_points_of_next(self@, i as int);
            }
            r.push(part);
            i += 1;
        }
        proof {
            assert(self@.take(self@.len() as int) =~= self@);
        }
        r
    }
}

impl<T: Measurable, U: Measurable> Measurable for (T, U) {
    type Subset = Vec<PairSubset<T, U>>;

    fn subset_upcast<'a>(s: &'a Vec<PairSubset<T, U>>) -> (r: &'a Vec<PairSubset<T, U>>) {
        s
    }
}

impl<T: PointMeasurable, U: PointMeasurable> PointMeasurable for (T, U) {
    fn point_subset(&self) -> (r: Vec<PairSubset<T, U>>) {
        let left = T::point_subset(&self.0);
        let right = U::point_subset(&self.1);
        let mut r: Vec<PairSubset<T, U>> = Vec::new();
        r.push(PairSubset { left, right });
        proof {
            assert(r@[0].points().contains(*self));
            assert(pair_points(r@) =~= set![*self]);
        }
        r
    }
}

} // verus!
