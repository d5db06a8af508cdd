//! The algebra of the measurable subsets of a space.
use vstd::prelude::*;

verus! {

/// The points that lie in at least one of the sets.
pub open spec fn union_of<T>(sets: Seq<Set<T>>) -> Set<T> {
    Set::new(|p: T| exists|i: int| 0 <= i < sets.len() && #[trigger] sets[i].contains(p))
}

/// The points that lie in every one of the sets.
pub open spec fn intersection_of<T>(sets: Seq<Set<T>>) -> Set<T> {
    Set::new(|p: T| forall|i: int| 0 <= i < sets.len() ==> #[trigger] sets[i].contains(p))
}

/// The union of the first `i + 1` sets is the union of the first `i` with the
/// one that follows them.
pub proof fn union_of_next<A>(sets: Seq<Set<A>>, i: int)
    requires
        0 <= i < sets.len(),
    ensures
        union_of(sets.take(i + 1)) == union_of(sets.take(i)).union(sets[i]),
{
    let (more, fewer) = (sets.take(i + 1), sets.take(i));
    assert forall|p: A| union_of(more).contains(p) == union_of(fewer).union(sets[i]).contains(
        p,
    ) by {
        if union_of(more).contains(p) {
            let k = choose|k: int| 0 <= k < more.len() && (#[trigger] more[k]).contains(p);
            if k < i {
                assert(fewer[k].contains(p));
            }
        }
        if union_of(fewer).contains(p) {
            let k = choose|k: int| 0 <= k < fewer.len() && (#[trigger] fewer[k]).contains(p);
            assert(more[k].contains(p));
        }
        if sets[i].contains(p) {
            assert(more[i].contains(p));
        }
    }
}

/// The intersection of the first `i + 1` sets is the intersection of the
/// first `i` with the one that follows them.
pub proof fn intersection_of_next<A>(sets: Seq<Set<A>>, i: int)
    requires
        0 <= i < sets.len(),
    ensures
        intersection_of(sets.take(i + 1)) == intersection_of(sets.take(i)).intersect(sets[i]),
{
    let (more, fewer) = (sets.take(i + 1), sets.take(i));
    assert forall|p: A|
        intersection_of(more).contains(p) == intersection_of(fewer).intersect(sets[i]).contains(
            p,
        ) by {
        if intersection_of(more).contains(p) {
            assert forall|k: int| 0 <= k < fewer.len() implies (#[trigger] fewer[k]).contains(
                p,
            ) by {
                assert(more[k].contains(p));
            }
            assert(more[i].contains(p));
        }
        if intersection_of(fewer).contains(p) && sets[i].contains(p) {
            assert forall|k: int| 0 <= k < more.len() implies (#[trigger] more[k]).contains(p) by {
                if k < i {
                    assert(fewer[k].contains(p));
                }
            }
        }
    }
}

/// A [σ-algebra](https://en.wikipedia.org/wiki/%CE%A3-algebra) over a given
/// space: the type of its measurable subsets, closed under complement, finite
/// union and finite intersection.
///
/// What a subset is, is the set of its points; two subsets with the same
/// points are the same subset, however they are represented.
pub trait SigmaAlgebra: Sized {
    /// The space over which the σ-algebra is defined.
    type Space;

    /// The points of the space that lie in the subset.
    spec fn points(&self) -> Set<Self::Space>;

    /// Computes the empty subset.
    fn empty() -> (r: Self)
        ensures
            r.points() == Set::<Self::Space>::empty(),
    ;

    /// Computes the full subset.
    fn full() -> (r: Self)
        ensures
            r.points() == Set::<Self::Space>::full(),
    ;

    /// Checks whether the given subset is the empty subset.
    fn is_empty(&self) -> (b: bool)
        ensures
            b <==> self.points() == Set::<Self::Space>::empty(),
    ;

    /// Computes the complement of a subset.
    fn complement(&self) -> (r: Self)
        ensures
            r.points() == self.points().complement(),
    ;

    /// Computes the union of a finite collection of subsets.
    fn union(subsets: &[&Self]) -> (r: Self)
        ensures
            r.points() == union_of(subsets@.map_values(|s: &Self| s.points())),
    ;

    /// Computes the intersection of a finite collection of subsets.
    ///
    /// Unless an algebra supplies its own, the intersection is the complement
    /// of the union of the complements.
    fn intersection(subsets: &[&Self]) -> (r: Self)
        ensures
            r.points() == intersection_of(subsets@.map_values(|s: &Self| s.points())),
    {
        let n = subsets.len();
        let mut outside: Vec<Self> = Vec::new();
        let mut i: usize = 0;
        while i < n
            invariant
                n == subsets@.len(),
                i <= n,
                outside@.len() == i,
                forall|k: int|
                    0 <= k < i ==> (#[trigger] outside@[k]).points() == subsets@[k].points().complement(),
            decreases n - i,
        {
            outside.push(subsets[i].complement());
            i += 1;
        }
        let mut borrowed: Vec<&Self> = Vec::new();
        let mut j: usize = 0;
        while j < n
            invariant
                n == outside@.len(),
                j <= n,
                borrowed@.len() == j,
                forall|k: int| 0 <= k < j ==> *(#[trigger] borrowed@[k]) == outside@[k],
            decreases n - j,
        {
            borrowed.push(&outside[j]);
            j += 1;
        }
        let joined = Self::union(borrowed.as_slice());
        let result = joined.complement();
        proof {
            let sets = subsets@.map_values(|s: &Self| s.points());
            let others = borrowed@.map_values(|s: &Self| s.points());
            assert forall|p: Self::Space|
                result.points().contains(p) == intersection_of(sets).contains(p) by {
                if intersection_of(sets).contains(p) {
                    if union_of(others).contains(p) {
                        let k = choose|k: int| 0 <= k < others.len() && #[trigger] others[k].contains(p);
                        assert(sets[k].contains(p));
                    }
                } else {
                    let k = choose|k: int| 0 <= k < sets.len() && !(#[trigger] sets[k].contains(p));
                    assert(others[k].contains(p));
                }
            }
        }
        result
    }

    /// Makes another subset with the same points.
    fn duplicate(&self) -> (r: Self)
        ensures
            r.points() == self.points(),
    ;

    /// Computes the empty subset and hands it to the continuation, once; what
    /// the continuation returns is returned.
    fn with_empty<U, F: FnOnce(&Self) -> U>(f: F) -> (r: U)
        requires
            forall|s: Self| s.points() == Set::<Self::Space>::empty() ==> call_requires(f, (&s,)),
        ensures
            exists|s: Self|
                s.points() == Set::<Self::Space>::empty() && call_ensures(f, (&s,), r),
    {
        let s = Self::empty();
        f(&s)
    }

    /// Computes the full subset and hands it to the continuation, once; what
    /// the continuation returns is returned.
    fn with_full<U, F: FnOnce(&Self) -> U>(f: F) -> (r: U)
        requires
            forall|s: Self| s.points() == Set::<Self::Space>::full() ==> call_requires(f, (&s,)),
        ensures
            exists|s: Self| s.points() == Set::<Self::Space>::full() && call_ensures(f, (&s,), r),
    {
        let s = Self::full();
        f(&s)
    }

    /// Computes the complement of the subset and hands it to the
    /// continuation, once; what the continuation returns is returned.
    fn with_inversion<U, F: FnOnce(&Self) -> U>(&self, f: F) -> (r: U)
        requires
            forall|s: Self| s.points() == self.points().complement() ==> call_requires(f, (&s,)),
        ensures
            exists|s: Self|
                s.points() == self.points().complement() && call_ensures(f, (&s,), r),
    {
        let s = self.complement();
        f(&s)
    }
}

/// Complement is an involution: the complement of the complement of a subset
/// has the points of that subset.
///
/// Here `c` is any subset that `complement` may return for `s`, and `cc` any
/// that it may return for `c`.
pub proof fn complement_is_involution<A: SigmaAlgebra>(s: A, c: A, cc: A)
    requires
        call_ensures(A::complement, (&s,), c),
        call_ensures(A::complement, (&c,), cc),
    ensures
        cc.points() == s.points(),
{
    assert(cc.points() =~= s.points());
}

/// The empty and the full subset are each other's complement.
///
/// Here `e` and `f` are any subsets that `empty` and `full` may return, and
/// `ce` and `cf` any that `complement` may return for them.
pub proof fn empty_and_full_are_complements<A: SigmaAlgebra>(e: A, f: A, ce: A, cf: A)
    requires
        call_ensures(A::empty, (), e),
        call_ensures(A::full, (), f),
        call_ensures(A::complement, (&e,), ce),
        call_ensures(A::complement, (&f,), cf),
    ensures
        ce.points() == f.points(),
        cf.points() == e.points(),
{
    assert(ce.points() =~= f.points());
    assert(cf.points() =~= e.points());
}

/// The empty subset is found empty, and the full subset is not.
///
/// Here `e` and `f` are any subsets that `empty` and `full` may return, and
/// `be` and `bf` what `is_empty` may return for them.
pub proof fn empty_is_empty_and_full_is_not<A: SigmaAlgebra>(e: A, f: A, be: bool, bf: bool)
    requires
        call_ensures(A::empty, (), e),
        call_ensures(A::full, (), f),
        call_ensures(A::is_empty, (&e,), be),
        call_ensures(A::is_empty, (&f,), bf),
    ensures
        be,
        !bf,
{
    assert(f.points().contains(arbitrary()));
}

} // verus!
