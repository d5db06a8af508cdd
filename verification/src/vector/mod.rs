//! Facilities for working with vectors of real numbers.
use vstd::prelude::*;
use crate::reals::Real;

pub mod dirac;

verus! {

/// A vector of `D` real numbers.
pub type Vector<R, const D: usize> = [R; D];

/// Whether two vectors stand for the same point: whether their numbers are
/// the same, place by place.
pub open spec fn same_point<R: Real>(a: Seq<R>, b: Seq<R>) -> bool {
    &&& a.len() == b.len()
    &&& forall|i: int| 0 <= i < a.len() ==> (#[trigger] a[i]).same_spec(b[i])
}

/// Checks whether two vectors stand for the same point.
pub fn is_same_point<R: Real, const D: usize>(a: &Vector<R, D>, b: &Vector<R, D>) -> (r: bool)
    ensures
        r == same_point(a@, b@),
{
    let mut i: usize = 0;
    while i < D
        invariant
            i <= D,
            a@.len() == D,
            b@.len() == D,
            forall|k: int| 0 <= k < i ==> (#[trigger] a@[k]).same_spec(b@[k]),
        decreases D - i,
    {
        if !a[i].same(b[i]) {
            return false;
        }
        i += 1;
    }
    true
}

} // verus!
