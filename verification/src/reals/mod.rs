//! Facilities for working with real numbers.
use vstd::prelude::*;

pub mod dirac;
pub mod gaussian;
pub mod line;
pub mod ratio;

pub use line::{RealDistribution, RealSet, RealSubset, Shape};

verus! {

/// A type that represents real numbers.
///
/// A value either stands for a real number, and is then called finite, or
/// marks the outcome of an operation whose result the type cannot hold. Every
/// operation is a function of its operands, and whenever its result is finite
/// it is the exact result over the reals.
pub trait Real: Sized + Copy {
    /// Whether the value stands for a real number.
    spec fn finite(self) -> bool;

    /// The real number that a finite value stands for.
    spec fn value(self) -> real;

    /// The representation of zero.
    spec fn zero_spec() -> Self;

    /// The representation of one.
    spec fn one_spec() -> Self;

    /// A value that is not finite.
    spec fn infinity_spec() -> Self;

    /// What `add` returns.
    spec fn add_spec(self, rhs: Self) -> Self;

    /// What `sub` returns.
    spec fn sub_spec(self, rhs: Self) -> Self;

    /// What `mul` returns.
    spec fn mul_spec(self, rhs: Self) -> Self;

    /// What `recip` returns.
    spec fn recip_spec(self) -> Self;

    /// What `same` returns.
    spec fn same_spec(self, rhs: Self) -> bool;

    /// Zero is finite and stands for 0.
    proof fn zero_is_exact()
        ensures
            Self::zero_spec().finite(),
            Self::zero_spec().value() == 0real,
    ;

    /// One is finite and stands for 1.
    proof fn one_is_exact()
        ensures
            Self::one_spec().finite(),
            Self::one_spec().value() == 1real,
    ;

    /// Infinity is not finite.
    proof fn infinity_is_not_finite()
        ensures
            !Self::infinity_spec().finite(),
    ;

    /// A finite sum has finite operands and is their sum over the reals.
    proof fn add_is_exact(a: Self, b: Self)
        requires
            a.add_spec(b).finite(),
        ensures
            a.finite(),
            b.finite(),
            a.add_spec(b).value() == a.value() + b.value(),
    ;

    /// A finite difference has finite operands and is their difference over
    /// the reals.
    proof fn sub_is_exact(a: Self, b: Self)
        requires
            a.sub_spec(b).finite(),
        ensures
            a.finite(),
            b.finite(),
            a.sub_spec(b).value() == a.value() - b.value(),
    ;

    /// A finite product has finite operands and is their product over the
    /// reals.
    proof fn mul_is_exact(a: Self, b: Self)
        requires
            a.mul_spec(b).finite(),
        ensures
            a.finite(),
            b.finite(),
            a.mul_spec(b).value() == a.value() * b.value(),
    ;

    /// A finite reciprocal is that of a finite, non-zero value, and is its
    /// reciprocal over the reals.
    proof fn recip_is_exact(a: Self)
        requires
            a.recip_spec().finite(),
        ensures
            a.finite(),
            a.value() != 0real,
            a.recip_spec().value() * a.value() == 1real,
    ;

    /// On finite values `same` is equality over the reals.
    proof fn same_is_exact(a: Self, b: Self)
        requires
            a.finite(),
            b.finite(),
        ensures
            a.same_spec(b) <==> a.value() == b.value(),
    ;

    /// Zero.
    fn zero() -> (r: Self)
        ensures
            r == Self::zero_spec(),
    ;

    /// One.
    fn one() -> (r: Self)
        ensures
            r == Self::one_spec(),
    ;

    /// A value that is not finite.
    fn infinity() -> (r: Self)
        ensures
            r == Self::infinity_spec(),
    ;

    /// Whether the value stands for a real number.
    fn is_finite(self) -> (b: bool)
        ensures
            b == self.finite(),
    ;

    /// The sum of two values.
    fn add(self, rhs: Self) -> (r: Self)
        ensures
            r == self.add_spec(rhs),
    ;

    /// The difference of two values.
    fn sub(self, rhs: Self) -> (r: Self)
        ensures
            r == self.sub_spec(rhs),
    ;

    /// The product of two values.
    fn mul(self, rhs: Self) -> (r: Self)
        ensures
            r == self.mul_spec(rhs),
    ;

    /// The reciprocal of a value.
    fn recip(self) -> (r: Self)
        ensures
            r == self.recip_spec(),
    ;

    /// Whether two values stand for the same number.
    fn same(self, rhs: Self) -> (b: bool)
        ensures
            b == self.same_spec(rhs),
    ;
}

/// The sum of the numbers, added up from zero in their order.
pub open spec fn total<R: Real>(nums: Seq<R>) -> R {
    nums.fold_left(R::zero_spec(), |sum: R, x: R| sum.add_spec(x))
}

/// The factor by which normalizing rescales the numbers: the reciprocal of
/// their sum.
pub open spec fn scale_factor<R: Real>(nums: Seq<R>) -> R {
    total(nums).recip_spec()
}

/// The numbers, each multiplied by the factor.
pub open spec fn scaled<R: Real>(nums: Seq<R>, factor: R) -> Seq<R> {
    Seq::new(nums.len(), |i: int| nums[i].mul_spec(factor))
}

/// The numbers after normalizing: each multiplied by the scale factor when
/// that is finite, and as they were when it is not.
pub open spec fn normalized<R: Real>(nums: Seq<R>) -> Seq<R> {
    if scale_factor(nums).finite() {
        scaled(nums, scale_factor(nums))
    } else {
        nums
    }
}

/// The sum over the reals of the numbers that the values stand for.
pub open spec fn sum_of_values<R: Real>(nums: Seq<R>) -> real
    decreases nums.len(),
{
    if nums.len() == 0 {
        0real
    } else {
        sum_of_values(nums.drop_last()) + nums.last().value()
    }
}

/// The sum of numbers of which the last is `x` is the sum of those before it,
/// plus `x`.
pub proof fn total_of_more<R: Real>(nums: Seq<R>, x: R)
    ensures
        total(nums.push(x)) == total(nums).add_spec(x),
{
    assert(nums.push(x).drop_last() =~= nums);
}

/// The sum of one number is zero plus that number.
pub proof fn total_of_one<R: Real>(a: R)
    ensures
        total(seq![a]) == R::zero_spec().add_spec(a),
{
    total_of_more(Seq::<R>::empty(), a);
    assert(seq![a] =~= Seq::<R>::empty().push(a));
}

/// The sum of two numbers is zero plus the first, plus the second.
pub proof fn total_of_two<R: Real>(a: R, b: R)
    ensures
        total(seq![a, b]) == R::zero_spec().add_spec(a).add_spec(b),
{
    total_of_one(a);
    total_of_more(seq![a], b);
    assert(seq![a, b] =~= seq![a].push(b));
}

/// A finite sum is a sum of finite numbers, and stands for the sum over the
/// reals of the numbers that they stand for.
pub proof fn total_is_exact<R: Real>(nums: Seq<R>)
    requires
        total(nums).finite(),
    ensures
        forall|i: int| 0 <= i < nums.len() ==> (#[trigger] nums[i]).finite(),
        total(nums).value() == sum_of_values(nums),
    decreases nums.len(),
{
    if nums.len() == 0 {
        R::zero_is_exact();
    } else {
        let front = nums.drop_last();
        R::add_is_exact(total(front), nums.last());
        total_is_exact(front);
        assert forall|i: int| 0 <= i < nums.len() implies (#[trigger] nums[i]).finite() by {
            if i < front.len() {
                assert(nums[i] == front[i]);
            }
        }
    }
}

/// Numbers that all stand for zero do not normalize: the reciprocal of their
/// sum is not finite.
pub proof fn zeros_do_not_normalize<R: Real>(nums: Seq<R>)
    requires
        forall|i: int| 0 <= i < nums.len() ==> (#[trigger] nums[i]).value() == 0real,
    ensures
        !scale_factor(nums).finite(),
{
    if scale_factor(nums).finite() {
        R::recip_is_exact(total(nums));
        total_is_exact(nums);
        sum_of_zeros(nums);
    }
}

/// Numbers that all stand for zero sum to zero over the reals.
proof fn sum_of_zeros<R: Real>(nums: Seq<R>)
    requires
        forall|i: int| 0 <= i < nums.len() ==> (#[trigger] nums[i]).value() == 0real,
    ensures
        sum_of_values(nums) == 0real,
    decreases nums.len(),
{
    if nums.len() > 0 {
        let front = nums.drop_last();
        assert forall|i: int| 0 <= i < front.len() implies (#[trigger] front[i]).value()
            == 0real by {
            assert(front[i] == nums[i]);
        }
        sum_of_zeros(front);
    }
}

/// Finite multiples of numbers by one factor sum to that factor times the sum
/// of the numbers.
pub proof fn scaled_sum_is_scaled<R: Real>(nums: Seq<R>, factor: R)
    requires
        forall|i: int| 0 <= i < nums.len() ==> (#[trigger] scaled(nums, factor)[i]).finite(),
    ensures
        sum_of_values(scaled(nums, factor)) == factor.value() * sum_of_values(nums),
    decreases nums.len(),
{
    if nums.len() == 0 {
        assert(factor.value() * 0real == 0real) by (nonlinear_arith);
    } else {
        let front = nums.drop_last();
        assert(scaled(nums, factor).drop_last() =~= scaled(front, factor));
        assert forall|i: int| 0 <= i < front.len() implies (#[trigger] scaled(
            front,
            factor,
        )[i]).finite() by {
            assert(scaled(front, factor)[i] == scaled(nums, factor)[i]);
        }
        scaled_sum_is_scaled(front, factor);
        assert(scaled(nums, factor).last() == scaled(nums, factor)[nums.len() - 1]);
        R::mul_is_exact(nums.last(), factor);
        let (f, a, b) = (factor.value(), sum_of_values(front), nums.last().value());
        assert(f * a + b * f == f * (a + b)) by (nonlinear_arith);
    }
}

/// Normalized numbers sum to one: where the numbers normalize, and to finite
/// numbers, the numbers that these stand for sum to one.
pub proof fn normalized_sum_is_one<R: Real>(nums: Seq<R>)
    requires
        scale_factor(nums).finite(),
        forall|i: int| 0 <= i < nums.len() ==> (#[trigger] normalized(nums)[i]).finite(),
    ensures
        sum_of_values(normalized(nums)) == 1real,
{
    R::recip_is_exact(total(nums));
    total_is_exact(nums);
    assert forall|i: int| 0 <= i < nums.len() implies (#[trigger] scaled(
        nums,
        scale_factor(nums),
    )[i]).finite() by {
        assert(normalized(nums)[i].finite());
    }
    scaled_sum_is_scaled(nums, scale_factor(nums));
}

/// Rescales the numbers in place so that they sum to one.
///
/// Fails, and leaves the numbers as they were, when the reciprocal of their
/// sum is not finite.
pub fn normalize<R: Real>(nums: &mut [R]) -> (r: Option<()>)
    ensures
        r is Some <==> scale_factor(old(nums)@).finite(),
        final(nums)@ == normalized(old(nums)@),
{
    let ghost before = nums@;
    let n = nums.len();
    let mut sum = R::zero();
    let mut i: usize = 0;
    assert(before.take(0) =~= Seq::empty());
    while i < n
        invariant
            nums@ == before,
            n == before.len(),
            i <= n,
            sum == total(before.take(i as int)),
        decreases n - i,
    {
        assert(before.take(i + 1).drop_last() =~= before.take(i as int));
        sum = sum.add(nums[i]);
        i += 1;
    }
    assert(before.take(n as int) =~= before);
    let factor = sum.recip();
    if !factor.is_finite() {
        return None;
    }
    let mut j: usize = 0;
    while j < n
        invariant
            n == nums@.len(),
            n == before.len(),
            j <= n,
            forall|k: int| 0 <= k < j ==> nums@[k] == (#[trigger] before[k]).mul_spec(factor),
            forall|k: int| j <= k < n ==> nums@[k] == before[k],
        decreases n - j,
    {
        nums[j] = nums[j].mul(factor);
        j += 1;
    }
    assert(nums@ =~= normalized(before));
    Some(())
}

/// Rescales the numbers of an array so that they sum to one.
///
/// Fails when the reciprocal of their sum is not finite.
pub fn normalize_static<R: Real, const N: usize>(nums: [R; N]) -> (r: Option<[R; N]>)
    ensures
        r is Some <==> scale_factor(nums@).finite(),
        r matches Some(a) ==> a@ == normalized(nums@),
{
    let mut nums = nums;
    match normalize(&mut nums) {
        Some(_) => Some(nums),
        None => None,
    }
}

} // verus!
