use mes::reals::dirac::{Dirac, PDirac};
use mes::reals::gaussian::{Gaussian, PGaussian};
use mes::reals::ratio::Ratio;
use mes::reals::{normalize, normalize_static, Real, RealSet, RealSubset, Shape};
use mes::{DiracMeasure, Measurable, Measure, PointMeasure, SigmaAlgebra};

fn whole(n: i64) -> Ratio {
    Ratio::from_integer(n)
}

fn parts(r: Ratio) -> (i64, u64) {
    (r.num, r.den)
}

#[test]
fn ratio_constants() {
    assert_eq!(parts(Ratio::zero()), (0, 1));
    assert_eq!(parts(Ratio::one()), (1, 1));
    assert!(!Ratio::infinity().is_finite());
    assert!(Ratio::zero().is_finite());
    assert!(!Ratio::new(5, 0).is_finite());
}

#[test]
fn ratio_addition_is_in_lowest_terms() {
    assert_eq!(parts(Ratio::new(1, 2).add(Ratio::new(1, 3))), (5, 6));
    assert_eq!(parts(Ratio::new(1, 2).add(Ratio::new(1, 2))), (1, 1));
    assert_eq!(parts(Ratio::new(1, 6).add(Ratio::new(1, 3))), (1, 2));
    assert_eq!(parts(Ratio::new(-1, 2).add(Ratio::new(1, 2))), (0, 1));
}

#[test]
fn ratio_subtraction_is_in_lowest_terms() {
    assert_eq!(parts(Ratio::new(1, 2).sub(Ratio::new(1, 3))), (1, 6));
    assert_eq!(parts(Ratio::new(1, 3).sub(Ratio::new(1, 2))), (-1, 6));
    assert_eq!(parts(whole(1).sub(Ratio::new(3, 4))), (1, 4));
}

#[test]
fn ratio_multiplication_is_in_lowest_terms() {
    assert_eq!(parts(Ratio::new(2, 3).mul(Ratio::new(3, 4))), (1, 2));
    assert_eq!(parts(Ratio::new(-2, 3).mul(Ratio::new(3, 2))), (-1, 1));
    assert_eq!(parts(whole(0).mul(Ratio::new(3, 2))), (0, 1));
}

#[test]
fn ratio_reciprocal_exchanges_the_parts() {
    assert_eq!(parts(Ratio::new(3, 4).recip()), (4, 3));
    assert_eq!(parts(Ratio::new(-3, 4).recip()), (-4, 3));
    assert_eq!(parts(Ratio::new(6, 4).recip()), (2, 3));
    assert!(!whole(0).recip().is_finite());
    assert!(!Ratio::infinity().recip().is_finite());
}

#[test]
fn ratio_operations_on_what_is_not_finite_are_not_finite() {
    let bad = Ratio::new(1, 0);
    assert!(!bad.add(whole(1)).is_finite());
    assert!(!whole(1).add(bad).is_finite());
    assert!(!bad.sub(whole(1)).is_finite());
    assert!(!bad.mul(whole(1)).is_finite());
    assert!(!whole(0).mul(bad).is_finite());
}

#[test]
fn ratio_results_that_do_not_fit_are_not_finite() {
    let big = whole(i64::MAX);
    assert!(!big.add(big).is_finite());
    assert!(!big.mul(whole(2)).is_finite());
    assert!(!Ratio::new(1, u64::MAX).mul(Ratio::new(1, 2)).is_finite());
    assert!(!Ratio::new(1, u64::MAX).recip().is_finite());
    assert!(big.mul(Ratio::new(1, i64::MAX as u64)).is_finite());
    assert_eq!(parts(big.mul(Ratio::new(1, i64::MAX as u64))), (1, 1));
}

#[test]
fn ratio_least_numerator_is_folded_or_refused() {
    let least = Ratio::new(i64::MIN, 2);
    assert_eq!(parts(least.add(whole(0))), (i64::MIN / 2, 1));
    assert!(!Ratio::new(i64::MIN, 1).add(whole(0)).is_finite());
    assert_eq!(parts(Ratio::new(i64::MIN, 3).recip()), (-3, 1u64 << 63));
    assert!(!Ratio::new(3, 1u64 << 63).recip().is_finite());
}

#[test]
fn ratio_same_compares_the_numbers() {
    assert!(Ratio::new(1, 2).same(Ratio::new(2, 4)));
    assert!(!Ratio::new(1, 2).same(Ratio::new(2, 3)));
    assert!(!Ratio::new(1, 0).same(Ratio::new(1, 0)));
    assert!(Ratio::new(1, 2) == Ratio::new(3, 6));
    assert!(Ratio::new(1, 2) != Ratio::new(1, 3));
    assert!(Ratio::new(0, 5) == Ratio::zero());
}

#[test]
fn normalize_rescales_to_sum_one() {
    let mut nums = [whole(3), whole(1)];
    assert_eq!(normalize(&mut nums), Some(()));
    assert_eq!(parts(nums[0]), (3, 4));
    assert_eq!(parts(nums[1]), (1, 4));
    assert!(nums[0].add(nums[1]) == whole(1));
}

#[test]
fn normalize_of_three_numbers() {
    let mut nums = vec![whole(1), whole(2), whole(3)];
    assert_eq!(normalize(&mut nums), Some(()));
    assert_eq!(parts(nums[0]), (1, 6));
    assert_eq!(parts(nums[1]), (1, 3));
    assert_eq!(parts(nums[2]), (1, 2));
}

#[test]
fn normalize_fails_on_zero_sum_and_leaves_the_numbers() {
    let mut nums = [whole(0), whole(0)];
    assert_eq!(normalize(&mut nums), None);
    assert_eq!(parts(nums[0]), (0, 1));
    assert_eq!(parts(nums[1]), (0, 1));
    let mut cancel = [whole(5), whole(-5)];
    assert_eq!(normalize(&mut cancel), None);
    assert_eq!(parts(cancel[0]), (5, 1));
    assert_eq!(parts(cancel[1]), (-5, 1));
}

#[test]
fn normalize_fails_on_no_numbers() {
    let mut nums: [Ratio; 0] = [];
    assert_eq!(normalize(&mut nums), None);
}

#[test]
fn normalize_fails_on_a_number_that_is_not_finite() {
    let mut nums = [whole(1), Ratio::new(1, 0)];
    assert_eq!(normalize(&mut nums), None);
    assert_eq!(parts(nums[0]), (1, 1));
    assert_eq!(parts(nums[1]), (1, 0));
}

#[test]
fn normalize_with_negative_sum_still_sums_to_one() {
    let mut nums = [whole(-3), whole(1)];
    assert_eq!(normalize(&mut nums), Some(()));
    assert_eq!(parts(nums[0]), (3, 2));
    assert_eq!(parts(nums[1]), (-1, 2));
}

#[test]
fn normalize_static_returns_the_rescaled_array() {
    let scaled = normalize_static([whole(3), whole(1)]).unwrap();
    assert_eq!(parts(scaled[0]), (3, 4));
    assert_eq!(parts(scaled[1]), (1, 4));
    assert!(normalize_static([whole(0)]).is_none());
    let one = normalize_static([whole(7)]).unwrap();
    assert_eq!(parts(one[0]), (1, 1));
}

#[test]
fn real_line_empty_and_full() {
    let empty = <Ratio as Measurable>::empty_subset();
    let full = <Ratio as Measurable>::full_subset();
    assert!(RealSubset::is_empty(&empty));
    assert!(!empty.is_full());
    assert!(!empty.contains(&whole(3)));
    assert!(!RealSubset::is_empty(&full));
    assert!(full.is_full());
    assert!(full.contains(&whole(3)));
    assert!(Ratio::subset_is_empty(&empty));
    assert!(!Ratio::subset_is_empty(&full));
}

#[test]
fn real_line_complement() {
    let empty = RealSet::<Ratio>::empty();
    let full = RealSet::<Ratio>::full();
    let c = empty.complement();
    assert!(c.is_full() && c.contains(&whole(0)));
    assert!(matches!(c.shape, Shape::Inverse(_)));
    let cc = c.complement();
    assert!(SigmaAlgebra::is_empty(&cc) && !cc.contains(&whole(0)));
    assert!(SigmaAlgebra::is_empty(&full.complement()));
    assert!(full.complement().complement().is_full());
}

#[test]
fn real_line_union_and_intersection() {
    let empty = RealSet::<Ratio>::empty();
    let full = RealSet::<Ratio>::full();
    let u = RealSet::union(&[&empty, &full]);
    assert!(u.is_full() && u.contains(&whole(1)));
    assert!(matches!(u.shape, Shape::Union(_)));
    let none = RealSet::union(&[&empty, &empty]);
    assert!(SigmaAlgebra::is_empty(&none) && !none.is_full());
    assert!(SigmaAlgebra::is_empty(&RealSet::<Ratio>::union(&[])));
    let both = RealSet::intersection(&[&full, &full]);
    assert!(both.is_full());
    let either = RealSet::intersection(&[&full, &empty]);
    assert!(SigmaAlgebra::is_empty(&either));
    assert!(RealSet::<Ratio>::intersection(&[]).is_full());
    let nested = RealSet::union(&[&none, &u.complement(), &either.complement()]);
    assert!(nested.is_full());
}

#[test]
fn real_line_duplicate_keeps_the_shape() {
    let empty = RealSet::<Ratio>::empty();
    let full = RealSet::<Ratio>::full();
    let u = RealSet::union(&[&empty, &full.complement()]);
    let d = u.duplicate();
    assert_eq!(format!("{:?}", d.shape), format!("{:?}", u.shape));
    assert!(SigmaAlgebra::is_empty(&d));
}

#[test]
fn dirac_measures_the_subsets_that_hold_its_point() {
    let d = Dirac { point: whole(2), weight: whole(5) };
    assert!(d.measure(&RealSet::full()) == whole(5));
    assert!(d.measure(&RealSet::empty()) == whole(0));
}

#[test]
fn dirac_point_measure_is_infinite_at_the_point() {
    let d = Dirac { point: Ratio::new(1, 2), weight: whole(5) };
    assert!(!d.measure_at(&Ratio::new(2, 4)).is_finite());
    assert!(d.measure_at(&whole(1)) == whole(0));
}

#[test]
fn dirac_normalizes_to_its_point() {
    let d = Dirac { point: whole(2), weight: whole(5) };
    let p = d.normalize().unwrap();
    assert!(p.point == whole(2));
    assert!((d * whole(3)).normalize().unwrap().point == whole(2));
    assert!(Dirac { point: whole(2), weight: whole(0) }.normalize().is_none());
    assert!(Dirac { point: whole(2), weight: Ratio::infinity() }.normalize().is_none());
}

#[test]
fn dirac_round_trip_and_construction() {
    let d = Dirac::from(PDirac { point: whole(7) });
    assert!(d.point == whole(7) && d.weight == whole(1));
    assert!(d.normalize().unwrap().point == whole(7));
    let e = Dirac::<Ratio>::dirac(&whole(3));
    assert!(e.point == whole(3) && e.weight == whole(1));
}

#[test]
fn dirac_scales_its_weight() {
    let d = Dirac { point: whole(2), weight: whole(5) };
    let s = d * Ratio::new(1, 10);
    assert_eq!(parts(s.weight), (1, 2));
    assert!(s.point == whole(2));
    let mut t = d;
    t.mul_assign(Ratio::new(1, 10));
    assert_eq!(parts(t.weight), (1, 2));
}

#[test]
fn gaussian_from_dirac_has_no_variance() {
    let g = Gaussian::from(Dirac { point: whole(2), weight: whole(5) });
    assert!(g.distribution.mean == whole(2));
    assert!(g.distribution.variance == whole(0));
    assert!(g.weight == whole(5));
}

#[test]
fn gaussian_from_distribution_has_weight_one() {
    let p = PGaussian { mean: whole(1), variance: whole(4) };
    let g = Gaussian::from(p);
    assert!(g.weight == whole(1));
    let q = g.normalize().unwrap();
    assert!(q.mean == whole(1) && q.variance == whole(4));
}

#[test]
fn gaussian_normalizes_to_its_distribution_whatever_the_scale() {
    let g = Gaussian { distribution: PGaussian { mean: whole(1), variance: whole(4) }, weight: whole(3) };
    let p = g.normalize().unwrap();
    let q = (g * Ratio::new(2, 9)).normalize().unwrap();
    assert!(p.mean == q.mean && p.variance == q.variance);
    let mut zero = g;
    zero.mul_assign(whole(0));
    assert!(zero.normalize().is_none());
}

#[test]
fn gaussian_measures_the_whole_line_by_its_weight() {
    let g = Gaussian { distribution: PGaussian { mean: whole(1), variance: whole(4) }, weight: whole(3) };
    assert!(g.measure(&RealSet::full()) == whole(3));
    assert!(g.measure(&RealSet::empty()) == whole(0));
}

#[test]
fn gaussian_distributions_add_part_by_part() {
    let a = PGaussian { mean: whole(1), variance: whole(4) };
    let b = PGaussian { mean: Ratio::new(1, 2), variance: whole(1) };
    let sum = a + b;
    assert_eq!(parts(sum.mean), (3, 2));
    assert_eq!(parts(sum.variance), (5, 1));
    let mut c = a;
    c.add_assign(b);
    assert_eq!(parts(c.mean), (3, 2));
    assert_eq!(parts(c.variance), (5, 1));
}
