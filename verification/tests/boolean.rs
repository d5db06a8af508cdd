use mes::boolean::{BoolFunction, BoolMeasure, BoolPMeasure, BoolSubset};
use mes::reals::ratio::Ratio;
use mes::reals::Real;
use mes::{DiracMeasure, Measurable, MeasurableFn, Measure, PointMeasurable, PointMeasure, SigmaAlgebra};

fn subset(includes_true: bool, includes_false: bool) -> BoolSubset {
    BoolSubset { includes_true, includes_false }
}

fn all_subsets() -> Vec<BoolSubset> {
    vec![subset(false, false), subset(true, false), subset(false, true), subset(true, true)]
}

fn whole(n: i64) -> Ratio {
    Ratio::from_integer(n)
}

#[test]
fn empty_subset_includes_nothing() {
    let s = bool::empty_subset();
    assert_eq!(s, subset(false, false));
    assert_eq!(BoolSubset::empty(), subset(false, false));
}

#[test]
fn full_subset_includes_both() {
    let s = bool::full_subset();
    assert_eq!(s, subset(true, true));
    assert_eq!(BoolSubset::full(), subset(true, true));
}

#[test]
fn only_the_empty_subset_is_empty() {
    assert!(bool::subset_is_empty(&subset(false, false)));
    assert!(!bool::subset_is_empty(&subset(true, false)));
    assert!(!bool::subset_is_empty(&subset(false, true)));
    assert!(!bool::subset_is_empty(&subset(true, true)));
}

#[test]
fn complement_flips_both_flags() {
    assert_eq!(bool::subset_complement(&subset(true, false)), subset(false, true));
    assert_eq!(subset(true, false).not(), subset(false, true));
    assert_eq!(subset(false, false).complement(), subset(true, true));
}

#[test]
fn complement_twice_is_the_subset() {
    for s in all_subsets() {
        assert_eq!(s.complement().complement(), s);
    }
}

#[test]
fn empty_and_full_are_complements() {
    assert_eq!(BoolSubset::empty().complement(), BoolSubset::full());
    assert_eq!(BoolSubset::full().complement(), BoolSubset::empty());
    assert!(BoolSubset::empty().is_empty());
    assert!(!BoolSubset::full().is_empty());
}

#[test]
fn point_subset_of_true_complements_to_false() {
    let s = true.point_subset();
    assert_eq!(s, subset(true, false));
    let c = bool::subset_complement(&s);
    assert!(!c.includes_true && c.includes_false);
    assert_eq!(false.point_subset(), subset(false, true));
}

#[test]
fn union_of_both_points_is_full() {
    let t = true.point_subset();
    let f = false.point_subset();
    let u = bool::subset_union(&[bool::subset_upcast(&t), bool::subset_upcast(&f)]);
    assert_eq!(u, bool::full_subset());
}

#[test]
fn union_stops_once_full_and_ignores_the_rest() {
    let t = subset(true, false);
    let f = subset(false, true);
    let e = subset(false, false);
    assert_eq!(BoolSubset::union(&[&t, &f, &e, &e, &t]), subset(true, true));
    assert_eq!(BoolSubset::union(&[&e, &t, &e]), subset(true, false));
    assert_eq!(BoolSubset::union(&[]), subset(false, false));
}

#[test]
fn intersection_keeps_what_all_include() {
    let t = subset(true, false);
    let f = subset(false, true);
    let all = subset(true, true);
    assert_eq!(bool::subset_intersect(&[&t, &f]), subset(false, false));
    assert_eq!(bool::subset_intersect(&[&t, &all]), subset(true, false));
    assert_eq!(bool::subset_intersect(&[&all, &all]), subset(true, true));
    assert_eq!(bool::subset_intersect(&[]), subset(true, true));
}

#[test]
fn duplicate_is_the_same_subset() {
    for s in all_subsets() {
        assert_eq!(s.duplicate(), s);
    }
}

#[test]
fn bool_function_preimage_follows_the_flags() {
    let f = BoolFunction::<bool> { true_primage: subset(false, true) };
    assert_eq!(f.preimage(&subset(true, true)), subset(true, true));
    assert_eq!(f.preimage(&subset(true, false)), subset(false, true));
    assert_eq!(f.preimage(&subset(false, true)), subset(true, false));
    assert_eq!(f.preimage(&subset(false, false)), subset(false, false));
}

#[test]
fn two_point_measure_scenario() {
    let m = BoolMeasure { true_value: whole(3), false_value: whole(1) };
    let p = m.normalize().unwrap();
    assert_eq!(p.true_value.num, 3);
    assert_eq!(p.true_value.den, 4);
    let full = bool::full_subset();
    assert!(m.measure(&full) == whole(4));
    let empty = bool::empty_subset();
    assert!(m.measure(&empty) == whole(0));
    let d = BoolMeasure::<Ratio>::dirac(&true);
    assert!(d.measure_at(&true) == whole(1));
    assert!(d.measure_at(&false) == whole(0));
}

#[test]
fn measure_adds_the_values_of_the_included_points() {
    let m = BoolMeasure { true_value: whole(3), false_value: whole(1) };
    assert!(m.measure(&subset(true, false)) == whole(3));
    assert!(m.measure(&subset(false, true)) == whole(1));
    assert!(m.measure_at(&true) == whole(3));
    assert!(m.measure_at(&false) == whole(1));
}

#[test]
fn point_measure_agrees_with_measure_of_point_subset() {
    let m = BoolMeasure { true_value: Ratio::new(2, 7), false_value: Ratio::new(5, 3) };
    for point in [true, false] {
        assert!(m.measure(&point.point_subset()) == m.measure_at(&point));
    }
}

#[test]
fn dirac_at_false_puts_all_weight_on_false() {
    let d = BoolMeasure::<Ratio>::dirac(&false);
    assert!(d.true_value == whole(0));
    assert!(d.false_value == whole(1));
}

#[test]
fn normalize_is_scale_invariant() {
    let m = BoolMeasure { true_value: whole(3), false_value: whole(1) };
    let p = m.normalize().unwrap();
    for c in [whole(2), Ratio::new(1, 7), whole(1000), Ratio::new(5, 3)] {
        let q = (m * c).normalize().unwrap();
        assert!(p.true_value == q.true_value);
        assert_eq!((q.true_value.num, q.true_value.den), (3, 4));
    }
}

#[test]
fn zero_measure_does_not_normalize() {
    let m = BoolMeasure { true_value: whole(0), false_value: whole(0) };
    assert!(m.normalize().is_none());
}

#[test]
fn measure_with_a_value_that_is_not_finite_does_not_normalize() {
    let m = BoolMeasure { true_value: Ratio::infinity(), false_value: whole(1) };
    assert!(m.normalize().is_none());
}

#[test]
fn weights_that_cancel_do_not_normalize() {
    let m = BoolMeasure { true_value: whole(2), false_value: whole(-2) };
    assert!(m.normalize().is_none());
}

#[test]
fn probability_round_trip() {
    for p in [Ratio::new(3, 4), Ratio::new(0, 1), Ratio::new(1, 1), Ratio::new(1, 3)] {
        let m = BoolMeasure::from(BoolPMeasure { true_value: p });
        assert!(m.true_value == p);
        assert!(m.true_value.add(m.false_value) == whole(1));
        let q = m.normalize().unwrap();
        assert!(q.true_value == p);
    }
}

#[test]
fn from_probability_gives_the_rest_to_false() {
    let m = BoolMeasure::from(BoolPMeasure { true_value: Ratio::new(3, 4) });
    assert_eq!((m.false_value.num, m.false_value.den), (1, 4));
}

#[test]
fn measures_add_value_by_value() {
    let a = BoolMeasure { true_value: whole(3), false_value: whole(1) };
    let b = BoolMeasure { true_value: Ratio::new(1, 2), false_value: whole(2) };
    let sum = a + b;
    assert_eq!((sum.true_value.num, sum.true_value.den), (7, 2));
    assert_eq!((sum.false_value.num, sum.false_value.den), (3, 1));
    let mut c = a;
    c.add_assign(b);
    assert!(c.true_value == sum.true_value && c.false_value == sum.false_value);
}

#[test]
fn measures_scale_value_by_value() {
    let a = BoolMeasure { true_value: whole(3), false_value: whole(1) };
    let scaled = a * Ratio::new(1, 2);
    assert_eq!((scaled.true_value.num, scaled.true_value.den), (3, 2));
    assert_eq!((scaled.false_value.num, scaled.false_value.den), (1, 2));
    let mut b = a;
    b.mul_assign(Ratio::new(1, 2));
    assert!(b.true_value == scaled.true_value && b.false_value == scaled.false_value);
}

#[test]
fn continuation_gets_the_empty_subset_once() {
    let mut calls = 0;
    let seen = BoolSubset::with_empty(|s: &BoolSubset| {
        calls += 1;
        *s
    });
    assert_eq!(seen, subset(false, false));
    assert_eq!(calls, 1);
}

#[test]
fn continuation_gets_the_full_subset_once() {
    let mut calls = 0;
    let empty = BoolSubset::with_full(|s: &BoolSubset| {
        calls += 1;
        s.is_empty()
    });
    assert!(!empty);
    assert_eq!(calls, 1);
}

#[test]
fn continuation_gets_the_complement_once() {
    let mut calls = 0;
    let seen = subset(true, false).with_inversion(|s: &BoolSubset| {
        calls += 1;
        (s.includes_true, s.includes_false)
    });
    assert_eq!(seen, (false, true));
    assert_eq!(calls, 1);
}
