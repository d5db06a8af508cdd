use mes::reals::ratio::Ratio;
use mes::reals::Real;
use mes::unit::{UnitFunction, UnitMeasure, UnitPMeasure, UnitSubset};
use mes::boolean::BoolSubset;
use mes::{DiracMeasure, Measurable, MeasurableFn, Measure, PointMeasurable, PointMeasure, SigmaAlgebra};

fn whole(n: i64) -> Ratio {
    Ratio::from_integer(n)
}

#[test]
fn unit_empty_and_full() {
    assert_eq!(<() as Measurable>::empty_subset(), UnitSubset { full: false });
    assert_eq!(<() as Measurable>::full_subset(), UnitSubset { full: true });
    assert!(<() as Measurable>::subset_is_empty(&UnitSubset { full: false }));
    assert!(!<() as Measurable>::subset_is_empty(&UnitSubset { full: true }));
}

#[test]
fn unit_complement_is_an_involution() {
    for full in [true, false] {
        let s = UnitSubset { full };
        assert_eq!(s.complement(), UnitSubset { full: !full });
        assert_eq!(s.complement().complement(), s);
    }
}

#[test]
fn unit_union_is_full_when_one_is() {
    let e = UnitSubset { full: false };
    let f = UnitSubset { full: true };
    assert_eq!(UnitSubset::union(&[&e, &e]), e);
    assert_eq!(UnitSubset::union(&[&e, &f, &e]), f);
    assert_eq!(UnitSubset::union(&[]), e);
}

#[test]
fn unit_intersection_is_full_when_all_are() {
    let e = UnitSubset { full: false };
    let f = UnitSubset { full: true };
    assert_eq!(<() as Measurable>::subset_intersect(&[&f, &f]), f);
    assert_eq!(<() as Measurable>::subset_intersect(&[&f, &e]), e);
    assert_eq!(<() as Measurable>::subset_intersect(&[]), f);
}

#[test]
fn unit_point_subset_is_full() {
    assert_eq!(().point_subset(), UnitSubset { full: true });
}

#[test]
fn unit_function_preimage_is_full_or_empty() {
    let f = UnitFunction::<bool>::new();
    assert_eq!(f.preimage(&UnitSubset { full: true }), BoolSubset { includes_true: true, includes_false: true });
    assert_eq!(f.preimage(&UnitSubset { full: false }), BoolSubset { includes_true: false, includes_false: false });
}

#[test]
fn unit_measure_is_its_weight_on_the_full_subset() {
    let m = UnitMeasure { weight: whole(5) };
    assert!(m.measure(&UnitSubset { full: true }) == whole(5));
    assert!(m.measure(&UnitSubset { full: false }) == whole(0));
    assert!(m.measure_at(&()) == whole(5));
}

#[test]
fn unit_measure_normalizes_unless_its_weight_is_zero() {
    assert_eq!(UnitMeasure { weight: whole(5) }.normalize(), Some(UnitPMeasure));
    assert_eq!((UnitMeasure { weight: whole(5) } * Ratio::new(1, 3)).normalize(), Some(UnitPMeasure));
    assert_eq!(UnitMeasure { weight: whole(0) }.normalize(), None);
    assert_eq!(UnitMeasure { weight: Ratio::infinity() }.normalize(), None);
}

#[test]
fn unit_probability_round_trip() {
    let m = UnitMeasure::<Ratio>::from(UnitPMeasure);
    assert!(m.weight == whole(1));
    assert_eq!(m.normalize(), Some(UnitPMeasure));
}

#[test]
fn unit_dirac_has_weight_one() {
    let m = UnitMeasure::<Ratio>::dirac(&());
    assert!(m.weight == whole(1));
}

#[test]
fn unit_measures_add_and_scale() {
    let a = UnitMeasure { weight: whole(5) };
    let b = UnitMeasure { weight: Ratio::new(1, 2) };
    assert!((a + b).weight == Ratio::new(11, 2));
    assert!((a * Ratio::new(1, 2)).weight == Ratio::new(5, 2));
    let mut c = a;
    c.add_assign(b);
    assert!(c.weight == Ratio::new(11, 2));
    c.mul_assign(whole(2));
    assert!(c.weight == whole(11));
}

#[test]
fn unit_empty_and_full_are_complements() {
    assert_eq!(UnitSubset::empty().complement(), UnitSubset::full());
    assert_eq!(UnitSubset::full().complement(), UnitSubset::empty());
    assert!(UnitSubset::empty().is_empty());
    assert!(!UnitSubset::full().is_empty());
}

#[test]
fn unit_continuations_get_what_is_computed() {
    assert!(UnitSubset::with_empty(|s: &UnitSubset| !s.full));
    assert!(UnitSubset::with_full(|s: &UnitSubset| s.full));
    assert!(UnitSubset { full: false }.with_inversion(|s: &UnitSubset| s.full));
}
