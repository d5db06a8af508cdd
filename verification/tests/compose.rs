use mes::boolean::{BoolFunction, BoolMeasure, BoolSubset};
use mes::pair::{LeftProjection, PairSubset};
use mes::reals::ratio::Ratio;
use mes::unit::{UnitFunction, UnitMeasure, UnitSubset};
use mes::{
    compose, compose_measure, identity, CompositeMeasure, CompositePMeasure, Measurable, MeasurableFn,
    Measure, PointMeasure,
};

fn side(includes_true: bool, includes_false: bool) -> BoolSubset {
    BoolSubset { includes_true, includes_false }
}

fn all_sides() -> Vec<BoolSubset> {
    vec![side(false, false), side(true, false), side(false, true), side(true, true)]
}

fn whole(n: i64) -> Ratio {
    Ratio::from_integer(n)
}

fn negation() -> BoolFunction<bool> {
    BoolFunction { true_primage: side(false, true) }
}

#[test]
fn identity_preimage_is_the_subset() {
    let id = identity::<bool>();
    for s in all_sides() {
        assert_eq!(id.preimage(&s), s);
    }
    let unit = identity::<()>();
    assert_eq!(unit.preimage(&UnitSubset { full: true }), UnitSubset { full: true });
}

#[test]
fn composition_preimage_runs_back_to_front() {
    let f = negation();
    let g = BoolFunction::<bool> { true_primage: side(true, true) };
    let gf = compose(&g, &f);
    for s in all_sides() {
        assert_eq!(gf.preimage(&s), f.preimage(&g.preimage(&s)));
    }
    let fg = compose(&f, &g);
    for s in all_sides() {
        assert_eq!(fg.preimage(&s), g.preimage(&f.preimage(&s)));
    }
    // g takes every point to true, so that g after f does too.
    assert_eq!(gf.preimage(&side(true, false)), side(true, true));
    assert_eq!(gf.preimage(&side(false, true)), side(false, false));
}

#[test]
fn composition_with_identity_changes_nothing() {
    let f = negation();
    let id = identity::<bool>();
    let left = compose(&id, &f);
    let right = compose(&f, &id);
    for s in all_sides() {
        assert_eq!(left.preimage(&s), f.preimage(&s));
        assert_eq!(right.preimage(&s), f.preimage(&s));
    }
}

#[test]
fn negation_twice_is_the_identity() {
    let f = negation();
    let ff = compose(&f, &f);
    for s in all_sides() {
        assert_eq!(ff.preimage(&s), s);
    }
}

#[test]
fn composite_measure_measures_the_preimage() {
    let f = negation();
    let base = BoolMeasure { true_value: whole(3), false_value: whole(1) };
    let m = compose_measure(&f, base);
    assert!(m.measure(&side(true, false)) == whole(1));
    assert!(m.measure(&side(false, true)) == whole(3));
    assert!(m.measure(&side(true, true)) == whole(4));
    assert!(m.measure(&side(false, false)) == whole(0));
    for s in all_sides() {
        assert!(m.measure(&s) == base.measure(&f.preimage(&s)));
    }
}

#[test]
fn composite_measure_at_a_point_measures_its_preimage() {
    let f = negation();
    let m = compose_measure(&f, BoolMeasure { true_value: whole(3), false_value: whole(1) });
    assert!(m.measure_at(&true) == whole(1));
    assert!(m.measure_at(&false) == whole(3));
}

#[test]
fn composite_measure_normalizes_with_its_base() {
    let f = negation();
    let m = compose_measure(&f, BoolMeasure { true_value: whole(3), false_value: whole(1) });
    let p = m.normalize().unwrap();
    assert_eq!((p.measure.true_value.num, p.measure.true_value.den), (3, 4));
    assert!(std::ptr::eq(p.function, &f));
    let zero = compose_measure(&f, BoolMeasure { true_value: whole(0), false_value: whole(0) });
    assert!(zero.normalize().is_none());
}

#[test]
fn composite_measure_round_trip_and_scale() {
    let f = negation();
    let m = compose_measure(&f, BoolMeasure { true_value: whole(3), false_value: whole(1) });
    let p = m.normalize().unwrap();
    let back: CompositeMeasure<_, BoolMeasure<Ratio>> = CompositeMeasure::from(p);
    assert!(back.measure.true_value == Ratio::new(3, 4));
    assert!(back.measure.false_value == Ratio::new(1, 4));
    let q = back.normalize().unwrap();
    assert!(q.measure.true_value == Ratio::new(3, 4));
    let scaled = compose_measure(&f, BoolMeasure { true_value: whole(3), false_value: whole(1) }) * whole(5);
    assert!(scaled.measure.true_value == whole(15));
    assert!(scaled.normalize().unwrap().measure.true_value == Ratio::new(3, 4));
    let mut again = compose_measure(&f, BoolMeasure { true_value: whole(3), false_value: whole(1) });
    again.mul_assign(Ratio::new(1, 2));
    assert!(again.measure.false_value == Ratio::new(1, 2));
}

#[test]
fn composite_probability_measure_holds_what_it_is_given() {
    let f = UnitFunction::<()>::new();
    let p: CompositePMeasure<_, UnitMeasure<Ratio>> =
        CompositePMeasure { function: &f, measure: mes::unit::UnitPMeasure };
    let m = CompositeMeasure::from(p);
    assert!(m.measure.weight == whole(1));
    assert!(m.measure(&UnitSubset { full: true }) == whole(1));
}

#[test]
fn measure_pushed_along_a_projection() {
    let projection = LeftProjection::<bool, bool>::new();
    let pre = projection.preimage(&side(true, false));
    assert_eq!(pre.len(), 1);
    let again: Vec<PairSubset<bool, bool>> = <(bool, bool)>::subset_complement(&pre);
    assert!(!<(bool, bool)>::subset_is_empty(&again));
}

#[test]
fn measure_pushed_to_the_unit_space_keeps_the_total() {
    let f = UnitFunction::<bool>::new();
    let m = compose_measure(&f, BoolMeasure { true_value: whole(3), false_value: whole(1) });
    assert!(m.measure(&UnitSubset { full: true }) == whole(4));
    assert!(m.measure(&UnitSubset { full: false }) == whole(0));
    assert!(m.measure_at(&()) == whole(4));
}
