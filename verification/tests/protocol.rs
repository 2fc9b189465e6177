use guts::AsGuts;
use guts::AsGutsMut;
use guts::FromGuts;
use guts::FromGutsUnchecked;
use guts::IntoGuts;
use guts::TryFromGuts;
use guts::counter::Counter;
use guts::counter::InvariantViolation;
use guts::gauge::Gauge;
use guts::set_guts;

#[test]
fn counter_accepts_valid_guts() {
    let c = Counter::try_from_guts(5).unwrap();
    assert_eq!(c.into_guts(), 5);
}

#[test]
fn counter_accepts_zero() {
    let c = Counter::try_from_guts(0).unwrap();
    assert_eq!(c.into_guts(), 0);
}

#[test]
fn counter_accepts_largest_guts() {
    let c = Counter::try_from_guts(i64::MAX).unwrap();
    assert_eq!(c.into_guts(), i64::MAX);
}

#[test]
fn counter_rejects_negative_guts() {
    assert_eq!(Counter::try_from_guts(-1), Err(InvariantViolation));
}

#[test]
fn counter_rejects_smallest_guts() {
    assert_eq!(Counter::try_from_guts(i64::MIN), Err(InvariantViolation));
}

#[test]
fn counter_unchecked_performs_no_check() {
    let c = Counter::from_guts_unchecked(-1);
    assert_eq!(c.into_guts(), -1);
}

#[test]
fn gauge_round_trip() {
    let v = Gauge::from_guts(42);
    let rebuilt = Gauge::from_guts(v.into_guts());
    assert_eq!(rebuilt, Gauge::from_guts(42));
}

#[test]
fn gauge_round_trip_negative() {
    let v = Gauge::from_guts(-7);
    let rebuilt = Gauge::from_guts(v.into_guts());
    assert_eq!(rebuilt, Gauge::from_guts(-7));
}

#[test]
fn gauge_unchecked_agrees_with_from_guts() {
    assert_eq!(Gauge::from_guts_unchecked(-3), Gauge::from_guts(-3));
    assert_eq!(Gauge::from_guts_unchecked(0), Gauge::from_guts(0));
    assert_eq!(Gauge::from_guts_unchecked(i64::MIN), Gauge::from_guts(i64::MIN));
}

#[test]
fn gauge_fallible_construction_never_fails() {
    assert!(Gauge::try_from_guts(11).is_ok());
    assert!(Gauge::try_from_guts(-11).is_ok());
    assert!(Gauge::try_from_guts(i64::MIN).is_ok());
    assert_eq!(Gauge::try_from_guts(11).unwrap().into_guts(), 11);
}

#[test]
fn counter_shared_access_is_stable() {
    let c = Counter::try_from_guts(8).unwrap();
    assert_eq!(*c.as_guts(), 8);
    assert_eq!(c.as_guts(), c.as_guts());
}

#[test]
fn gauge_shared_access_is_stable() {
    let v = Gauge::from_guts(-2);
    assert_eq!(*v.as_guts(), -2);
    assert_eq!(v.as_guts(), v.as_guts());
}

#[test]
fn gauge_exclusive_mutation_visible() {
    let mut v = Gauge::from_guts(1);
    *v.as_guts_mut() = 9;
    assert_eq!(*v.as_guts(), 9);
    assert_eq!(v.into_guts(), 9);
}

#[test]
fn counter_exclusive_mutation_visible() {
    let mut c = Counter::try_from_guts(2).unwrap();
    *c.as_guts_mut() += 1;
    assert_eq!(*c.as_guts(), 3);
}

#[test]
fn set_guts_stores_through_exclusive_access() {
    let mut v = Gauge::from_guts(0);
    set_guts(&mut v, -5);
    assert_eq!(*v.as_guts(), -5);
    let mut c = Counter::try_from_guts(4).unwrap();
    set_guts(&mut c, 6);
    assert_eq!(c.into_guts(), 6);
}

#[test]
fn counter_scenario() {
    let c = Counter::try_from_guts(5).unwrap();
    assert_eq!(c.into_guts(), 5);
    assert_eq!(Counter::try_from_guts(-1), Err(InvariantViolation));
    let outlaw = Counter::from_guts_unchecked(-1);
    assert_eq!(*outlaw.as_guts(), -1);
}
