use graphplay::clock::ClockSource;
use graphplay::span::Span;

fn ns(n: u128) -> Span {
    Span::from_nanos(n).unwrap()
}

#[test]
fn zero_span_is_empty() {
    assert_eq!(Span::zero().as_nanos(), 0);
    assert_eq!(Span::zero(), ns(0));
}

#[test]
fn new_carries_whole_seconds_out_of_nanos() {
    let s = Span::new(1, 2_500_000_000).unwrap();
    assert_eq!(s.as_secs(), 3);
    assert_eq!(s.subsec_nanos(), 500_000_000);
    assert_eq!(s.as_nanos(), 3_500_000_000);
}

#[test]
fn new_keeps_normalized_parts() {
    let s = Span::new(7, 999_999_999).unwrap();
    assert_eq!(s.as_secs(), 7);
    assert_eq!(s.subsec_nanos(), 999_999_999);
}

#[test]
fn new_fails_when_seconds_overflow() {
    assert_eq!(Span::new(u64::MAX, 1_000_000_000), None);
    assert!(Span::new(u64::MAX, 999_999_999).is_some());
}

#[test]
fn from_nanos_splits_seconds() {
    let s = ns(16_666_667);
    assert_eq!(s.as_secs(), 0);
    assert_eq!(s.subsec_nanos(), 16_666_667);
    let t = ns(12_000_000_001);
    assert_eq!(t.as_secs(), 12);
    assert_eq!(t.subsec_nanos(), 1);
    assert_eq!(t, Span::new(12, 1).unwrap());
}

#[test]
fn from_nanos_refuses_what_does_not_fit() {
    let max: u128 = u64::MAX as u128 * 1_000_000_000 + 999_999_999;
    assert!(Span::from_nanos(max).is_some());
    assert_eq!(Span::from_nanos(max + 1), None);
    assert_eq!(Span::from_nanos(u128::MAX), None);
}

#[test]
fn less_than_orders_by_length() {
    assert!(ns(999_999_999).less_than(ns(1_000_000_000)));
    assert!(!ns(1_000_000_000).less_than(ns(999_999_999)));
    assert!(!ns(5).less_than(ns(5)));
    assert!(Span::new(1, 0).unwrap().less_than(Span::new(1, 1).unwrap()));
}

#[test]
fn saturating_sub_borrows_a_second() {
    let a = Span::new(2, 100).unwrap();
    let b = Span::new(0, 200).unwrap();
    let d = a.saturating_sub(b);
    assert_eq!(d.as_secs(), 1);
    assert_eq!(d.subsec_nanos(), 999_999_900);
}

#[test]
fn saturating_sub_clamps_at_zero() {
    assert_eq!(ns(5).saturating_sub(ns(6)), Span::zero());
    assert_eq!(ns(5).saturating_sub(ns(5)), Span::zero());
    assert_eq!(ns(6).saturating_sub(ns(5)), ns(1));
}

#[test]
fn elapsed_since_measures_forward_time() {
    let dt = ClockSource::elapsed_since(ns(1_000_000_000), ns(1_016_666_667));
    assert_eq!(dt, ns(16_666_667));
}

#[test]
fn elapsed_since_clamps_a_clock_that_ran_backwards() {
    let dt = ClockSource::elapsed_since(ns(2_000), ns(1_000));
    assert_eq!(dt, Span::zero());
}

#[test]
fn sample_measures_from_the_previous_reading() {
    let mut clock = ClockSource::starting_at(ns(100));
    assert_eq!(clock.last_reading(), ns(100));
    assert_eq!(clock.sample(ns(350)), ns(250));
    assert_eq!(clock.last_reading(), ns(350));
    assert_eq!(clock.sample(ns(300)), Span::zero());
    assert_eq!(clock.last_reading(), ns(300));
    assert_eq!(clock.sample(ns(301)), ns(1));
}
