//! The probe selector: majority vote over the five boot samples.

use probe_core::selector::{select_variant, ProbeVariant, SampleCounter};

#[test]
fn three_lows_selects_alternate() {
    // Boundary: exactly 3 of 5 low reads selects the alternate mapping.
    let samples = vec![true, true, true, false, false];
    assert_eq!(select_variant(&samples), ProbeVariant::Alternate);
}

#[test]
fn two_lows_keeps_default() {
    // Boundary: exactly 2 of 5 low reads keeps the default mapping.
    let samples = vec![true, true, false, false, false];
    assert_eq!(select_variant(&samples), ProbeVariant::Default);
}

#[test]
fn all_low_selects_alternate() {
    let samples = vec![true, true, true, true, true];
    assert_eq!(select_variant(&samples), ProbeVariant::Alternate);
}

#[test]
fn all_high_keeps_default() {
    let samples = vec![false, false, false, false, false];
    assert_eq!(select_variant(&samples), ProbeVariant::Default);
}

#[test]
fn counter_matches_batch_selection() {
    let samples = [false, true, true, false, true];
    let mut counter = SampleCounter::new();
    for &s in samples.iter() {
        assert!(!counter.complete());
        counter.record(s);
    }
    assert!(counter.complete());
    assert_eq!(counter.decide(), select_variant(&samples.to_vec()));
    assert_eq!(counter.decide(), ProbeVariant::Alternate);
}

#[test]
fn order_of_samples_does_not_matter() {
    let front = vec![true, true, true, false, false];
    let back = vec![false, false, true, true, true];
    assert_eq!(select_variant(&front), select_variant(&back));
}
