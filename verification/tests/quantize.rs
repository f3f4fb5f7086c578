//! Quantization of durations into resolution classes.

use hrtime::{Period, Span};

fn class_of(secs: u64, nanos: u32) -> u32 {
    Period::from_duration(Span::new(secs, nanos)).as_uint()
}

#[test]
fn zero_duration_is_tightest() {
    assert_eq!(class_of(0, 0), 1);
}

#[test]
fn sub_unit_duration_is_tightest() {
    assert_eq!(class_of(0, 1), 1);
    assert_eq!(class_of(0, 999_999), 1);
}

#[test]
fn exact_milliseconds_keep_their_class() {
    for k in 1..=15u32 {
        assert_eq!(class_of(0, k * 1_000_000), k);
    }
    assert_eq!(class_of(0, 16_000_000), 16);
}

#[test]
fn quantization_rounds_up_never_down() {
    // One millisecond lands in class 1; a hair more must go to class 2.
    assert_eq!(class_of(0, 1_000_000), 1);
    assert_eq!(class_of(0, 1_000_001), 2);
    assert_eq!(class_of(0, 1_001_000), 2);
    // One and a half milliseconds rounds up to class 2.
    assert_eq!(class_of(0, 1_500_000), 2);
    assert_eq!(class_of(0, 4_000_001), 5);
}

#[test]
fn quantization_is_monotonic_on_samples() {
    let samples: [(u64, u32); 8] = [
        (0, 0),
        (0, 1),
        (0, 999_999),
        (0, 1_000_000),
        (0, 1_000_001),
        (0, 15_000_000),
        (0, 16_000_000),
        (3, 0),
    ];
    let mut last = 0u32;
    for (secs, nanos) in samples {
        let c = class_of(secs, nanos);
        assert!(last <= c);
        last = c;
    }
}

#[test]
fn coarse_durations_saturate_to_disabled() {
    assert_eq!(class_of(0, 15_000_001), 16);
    assert_eq!(class_of(0, 16_000_000), 16);
    assert_eq!(class_of(0, u32::MAX), 16);
    assert_eq!(class_of(1, 0), 16);
    assert_eq!(class_of(u64::MAX, 999_999_999), 16);
    assert!(Period::from_duration(Span::new(1, 0)).is_disabled());
}

#[test]
fn from_millis_builds_whole_milliseconds() {
    assert_eq!(class_of_span(Span::from_millis(1)), 1);
    assert_eq!(class_of_span(Span::from_millis(4)), 4);
    assert_eq!(class_of_span(Span::from_millis(1_000)), 16);
    let s = Span::from_millis(2_500);
    assert_eq!(s.secs, 2);
    assert_eq!(s.nanos, 500_000_000);
}

fn class_of_span(s: Span) -> u32 {
    Period::from_duration(s).as_uint()
}

#[test]
fn period_accessors() {
    let p = Period::new(7);
    assert_eq!(p.as_uint(), 7);
    assert!(!p.is_disabled());
    assert_eq!(Period::new(16).as_uint(), 16);
    assert!(Period::new(16).is_disabled());
    assert_eq!(Period::new(7), Period::new(7));
    assert_ne!(Period::new(7), Period::new(8));
}
