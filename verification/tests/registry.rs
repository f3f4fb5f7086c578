//! The registry's arbitration: the applied class always follows the tightest
//! outstanding request, and a policy change is reported exactly when that
//! minimum moves.

use hrtime::{HrTime, Period, Span, Transition};

fn active_class(hrt: &HrTime) -> Option<u32> {
    hrt.active().map(|p| p.as_uint())
}

fn classes(t: &Transition) -> (Option<u32>, Option<u32>) {
    (t.stop.map(|p| p.as_uint()), t.start.map(|p| p.as_uint()))
}

#[test]
fn fresh_registry_is_at_baseline() {
    let hrt = HrTime::new();
    assert_eq!(active_class(&hrt), None);
}

#[test]
fn two_handles_tightest_wins() {
    // Two concurrent requests: the 1ms class governs while it lives, then
    // the 4ms class takes over with exactly one stop+start pair, and the
    // baseline is restored exactly once when the last handle goes.
    let mut hrt = HrTime::new();

    let (one, t1) = hrt.request(Span::from_millis(1));
    assert_eq!(active_class(&hrt), Some(1));
    assert_eq!(t1.as_ref().map(classes), Some((None, Some(1))));

    let (four, t4) = hrt.request(Span::from_millis(4));
    assert_eq!(active_class(&hrt), Some(1));
    assert!(t4.is_none());

    let t = one.release(&mut hrt);
    assert_eq!(active_class(&hrt), Some(4));
    assert_eq!(t.as_ref().map(classes), Some((Some(1), Some(4))));

    let t = four.release(&mut hrt);
    assert_eq!(active_class(&hrt), None);
    assert_eq!(t.as_ref().map(classes), Some((Some(4), None)));
}

#[test]
fn redundant_requests_issue_no_platform_call() {
    let mut hrt = HrTime::new();
    let (first, t) = hrt.request(Span::from_millis(2));
    assert!(t.is_some());
    // Same class again: the minimum is unchanged, so no call is issued.
    let (second, t) = hrt.request(Span::from_millis(2));
    assert!(t.is_none());
    // A looser class cannot tighten the minimum either.
    let (loose, t) = hrt.request(Span::from_millis(9));
    assert!(t.is_none());
    let t = loose.release(&mut hrt);
    assert!(t.is_none());
    let t = second.release(&mut hrt);
    assert!(t.is_none());
    assert_eq!(active_class(&hrt), Some(2));
    let t = first.release(&mut hrt);
    assert_eq!(t.as_ref().map(classes), Some((Some(2), None)));
    assert_eq!(active_class(&hrt), None);
}

#[test]
fn update_transitions_policy_once() {
    // A single handle moved from 1ms to 4ms: one remove+add pair inside the
    // registry, and one policy change reported.
    let mut hrt = HrTime::new();
    let (mut h, _) = hrt.request(Span::from_millis(1));
    assert_eq!(active_class(&hrt), Some(1));

    let t = h.update(&mut hrt, Span::from_millis(4));
    assert_eq!(h.period().as_uint(), 4);
    assert_eq!(active_class(&hrt), Some(4));
    assert_eq!(t.as_ref().map(classes), Some((Some(1), Some(4))));

    let t = h.release(&mut hrt);
    assert_eq!(t.as_ref().map(classes), Some((Some(4), None)));
    assert_eq!(active_class(&hrt), None);
}

#[test]
fn update_to_same_class_is_a_no_op() {
    let mut hrt = HrTime::new();
    let (mut h, _) = hrt.request(Span::new(0, 3_200_000));
    assert_eq!(h.period().as_uint(), 4);
    // A different duration that quantizes to the same class changes nothing.
    let t = h.update(&mut hrt, Span::from_millis(4));
    assert!(t.is_none());
    assert_eq!(h.period().as_uint(), 4);
    assert_eq!(active_class(&hrt), Some(4));
    h.release(&mut hrt);
}

#[test]
fn update_shadowed_by_tighter_handle() {
    // With a 1ms handle alive, moving another handle between looser classes
    // never touches the platform.
    let mut hrt = HrTime::new();
    let (one, _) = hrt.request(Span::from_millis(1));
    let (mut h, t) = hrt.request(Span::from_millis(8));
    assert!(t.is_none());
    let t = h.update(&mut hrt, Span::from_millis(12));
    assert!(t.is_none());
    assert_eq!(h.period().as_uint(), 12);
    assert_eq!(active_class(&hrt), Some(1));
    h.release(&mut hrt);
    one.release(&mut hrt);
}

#[test]
fn coarse_request_never_elevates() {
    // A request at or beyond the top of the range stays at the baseline.
    let mut hrt = HrTime::new();
    let (h, t) = hrt.request(Span::from_millis(16));
    assert!(t.is_none());
    assert_eq!(active_class(&hrt), None);
    let (h2, t2) = hrt.request(Span::new(1, 0));
    assert!(t2.is_none());
    assert_eq!(active_class(&hrt), None);
    let t = h2.release(&mut hrt);
    assert!(t.is_none());
    let t = h.release(&mut hrt);
    assert!(t.is_none());
    assert_eq!(active_class(&hrt), None);
}

#[test]
fn shutdown_restores_baseline_exactly_once() {
    let mut hrt = HrTime::new();
    let (_h, _) = hrt.request(Span::from_millis(3));
    assert_eq!(active_class(&hrt), Some(3));
    let t = hrt.shutdown();
    assert_eq!(t.as_ref().map(classes), Some((Some(3), None)));
    assert_eq!(active_class(&hrt), None);
    // A second teardown owes nothing.
    assert!(hrt.shutdown().is_none());
}

#[test]
fn registry_add_remove_follow_minimum() {
    // Driving the registry by raw class adds and removes keeps the applied
    // class equal to the tightest outstanding one after every operation.
    let mut hrt = HrTime::new();
    let t = hrt.add(Period::new(6));
    assert_eq!(t.as_ref().map(classes), Some((None, Some(6))));
    let t = hrt.add(Period::new(2));
    assert_eq!(t.as_ref().map(classes), Some((Some(6), Some(2))));
    let t = hrt.replace(Period::new(2), Period::new(10));
    assert_eq!(t.as_ref().map(classes), Some((Some(2), Some(6))));
    assert_eq!(active_class(&hrt), Some(6));
    let t = hrt.remove(Period::new(10));
    assert!(t.is_none());
    let t = hrt.remove(Period::new(6));
    assert_eq!(t.as_ref().map(classes), Some((Some(6), None)));
    assert_eq!(active_class(&hrt), None);
}
