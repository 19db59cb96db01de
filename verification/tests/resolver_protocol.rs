//! The grow-and-retry protocol of the identity resolver, driven by
//! pre-recorded native outcomes.

use lyrebird::resolver::{
    lookup_advance, resolve_from_outcomes, LookupOutcome, LookupStep, Resolution,
    PWBUF_GROW_STEP, PWBUF_INITIAL_SIZE, PWBUF_MAX_SIZE,
};

#[test]
fn no_entry_is_absence_not_an_error() {
    let r = resolve_from_outcomes(&vec![LookupOutcome::NoEntry]);
    assert!(matches!(r, Some(Resolution::Settled(None))));
}

#[test]
fn found_name_settles_immediately() {
    let r = resolve_from_outcomes(&vec![LookupOutcome::Found(Some(String::from("alice")))]);
    match r {
        Some(Resolution::Settled(Some(name))) => assert_eq!(name, "alice"),
        other => panic!("expected the resolved name, got {:?}", describe(&other)),
    }
}

#[test]
fn absent_name_field_counts_as_no_entry() {
    let r = resolve_from_outcomes(&vec![LookupOutcome::Found(None)]);
    assert!(matches!(r, Some(Resolution::Settled(None))));
}

#[test]
fn grows_twice_then_succeeds() {
    // The first two attempts want a bigger buffer; the third finds the
    // entry well inside the ceiling.
    let script = vec![
        LookupOutcome::InsufficientBuffer,
        LookupOutcome::InsufficientBuffer,
        LookupOutcome::Found(Some(String::from("alice"))),
    ];
    let r = resolve_from_outcomes(&script);
    match r {
        Some(Resolution::Settled(Some(name))) => assert_eq!(name, "alice"),
        other => panic!("expected the resolved name, got {:?}", describe(&other)),
    }

    // The two growth steps are visible one call at a time.
    assert!(matches!(
        lookup_advance(LookupOutcome::InsufficientBuffer, PWBUF_INITIAL_SIZE),
        LookupStep::Retry(4096)
    ));
    assert!(matches!(
        lookup_advance(LookupOutcome::InsufficientBuffer, PWBUF_INITIAL_SIZE + PWBUF_GROW_STEP),
        LookupStep::Retry(6144)
    ));
}

#[test]
fn ceiling_turns_into_absence() {
    // A lookup that always wants more space must settle on absence once
    // the buffer reaches the ceiling, and never loop on.
    let r = resolve_from_outcomes(&insufficient(4));
    assert!(matches!(r, Some(Resolution::Settled(None))));

    let r = resolve_from_outcomes(&insufficient(32));
    assert!(matches!(r, Some(Resolution::Settled(None))));

    assert!(matches!(
        lookup_advance(LookupOutcome::InsufficientBuffer, PWBUF_MAX_SIZE),
        LookupStep::Done(None)
    ));
}

#[test]
fn undocumented_status_is_a_violation() {
    let script = vec![LookupOutcome::InsufficientBuffer, LookupOutcome::Unexpected(22)];
    let r = resolve_from_outcomes(&script);
    assert!(matches!(r, Some(Resolution::Violation(22))));

    assert!(matches!(
        lookup_advance(LookupOutcome::Unexpected(5), PWBUF_INITIAL_SIZE),
        LookupStep::Abort(5)
    ));
}

#[test]
fn empty_script_settles_nothing() {
    let r = resolve_from_outcomes(&Vec::new());
    assert!(r.is_none());
}

fn insufficient(n: usize) -> Vec<LookupOutcome> {
    let mut script = Vec::new();
    for _ in 0..n {
        script.push(LookupOutcome::InsufficientBuffer);
    }
    script
}

fn describe(r: &Option<Resolution>) -> String {
    match r {
        None => String::from("no resolution"),
        Some(Resolution::Settled(None)) => String::from("settled: absent"),
        Some(Resolution::Settled(Some(name))) => format!("settled: {}", name),
        Some(Resolution::Violation(code)) => format!("violation: {}", code),
    }
}
