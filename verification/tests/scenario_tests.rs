//! End-to-end runs of the tracker, driven the way the surrounding process
//! drives it: seed, subscribe, then alternate wait outcomes and resolutions.

use focus_hide::resolver::{resolve, QueryOutcome, Resolution};
use focus_hide::tracker::{
    ResolutionAction, SeedAction, Tracker, UnmapAction, WaitAction, WaitOutcome,
    EXIT_INITIAL_RESOLUTION_FAILED,
};

const ATOM: u32 = 314;

#[test]
fn scenario_unchanged_focus_keeps_waiting() {
    // Active window 10 at startup; a matching notification re-resolves to
    // 10; no hide is requested and the process keeps waiting.
    let mut t = Tracker::new(ATOM);
    let initial = resolve(&QueryOutcome::Reply(Some(vec![10])));
    assert_eq!(t.seed(initial), SeedAction::Subscribe);
    assert!(t.is_tracking());

    assert_eq!(
        t.on_wait(WaitOutcome::PropertyChanged { atom: ATOM }),
        WaitAction::Resolve,
    );
    let again = resolve(&QueryOutcome::Reply(Some(vec![10])));
    assert_eq!(t.on_resolution(again), ResolutionAction::Wait);
    assert!(t.is_tracking());
    assert_eq!(t.last_active(), Some(10));
}

#[test]
fn scenario_focus_change_hides_departed_window() {
    // Active window 10 at startup; a matching notification re-resolves to
    // 20; window 10 is hidden and 20 is current for the next comparison.
    let mut t = Tracker::new(ATOM);
    assert_eq!(t.seed(Resolution::Active(10)), SeedAction::Subscribe);

    assert_eq!(
        t.on_wait(WaitOutcome::PropertyChanged { atom: ATOM }),
        WaitAction::Resolve,
    );
    let changed = resolve(&QueryOutcome::Reply(Some(vec![20])));
    assert_eq!(t.on_resolution(changed), ResolutionAction::Unmap(10));
    assert_eq!(t.on_unmap_outcome(true), UnmapAction::Wait);
    assert_eq!(t.last_active(), Some(20));

    assert_eq!(
        t.on_wait(WaitOutcome::PropertyChanged { atom: ATOM }),
        WaitAction::Resolve,
    );
    assert_eq!(t.on_resolution(Resolution::Active(20)), ResolutionAction::Wait);
}

#[test]
fn scenario_initial_not_found_exits_before_subscribing() {
    // The initial resolution finds nothing; the process exits without ever
    // requesting the event subscription.
    let mut t = Tracker::new(ATOM);
    let initial = resolve(&QueryOutcome::Reply(None));
    assert_eq!(initial, Resolution::NotFound);
    let action = t.seed(initial);
    assert_ne!(action, SeedAction::Subscribe);
    assert_eq!(action, SeedAction::Exit(EXIT_INITIAL_RESOLUTION_FAILED));
    assert!(!t.is_tracking());
}
