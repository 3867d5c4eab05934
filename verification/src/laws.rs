//! Laws of the tracker's transitions, stated over the spec-level step
//! functions and proved once for all inputs.
//!
//! The run model folds the steady-state loop over a stream of events. Each
//! event is a pair of the wait outcome and the resolution that a
//! re-resolution would yield at that point; the resolution half is consulted
//! only when the wait transition asks for one, exactly as the loop only
//! queries the server on a matching notification.

use vstd::prelude::*;
use crate::resolver::Resolution;
use crate::tracker::{
    ResolutionAction, SeedAction, TrackerState, WaitAction, WaitOutcome,
    resolution_step, seed_step, wait_step,
    EXIT_INITIAL_RESOLUTION_FAILED, EXIT_TRANSPORT_FAULT,
};

verus! {

/// One reaction of the steady-state loop: the wait transition on the event,
/// then, only when it asked for one, the resolution transition. Yields the
/// next state and the windows this cycle asked to unmap.
pub open spec fn cycle_step(
    tracked_atom: u32,
    s: TrackerState,
    ev: (WaitOutcome, Resolution),
) -> (TrackerState, Seq<u32>) {
    let step = wait_step(tracked_atom, s, ev.0);
    if step.1 == WaitAction::Resolve {
        let rstep = resolution_step(step.0, ev.1);
        match rstep.1 {
            ResolutionAction::Unmap(w) => (rstep.0, seq![w]),
            _ => (rstep.0, Seq::empty()),
        }
    } else {
        (step.0, Seq::empty())
    }
}

/// The state after the loop has consumed a stream of events, in order.
pub open spec fn run_state(
    tracked_atom: u32,
    s: TrackerState,
    evs: Seq<(WaitOutcome, Resolution)>,
) -> TrackerState
    decreases evs.len(),
{
    if evs.len() == 0 {
        s
    } else {
        run_state(tracked_atom, cycle_step(tracked_atom, s, evs[0]).0, evs.drop_first())
    }
}

/// The windows the loop asks to unmap over a stream of events, in order.
pub open spec fn run_unmaps(
    tracked_atom: u32,
    s: TrackerState,
    evs: Seq<(WaitOutcome, Resolution)>,
) -> Seq<u32>
    decreases evs.len(),
{
    if evs.len() == 0 {
        Seq::empty()
    } else {
        let step = cycle_step(tracked_atom, s, evs[0]);
        step.1 + run_unmaps(tracked_atom, step.0, evs.drop_first())
    }
}

/// A resolution equal to the stored handle is a no-op: no hide request is
/// asked for and the state does not change, for every such pair.
pub proof fn lemma_equal_resolution_no_hide(s: TrackerState, h: u32)
    requires
        s matches TrackerState::Tracking { last_active } && last_active == h,
    ensures
        resolution_step(s, Resolution::Active(h)) == (s, ResolutionAction::Wait),
{
}

/// Across any run seeded on `h1` whose matched notifications resolve to
/// `h1`, then `h2`, then `h3`, with `h1 != h2` and `h2 == h3`, exactly one
/// hide is asked for, it targets `h1`, and it is already asked for before
/// the third notification is consumed; the run goes on tracking `h2`.
pub proof fn lemma_transition_hides_exactly_once(tracked_atom: u32, h1: u32, h2: u32, h3: u32)
    requires
        h1 != h2,
        h2 == h3,
    ensures
        ({
            let s0 = TrackerState::Tracking { last_active: h1 };
            let matched = WaitOutcome::PropertyChanged { atom: tracked_atom };
            let evs = seq![
                (matched, Resolution::Active(h1)),
                (matched, Resolution::Active(h2)),
                (matched, Resolution::Active(h3)),
            ];
            &&& run_unmaps(tracked_atom, s0, evs) =~= seq![h1]
            &&& run_unmaps(tracked_atom, s0, evs.take(2)) =~= seq![h1]
            &&& run_state(tracked_atom, s0, evs) == (TrackerState::Tracking { last_active: h2 })
        }),
{
    reveal_with_fuel(run_unmaps, 4);
    reveal_with_fuel(run_state, 4);
    let s0 = TrackerState::Tracking { last_active: h1 };
    let s1 = TrackerState::Tracking { last_active: h2 };
    let matched = WaitOutcome::PropertyChanged { atom: tracked_atom };
    let e1 = (matched, Resolution::Active(h1));
    let e2 = (matched, Resolution::Active(h2));
    let e3 = (matched, Resolution::Active(h3));
    let evs = seq![e1, e2, e3];
    let none = Seq::<(WaitOutcome, Resolution)>::empty();
    assert(cycle_step(tracked_atom, s0, e1) == (s0, Seq::<u32>::empty()));
    assert(cycle_step(tracked_atom, s0, e2) == (s1, seq![h1]));
    assert(cycle_step(tracked_atom, s1, e3) == (s1, Seq::<u32>::empty()));
    assert(evs.drop_first() =~= seq![e2, e3]);
    assert(seq![e2, e3].drop_first() =~= seq![e3]);
    assert(seq![e3].drop_first() =~= none);
    assert(run_unmaps(tracked_atom, s1, none) =~= Seq::<u32>::empty());
    assert(run_unmaps(tracked_atom, s1, seq![e3]) =~= Seq::<u32>::empty());
    assert(run_unmaps(tracked_atom, s0, seq![e2, e3]) =~= seq![h1]);
    assert(run_unmaps(tracked_atom, s0, evs) =~= seq![h1]);
    assert(evs.take(2) =~= seq![e1, e2]);
    assert(seq![e1, e2].drop_first() =~= seq![e2]);
    assert(seq![e2].drop_first() =~= none);
    assert(run_unmaps(tracked_atom, s0, evs.take(2)) =~= seq![h1]);
}

/// A notification carrying an atom other than the tracked one, or an event
/// of another kind, is a complete no-op: whatever a resolution would have
/// yielded, the cycle neither consults it nor hides anything nor moves the
/// state, for every such atom.
pub proof fn lemma_foreign_notification_no_op(
    tracked_atom: u32,
    s: TrackerState,
    other: u32,
    r: Resolution,
)
    requires
        other != tracked_atom,
    ensures
        cycle_step(tracked_atom, s, (WaitOutcome::PropertyChanged { atom: other }, r))
            == (s, Seq::<u32>::empty()),
        cycle_step(tracked_atom, s, (WaitOutcome::OtherEvent, r)) == (s, Seq::<u32>::empty()),
        wait_step(tracked_atom, s, WaitOutcome::PropertyChanged { atom: other })
            == (s, WaitAction::Wait),
{
}

/// A failed initial resolution terminates at once, with a non-zero exit
/// code, and never asks for a subscription.
pub proof fn lemma_failed_seed_halts_unsubscribed(r: Resolution)
    requires
        !(r is Active),
    ensures
        seed_step(r).1 != SeedAction::Subscribe,
        seed_step(r).0 is Terminated,
        seed_step(r).1 matches SeedAction::Exit(code) && code != 0,
        r is NotFound ==> seed_step(r).1 == SeedAction::Exit(EXIT_INITIAL_RESOLUTION_FAILED),
        r is Fault ==> seed_step(r).1 == SeedAction::Exit(EXIT_TRANSPORT_FAULT),
{
}

/// Once terminated, the loop hides nothing more: over every later stream of
/// events no unmap is asked for, and the state stays terminated.
pub proof fn lemma_terminated_hides_nothing(
    tracked_atom: u32,
    s: TrackerState,
    evs: Seq<(WaitOutcome, Resolution)>,
)
    requires
        s is Terminated,
    ensures
        run_unmaps(tracked_atom, s, evs) =~= Seq::<u32>::empty(),
        run_state(tracked_atom, s, evs) is Terminated,
    decreases evs.len(),
{
    if evs.len() > 0 {
        let step = cycle_step(tracked_atom, s, evs[0]);
        assert(step.0 is Terminated && step.1 =~= Seq::<u32>::empty());
        lemma_terminated_hides_nothing(tracked_atom, step.0, evs.drop_first());
    }
}

/// A transport fault while waiting always terminates the loop, with a
/// non-zero exit code, and never triggers a hide request: the faulting
/// cycle hides nothing (the wait transition has no unmap action at all),
/// and neither does any cycle after it.
pub proof fn lemma_wait_fault_fatal(
    tracked_atom: u32,
    s: TrackerState,
    r: Resolution,
    evs: Seq<(WaitOutcome, Resolution)>,
)
    ensures
        wait_step(tracked_atom, s, WaitOutcome::Fault) == (
            (TrackerState::Terminated { exit_code: EXIT_TRANSPORT_FAULT }),
            WaitAction::Exit(EXIT_TRANSPORT_FAULT),
        ),
        EXIT_TRANSPORT_FAULT != 0,
        cycle_step(tracked_atom, s, (WaitOutcome::Fault, r)) == (
            (TrackerState::Terminated { exit_code: EXIT_TRANSPORT_FAULT }),
            Seq::<u32>::empty(),
        ),
        run_unmaps(tracked_atom, s, seq![(WaitOutcome::Fault, r)] + evs)
            =~= Seq::<u32>::empty(),
{
    let faulted = TrackerState::Terminated { exit_code: EXIT_TRANSPORT_FAULT };
    let stream = seq![(WaitOutcome::Fault, r)] + evs;
    assert(stream.len() > 0 && stream[0] == (WaitOutcome::Fault, r));
    assert(stream.drop_first() =~= evs);
    lemma_terminated_hides_nothing(tracked_atom, faulted, evs);
}

} // verus!
