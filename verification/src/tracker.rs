//! The focus-change tracker: a state machine over resolutions and
//! property-change notifications.
//!
//! The tracker owns one piece of state, the last-known active window. The
//! surrounding process performs the transport work (subscribing, waiting,
//! querying, unmapping) and reports each outcome here as a plain value; the
//! tracker answers with the next action to perform.

use vstd::prelude::*;
use crate::resolver::Resolution;

verus! {

/// Process exit code for a transport-level fault (broken session).
pub const EXIT_TRANSPORT_FAULT: u8 = 1;
/// Process exit code when the initial resolution finds no active window.
pub const EXIT_INITIAL_RESOLUTION_FAILED: u8 = 2;
/// Process exit code when a mid-loop resolution finds no active window.
pub const EXIT_RESOLUTION_FAILED: u8 = 3;
/// Process exit code when the server rejects the unmap request.
pub const EXIT_UNMAP_FAILED: u8 = 4;

/// The tracker's state: not yet seeded, tracking a last-known active window,
/// or terminated with the exit code the process must end with.
#[derive(Clone, Copy, Debug, PartialEq, Eq, Structural)]
pub enum TrackerState {
    Uninitialized,
    Tracking { last_active: u32 },
    Terminated { exit_code: u8 },
}

/// What the process must do after seeding: subscribe to property-change
/// notifications on the root surface and enter the wait loop, or exit.
#[derive(Clone, Copy, Debug, PartialEq, Eq, Structural)]
pub enum SeedAction {
    Subscribe,
    Exit(u8),
}

/// An event handed over by the transport while waiting: a property-change
/// notification carrying the changed atom, some other event kind, or a
/// transport-level fault.
#[derive(Clone, Copy, Debug, PartialEq, Eq, Structural)]
pub enum WaitOutcome {
    PropertyChanged { atom: u32 },
    OtherEvent,
    Fault,
}

/// What the process must do after an event arrived: keep waiting, re-resolve
/// the active window and report the result, or exit. No variant asks for a
/// hide: waiting alone never hides a window.
#[derive(Clone, Copy, Debug, PartialEq, Eq, Structural)]
pub enum WaitAction {
    Wait,
    Resolve,
    Exit(u8),
}

/// What the process must do after a resolution was reported: keep waiting,
/// request that the given window be unmapped and report the result, or exit.
#[derive(Clone, Copy, Debug, PartialEq, Eq, Structural)]
pub enum ResolutionAction {
    Wait,
    Unmap(u32),
    Exit(u8),
}

/// What the process must do after the unmap request's outcome was reported:
/// keep waiting, or exit.
#[derive(Clone, Copy, Debug, PartialEq, Eq, Structural)]
pub enum UnmapAction {
    Wait,
    Exit(u8),
}

/// The seed transition: a resolved handle starts tracking and subscribes;
/// anything else terminates before any subscription.
pub open spec fn seed_step(r: Resolution) -> (TrackerState, SeedAction) {
    match r {
        Resolution::Active(h) => (
            TrackerState::Tracking { last_active: h },
            SeedAction::Subscribe,
        ),
        Resolution::NotFound => (
            TrackerState::Terminated { exit_code: EXIT_INITIAL_RESOLUTION_FAILED },
            SeedAction::Exit(EXIT_INITIAL_RESOLUTION_FAILED),
        ),
        Resolution::Fault => (
            TrackerState::Terminated { exit_code: EXIT_TRANSPORT_FAULT },
            SeedAction::Exit(EXIT_TRANSPORT_FAULT),
        ),
    }
}

/// The wait transition: a fault is fatal; a notification for the tracked
/// atom asks for a resolution; every other event is ignored unchanged.
pub open spec fn wait_step(
    tracked_atom: u32,
    s: TrackerState,
    w: WaitOutcome,
) -> (TrackerState, WaitAction) {
    match w {
        WaitOutcome::Fault => (
            TrackerState::Terminated { exit_code: EXIT_TRANSPORT_FAULT },
            WaitAction::Exit(EXIT_TRANSPORT_FAULT),
        ),
        WaitOutcome::PropertyChanged { atom } => if atom == tracked_atom {
            (s, WaitAction::Resolve)
        } else {
            (s, WaitAction::Wait)
        },
        WaitOutcome::OtherEvent => (s, WaitAction::Wait),
    }
}

/// The resolution transition from `Tracking { last_active: old_h }`: an
/// unchanged handle is a no-op; a changed handle advances the state to the
/// new handle and asks that the departed window be unmapped; a failed
/// resolution is fatal. From any other state nothing moves.
pub open spec fn resolution_step(
    s: TrackerState,
    r: Resolution,
) -> (TrackerState, ResolutionAction) {
    match s {
        TrackerState::Tracking { last_active } => match r {
            Resolution::Active(new_h) => if new_h == last_active {
                (s, ResolutionAction::Wait)
            } else {
                (
                    TrackerState::Tracking { last_active: new_h },
                    ResolutionAction::Unmap(last_active),
                )
            },
            Resolution::NotFound => (
                TrackerState::Terminated { exit_code: EXIT_RESOLUTION_FAILED },
                ResolutionAction::Exit(EXIT_RESOLUTION_FAILED),
            ),
            Resolution::Fault => (
                TrackerState::Terminated { exit_code: EXIT_TRANSPORT_FAULT },
                ResolutionAction::Exit(EXIT_TRANSPORT_FAULT),
            ),
        },
        _ => (s, ResolutionAction::Wait),
    }
}

/// The unmap-report transition: a rejected unmap is fatal, an accepted one
/// changes nothing.
pub open spec fn unmap_step(s: TrackerState, accepted: bool) -> (TrackerState, UnmapAction) {
    if accepted {
        (s, UnmapAction::Wait)
    } else {
        (
            TrackerState::Terminated { exit_code: EXIT_UNMAP_FAILED },
            UnmapAction::Exit(EXIT_UNMAP_FAILED),
        )
    }
}

/// The focus-change tracker: the interned active-window atom, fixed for the
/// process lifetime, and the current state.
pub struct Tracker {
    pub tracked_atom: u32,
    pub state: TrackerState,
}

impl Tracker {
    /// A fresh tracker for the given active-window atom, not yet seeded.
    pub fn new(tracked_atom: u32) -> (t: Tracker)
        ensures
            t.tracked_atom == tracked_atom,
            t.state == TrackerState::Uninitialized,
    {
        Tracker { tracked_atom, state: TrackerState::Uninitialized }
    }

    /// Whether the tracker is in the steady state, waiting on notifications.
    pub fn is_tracking(&self) -> (b: bool)
        ensures
            b == (self.state is Tracking),
    {
        match self.state {
            TrackerState::Tracking { .. } => true,
            _ => false,
        }
    }

    /// The last-known active window, while tracking.
    pub fn last_active(&self) -> (h: Option<u32>)
        ensures
            self.state matches TrackerState::Tracking { last_active }
                ==> h == Some(last_active),
            !(self.state is Tracking) ==> h is None,
    {
        match self.state {
            TrackerState::Tracking { last_active } => Some(last_active),
            _ => None,
        }
    }

    /// Seeds the tracker with the initial resolution. Subscription is asked
    /// for exactly when a handle was resolved; any failure terminates before
    /// any subscription, with a non-zero exit code.
    pub fn seed(&mut self, r: Resolution) -> (a: SeedAction)
        requires
            old(self).state == TrackerState::Uninitialized,
        ensures
            final(self).tracked_atom == old(self).tracked_atom,
            (final(self).state, a) == seed_step(r),
            a == SeedAction::Subscribe <==> r is Active,
            a matches SeedAction::Exit(code) ==> code != 0 && (final(self).state matches
                TrackerState::Terminated { exit_code } && exit_code == code),
    {
        match r {
            Resolution::Active(h) => {
                self.state = TrackerState::Tracking { last_active: h };
                SeedAction::Subscribe
            },
            Resolution::NotFound => {
                self.state = TrackerState::Terminated {
                    exit_code: EXIT_INITIAL_RESOLUTION_FAILED,
                };
                SeedAction::Exit(EXIT_INITIAL_RESOLUTION_FAILED)
            },
            Resolution::Fault => {
                self.state = TrackerState::Terminated { exit_code: EXIT_TRANSPORT_FAULT };
                SeedAction::Exit(EXIT_TRANSPORT_FAULT)
            },
        }
    }

    /// Reacts to an event that arrived while waiting. A notification whose
    /// atom differs from the tracked atom, or an event of another kind, is a
    /// no-op; a matching notification asks for a resolution; a transport
    /// fault terminates with a non-zero exit code. No hide is ever asked for
    /// here.
    pub fn on_wait(&mut self, w: WaitOutcome) -> (a: WaitAction)
        requires
            old(self).state is Tracking,
        ensures
            final(self).tracked_atom == old(self).tracked_atom,
            (final(self).state, a) == wait_step(old(self).tracked_atom, old(self).state, w),
            (w matches WaitOutcome::PropertyChanged { atom } && atom != old(self).tracked_atom)
                ==> final(self).state == old(self).state && a == WaitAction::Wait,
            w is OtherEvent ==> final(self).state == old(self).state && a == WaitAction::Wait,
            a == WaitAction::Resolve <==> (w matches WaitOutcome::PropertyChanged { atom }
                && atom == old(self).tracked_atom),
            w is Fault ==> a == WaitAction::Exit(EXIT_TRANSPORT_FAULT)
                && final(self).state is Terminated,
    {
        match w {
            WaitOutcome::Fault => {
                self.state = TrackerState::Terminated { exit_code: EXIT_TRANSPORT_FAULT };
                WaitAction::Exit(EXIT_TRANSPORT_FAULT)
            },
            WaitOutcome::PropertyChanged { atom } => if atom == self.tracked_atom {
                WaitAction::Resolve
            } else {
                WaitAction::Wait
            },
            WaitOutcome::OtherEvent => WaitAction::Wait,
        }
    }

    /// Reacts to a reported resolution. Resolving the stored handle again
    /// changes nothing; a different handle advances the state and asks that
    /// the departed window be unmapped; a failed resolution terminates with
    /// a non-zero exit code.
    pub fn on_resolution(&mut self, r: Resolution) -> (a: ResolutionAction)
        requires
            old(self).state is Tracking,
        ensures
            final(self).tracked_atom == old(self).tracked_atom,
            (final(self).state, a) == resolution_step(old(self).state, r),
            r == Resolution::Active(old(self).state->last_active)
                ==> final(self).state == old(self).state && a == ResolutionAction::Wait,
            r matches Resolution::Active(new_h) ==> (new_h != old(self).state->last_active
                ==> a == ResolutionAction::Unmap(old(self).state->last_active)
                    && (final(self).state == TrackerState::Tracking { last_active: new_h })),
            !(r is Active) ==> final(self).state is Terminated
                && (a matches ResolutionAction::Exit(code) && code != 0),
    {
        let last_active = match self.state {
            TrackerState::Tracking { last_active } => last_active,
            _ => 0,  // unreachable: the tracker is in the Tracking state
        };
        match r {
            Resolution::Active(new_h) => if new_h == last_active {
                ResolutionAction::Wait
            } else {
                self.state = TrackerState::Tracking { last_active: new_h };
                ResolutionAction::Unmap(last_active)
            },
            Resolution::NotFound => {
                self.state = TrackerState::Terminated { exit_code: EXIT_RESOLUTION_FAILED };
                ResolutionAction::Exit(EXIT_RESOLUTION_FAILED)
            },
            Resolution::Fault => {
                self.state = TrackerState::Terminated { exit_code: EXIT_TRANSPORT_FAULT };
                ResolutionAction::Exit(EXIT_TRANSPORT_FAULT)
            },
        }
    }

    /// Reacts to the reported outcome of an unmap request: a rejected unmap
    /// terminates with a non-zero exit code, an accepted one changes nothing.
    pub fn on_unmap_outcome(&mut self, accepted: bool) -> (a: UnmapAction)
        requires
            old(self).state is Tracking,
        ensures
            final(self).tracked_atom == old(self).tracked_atom,
            (final(self).state, a) == unmap_step(old(self).state, accepted),
            accepted ==> final(self).state == old(self).state && a == UnmapAction::Wait,
            !accepted ==> final(self).state is Terminated
                && a == UnmapAction::Exit(EXIT_UNMAP_FAILED) && EXIT_UNMAP_FAILED != 0,
    {
        if accepted {
            UnmapAction::Wait
        } else {
            self.state = TrackerState::Terminated { exit_code: EXIT_UNMAP_FAILED };
            UnmapAction::Exit(EXIT_UNMAP_FAILED)
        }
    }
}

} // verus!
