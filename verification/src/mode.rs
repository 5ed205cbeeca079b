//! The mode state machine: owns the appliance's top-level operating state and
//! decides, for every trigger or asynchronous completion, the next mode and
//! the side effect the surrounding process must perform.

use vstd::prelude::*;

verus! {

/// The appliance's top-level operating state.
#[derive(Clone, Copy, PartialEq, Eq, Structural, Debug)]
pub enum Mode {
    /// Cycling the playlist on the kiosk surface.
    Kiosk,
    /// A remote session is being set up (processes launching, join flow running).
    SessionStarting,
    /// The remote session is usable; waiting for the stop trigger.
    SessionActive,
    /// Session processes are being torn down.
    Stopping,
}

/// The side effect the controller asks its surroundings to perform on a
/// transition.  The controller itself only decides; the caller acts.
#[derive(Clone, Copy, PartialEq, Eq, Structural, Debug)]
pub enum ModeAction {
    /// Pause the kiosk cycler, hide the kiosk surface, launch the session
    /// processes and hand off to the join pipeline.
    StartSession,
    /// Begin best-effort teardown of the session processes.
    StopSession,
    /// Resume the kiosk cycler and show the kiosk surface again.
    ResumeKiosk,
    /// Drop the event: nothing is spawned, killed, shown or hidden.
    Ignore,
}

/// An event delivered to the controller: a decoded hardware trigger, the
/// asynchronous completion of the session-start pipeline, or confirmation
/// that teardown finished.
#[derive(Clone, Copy, PartialEq, Eq, Structural, Debug)]
pub enum ModeEvent {
    /// A discrete trigger decoded from the hardware signal stream.
    Trigger,
    /// The session-start pipeline finished; `usable` says whether the
    /// session came up (retries exhausted or fatal launch failure give false).
    SessionOutcome { usable: bool },
    /// The session processes are confirmed gone.
    TeardownComplete,
}

/// Next mode and action for a trigger, following the transition table:
/// a trigger in `Kiosk` starts a session, a trigger in `SessionActive`
/// stops it, and a trigger in either transitional mode is dropped.
pub open spec fn spec_on_trigger(m: Mode) -> (Mode, ModeAction) {
    match m {
        Mode::Kiosk => (Mode::SessionStarting, ModeAction::StartSession),
        Mode::SessionStarting => (Mode::SessionStarting, ModeAction::Ignore),
        Mode::SessionActive => (Mode::Stopping, ModeAction::StopSession),
        Mode::Stopping => (Mode::Stopping, ModeAction::Ignore),
    }
}

/// The full transition function over every event the controller can receive.
/// Completions are honoured only in the mode that awaits them; stale or
/// duplicate completions are dropped.
pub open spec fn spec_step(m: Mode, e: ModeEvent) -> (Mode, ModeAction) {
    match e {
        ModeEvent::Trigger => spec_on_trigger(m),
        ModeEvent::SessionOutcome { usable } => {
            if m is SessionStarting {
                if usable {
                    (Mode::SessionActive, ModeAction::Ignore)
                } else {
                    (Mode::Kiosk, ModeAction::ResumeKiosk)
                }
            } else {
                (m, ModeAction::Ignore)
            }
        },
        ModeEvent::TeardownComplete => {
            if m is Stopping {
                (Mode::Kiosk, ModeAction::ResumeKiosk)
            } else {
                (m, ModeAction::Ignore)
            }
        },
    }
}

/// One edge of the mode cycle, including the revert taken when the
/// session-start pipeline fails fatally.
pub open spec fn cycle_edge(a: Mode, b: Mode) -> bool {
    ||| (a is Kiosk && b is SessionStarting)
    ||| (a is SessionStarting && b is SessionActive)
    ||| (a is SessionStarting && b is Kiosk)
    ||| (a is SessionActive && b is Stopping)
    ||| (a is Stopping && b is Kiosk)
}

/// An edge the transition table allows: staying put, or one step of the cycle.
pub open spec fn table_edge(a: Mode, b: Mode) -> bool {
    a == b || cycle_edge(a, b)
}

/// Law: whatever event arrives in whatever mode, the mode either stays put or
/// moves along a single edge of the cycle — it never skips a state.
pub proof fn lemma_mode_never_skips(m: Mode, e: ModeEvent)
    ensures
        table_edge(m, spec_step(m, e).0),
{
}

/// Law: a trigger delivered in a transitional mode is a no-op: the mode is
/// unchanged and the surroundings are told to do nothing, so no process is
/// spawned or killed.
pub proof fn lemma_trigger_dropped_mid_transition(m: Mode)
    requires
        m is SessionStarting || m is Stopping,
    ensures
        spec_step(m, ModeEvent::Trigger) == (m, ModeAction::Ignore),
{
}

/// Owns the current mode.  All reads and writes of the mode go through these
/// methods; the surrounding process serialises calls (one lock around the
/// controller) and performs the returned actions.
pub struct ModeController {
    mode: Mode,
}

impl ModeController {
    /// A fresh controller starts on the kiosk surface.
    pub fn new() -> (c: Self)
        ensures
            c.mode() is Kiosk,
    {
        ModeController { mode: Mode::Kiosk }
    }

    /// The current mode, as a spec-level projection.
    pub closed spec fn mode(&self) -> Mode {
        self.mode
    }

    /// Read-only snapshot of the current mode.
    pub fn current_mode(&self) -> (m: Mode)
        ensures
            m == self.mode(),
    {
        self.mode
    }

    /// Handle one decoded hardware trigger.
    pub fn on_trigger(&mut self) -> (a: ModeAction)
        ensures
            (final(self).mode(), a) == spec_on_trigger(old(self).mode()),
    {
        self.handle_event(ModeEvent::Trigger)
    }

    /// Handle any event: trigger, pipeline completion or teardown completion.
    pub fn handle_event(&mut self, e: ModeEvent) -> (a: ModeAction)
        ensures
            (final(self).mode(), a) == spec_step(old(self).mode(), e),
    {
        let (next, action) = match e {
            ModeEvent::Trigger => match self.mode {
                Mode::Kiosk => (Mode::SessionStarting, ModeAction::StartSession),
                Mode::SessionStarting => (Mode::SessionStarting, ModeAction::Ignore),
                Mode::SessionActive => (Mode::Stopping, ModeAction::StopSession),
                Mode::Stopping => (Mode::Stopping, ModeAction::Ignore),
            },
            ModeEvent::SessionOutcome { usable } => match self.mode {
                Mode::SessionStarting => {
                    if usable {
                        (Mode::SessionActive, ModeAction::Ignore)
                    } else {
                        (Mode::Kiosk, ModeAction::ResumeKiosk)
                    }
                },
                m => (m, ModeAction::Ignore),
            },
            ModeEvent::TeardownComplete => match self.mode {
                Mode::Stopping => (Mode::Kiosk, ModeAction::ResumeKiosk),
                m => (m, ModeAction::Ignore),
            },
        };
        self.mode = next;
        action
    }
}

} // verus!
