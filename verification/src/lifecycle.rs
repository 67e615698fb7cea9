//! The window lifecycle controller: a state machine over activation and
//! window events that decides which platform actions the shell performs.

use vstd::prelude::*;

verus! {

/// Whether the display resources (window, drawing context, presentation
/// surface) have been created yet. They are created together, exactly once,
/// on the first activation.
#[derive(Clone, Copy, PartialEq, Eq, Structural, Debug)]
pub enum Phase {
    Uninitialized,
    Ready,
}

/// A platform window event, reduced to the kinds the controller acts on.
#[derive(Clone, Copy, PartialEq, Eq, Structural, Debug)]
pub enum WindowSignal {
    /// The user asked to close the window.
    CloseRequested,
    /// The window was resized; the new extent is read afresh at draw time.
    Resized,
    /// The platform asked for the window contents to be redrawn.
    RedrawRequested,
    /// Any other event kind.
    Other,
}

/// The platform action the controller asks the shell to perform in response
/// to a signal.
#[derive(Clone, Copy, PartialEq, Eq, Structural, Debug)]
pub enum Action {
    /// Create the window (with the fixed title), then the drawing context,
    /// then the presentation surface, in that order, and request a first
    /// redraw. A construction failure is fatal.
    InitializeDisplay,
    /// Ask the window for a redraw.
    RequestRedraw,
    /// Run one draw cycle and report its outcome back.
    Draw,
    /// Terminate the event loop.
    ExitLoop,
    /// Do nothing.
    Nothing,
}

/// What one draw cycle came to. A failure carries the human-readable cause
/// reported by the presentation backend.
pub enum DrawOutcome {
    /// The gradient frame was presented.
    Presented,
    /// A window axis was zero, or the display was not ready; nothing was
    /// drawn, which is not an error.
    Skipped,
    /// The surface resize or the present failed; the frame was skipped.
    Failed { cause: String },
}

/// The top-level state of the application: the lifecycle phase, and whether
/// the event loop has been told to terminate.
#[derive(Clone, Copy, PartialEq, Eq, Structural, Debug)]
pub struct Controller {
    pub phase: Phase,
    pub closed: bool,
}

impl Controller {
    /// The controller's reaction to an activation signal: the state it moves
    /// to and the action it asks for.
    pub open spec fn activated(self) -> (Controller, Action) {
        if self.closed {
            (self, Action::Nothing)
        } else if self.phase is Uninitialized {
            (Controller { phase: Phase::Ready, closed: false }, Action::InitializeDisplay)
        } else {
            (self, Action::RequestRedraw)
        }
    }

    /// The controller's reaction to a window event. Once closed, every event
    /// is ignored.
    pub open spec fn dispatched(self, ev: WindowSignal) -> (Controller, Action) {
        if self.closed {
            (self, Action::Nothing)
        } else {
            match ev {
                WindowSignal::CloseRequested => (
                    Controller { phase: self.phase, closed: true },
                    Action::ExitLoop,
                ),
                WindowSignal::Resized => (
                    self,
                    if self.phase is Ready {
                        Action::RequestRedraw
                    } else {
                        Action::Nothing
                    },
                ),
                WindowSignal::RedrawRequested => (
                    self,
                    if self.phase is Ready {
                        Action::Draw
                    } else {
                        Action::Nothing
                    },
                ),
                WindowSignal::Other => (self, Action::Nothing),
            }
        }
    }

    /// A fresh controller: no display resources yet, loop running.
    pub fn new() -> (c: Controller)
        ensures
            c == (Controller { phase: Phase::Uninitialized, closed: false }),
    {
        Controller { phase: Phase::Uninitialized, closed: false }
    }

    /// Handle an activation (resume) signal: on the first one, have the
    /// display resources created and a redraw requested; on any later one,
    /// only request a redraw.
    pub fn on_activate(&mut self) -> (a: Action)
        ensures
            (*final(self), a) == old(self).activated(),
    {
        if self.closed {
            Action::Nothing
        } else {
            match self.phase {
                Phase::Uninitialized => {
                    self.phase = Phase::Ready;
                    Action::InitializeDisplay
                },
                Phase::Ready => Action::RequestRedraw,
            }
        }
    }

    /// Dispatch one window event: a close request terminates the loop, a
    /// resize or a redraw request leads to drawing once the display is
    /// ready, and every other event kind is ignored.
    pub fn on_window_event(&mut self, ev: WindowSignal) -> (a: Action)
        ensures
            (*final(self), a) == old(self).dispatched(ev),
    {
        if self.closed {
            Action::Nothing
        } else {
            match ev {
                WindowSignal::CloseRequested => {
                    self.closed = true;
                    Action::ExitLoop
                },
                WindowSignal::Resized => {
                    match self.phase {
                        Phase::Ready => Action::RequestRedraw,
                        Phase::Uninitialized => Action::Nothing,
                    }
                },
                WindowSignal::RedrawRequested => {
                    match self.phase {
                        Phase::Ready => Action::Draw,
                        Phase::Uninitialized => Action::Nothing,
                    }
                },
                WindowSignal::Other => Action::Nothing,
            }
        }
    }

    /// Take note of one draw cycle's outcome. The controller records
    /// nothing of it — a failed frame is merely reported and the next draw
    /// cycle runs in full — and tells the shell whether the outcome is a
    /// failure worth logging.
    pub fn on_draw_outcome(&mut self, outcome: &DrawOutcome) -> (report: bool)
        ensures
            *final(self) == *old(self),
            report == (outcome is Failed),
    {
        match outcome {
            DrawOutcome::Failed { .. } => true,
            _ => false,
        }
    }
}

/// The controller after dispatching each event of `evs` in order, ignoring
/// the actions.
pub open spec fn after_events(c: Controller, evs: Seq<WindowSignal>) -> Controller
    decreases evs.len(),
{
    if evs.len() == 0 {
        c
    } else {
        after_events(c.dispatched(evs[0]).0, evs.drop_first())
    }
}

/// Law: activation is idempotent. Wherever the controller stands, a second
/// activation right after a first one leaves the controller exactly where
/// the first left it, and never asks for the display resources to be
/// created again.
pub proof fn lemma_activation_idempotent(c: Controller)
    ensures
        ({
            let (c1, a1) = c.activated();
            let (c2, a2) = c1.activated();
            &&& c2 == c1
            &&& a2 != Action::InitializeDisplay
        }),
{
}

/// Law: a close is terminal. Dispatching a close request on a running
/// controller exits the loop and marks the controller closed, and from then
/// on neither a window event nor an activation changes the controller or
/// produces an action.
pub proof fn lemma_close_terminal(c: Controller, ev: WindowSignal)
    requires
        !c.closed,
    ensures
        ({
            let (c1, a1) = c.dispatched(WindowSignal::CloseRequested);
            let (c2, a2) = c1.dispatched(ev);
            let (c3, a3) = c1.activated();
            &&& a1 == Action::ExitLoop
            &&& c1.closed
            &&& c2 == c1 && a2 == Action::Nothing
            &&& c3 == c1 && a3 == Action::Nothing
        }),
{
}

/// Law: once closed, the controller is a fixed point of event dispatch: no
/// sequence of further window events changes it.
pub proof fn lemma_closed_forever(c: Controller, evs: Seq<WindowSignal>)
    requires
        c.closed,
    ensures
        after_events(c, evs) == c,
    decreases evs.len(),
{
    if evs.len() > 0 {
        lemma_closed_forever(c, evs.drop_first());
    }
}

/// Law: a presentation failure is not latched. A redraw request on a ready,
/// running controller yields a full draw cycle and leaves the controller
/// unchanged — so after a failed cycle (whose outcome, by
/// `Controller::on_draw_outcome`, changes nothing either) the next redraw
/// request yields a full draw cycle again.
pub proof fn lemma_present_failure_isolated(c: Controller)
    requires
        !c.closed,
        c.phase is Ready,
    ensures
        ({
            let (c1, a1) = c.dispatched(WindowSignal::RedrawRequested);
            let (c2, a2) = c1.dispatched(WindowSignal::RedrawRequested);
            &&& a1 == Action::Draw
            &&& c1 == c
            &&& a2 == Action::Draw
            &&& c2 == c
        }),
{
}

} // verus!
