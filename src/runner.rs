//! The decisions of the task that serves one interactive session: what to do
//! with each interaction request and control message, one at a time.
use vstd::prelude::*;

use crate::process::SessionOp;

verus! {

/// A request for one exchange: the input to write and the marker to wait
/// for.
pub struct Interaction(pub String, pub String);

/// A message from a client that controls the child.
#[derive(Debug, Clone, Copy, PartialEq, Eq, Structural)]
pub enum Control {
    Quit,
    Pause,
    Resume,
}

/// What goes wrong in the runner.
#[derive(Debug, Clone, Copy, PartialEq, Eq, Structural)]
pub enum RunnerError {
    /// A control message came before any interaction started the child.
    NotStarted,
}

/// What the runner is handed next.
pub enum RunnerEvent {
    Interaction(Interaction),
    Control(Control),
    /// A channel to the runner was closed.
    Closed,
}

/// What the runner does next.
pub enum RunnerAction {
    /// Exchange `input` for the reply up to `marker`, spawning the child
    /// first when `spawn` holds.
    Interact { spawn: bool, input: String, marker: String },
    /// Apply `op` to the session; the runner ends after it when `stop`
    /// holds.
    Apply { op: SessionOp, stop: bool },
    /// The runner ends, with the error if there is one.
    Exit(Option<RunnerError>),
}

/// The session operation for `ctl`, and whether the runner ends after it.
pub open spec fn control_spec(ctl: Control) -> (SessionOp, bool) {
    match ctl {
        Control::Pause => (SessionOp::Pause, false),
        Control::Resume => (SessionOp::Resume, false),
        Control::Quit => (SessionOp::Terminate, true),
    }
}

/// The session operation for the control message `ctl`, and whether the
/// runner ends after it; an error when the child has not been started.
pub fn break_control_session(started: bool, ctl: Control) -> (r: Result<(SessionOp, bool), RunnerError>)
    ensures
        !started ==> r == Err::<(SessionOp, bool), RunnerError>(RunnerError::NotStarted),
        started ==> r == Ok::<(SessionOp, bool), RunnerError>(control_spec(ctl)),
{
    if !started {
        return Err(RunnerError::NotStarted);
    }
    match ctl {
        Control::Pause => Ok((SessionOp::Pause, false)),
        Control::Resume => Ok((SessionOp::Resume, false)),
        Control::Quit => Ok((SessionOp::Terminate, true)),
    }
}

/// Where the runner stands: whether the child has been spawned, and whether
/// the runner has ended.
#[derive(Debug, Clone, Copy, PartialEq, Eq, Structural)]
pub struct RunnerState {
    pub started: bool,
    pub finished: bool,
}

impl RunnerState {
    /// A runner whose child is not spawned yet.
    pub fn new() -> (r: RunnerState)
        ensures
            r == (RunnerState { started: false, finished: false }),
    {
        RunnerState { started: false, finished: false }
    }

    /// The action for `ev`. An interaction spawns the child the first time;
    /// a control message applies to the running session, and `Quit` ends
    /// the runner after the termination; a control message before the
    /// spawn, or a closed channel, ends it; once ended it only exits.
    pub fn step(&mut self, ev: RunnerEvent) -> (r: RunnerAction)
        ensures
            old(self).finished ==> r == RunnerAction::Exit(None) && *final(self) == *old(self),
            !old(self).finished ==> match ev {
                RunnerEvent::Interaction(Interaction(input, marker)) => (r matches RunnerAction::Interact {
                    spawn,
                    input: i,
                    marker: m,
                } && spawn == !old(self).started && i == input && m == marker) && *final(self) == (
                RunnerState { started: true, finished: false }),
                RunnerEvent::Control(c) => if old(self).started {
                    r == RunnerAction::Apply { op: control_spec(c).0, stop: control_spec(c).1 }
                        && *final(self) == (RunnerState {
                        started: true,
                        finished: control_spec(c).1,
                    })
                } else {
                    r == RunnerAction::Exit(Some(RunnerError::NotStarted)) && *final(self) == (
                    RunnerState { started: false, finished: true })
                },
                RunnerEvent::Closed => r == RunnerAction::Exit(None) && *final(self) == (
                RunnerState { started: old(self).started, finished: true }),
            },
    {
        if self.finished {
            return RunnerAction::Exit(None);
        }
        match ev {
            RunnerEvent::Interaction(Interaction(input, marker)) => {
                let spawn = !self.started;
                self.started = true;
                RunnerAction::Interact { spawn, input, marker }
            },
            RunnerEvent::Control(c) => match break_control_session(self.started, c) {
                Ok((op, stop)) => {
                    self.finished = stop;
                    RunnerAction::Apply { op, stop }
                },
                Err(e) => {
                    self.finished = true;
                    RunnerAction::Exit(Some(e))
                },
            },
            RunnerEvent::Closed => {
                self.finished = true;
                RunnerAction::Exit(None)
            },
        }
    }
}

} // verus!
