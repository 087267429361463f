//! Decisions of the polling supervisor. The supervisor runs one background
//! task that pumps the session until it is cancelled; the thread itself and
//! the cancellation flag live with the caller, which asks these functions
//! what to do.
use vstd::prelude::*;
use crate::session::SessionError;

verus! {

/// Read timeout of each pump of the polling task, in milliseconds.
pub const POLL_TIMEOUT_MS: i32 = 10;

/// What `stop_pumping` asks the caller to do.
#[derive(Clone, Copy, Debug, PartialEq, Eq, Structural)]
pub enum StopAction {
    /// Raise the cancellation flag and wait for the task to end.
    JoinTask,
    /// No task runs: nothing to do.
    NothingToStop,
}

/// What the polling task does next.
#[derive(Clone, Copy, Debug, PartialEq, Eq, Structural)]
pub enum LoopStep {
    /// Pump the session once more.
    Pump,
    /// Leave the loop: it was cancelled.
    Exit,
    /// Leave the loop and hand this error to whoever stops the task.
    Fail(SessionError),
}

/// Whether a polling task runs. A task that ended on a failed read still
/// counts as running until `stop_pumping` collects its error.
pub struct PumpLifecycle {
    running: bool,
}

impl View for PumpLifecycle {
    type V = bool;

    closed spec fn view(&self) -> bool {
        self.running
    }
}

/// Whether a task runs after `start_pumping`, from `running`.
pub open spec fn after_start(running: bool) -> bool {
    true
}

/// Whether a task runs after `stop_pumping`, from `running`.
pub open spec fn after_stop(running: bool) -> bool {
    false
}

/// Starting the polling task and then stopping it leaves no task running,
/// whether or not one ran before.
pub proof fn lemma_start_then_stop_leaves_none(running: bool)
    ensures
        !after_stop(after_start(running)),
{
}

impl PumpLifecycle {
    /// No task runs.
    pub fn new() -> (r: PumpLifecycle)
        ensures
            !r@,
    {
        PumpLifecycle { running: false }
    }

    /// Whether a task runs.
    pub fn is_running(&self) -> (r: bool)
        ensures
            r == self@,
    {
        self.running
    }

    /// Records that a task starts. Where one already runs, fails with
    /// `AlreadyRunning` and the caller spawns nothing.
    pub fn start_pumping(&mut self) -> (r: Result<(), SessionError>)
        ensures
            final(self)@ == after_start(old(self)@),
            old(self)@ ==> r == Err::<(), SessionError>(SessionError::AlreadyRunning),
            !old(self)@ ==> r is Ok,
    {
        if self.running {
            return Err(SessionError::AlreadyRunning);
        }
        self.running = true;
        Ok(())
    }

    /// Records that no task runs, and says whether one has to be joined.
    pub fn stop_pumping(&mut self) -> (r: StopAction)
        ensures
            final(self)@ == after_stop(old(self)@),
            r == (if old(self)@ {
                StopAction::JoinTask
            } else {
                StopAction::NothingToStop
            }),
    {
        let was_running = self.running;
        self.running = false;
        if was_running {
            StopAction::JoinTask
        } else {
            StopAction::NothingToStop
        }
    }
}

/// The polling task's decision before each pump, from the cancellation flag
/// and the result of the last read (`Ok(0)` before the first): a failed read
/// ends the loop with its error, otherwise the loop ends once cancelled.
pub fn next_step(cancelled: bool, last_read: Result<usize, SessionError>) -> (r: LoopStep)
    ensures
        r == (match last_read {
            Err(e) => LoopStep::Fail(e),
            Ok(_) => if cancelled {
                LoopStep::Exit
            } else {
                LoopStep::Pump
            },
        }),
{
    match last_read {
        Err(e) => LoopStep::Fail(e),
        Ok(_) => if cancelled {
            LoopStep::Exit
        } else {
            LoopStep::Pump
        },
    }
}

} // verus!
