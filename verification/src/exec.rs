//! The decision core of the process runner. While the engine runs, the
//! runner is woken by whichever comes first: a line on the progress
//! channel, or the child's exit. This module decides what each wakeup
//! means; the surrounding loop performs the reads, the forwarding, the
//! draining of the log streams, and the final join.

use vstd::prelude::*;

verus! {

/// What woke the runner up.
pub enum RunnerEvent {
    /// A full line arrived on the progress channel.
    ProgressLine(String),
    /// The progress channel reported end-of-stream.
    ProgressEof,
    /// Reading the progress channel failed; the error is logged.
    ProgressReadError,
    /// The child process exited, successfully or not.
    ChildExited(bool),
}

/// What the runner does about it.
pub enum RunnerAction {
    /// Forward the line, verbatim, toward the status relay.
    Forward(String),
    /// Keep awaiting progress data and process exit.
    KeepWaiting,
    /// Drain what remains of the output streams, join the log writers,
    /// and return the recorded exit success.
    Finish(bool),
}

/// One wakeup of the runner: progress lines are forwarded verbatim and
/// never block exit detection; read errors and end-of-stream leave the
/// runner waiting; the child's exit — success or not — ends the run,
/// with the exit status returned as data rather than as an error.
pub fn runner_step(event: RunnerEvent) -> (r: RunnerAction)
    ensures
        event matches RunnerEvent::ProgressLine(line) ==> (r matches RunnerAction::Forward(s) && s@
            == line@),
        event is ProgressEof ==> r is KeepWaiting,
        event is ProgressReadError ==> r is KeepWaiting,
        event matches RunnerEvent::ChildExited(ok) ==> (r matches RunnerAction::Finish(b) && b
            == ok),
{
    match event {
        RunnerEvent::ProgressLine(line) => RunnerAction::Forward(line),
        RunnerEvent::ProgressEof => RunnerAction::KeepWaiting,
        RunnerEvent::ProgressReadError => RunnerAction::KeepWaiting,
        RunnerEvent::ChildExited(ok) => RunnerAction::Finish(ok),
    }
}

} // verus!
