//! Relaunching the updated binary and propagating its exit code.
//!
//! The update flow is a state machine: replace the binary on disk, spawn
//! a child from the updated path with the original arguments, wait for
//! it, and terminate the current process with the child's exit code.
//! There is no retry or rollback transition: a failure in replace or
//! spawn is fatal and surfaces before relaunch is attempted. The steps
//! that touch the OS — the filesystem commit, the spawn, the wait — are
//! performed by the surrounding application, which feeds each outcome
//! back into [`flow_step`] and performs the action it returns.

use vstd::prelude::*;

use crate::errors::UpdateError;

verus! {

/// The arguments for the relaunched process: the original argv with
/// index 0, the program name, removed — forwarded verbatim.
pub fn relaunch_args(argv: &Vec<String>) -> (r: Vec<String>)
    requires
        argv@.len() >= 1,
    ensures
        r@ == argv@.skip(1),
{
    let mut r: Vec<String> = Vec::new();
    let mut i: usize = 1;
    while i < argv.len()
        invariant
            1 <= i <= argv@.len(),
            r@ == argv@.subrange(1, i as int),
        decreases argv@.len() - i,
    {
        r.push(argv[i].clone());
        assert(r@ =~= argv@.subrange(1, i + 1));
        i = i + 1;
    }
    assert(argv@.subrange(1, i as int) =~= argv@.skip(1));
    r
}

/// The exit code the current process terminates with once the child
/// has exited: the child's own code, or 1 when it is unavailable (for
/// instance when the child was terminated by a signal).
pub open spec fn propagated_exit_code(child_code: Option<i32>) -> i32 {
    match child_code {
        Some(c) => c,
        None => 1,
    }
}

/// Computes [`propagated_exit_code`]: the child's exit code, or the
/// fallback 1 when it is unavailable.
pub fn exit_code_of(child_code: Option<i32>) -> (r: i32)
    ensures
        r == propagated_exit_code(child_code),
{
    match child_code {
        Some(c) => c,
        None => 1,
    }
}

/// Where the update flow stands.
#[derive(Clone, Copy, Debug, PartialEq, Eq, Structural)]
pub enum FlowState {
    /// No step has run yet.
    Idle,
    /// The new binary is being committed to disk.
    Replacing,
    /// The child process is being created from the updated path.
    Spawning,
    /// The spawned child is running; the flow waits for it.
    WaitingOnChild,
    /// The flow is over; the current process terminates with this code.
    Terminated(i32),
    /// The flow failed before relaunch; the current process keeps
    /// running its original binary.
    Failed(UpdateError),
}

/// What the surrounding application reports back into the flow.
#[derive(Clone, Copy, Debug, PartialEq, Eq, Structural)]
pub enum FlowEvent {
    /// The update flow was started.
    Start,
    /// The replace step committed the payload to disk.
    ReplaceSucceeded,
    /// The replace step failed with a filesystem error.
    ReplaceFailed,
    /// The child process was created.
    SpawnSucceeded,
    /// The child process could not be created.
    SpawnFailed,
    /// The child terminated, with its exit code when available.
    ChildExited(Option<i32>),
}

/// What the surrounding application must do next.
#[derive(Clone, Copy, Debug, PartialEq, Eq, Structural)]
pub enum FlowAction {
    /// Commit the new binary over the running executable.
    Replace,
    /// Spawn the child from the updated path with the original
    /// arguments, its standard output and error connected to the
    /// parent's.
    Spawn,
    /// Block until the spawned child terminates.
    Wait,
    /// Terminate the current process with this exit code.
    Exit(i32),
    /// Surface this error to the caller; no further step runs.
    Report(UpdateError),
    /// Nothing: the event does not belong to the current state.
    Ignore,
}

/// The transition relation of the update flow. Each state accepts
/// exactly the outcomes of the action it asked for; a failure of
/// replace or spawn moves to `Failed` and surfaces the error, and the
/// child's exit moves to `Terminated` with the propagated exit code.
/// Any other pairing of state and event changes nothing.
pub open spec fn flow_step_spec(s: FlowState, e: FlowEvent) -> (FlowState, FlowAction) {
    match (s, e) {
        (FlowState::Idle, FlowEvent::Start) => (FlowState::Replacing, FlowAction::Replace),
        (FlowState::Replacing, FlowEvent::ReplaceSucceeded) => (
            FlowState::Spawning,
            FlowAction::Spawn,
        ),
        (FlowState::Replacing, FlowEvent::ReplaceFailed) => (
            FlowState::Failed(UpdateError::IoError),
            FlowAction::Report(UpdateError::IoError),
        ),
        (FlowState::Spawning, FlowEvent::SpawnSucceeded) => (
            FlowState::WaitingOnChild,
            FlowAction::Wait,
        ),
        (FlowState::Spawning, FlowEvent::SpawnFailed) => (
            FlowState::Failed(UpdateError::SpawnError),
            FlowAction::Report(UpdateError::SpawnError),
        ),
        (FlowState::WaitingOnChild, FlowEvent::ChildExited(code)) => (
            FlowState::Terminated(propagated_exit_code(code)),
            FlowAction::Exit(propagated_exit_code(code)),
        ),
        _ => (s, FlowAction::Ignore),
    }
}

/// One step of the update flow: from the current state and the reported
/// event to the next state and the action to perform.
pub fn flow_step(s: FlowState, e: FlowEvent) -> (r: (FlowState, FlowAction))
    ensures
        r == flow_step_spec(s, e),
{
    match (s, e) {
        (FlowState::Idle, FlowEvent::Start) => (FlowState::Replacing, FlowAction::Replace),
        (FlowState::Replacing, FlowEvent::ReplaceSucceeded) => (
            FlowState::Spawning,
            FlowAction::Spawn,
        ),
        (FlowState::Replacing, FlowEvent::ReplaceFailed) => (
            FlowState::Failed(UpdateError::IoError),
            FlowAction::Report(UpdateError::IoError),
        ),
        (FlowState::Spawning, FlowEvent::SpawnSucceeded) => (
            FlowState::WaitingOnChild,
            FlowAction::Wait,
        ),
        (FlowState::Spawning, FlowEvent::SpawnFailed) => (
            FlowState::Failed(UpdateError::SpawnError),
            FlowAction::Report(UpdateError::SpawnError),
        ),
        (FlowState::WaitingOnChild, FlowEvent::ChildExited(code)) => {
            let exit = exit_code_of(code);
            (FlowState::Terminated(exit), FlowAction::Exit(exit))
        },
        (state, _) => (state, FlowAction::Ignore),
    }
}

} // verus!
