use launcher_update::errors::UpdateError;
use launcher_update::relaunch::{
    exit_code_of, flow_step, relaunch_args, FlowAction, FlowEvent, FlowState,
};

#[test]
fn child_argv_is_parent_argv_without_program_name() {
    let argv = vec![
        String::from("launcher"),
        String::from("--profile"),
        String::from("main"),
    ];
    let forwarded = relaunch_args(&argv);
    assert_eq!(
        forwarded,
        vec![String::from("--profile"), String::from("main")]
    );
}

#[test]
fn no_arguments_forwarded_when_only_program_name() {
    let argv = vec![String::from("launcher")];
    assert!(relaunch_args(&argv).is_empty());
}

#[test]
fn exit_code_is_childs_own() {
    assert_eq!(exit_code_of(Some(0)), 0);
    assert_eq!(exit_code_of(Some(7)), 7);
}

#[test]
fn exit_code_falls_back_to_one() {
    assert_eq!(exit_code_of(None), 1);
}

#[test]
fn flow_runs_replace_spawn_wait_exit() {
    let (s, a) = flow_step(FlowState::Idle, FlowEvent::Start);
    assert_eq!(s, FlowState::Replacing);
    assert_eq!(a, FlowAction::Replace);

    let (s, a) = flow_step(s, FlowEvent::ReplaceSucceeded);
    assert_eq!(s, FlowState::Spawning);
    assert_eq!(a, FlowAction::Spawn);

    let (s, a) = flow_step(s, FlowEvent::SpawnSucceeded);
    assert_eq!(s, FlowState::WaitingOnChild);
    assert_eq!(a, FlowAction::Wait);

    let (s, a) = flow_step(s, FlowEvent::ChildExited(Some(3)));
    assert_eq!(s, FlowState::Terminated(3));
    assert_eq!(a, FlowAction::Exit(3));
}

#[test]
fn flow_exits_with_fallback_when_child_code_unavailable() {
    let (s, a) = flow_step(FlowState::WaitingOnChild, FlowEvent::ChildExited(None));
    assert_eq!(s, FlowState::Terminated(1));
    assert_eq!(a, FlowAction::Exit(1));
}

#[test]
fn replace_failure_is_fatal_before_relaunch() {
    let (s, a) = flow_step(FlowState::Replacing, FlowEvent::ReplaceFailed);
    assert_eq!(s, FlowState::Failed(UpdateError::IoError));
    assert_eq!(a, FlowAction::Report(UpdateError::IoError));
}

#[test]
fn spawn_failure_is_fatal() {
    let (s, a) = flow_step(FlowState::Spawning, FlowEvent::SpawnFailed);
    assert_eq!(s, FlowState::Failed(UpdateError::SpawnError));
    assert_eq!(a, FlowAction::Report(UpdateError::SpawnError));
}

#[test]
fn mismatched_event_changes_nothing() {
    let (s, a) = flow_step(FlowState::Idle, FlowEvent::SpawnSucceeded);
    assert_eq!(s, FlowState::Idle);
    assert_eq!(a, FlowAction::Ignore);
    let (s, a) = flow_step(FlowState::Terminated(0), FlowEvent::Start);
    assert_eq!(s, FlowState::Terminated(0));
    assert_eq!(a, FlowAction::Ignore);
}
