use pdf_compressor::job::{JobError, JobPhase, JobState, ToolOutcome};

#[test]
fn fresh_state_is_idle() {
    let state = JobState::new();
    assert_eq!(state.current(), JobPhase::Idle);
    assert!(!state.is_running());
    assert!(!state.is_done());
}

#[test]
fn clean_exit_reports_done() {
    let mut state = JobState::new();
    assert!(state.try_start());
    assert!(state.is_running());
    state.finish(ToolOutcome::Exited(0));
    assert!(state.is_done());
    assert_eq!(state.current(), JobPhase::Done);
}

#[test]
fn second_trigger_while_running_is_a_no_op() {
    let mut state = JobState::new();
    assert!(state.try_start());
    // The first job is still running: the trigger must refuse to start
    // another one, so only one child process is ever in flight.
    assert!(!state.try_start());
    assert_eq!(state.current(), JobPhase::Running);
    state.finish(ToolOutcome::Exited(0));
    // Once the job completed, a new one may start.
    assert!(state.try_start());
}

#[test]
fn nonzero_exit_reports_failure_with_the_code() {
    // A failing tool run is surfaced as a tracked failure with its exit
    // code, instead of bringing the whole process down.
    let mut state = JobState::new();
    assert!(state.try_start());
    state.finish(ToolOutcome::Exited(3));
    assert_eq!(
        state.current(),
        JobPhase::Failed(JobError::ExternalToolNonZeroExit(3))
    );
    assert!(!state.is_done());
    assert!(!state.is_running());
}

#[test]
fn spawn_failure_reports_failure_without_a_code() {
    let mut state = JobState::new();
    assert!(state.try_start());
    state.finish(ToolOutcome::SpawnFailed);
    assert_eq!(
        state.current(),
        JobPhase::Failed(JobError::ExternalToolSpawnFailed)
    );
}

#[test]
fn picking_a_file_clears_a_done_result() {
    let mut state = JobState::new();
    assert!(state.try_start());
    state.finish(ToolOutcome::Exited(0));
    assert!(state.is_done());
    state.pick_file();
    // The stale completion must not survive the pick: a newer job that
    // has not finished yet can never be shown as done.
    assert!(!state.is_done());
    assert_eq!(state.current(), JobPhase::Idle);
}

#[test]
fn picking_a_file_clears_a_failed_result() {
    let mut state = JobState::new();
    assert!(state.try_start());
    state.finish(ToolOutcome::Exited(1));
    state.pick_file();
    assert_eq!(state.current(), JobPhase::Idle);
}

#[test]
fn picking_a_file_while_running_keeps_the_job_running() {
    let mut state = JobState::new();
    assert!(state.try_start());
    state.pick_file();
    assert!(state.is_running());
    assert!(!state.is_done());
}
