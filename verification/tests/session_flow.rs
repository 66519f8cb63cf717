use pdf_compressor::job::{JobError, JobPhase, ToolOutcome};
use pdf_compressor::preset::CompressionPreset;
use pdf_compressor::session::{AppAction, AppEvent, Session};

#[test]
fn fresh_session_defaults() {
    let s = Session::new();
    assert!(s.picked_path().is_none());
    assert!(s.output_path().is_none());
    assert_eq!(s.current_preset(), CompressionPreset::Ebook);
    assert_eq!(s.current_dpi(), 150);
    assert_eq!(s.current_phase(), JobPhase::Idle);
}

#[test]
fn slider_values_are_clamped_to_the_bound() {
    let mut s = Session::new();
    s.set_dpi(5);
    assert_eq!(s.current_dpi(), 10);
    s.set_dpi(1000);
    assert_eq!(s.current_dpi(), 300);
    s.set_dpi(40);
    assert_eq!(s.current_dpi(), 40);
}

#[test]
fn full_compression_flow() {
    let mut s = Session::new();
    s.set_preset(CompressionPreset::Screen);
    s.set_dpi(150);

    let action = s.handle(AppEvent::FilePicked(String::from("/docs/report.pdf")));
    assert!(matches!(action, AppAction::Stay));
    assert_eq!(
        s.picked_path().as_deref(),
        Some("/docs/report.pdf")
    );
    assert_eq!(
        s.output_path().as_deref(),
        Some("/docs/report_compressed.pdf")
    );

    let action = s.handle(AppEvent::CompressTriggered);
    let request = match action {
        AppAction::Spawn(request) => request,
        _ => panic!("the trigger must start the job"),
    };
    assert_eq!(request.input_path, "/docs/report.pdf");
    assert_eq!(request.output_path, "/docs/report_compressed.pdf");
    assert_eq!(request.preset, CompressionPreset::Screen);
    assert_eq!(request.dpi, 150);
    assert_eq!(s.current_phase(), JobPhase::Running);

    let action = s.handle(AppEvent::JobFinished(ToolOutcome::Exited(0)));
    assert!(matches!(action, AppAction::Stay));
    assert_eq!(s.current_phase(), JobPhase::Done);
}

#[test]
fn rapid_second_trigger_spawns_nothing() {
    let mut s = Session::new();
    s.handle(AppEvent::FilePicked(String::from("/docs/report.pdf")));
    let first = s.handle(AppEvent::CompressTriggered);
    assert!(matches!(first, AppAction::Spawn(_)));
    // The first job is still running: the second trigger is a no-op.
    let second = s.handle(AppEvent::CompressTriggered);
    assert!(matches!(second, AppAction::Stay));
    assert_eq!(s.current_phase(), JobPhase::Running);
}

#[test]
fn trigger_without_a_picked_file_spawns_nothing() {
    let mut s = Session::new();
    let action = s.handle(AppEvent::CompressTriggered);
    assert!(matches!(action, AppAction::Stay));
    assert_eq!(s.current_phase(), JobPhase::Idle);
}

#[test]
fn stemless_pick_is_rejected_and_state_kept() {
    let mut s = Session::new();
    s.handle(AppEvent::FilePicked(String::from("/docs/report.pdf")));
    let action = s.handle(AppEvent::FilePicked(String::from("/docs/")));
    assert!(matches!(
        action,
        AppAction::Reject(JobError::InvalidInputPath)
    ));
    // The earlier pick survives a rejected one.
    assert_eq!(
        s.picked_path().as_deref(),
        Some("/docs/report.pdf")
    );
}

#[test]
fn picking_a_new_file_resets_a_shown_result() {
    let mut s = Session::new();
    s.handle(AppEvent::FilePicked(String::from("/docs/report.pdf")));
    s.handle(AppEvent::CompressTriggered);
    s.handle(AppEvent::JobFinished(ToolOutcome::Exited(0)));
    assert_eq!(s.current_phase(), JobPhase::Done);
    s.handle(AppEvent::FilePicked(String::from("/docs/other.pdf")));
    assert_eq!(s.current_phase(), JobPhase::Idle);
    assert_eq!(
        s.output_path().as_deref(),
        Some("/docs/other_compressed.pdf")
    );
}

#[test]
fn failed_job_leaves_a_reportable_failure() {
    let mut s = Session::new();
    s.handle(AppEvent::FilePicked(String::from("/docs/report.pdf")));
    s.handle(AppEvent::CompressTriggered);
    s.handle(AppEvent::JobFinished(ToolOutcome::Exited(1)));
    assert_eq!(
        s.current_phase(),
        JobPhase::Failed(JobError::ExternalToolNonZeroExit(1))
    );
    // A new job may start after a failure.
    let action = s.handle(AppEvent::CompressTriggered);
    assert!(matches!(action, AppAction::Spawn(_)));
}

#[test]
fn completion_report_without_a_running_job_changes_nothing() {
    let mut s = Session::new();
    let action = s.handle(AppEvent::JobFinished(ToolOutcome::Exited(0)));
    assert!(matches!(action, AppAction::Stay));
    assert_eq!(s.current_phase(), JobPhase::Idle);
}
