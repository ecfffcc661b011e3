use sonar::session::{error_after_finish, history_limit_for_save, Command, RecordingState, Session};
use sonar::settings::ModelUnloadTimeout;

#[test]
fn toggling_walks_through_a_recording() {
    let mut session = Session::new();
    assert!(matches!(session.toggle(), Command::Start));
    assert_eq!(session.state, RecordingState::Starting);
    assert!(matches!(session.toggle(), Command::Nothing));
    session.on_started("base".to_owned());
    assert_eq!(session.state, RecordingState::Recording);
    match session.toggle() {
        Command::Stop { model_id } => assert_eq!(model_id, "base"),
        _ => panic!("expected stop"),
    }
    assert!(session.is_transcribing());
    assert!(matches!(session.toggle(), Command::Nothing));
    let timer = session.on_finished(ModelUnloadTimeout::TwoMinutes).expect("an unload is scheduled");
    assert_eq!(timer.delay_secs, 120);
    assert_eq!(session.state, RecordingState::Idle);
    assert!(session.active_model_id.is_none());
    assert!(session.unload_due(timer.generation));
    // A new recording invalidates the pending unload.
    assert!(matches!(session.toggle(), Command::Start));
    assert!(!session.unload_due(timer.generation));
}

#[test]
fn cancel_and_errors_return_to_idle() {
    let mut session = Session::new();
    assert!(!session.cancel());
    session.toggle();
    session.on_error();
    assert_eq!(session.state, RecordingState::Idle);
    session.toggle();
    session.on_started("m".to_owned());
    session.on_error();
    assert_eq!(session.state, RecordingState::Recording);
    assert!(session.cancel());
    assert_eq!(session.state, RecordingState::Idle);
    session.on_cancelled();
    assert!(session.active_model_id.is_none());
    assert!(session.on_finished(ModelUnloadTimeout::Never).is_none());
}

#[test]
fn stop_without_a_model_names_it_unknown() {
    let mut session = Session::new();
    session.state = RecordingState::Recording;
    match session.toggle() {
        Command::Stop { model_id } => assert_eq!(model_id, "unknown"),
        _ => panic!("expected stop"),
    }
}

#[test]
fn finishing_reports_the_right_error() {
    let ok: Result<String, String> = Ok("text".to_owned());
    let failed: Result<String, String> = Err("not recording".to_owned());
    assert_eq!(error_after_finish(&ok, None, None), None);
    assert_eq!(error_after_finish(&failed, None, None), Some("not recording".to_owned()));
    assert_eq!(error_after_finish(&ok, Some("disk full"), None), Some("Failed to save history: disk full".to_owned()));
    assert_eq!(
        error_after_finish(&ok, Some("disk full"), Some("no focus")),
        Some("Transcription completed, but text insertion failed: no focus".to_owned())
    );
    assert_eq!(history_limit_for_save(-5), 0);
    assert_eq!(history_limit_for_save(100), 100);
}
