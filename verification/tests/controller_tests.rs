use rplayer::controller::{Command, Controller, EngineAction, EngineReply, PlaybackState};
use rplayer::error::PlayerError;

#[test]
fn starts_stopped() {
    let c = Controller::new();
    assert!(matches!(c.current_state(), PlaybackState::Stopped));
}

#[test]
fn play_from_stopped_builds_and_starts() {
    let c = Controller::new();
    assert!(matches!(c.plan(&Command::Play), EngineAction::BuildAndStart));
}

#[test]
fn play_accepted_yields_playing() {
    let mut c = Controller::new();
    let r = c.settle(&Command::Play, EngineReply::Accepted);
    assert!(r.is_ok());
    assert!(matches!(c.current_state(), PlaybackState::Playing));
}

#[test]
fn play_rejected_missing_element_yields_stopped() {
    let mut c = Controller::new();
    let r = c.settle(
        &Command::Play,
        EngineReply::Rejected(PlayerError::ElementUnavailable("mpg123audiodec".to_string())),
    );
    match r {
        Err(PlayerError::ElementUnavailable(name)) => assert_eq!(name, "mpg123audiodec"),
        _ => panic!("expected the engine's error back"),
    }
    assert!(matches!(c.current_state(), PlaybackState::Stopped));
}

#[test]
fn play_rejected_bad_source_yields_stopped() {
    let mut c = Controller::new();
    let r = c.settle(&Command::Play, EngineReply::Rejected(PlayerError::PropertyError));
    assert!(matches!(r, Err(PlayerError::PropertyError)));
    assert!(matches!(c.current_state(), PlaybackState::Stopped));
}

#[test]
fn toggle_pauses_and_resumes() {
    let mut c = Controller::new();
    c.settle(&Command::Play, EngineReply::Accepted).unwrap();
    assert!(matches!(c.plan(&Command::PlayPause), EngineAction::Pause));
    c.settle(&Command::PlayPause, EngineReply::Accepted).unwrap();
    assert!(matches!(c.current_state(), PlaybackState::Paused));
    assert!(matches!(c.plan(&Command::PlayPause), EngineAction::Resume));
    c.settle(&Command::PlayPause, EngineReply::Accepted).unwrap();
    assert!(matches!(c.current_state(), PlaybackState::Playing));
}

#[test]
fn toggle_with_no_graph_acts_as_play() {
    let c = Controller::new();
    assert!(matches!(c.plan(&Command::PlayPause), EngineAction::BuildAndStart));
}

#[test]
fn rejected_transition_releases_graph() {
    let mut c = Controller::new();
    c.settle(&Command::Play, EngineReply::Accepted).unwrap();
    let r = c.settle(&Command::PlayPause, EngineReply::Rejected(PlayerError::PlaybackError));
    assert!(matches!(r, Err(PlayerError::PlaybackError)));
    assert!(matches!(c.current_state(), PlaybackState::Stopped));
}

#[test]
fn stop_from_every_state_yields_stopped() {
    // Stopped
    let mut c = Controller::new();
    c.settle(&Command::Stop, EngineReply::Accepted).unwrap();
    assert!(matches!(c.current_state(), PlaybackState::Stopped));
    // Playing
    c.settle(&Command::Play, EngineReply::Accepted).unwrap();
    c.settle(&Command::Stop, EngineReply::Accepted).unwrap();
    assert!(matches!(c.current_state(), PlaybackState::Stopped));
    // Paused
    c.settle(&Command::Play, EngineReply::Accepted).unwrap();
    c.settle(&Command::PlayPause, EngineReply::Accepted).unwrap();
    c.settle(&Command::Stop, EngineReply::Accepted).unwrap();
    assert!(matches!(c.current_state(), PlaybackState::Stopped));
    // Faulted
    c.fault("decoder died".to_string());
    assert!(matches!(c.current_state(), PlaybackState::Faulted(_)));
    c.settle(&Command::Stop, EngineReply::Accepted).unwrap();
    assert!(matches!(c.current_state(), PlaybackState::Stopped));
}

#[test]
fn stop_reports_rejection_but_still_stops() {
    let mut c = Controller::new();
    c.settle(&Command::Play, EngineReply::Accepted).unwrap();
    let r = c.settle(&Command::Stop, EngineReply::Rejected(PlayerError::PlaybackError));
    assert!(matches!(r, Err(PlayerError::PlaybackError)));
    assert!(matches!(c.current_state(), PlaybackState::Stopped));
}

#[test]
fn fault_retains_message() {
    let mut c = Controller::new();
    c.fault("resource error".to_string());
    match c.current_state() {
        PlaybackState::Faulted(msg) => assert_eq!(msg, "resource error"),
        _ => panic!("expected a faulted state"),
    }
}

#[test]
fn play_from_paused_resumes() {
    let mut c = Controller::new();
    c.settle(&Command::Play, EngineReply::Accepted).unwrap();
    c.settle(&Command::PlayPause, EngineReply::Accepted).unwrap();
    assert!(matches!(c.plan(&Command::Play), EngineAction::Resume));
    c.settle(&Command::Play, EngineReply::Accepted).unwrap();
    assert!(matches!(c.current_state(), PlaybackState::Playing));
}

#[test]
fn play_while_playing_needs_nothing() {
    let mut c = Controller::new();
    c.settle(&Command::Play, EngineReply::Accepted).unwrap();
    assert!(matches!(c.plan(&Command::Play), EngineAction::Nothing));
    let r = c.settle(&Command::Play, EngineReply::Accepted);
    assert!(r.is_ok());
    assert!(matches!(c.current_state(), PlaybackState::Playing));
}
