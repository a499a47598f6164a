use paced_relay::cycle::{
    CycleAction, CycleConfig, CycleEvent, CycleState, SourceKind, Status,
};

fn file_loop() -> CycleConfig {
    CycleConfig { source: SourceKind::FileLoop, relisten: false }
}

fn connection(relisten: bool) -> CycleConfig {
    CycleConfig { source: SourceKind::Connection, relisten }
}

#[test]
fn file_loop_cycle_restarts() {
    let cfg = file_loop();
    let mut s = CycleState::new();
    assert_eq!(s.status, Status::Listening);
    assert_eq!(s.cycle_index, 0);

    assert_eq!(s.advance(CycleEvent::PeerConnected, cfg), CycleAction::Continue);
    assert_eq!(s.status, Status::Connected);
    assert_eq!(s.advance(CycleEvent::StreamingStarted, cfg), CycleAction::Continue);
    assert_eq!(s.status, Status::Streaming);
    assert_eq!(s.advance(CycleEvent::EndOfStream, cfg), CycleAction::DrainAndClose);
    assert_eq!(s.status, Status::Closed);
    assert_eq!(s.advance(CycleEvent::CycleTorndown, cfg), CycleAction::Restart);
    assert_eq!(s.status, Status::Connected);
    assert_eq!(s.cycle_index, 1);
}

#[test]
fn fatal_error_while_streaming_closes_now() {
    let cfg = file_loop();
    let mut s = CycleState::new();
    s.advance(CycleEvent::PeerConnected, cfg);
    s.advance(CycleEvent::StreamingStarted, cfg);
    assert_eq!(s.advance(CycleEvent::FatalError, cfg), CycleAction::CloseNow);
    assert_eq!(s.status, Status::Errored);
    assert_eq!(s.advance(CycleEvent::CycleTorndown, cfg), CycleAction::Restart);
    assert_eq!(s.status, Status::Connected);
}

#[test]
fn fatal_error_while_connected_closes_now() {
    let cfg = connection(true);
    let mut s = CycleState::new();
    s.advance(CycleEvent::PeerConnected, cfg);
    assert_eq!(s.advance(CycleEvent::FatalError, cfg), CycleAction::CloseNow);
    assert_eq!(s.status, Status::Errored);
}

#[test]
fn connection_cycle_relisten_or_terminate() {
    let mut s = CycleState::new();
    s.advance(CycleEvent::PeerConnected, connection(true));
    s.advance(CycleEvent::StreamingStarted, connection(true));
    s.advance(CycleEvent::EndOfStream, connection(true));
    assert_eq!(s.advance(CycleEvent::CycleTorndown, connection(true)), CycleAction::Relisten);
    assert_eq!(s.status, Status::Listening);
    assert_eq!(s.cycle_index, 1);

    let mut t = CycleState::new();
    t.advance(CycleEvent::PeerConnected, connection(false));
    t.advance(CycleEvent::FatalError, connection(false));
    assert_eq!(t.advance(CycleEvent::CycleTorndown, connection(false)), CycleAction::Terminate);
    assert_eq!(t.status, Status::Errored);
}

#[test]
fn meaningless_event_changes_nothing() {
    let cfg = file_loop();
    let mut s = CycleState::new();
    assert_eq!(s.advance(CycleEvent::EndOfStream, cfg), CycleAction::Continue);
    assert_eq!(s.status, Status::Listening);
    assert_eq!(s.cycle_index, 0);
}
