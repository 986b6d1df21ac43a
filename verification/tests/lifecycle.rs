use go_magic_desktop::backend::BackendError;
use go_magic_desktop::lifecycle::{
    reap_decision, ExitPoll, ReapAction, Restart, RestartAction, RestartEvent,
};

#[test]
fn stopping_always_reaps_the_backend() {
    assert_eq!(reap_decision(ExitPoll::Exited, 0), ReapAction::Done);
    assert_eq!(reap_decision(ExitPoll::Exited, 9_000), ReapAction::Done);
    assert_eq!(
        reap_decision(ExitPoll::Running, 0),
        ReapAction::PollAgainAfter(25)
    );
    assert_eq!(
        reap_decision(ExitPoll::Running, 4_999),
        ReapAction::PollAgainAfter(25)
    );
    assert_eq!(reap_decision(ExitPoll::Running, 5_000), ReapAction::WaitToEnd);
    assert_eq!(reap_decision(ExitPoll::Failed, 0), ReapAction::WaitToEnd);
}

#[test]
fn a_restart_stops_pauses_spawns_and_announces_the_new_port() {
    let (mut restart, first) = Restart::begin();
    assert!(matches!(first, RestartAction::StopBackend));
    assert!(matches!(
        restart.advance(RestartEvent::Completed),
        RestartAction::Pause(1000)
    ));
    assert!(matches!(
        restart.advance(RestartEvent::Completed),
        RestartAction::SpawnBackend
    ));
    assert!(matches!(
        restart.advance(RestartEvent::Spawned(Ok(5003))),
        RestartAction::AwaitReady(5003)
    ));
    assert!(!restart.is_finished());
    assert!(matches!(
        restart.advance(RestartEvent::ReadyChecked(true)),
        RestartAction::Announce(5003)
    ));
    assert!(restart.is_finished());
    assert!(matches!(
        restart.advance(RestartEvent::Completed),
        RestartAction::Idle
    ));
}

#[test]
fn a_restart_reports_spawn_failures_and_timeouts() {
    let (mut restart, _) = Restart::begin();
    restart.advance(RestartEvent::Completed);
    restart.advance(RestartEvent::Completed);
    match restart.advance(RestartEvent::Spawned(Err(BackendError::NoPortAvailable))) {
        RestartAction::ReportSpawnFailure(e) => {
            assert_eq!(e.to_string(), "No available port found")
        }
        _ => panic!("expected a spawn failure"),
    }
    assert!(restart.is_finished());

    let (mut restart, _) = Restart::begin();
    restart.advance(RestartEvent::Completed);
    restart.advance(RestartEvent::Completed);
    restart.advance(RestartEvent::Spawned(Ok(5000)));
    assert!(matches!(
        restart.advance(RestartEvent::ReadyChecked(false)),
        RestartAction::ReportTimeout
    ));
}

#[test]
fn a_restart_ignores_events_out_of_turn() {
    let (mut restart, _) = Restart::begin();
    assert!(matches!(
        restart.advance(RestartEvent::ReadyChecked(true)),
        RestartAction::Idle
    ));
    assert!(matches!(
        restart.advance(RestartEvent::Spawned(Ok(5000))),
        RestartAction::Idle
    ));
    assert!(matches!(
        restart.advance(RestartEvent::Completed),
        RestartAction::Pause(_)
    ));
}
