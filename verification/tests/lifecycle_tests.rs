use player_count_bot::config::{GlobalConfig, NamedServer, ServerConfig};
use player_count_bot::supervisor::Supervisor;
use player_count_bot::worker::{
    validate_credential, Worker, WorkerAction, WorkerEvent, WorkerPhase,
};

fn server(enabled: bool, name: &str) -> NamedServer {
    NamedServer {
        name: String::from(name),
        config: ServerConfig {
            enabled,
            address: String::from("localhost:8000"),
            credential: String::new(),
        },
    }
}

fn config(servers: Vec<NamedServer>) -> GlobalConfig {
    GlobalConfig { poll_interval_ms: 30_000, servers }
}

#[test]
fn one_worker_per_enabled_server_none_for_disabled() {
    let c = config(vec![
        server(true, "alpha"),
        server(false, "beta"),
        server(true, "gamma"),
    ]);
    let s = Supervisor::start(&c);
    let names: Vec<&str> = s.workers.iter().map(|w| w.name.as_str()).collect();
    assert_eq!(names, ["alpha", "gamma"]);
    assert!(s.workers.iter().all(|w| matches!(w.phase, WorkerPhase::Connecting)));
    assert!(s.workers.iter().all(|w| w.poll_interval_ms == 30_000));
}

#[test]
fn no_enabled_servers_spawns_nothing() {
    let s = Supervisor::start(&config(vec![server(false, "beta")]));
    assert!(s.workers.is_empty());
}

#[test]
fn worker_restarts_after_session_error() {
    let c = config(vec![server(true, "alpha")]);
    let mut w = Worker::spawn(
        c.servers[0].name.clone(),
        ServerConfig {
            enabled: true,
            address: c.servers[0].config.address.clone(),
            credential: String::new(),
        },
        c.poll_interval_ms,
    );
    assert!(matches!(w.step(WorkerEvent::ConnectOk), WorkerAction::RunSession));
    assert!(matches!(w.phase, WorkerPhase::Active));
    assert!(matches!(w.step(WorkerEvent::SessionEnded), WorkerAction::RetryAfterMs(500)));
    assert!(matches!(w.phase, WorkerPhase::Disconnected));
    assert!(matches!(w.step(WorkerEvent::BackoffElapsed), WorkerAction::AttemptConnect));
    assert!(matches!(w.phase, WorkerPhase::Connecting));
    assert!(matches!(w.step(WorkerEvent::ConnectOk), WorkerAction::RunSession));
    assert!(matches!(w.phase, WorkerPhase::Active));
}

#[test]
fn backoff_doubles_and_caps() {
    let mut w = Worker::spawn(String::from("alpha"), server(true, "alpha").config, 1);
    let mut delays = Vec::new();
    for _ in 0..8 {
        match w.step(WorkerEvent::ConnectFailed) {
            WorkerAction::RetryAfterMs(d) => delays.push(d),
            other => panic!("expected a retry delay, got {:?}", other),
        }
        assert!(matches!(w.phase, WorkerPhase::Connecting));
    }
    assert_eq!(delays, [500, 1000, 2000, 4000, 8000, 16000, 30000, 30000]);
}

#[test]
fn invalid_credential_terminates_only_that_worker() {
    let mut w = Worker::spawn(String::from("alpha"), server(true, "alpha").config, 1);
    assert!(matches!(
        w.step(WorkerEvent::ConnectInvalidCredential),
        WorkerAction::ReportFatal
    ));
    assert!(matches!(w.phase, WorkerPhase::Terminated));
    assert!(matches!(w.step(WorkerEvent::ConnectOk), WorkerAction::Idle));
    assert!(matches!(w.phase, WorkerPhase::Terminated));
}

#[test]
fn one_worker_event_leaves_siblings_untouched() {
    let c = config(vec![server(true, "alpha"), server(true, "gamma")]);
    let mut s = Supervisor::start(&c);
    s.worker_event(0, WorkerEvent::ConnectOk);
    s.worker_event(0, WorkerEvent::SessionEnded);
    assert!(matches!(s.workers[0].phase, WorkerPhase::Disconnected));
    assert!(matches!(s.workers[1].phase, WorkerPhase::Connecting));
    assert_eq!(s.workers[1].name, "gamma");
}

#[test]
fn shutdown_terminates_every_worker_before_finishing() {
    let c = config(vec![server(true, "alpha"), server(true, "gamma")]);
    let mut s = Supervisor::start(&c);
    s.worker_event(0, WorkerEvent::ConnectOk);
    assert!(!s.finished());
    s.request_shutdown();
    assert!(!s.finished());
    s.cancel_all();
    assert!(s.finished());
    assert!(s.workers.iter().all(|w| matches!(w.phase, WorkerPhase::Terminated)));
}

#[test]
fn empty_supervisor_is_finished() {
    let s = Supervisor::start(&config(Vec::new()));
    assert!(s.finished());
}

#[test]
fn credential_shapes() {
    assert!(validate_credential(
        "alpha",
        "Mjg4NzYwMjQxMzYzODc3ODg4.C_ikow.j3VupLBuE1QWZng3TMGH0z_UAwg"
    )
    .is_ok());
    assert!(validate_credential(
        "alpha",
        "Bot Mjg4NzYwMjQxMzYzODc3ODg4.C_ikow.j3VupLBuE1QWZng3TMGH0z_UAwg"
    )
    .is_ok());
    assert!(validate_credential("alpha", "").is_err());
    assert!(validate_credential("alpha", "Mjg4NzYwMjQxMzYzODc3ODg4").is_err());
    assert!(validate_credential("alpha", "a.b").is_err());
    assert!(validate_credential("alpha", "a..c").is_err());
    match validate_credential("alpha", "bad") {
        Err(e) => {
            let text = e.message();
            assert_eq!(text, "Invalid discord api key for server 'alpha'");
            assert!(!text.contains("bad"), "the credential must not be carried");
        }
        Ok(()) => panic!("a token without dots must be rejected"),
    }
}
