//! End-to-end scenarios over the daemon's state machine: admission,
//! drain, spawn reports, reaping, and configuration reloads.

use hmac::Mac;
use snare::admission::{AdmissionOutcome, HookRequest};
use snare::config::{ConfigSnapshot, RepoConfig};
use snare::daemon::{DrainAction, SnareState};

fn sign(secret: &[u8], body: &[u8]) -> String {
    let mut mac = hmac::Hmac::<sha2::Sha256>::new_from_slice(secret).unwrap();
    mac.update(body);
    let digest = mac.finalize().into_bytes();
    let mut s = String::from("sha256=");
    for b in digest {
        s.push_str(&format!("{:02x}", b));
    }
    s
}

fn snapshot_with(secret: &str, command: &str) -> ConfigSnapshot {
    let repos = vec![RepoConfig {
        name: String::from("infra"),
        secret: secret.as_bytes().to_vec(),
        command: String::from(command),
    }];
    ConfigSnapshot::new(String::from("127.0.0.1:8080"), repos, None).unwrap()
}

fn post(secret: &str, body: &[u8], delivery: &str) -> HookRequest {
    HookRequest {
        method: String::from("POST"),
        repo_name: Some(String::from("infra")),
        event_type: Some(String::from("push")),
        delivery_id: Some(String::from(delivery)),
        signature: Some(sign(secret.as_bytes(), body)),
        payload: body.to_vec(),
    }
}

#[test]
fn correct_post_is_queued_and_spawned() {
    let mut state = SnareState::new(snapshot_with("s1", "/bin/handler"), 10 * 1024 * 1024, None);
    let outcome = state.handle(post("s1", b"the payload", "d-1"), 7);
    assert_eq!(outcome.status_code(), 202);
    assert_eq!(state.queue.len(), 1);
    match state.drain_step() {
        DrainAction::Spawn(job, command) => {
            assert_eq!(command, "/bin/handler");
            assert_eq!(job.payload, b"the payload".to_vec());
            assert_eq!(job.repo_name, "infra");
        }
        _ => panic!("expected a spawn"),
    }
    state.note_spawned(100, 8);
    assert_eq!(state.running.len(), 1);
    assert_eq!(state.queue.len(), 0);
}

#[test]
fn incorrect_signature_leaves_queue_unchanged() {
    let mut state = SnareState::new(snapshot_with("s1", "/bin/handler"), 10 * 1024 * 1024, None);
    let outcome = state.handle(post("wrong secret", b"the payload", "d-1"), 7);
    assert_eq!(outcome.status_code(), 401);
    assert_eq!(state.queue.len(), 0);
    assert!(matches!(state.drain_step(), DrainAction::Idle));
}

#[test]
fn second_post_waits_until_first_is_reaped() {
    let mut state = SnareState::new(snapshot_with("s1", "/bin/handler"), 10 * 1024 * 1024, None);
    assert_eq!(state.handle(post("s1", b"first", "d-1"), 1), AdmissionOutcome::Accepted);
    assert_eq!(state.handle(post("s1", b"second", "d-2"), 2), AdmissionOutcome::Accepted);
    match state.drain_step() {
        DrainAction::Spawn(job, _) => assert_eq!(job.delivery_id, "d-1"),
        _ => panic!("expected a spawn"),
    }
    state.note_spawned(100, 3);
    // "infra" is busy: the second job stays queued.
    assert!(matches!(state.drain_step(), DrainAction::Idle));
    assert_eq!(state.queue.len(), 1);
    // Reaping the first frees the slot; the second spawns, in order.
    let reaped = state.reap(100).unwrap();
    assert_eq!(reaped.job.delivery_id, "d-1");
    match state.drain_step() {
        DrainAction::Spawn(job, _) => assert_eq!(job.delivery_id, "d-2"),
        _ => panic!("expected a spawn"),
    }
}

#[test]
fn reload_changes_secret_for_later_posts_only() {
    let mut state = SnareState::new(snapshot_with("old secret", "/bin/old"), 10 * 1024 * 1024, None);
    assert_eq!(state.handle(post("old secret", b"queued before reload", "d-1"), 1), AdmissionOutcome::Accepted);
    // SIGHUP: the configuration now carries a new secret and command.
    let log = state.check_for_sighup(Ok(snapshot_with("new secret", "/bin/new")));
    assert!(log.is_none());
    // The queued job is unaffected by the reload.
    assert_eq!(state.queue.len(), 1);
    // Later posts are validated against the new secret exclusively.
    assert_eq!(state.handle(post("old secret", b"x", "d-2"), 2).status_code(), 401);
    assert_eq!(state.handle(post("new secret", b"y", "d-3"), 3), AdmissionOutcome::Accepted);
    // The already-queued job still runs, with the payload captured at
    // admission and the currently configured command.
    match state.drain_step() {
        DrainAction::Spawn(job, command) => {
            assert_eq!(job.payload, b"queued before reload".to_vec());
            assert_eq!(command, "/bin/new");
        }
        _ => panic!("expected a spawn"),
    }
}

#[test]
fn failed_reload_keeps_previous_snapshot() {
    let mut state = SnareState::new(snapshot_with("s1", "/bin/handler"), 10 * 1024 * 1024, None);
    let log = state.check_for_sighup(Err(String::from("syntax error on line 3")));
    assert_eq!(log.unwrap(), "syntax error on line 3");
    assert_eq!(state.handle(post("s1", b"still works", "d-1"), 1), AdmissionOutcome::Accepted);
}

#[test]
fn next_job_runs_after_nonzero_exit() {
    let mut state = SnareState::new(snapshot_with("s1", "/bin/handler"), 10 * 1024 * 1024, None);
    assert_eq!(state.handle(post("s1", b"first", "d-1"), 1), AdmissionOutcome::Accepted);
    assert_eq!(state.handle(post("s1", b"second", "d-2"), 2), AdmissionOutcome::Accepted);
    assert!(matches!(state.drain_step(), DrainAction::Spawn(_, _)));
    state.note_spawned(100, 3);
    // The handler exits non-zero; the caller logs it and reaps. The exit
    // status is propagated nowhere: the next job for the repository is
    // picked up on the following drain pass.
    assert!(state.reap(100).is_some());
    match state.drain_step() {
        DrainAction::Spawn(job, _) => assert_eq!(job.delivery_id, "d-2"),
        _ => panic!("expected a spawn"),
    }
}

#[test]
fn job_for_removed_repo_is_dropped() {
    let mut state = SnareState::new(snapshot_with("s1", "/bin/handler"), 10 * 1024 * 1024, None);
    assert_eq!(state.handle(post("s1", b"doomed", "d-1"), 1), AdmissionOutcome::Accepted);
    // The reload removes "infra" from the configuration.
    let empty = ConfigSnapshot::new(String::from("127.0.0.1:8080"), vec![], None).unwrap();
    assert!(state.check_for_sighup(Ok(empty)).is_none());
    match state.drain_step() {
        DrainAction::DropJob(job) => assert_eq!(job.delivery_id, "d-1"),
        _ => panic!("expected the job to be dropped"),
    }
    assert_eq!(state.queue.len(), 0);
    assert!(matches!(state.drain_step(), DrainAction::Idle));
}

#[test]
fn failed_spawn_drops_the_job_only() {
    let mut state = SnareState::new(snapshot_with("s1", "/bin/handler"), 10 * 1024 * 1024, None);
    assert_eq!(state.handle(post("s1", b"first", "d-1"), 1), AdmissionOutcome::Accepted);
    assert_eq!(state.handle(post("s1", b"second", "d-2"), 2), AdmissionOutcome::Accepted);
    assert!(matches!(state.drain_step(), DrainAction::Spawn(_, _)));
    // The spawn fails (say, the handler is missing): the job is dropped,
    // not retried, and the repository's slot frees at once.
    let failed = state.note_spawn_failed();
    assert_eq!(failed.delivery_id, "d-1");
    match state.drain_step() {
        DrainAction::Spawn(job, _) => assert_eq!(job.delivery_id, "d-2"),
        _ => panic!("expected a spawn"),
    }
}

#[test]
fn global_ceiling_caps_concurrency() {
    let repos = vec![
        RepoConfig {
            name: String::from("a"),
            secret: b"sa".to_vec(),
            command: String::from("/bin/a"),
        },
        RepoConfig {
            name: String::from("b"),
            secret: b"sb".to_vec(),
            command: String::from("/bin/b"),
        },
    ];
    let snap = ConfigSnapshot::new(String::from("127.0.0.1:8080"), repos, None).unwrap();
    let mut state = SnareState::new(snap, 10 * 1024 * 1024, Some(1));
    let mut req_a = post("sa", b"pa", "d-a");
    req_a.repo_name = Some(String::from("a"));
    let mut req_b = post("sb", b"pb", "d-b");
    req_b.repo_name = Some(String::from("b"));
    assert_eq!(state.handle(req_a, 1), AdmissionOutcome::Accepted);
    assert_eq!(state.handle(req_b, 2), AdmissionOutcome::Accepted);
    assert!(matches!(state.drain_step(), DrainAction::Spawn(_, _)));
    state.note_spawned(100, 3);
    // Distinct repository, but the ceiling of one is reached.
    assert!(matches!(state.drain_step(), DrainAction::Idle));
    assert!(state.reap(100).is_some());
    match state.drain_step() {
        DrainAction::Spawn(job, _) => assert_eq!(job.repo_name, "b"),
        _ => panic!("expected a spawn"),
    }
}
