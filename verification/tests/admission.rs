//! Admission outcomes: one test per HTTP status, and the absence of
//! delivery deduplication.

use hmac::Mac;
use snare::admission::{AdmissionOutcome, HookRequest};
use snare::config::{ConfigSnapshot, RepoConfig};
use snare::daemon::SnareState;

fn sign(secret: &[u8], body: &[u8]) -> String {
    let mut mac = hmac::Hmac::<sha2::Sha256>::new_from_slice(secret).unwrap();
    mac.update(body);
    let digest = mac.finalize().into_bytes();
    let mut s = String::from("sha256=");
    for b in digest {
        s.push_str(&format!("{:02x}", b));
    }
    s
}

fn snapshot() -> ConfigSnapshot {
    let repos = vec![RepoConfig {
        name: String::from("infra"),
        secret: b"infra-secret".to_vec(),
        command: String::from("/usr/share/snare/infra.sh"),
    }];
    ConfigSnapshot::new(String::from("127.0.0.1:8080"), repos, None).unwrap()
}

fn request(body: &[u8]) -> HookRequest {
    HookRequest {
        method: String::from("POST"),
        repo_name: Some(String::from("infra")),
        event_type: Some(String::from("push")),
        delivery_id: Some(String::from("d-1")),
        signature: Some(sign(b"infra-secret", body)),
        payload: body.to_vec(),
    }
}

#[test]
fn accepted_returns_202() {
    let mut state = SnareState::new(snapshot(), 10 * 1024 * 1024, None);
    let outcome = state.handle(request(b"payload"), 7);
    assert_eq!(outcome, AdmissionOutcome::Accepted);
    assert_eq!(outcome.status_code(), 202);
    assert_eq!(state.queue.len(), 1);
}

#[test]
fn non_post_returns_400() {
    let mut state = SnareState::new(snapshot(), 10 * 1024 * 1024, None);
    let mut req = request(b"payload");
    req.method = String::from("GET");
    let outcome = state.handle(req, 7);
    assert_eq!(outcome, AdmissionOutcome::BadRequest);
    assert_eq!(outcome.status_code(), 400);
    assert_eq!(state.queue.len(), 0);
}

#[test]
fn missing_event_type_returns_400() {
    let mut state = SnareState::new(snapshot(), 10 * 1024 * 1024, None);
    let mut req = request(b"payload");
    req.event_type = None;
    assert_eq!(state.handle(req, 7), AdmissionOutcome::BadRequest);
}

#[test]
fn missing_delivery_id_returns_400() {
    let mut state = SnareState::new(snapshot(), 10 * 1024 * 1024, None);
    let mut req = request(b"payload");
    req.delivery_id = None;
    assert_eq!(state.handle(req, 7), AdmissionOutcome::BadRequest);
}

#[test]
fn missing_repo_field_returns_400() {
    let mut state = SnareState::new(snapshot(), 10 * 1024 * 1024, None);
    let mut req = request(b"payload");
    req.repo_name = None;
    assert_eq!(state.handle(req, 7), AdmissionOutcome::BadRequest);
}

#[test]
fn unknown_repo_returns_404() {
    let mut state = SnareState::new(snapshot(), 10 * 1024 * 1024, None);
    let mut req = request(b"payload");
    req.repo_name = Some(String::from("absent"));
    let outcome = state.handle(req, 7);
    assert_eq!(outcome, AdmissionOutcome::UnknownRepo);
    assert_eq!(outcome.status_code(), 404);
    assert_eq!(state.queue.len(), 0);
}

#[test]
fn missing_signature_returns_401() {
    let mut state = SnareState::new(snapshot(), 10 * 1024 * 1024, None);
    let mut req = request(b"payload");
    req.signature = None;
    let outcome = state.handle(req, 7);
    assert_eq!(outcome, AdmissionOutcome::Unauthorized);
    assert_eq!(outcome.status_code(), 401);
}

#[test]
fn oversized_body_returns_413() {
    let mut state = SnareState::new(snapshot(), 8, None);
    let outcome = state.handle(request(b"123456789"), 7);
    assert_eq!(outcome, AdmissionOutcome::PayloadTooLarge);
    assert_eq!(outcome.status_code(), 413);
    assert_eq!(state.queue.len(), 0);
    // A body of exactly the limit passes.
    let outcome = state.handle(request(b"12345678"), 7);
    assert_eq!(outcome, AdmissionOutcome::Accepted);
}

#[test]
fn identical_deliveries_queue_two_jobs() {
    let mut state = SnareState::new(snapshot(), 10 * 1024 * 1024, None);
    assert_eq!(state.handle(request(b"same payload"), 7), AdmissionOutcome::Accepted);
    assert_eq!(state.handle(request(b"same payload"), 7), AdmissionOutcome::Accepted);
    assert_eq!(state.queue.len(), 2);
}

#[test]
fn accepted_job_captures_the_request() {
    let mut state = SnareState::new(snapshot(), 10 * 1024 * 1024, None);
    assert_eq!(state.handle(request(b"the body"), 42), AdmissionOutcome::Accepted);
    let job = state.queue.pop_next(&snare::running::RunningSet::new()).unwrap();
    assert_eq!(job.repo_name, "infra");
    assert_eq!(job.event_type, "push");
    assert_eq!(job.delivery_id, "d-1");
    assert_eq!(job.payload, b"the body".to_vec());
    assert_eq!(job.received_at, 42);
}
