//! Event admission.
//!
//! Admission turns one inbound HTTP request into either a queued job or a
//! rejecting HTTP status. It validates the method, the required headers
//! and the body size, looks the repository up in the current snapshot,
//! and verifies the signature over the raw body with that repository's
//! secret — then answers immediately, never waiting on execution.

use vstd::prelude::*;

use crate::config::{repo_lookup, ConfigSnapshot};
use crate::job::Job;
use crate::sig::{sig_header_ok, verify_signature};

verus! {

/// One inbound webhook request, as the transport layer hands it to
/// admission: the method, the values of the relevant headers (`None`
/// where a header is absent), and the raw body exactly as received.
pub struct HookRequest {
    /// The HTTP method of the request.
    pub method: String,
    /// The repository the request says it is for.
    pub repo_name: Option<String>,
    /// The event-type header.
    pub event_type: Option<String>,
    /// The delivery-id header.
    pub delivery_id: Option<String>,
    /// The signature header, of the form `sha256=<hex-digest>`.
    pub signature: Option<String>,
    /// The raw, unparsed request body; the signature is computed over
    /// these exact bytes.
    pub payload: Vec<u8>,
}

/// What admission decides for one request.
#[derive(Clone, Copy, Debug, PartialEq, Eq, Structural)]
pub enum AdmissionOutcome {
    /// The request was authenticated and a job was queued (202).
    Accepted,
    /// Not a POST, or a required field is missing (400).
    BadRequest,
    /// The signature header is missing or does not match (401).
    Unauthorized,
    /// The request names a repository the snapshot does not have (404).
    UnknownRepo,
    /// The body exceeds the configured limit (413).
    PayloadTooLarge,
}

impl AdmissionOutcome {
    /// The HTTP status code sent for this outcome.
    pub open spec fn spec_status(self) -> u16 {
        match self {
            AdmissionOutcome::Accepted => 202u16,
            AdmissionOutcome::BadRequest => 400u16,
            AdmissionOutcome::Unauthorized => 401u16,
            AdmissionOutcome::UnknownRepo => 404u16,
            AdmissionOutcome::PayloadTooLarge => 413u16,
        }
    }

    /// The HTTP status code sent for this outcome.
    pub fn status_code(&self) -> (s: u16)
        ensures
            s == self.spec_status(),
    {
        match *self {
            AdmissionOutcome::Accepted => 202,
            AdmissionOutcome::BadRequest => 400,
            AdmissionOutcome::Unauthorized => 401,
            AdmissionOutcome::UnknownRepo => 404,
            AdmissionOutcome::PayloadTooLarge => 413,
        }
    }
}

/// The decision admission makes for `req` against snapshot `conf` with
/// body-size limit `max_body`: the method and the required fields first
/// (400), then the size limit (413), then the repository lookup (404),
/// then the signature (401); a request that passes them all is accepted.
pub open spec fn admit_decision(req: HookRequest, conf: ConfigSnapshot, max_body: usize) -> AdmissionOutcome {
    if req.method@ != "POST"@ || req.event_type is None || req.delivery_id is None
        || req.repo_name is None {
        AdmissionOutcome::BadRequest
    } else if req.payload@.len() > max_body {
        AdmissionOutcome::PayloadTooLarge
    } else {
        match req.repo_name {
            None => AdmissionOutcome::BadRequest,
            Some(name) => match repo_lookup(conf.repos@, name@) {
                None => AdmissionOutcome::UnknownRepo,
                Some(rc) => match req.signature {
                    None => AdmissionOutcome::Unauthorized,
                    Some(sig) => if sig_header_ok(sig@, rc.secret@, req.payload@) {
                        AdmissionOutcome::Accepted
                    } else {
                        AdmissionOutcome::Unauthorized
                    },
                },
            },
        }
    }
}

/// Is `j` the job admission builds for `req` at time `now`: the request's
/// fields and raw payload, captured unchanged?
pub open spec fn admitted_job(j: Job, req: HookRequest, now: u64) -> bool {
    &&& req.repo_name matches Some(n) && j.repo_name@ == n@
    &&& req.event_type matches Some(e) && j.event_type@ == e@
    &&& req.delivery_id matches Some(d) && j.delivery_id@ == d@
    &&& j.payload@ == req.payload@
    &&& j.received_at == now
}

/// Admission is a function of the request and the configured
/// repositories alone: once a reload has replaced the snapshot, requests
/// are decided against the new snapshot's secrets exclusively, and a job
/// admitted earlier — which carries its own data — is unaffected.
pub proof fn lemma_admission_uses_current_snapshot(
    req: HookRequest,
    c1: ConfigSnapshot,
    c2: ConfigSnapshot,
    max_body: usize,
)
    requires
        c1.repos@ == c2.repos@,
    ensures
        admit_decision(req, c1, max_body) == admit_decision(req, c2, max_body),
{
}

/// Validate `req` against `conf` and build its job: `Ok` carries the job
/// an accepted request turns into, `Err` the rejecting outcome.
pub fn admit_request(req: HookRequest, conf: &ConfigSnapshot, max_body: usize, now: u64) -> (r:
    Result<Job, AdmissionOutcome>)
    ensures
        r matches Ok(j) ==> admit_decision(req, *conf, max_body) == AdmissionOutcome::Accepted
            && admitted_job(j, req, now),
        r matches Err(o) ==> o == admit_decision(req, *conf, max_body) && o
            != AdmissionOutcome::Accepted,
{
    let post = String::from_str("POST");
    if !(req.method == post) {
        return Err(AdmissionOutcome::BadRequest);
    }
    let name = match req.repo_name {
        Some(n) => n,
        None => {
            return Err(AdmissionOutcome::BadRequest);
        },
    };
    let event_type = match req.event_type {
        Some(e) => e,
        None => {
            return Err(AdmissionOutcome::BadRequest);
        },
    };
    let delivery_id = match req.delivery_id {
        Some(d) => d,
        None => {
            return Err(AdmissionOutcome::BadRequest);
        },
    };
    if req.payload.len() > max_body {
        return Err(AdmissionOutcome::PayloadTooLarge);
    }
    let rc = match conf.find_repo(&name) {
        Some(rc) => rc,
        None => {
            return Err(AdmissionOutcome::UnknownRepo);
        },
    };
    let sig = match req.signature {
        Some(s) => s,
        None => {
            return Err(AdmissionOutcome::Unauthorized);
        },
    };
    if !verify_signature(sig.as_str(), rc.secret.as_slice(), req.payload.as_slice()) {
        return Err(AdmissionOutcome::Unauthorized);
    }
    Ok(Job { repo_name: name, event_type, delivery_id, payload: req.payload, received_at: now })
}

} // verus!
