//! Jobs: the unit of work the daemon schedules.
//!
//! A `Job` is created by admission from one validated webhook request,
//! is immutable from then on, and is consumed exactly once by the
//! scheduler. It carries everything its handler needs, so a later
//! configuration reload cannot affect it.

use vstd::prelude::*;

verus! {

/// The mathematical content of a `Job`.
pub struct JobView {
    pub repo_name: Seq<char>,
    pub event_type: Seq<char>,
    pub delivery_id: Seq<char>,
    pub payload: Seq<u8>,
    pub received_at: u64,
}

/// One unit of work derived from a single validated inbound webhook event.
pub struct Job {
    /// The repository the event belongs to; chooses the handler command.
    pub repo_name: String,
    /// The event-type header of the request, handed to the handler.
    pub event_type: String,
    /// The delivery-id header of the request. Two deliveries with the same
    /// id stay two independent jobs: the daemon never deduplicates.
    pub delivery_id: String,
    /// The raw request body, fed to the handler on its standard input.
    pub payload: Vec<u8>,
    /// When admission accepted the request (seconds, caller's clock).
    pub received_at: u64,
}

impl View for Job {
    type V = JobView;

    open spec fn view(&self) -> JobView {
        JobView {
            repo_name: self.repo_name@,
            event_type: self.event_type@,
            delivery_id: self.delivery_id@,
            payload: self.payload@,
            received_at: self.received_at,
        }
    }
}

/// Copy a byte string; `Vec::clone`'s contract says nothing byte-for-byte,
/// so the copy is made by a verified loop.
fn clone_bytes(v: &Vec<u8>) -> (r: Vec<u8>)
    ensures
        r@ == v@,
{
    let mut out: Vec<u8> = Vec::new();
    let mut i: usize = 0;
    while i < v.len()
        invariant
            i <= v@.len(),
            out@ == v@.subrange(0, i as int),
        decreases v@.len() - i,
    {
        out.push(v[i]);
        proof {
            assert(out@ =~= v@.subrange(0, i + 1));
        }
        i = i + 1;
    }
    proof {
        assert(out@ =~= v@);
    }
    out
}

impl Clone for Job {
    /// The clone carries exactly the fields of the original.
    fn clone(&self) -> (r: Job)
        ensures
            r@ == self@,
    {
        Job {
            repo_name: self.repo_name.clone(),
            event_type: self.event_type.clone(),
            delivery_id: self.delivery_id.clone(),
            payload: clone_bytes(&self.payload),
            received_at: self.received_at,
        }
    }
}

} // verus!
