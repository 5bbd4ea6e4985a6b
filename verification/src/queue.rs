//! The job queue.
//!
//! Admission appends at the tail; the scheduler pops the first job whose
//! repository has no running handler. Ineligible jobs stay in place in
//! their original order, so a job becomes the earliest candidate for its
//! repository as soon as that repository's slot frees up — jobs for one
//! repository are handed out strictly in enqueue order.

use vstd::prelude::*;

use crate::job::Job;
use crate::running::{repos_of, RunningSet};

verus! {

/// The least index of a job whose repository is not in `busy`, if any.
pub open spec fn first_eligible(q: Seq<Job>, busy: Set<Seq<char>>) -> Option<int>
    decreases q.len(),
{
    if q.len() == 0 {
        None
    } else if !busy.contains(q[0]@.repo_name) {
        Some(0int)
    } else {
        match first_eligible(q.skip(1), busy) {
            None => None,
            Some(i) => Some(i + 1),
        }
    }
}

/// What `first_eligible` selects: an eligible job all of whose
/// predecessors are ineligible, or nothing when every job is.
pub proof fn lemma_first_eligible_characterized(q: Seq<Job>, busy: Set<Seq<char>>)
    ensures
        first_eligible(q, busy) is None <==> (forall|i: int|
            0 <= i < q.len() ==> busy.contains(#[trigger] q[i]@.repo_name)),
        first_eligible(q, busy) matches Some(i) ==> 0 <= i < q.len() && !busy.contains(
            q[i]@.repo_name,
        ) && (forall|j: int| 0 <= j < i ==> busy.contains(#[trigger] q[j]@.repo_name)),
    decreases q.len(),
{
    if q.len() > 0 {
        let tail = q.skip(1);
        lemma_first_eligible_characterized(tail, busy);
        if busy.contains(q[0]@.repo_name) {
            if let Some(i) = first_eligible(tail, busy) {
                assert(tail[i] == q[i + 1]);
                assert forall|j: int| 0 <= j < i + 1 implies busy.contains(
                    #[trigger] q[j]@.repo_name,
                ) by {
                    if j > 0 {
                        assert(tail[j - 1] == q[j]);
                    }
                }
            } else {
                assert forall|j: int| 0 <= j < q.len() implies busy.contains(
                    #[trigger] q[j]@.repo_name,
                ) by {
                    if j > 0 {
                        assert(tail[j - 1] == q[j]);
                    }
                }
            }
            if forall|j: int| 0 <= j < q.len() ==> busy.contains(#[trigger] q[j]@.repo_name) {
                assert forall|j: int| 0 <= j < tail.len() implies busy.contains(
                    #[trigger] tail[j]@.repo_name,
                ) by {
                    assert(tail[j] == q[j + 1]);
                }
                assert(first_eligible(tail, busy) is None);
            }
        }
    }
}

/// If index `i` is eligible and every earlier index is not, the scan
/// selects `i`.
pub proof fn lemma_first_eligible_at(q: Seq<Job>, busy: Set<Seq<char>>, i: int)
    requires
        0 <= i < q.len(),
        !busy.contains(q[i]@.repo_name),
        forall|j: int| 0 <= j < i ==> busy.contains(#[trigger] q[j]@.repo_name),
    ensures
        first_eligible(q, busy) == Some(i),
    decreases q.len(),
{
    if i > 0 {
        assert forall|j: int| 0 <= j < i - 1 implies busy.contains(
            #[trigger] q.skip(1)[j]@.repo_name,
        ) by {
            assert(q.skip(1)[j] == q[j + 1]);
        }
        assert(q.skip(1)[i - 1] == q[i]);
        lemma_first_eligible_at(q.skip(1), busy, i - 1);
    }
}

/// FIFO per repository: the selected job is preceded by no job of the
/// same repository, so handlers for one repository start in enqueue
/// order.
pub proof fn lemma_fifo_per_repo(q: Seq<Job>, busy: Set<Seq<char>>, i: int)
    requires
        first_eligible(q, busy) == Some(i),
    ensures
        0 <= i < q.len(),
        forall|j: int| 0 <= j < i ==> (#[trigger] q[j]@.repo_name) != q[i]@.repo_name,
{
    lemma_first_eligible_characterized(q, busy);
}

/// No implicit delivery deduplication: appending a job never displaces or
/// merges existing entries, even one with the same delivery id and
/// payload, so two identical admissions yield two independent jobs.
pub proof fn lemma_no_dedup(q: Seq<Job>, j1: Job, j2: Job)
    ensures
        q.push(j1).push(j2).len() == q.len() + 2,
        q.push(j1).push(j2)[q.len() as int] == j1,
        q.push(j1).push(j2)[q.len() as int + 1] == j2,
        forall|k: int| 0 <= k < q.len() ==> q.push(j1).push(j2)[k] == q[k],
{
}

/// The ordered queue of admitted jobs, guarded by one lock in the daemon:
/// any admission worker pushes, only the scheduler pops.
pub struct Queue {
    jobs: Vec<Job>,
}

impl View for Queue {
    type V = Seq<Job>;

    closed spec fn view(&self) -> Seq<Job> {
        self.jobs@
    }
}

impl Queue {
    /// An empty queue.
    pub fn new() -> (q: Queue)
        ensures
            q@ == Seq::<Job>::empty(),
    {
        Queue { jobs: Vec::new() }
    }

    /// How many jobs are pending.
    pub fn len(&self) -> (n: usize)
        ensures
            n == self@.len(),
    {
        self.jobs.len()
    }

    /// Append `job` at the tail.
    pub fn push(&mut self, job: Job)
        ensures
            final(self)@ == old(self)@.push(job),
    {
        self.jobs.push(job);
    }

    /// Remove and return the first job whose repository has no running
    /// handler; every other job, eligible or not, stays in place and in
    /// order. Returns nothing when no pending job is eligible.
    pub fn pop_next(&mut self, running: &RunningSet) -> (r: Option<Job>)
        ensures
            first_eligible(old(self)@, repos_of(running@)) is None ==> r is None && final(self)@
                == old(self)@,
            first_eligible(old(self)@, repos_of(running@)) matches Some(i) ==> r matches Some(job)
                && job == old(self)@[i] && final(self)@ == old(self)@.remove(i),
    {
        let ghost busy = repos_of(running@);
        let mut i: usize = 0;
        while i < self.jobs.len()
            invariant
                self.jobs@ == old(self).jobs@,
                busy == repos_of(running@),
                i <= self.jobs@.len(),
                forall|j: int| 0 <= j < i ==> busy.contains(#[trigger] self.jobs@[j]@.repo_name),
            decreases self.jobs@.len() - i,
        {
            if !running.contains_repo(&self.jobs[i].repo_name) {
                proof {
                    lemma_first_eligible_at(self.jobs@, busy, i as int);
                }
                let job = self.jobs.remove(i);
                return Some(job);
            }
            i = i + 1;
        }
        proof {
            lemma_first_eligible_characterized(self.jobs@, busy);
        }
        None
    }
}

} // verus!
