//! The running-process table.
//!
//! The scheduler records one `RunningProcess` per spawned handler and
//! removes it when the child's exit is reaped. The table's invariant is
//! single-flight per repository: no two entries ever share a repository
//! name, because concurrent handler runs would corrupt repository-local
//! state.

use vstd::prelude::*;

use crate::job::Job;

verus! {

/// One spawned handler that has not been reaped yet.
pub struct RunningProcess {
    /// The job the handler was spawned for.
    pub job: Job,
    /// The child's process id, as the spawner reported it.
    pub pid: u64,
    /// When the handler was spawned (seconds, caller's clock).
    pub started_at: u64,
}

/// The repository names that have a running handler.
pub open spec fn repos_of(rs: Seq<RunningProcess>) -> Set<Seq<char>> {
    Set::new(|n: Seq<char>| exists|i: int| 0 <= i < rs.len() && rs[i].job@.repo_name == n)
}

/// Single-flight per repository: no two entries share a repository name.
pub open spec fn single_flight(rs: Seq<RunningProcess>) -> bool {
    forall|i: int, j: int|
        0 <= i < j < rs.len() ==> (#[trigger] rs[i].job@.repo_name) != (
        #[trigger] rs[j].job@.repo_name)
}

/// The least index whose entry has process id `pid`, if any.
pub open spec fn find_pid(rs: Seq<RunningProcess>, pid: u64) -> Option<int>
    decreases rs.len(),
{
    if rs.len() == 0 {
        None
    } else if rs[0].pid == pid {
        Some(0int)
    } else {
        match find_pid(rs.skip(1), pid) {
            None => None,
            Some(i) => Some(i + 1),
        }
    }
}

/// What `find_pid` finds: the least index carrying `pid`, or none at all.
pub proof fn lemma_find_pid_characterized(rs: Seq<RunningProcess>, pid: u64)
    ensures
        find_pid(rs, pid) is None <==> (forall|i: int|
            0 <= i < rs.len() ==> (#[trigger] rs[i].pid) != pid),
        find_pid(rs, pid) matches Some(i) ==> 0 <= i < rs.len() && rs[i].pid == pid && (forall|
            j: int,
        |
            0 <= j < i ==> (#[trigger] rs[j].pid) != pid),
    decreases rs.len(),
{
    if rs.len() > 0 {
        let tail = rs.skip(1);
        lemma_find_pid_characterized(tail, pid);
        if rs[0].pid != pid {
            if let Some(i) = find_pid(tail, pid) {
                assert(tail[i] == rs[i + 1]);
                assert forall|j: int| 0 <= j < i + 1 implies (#[trigger] rs[j].pid) != pid by {
                    if j > 0 {
                        assert(tail[j - 1] == rs[j]);
                    }
                }
            } else {
                assert forall|j: int| 0 <= j < rs.len() implies (#[trigger] rs[j].pid) != pid by {
                    if j > 0 {
                        assert(tail[j - 1] == rs[j]);
                    }
                }
            }
            if forall|j: int| 0 <= j < rs.len() ==> (#[trigger] rs[j].pid) != pid {
                assert forall|j: int| 0 <= j < tail.len() implies (#[trigger] tail[j].pid)
                    != pid by {
                    assert(tail[j] == rs[j + 1]);
                }
                assert(find_pid(tail, pid) is None);
            }
        }
    }
}

/// Removing any entry keeps single-flight.
pub proof fn lemma_single_flight_remove(rs: Seq<RunningProcess>, i: int)
    requires
        single_flight(rs),
        0 <= i < rs.len(),
    ensures
        single_flight(rs.remove(i)),
{
    let r = rs.remove(i);
    assert forall|a: int, b: int| 0 <= a < b < r.len() implies (#[trigger] r[a].job@.repo_name)
        != (#[trigger] r[b].job@.repo_name) by {
        let a0 = if a < i { a } else { a + 1 };
        let b0 = if b < i { b } else { b + 1 };
        assert(r[a] == rs[a0]);
        assert(r[b] == rs[b0]);
    }
}

/// Single-flight, stated over any two distinct entries: at no instant do
/// two running processes share a repository name.
pub proof fn lemma_single_flight_pairs(rs: Seq<RunningProcess>)
    requires
        single_flight(rs),
    ensures
        forall|i: int, j: int|
            0 <= i < rs.len() && 0 <= j < rs.len() && i != j ==> (
            #[trigger] rs[i].job@.repo_name) != (#[trigger] rs[j].job@.repo_name),
{
}

/// The table of running handlers, owned exclusively by the scheduler.
pub struct RunningSet {
    procs: Vec<RunningProcess>,
}

impl View for RunningSet {
    type V = Seq<RunningProcess>;

    closed spec fn view(&self) -> Seq<RunningProcess> {
        self.procs@
    }
}

impl RunningSet {
    /// An empty table.
    pub fn new() -> (rs: RunningSet)
        ensures
            rs@ == Seq::<RunningProcess>::empty(),
    {
        RunningSet { procs: Vec::new() }
    }

    /// How many handlers are running.
    pub fn len(&self) -> (n: usize)
        ensures
            n == self@.len(),
    {
        self.procs.len()
    }

    /// The entry at `i`, for callers that walk the table.
    pub fn get(&self, i: usize) -> (p: &RunningProcess)
        requires
            i < self@.len(),
        ensures
            *p == self@[i as int],
    {
        &self.procs[i]
    }

    /// Does some running handler belong to repository `name`?
    pub fn contains_repo(&self, name: &String) -> (b: bool)
        ensures
            b == repos_of(self@).contains(name@),
    {
        let mut i: usize = 0;
        while i < self.procs.len()
            invariant
                i <= self.procs@.len(),
                forall|j: int| 0 <= j < i ==> (#[trigger] self.procs@[j].job@.repo_name) != name@,
            decreases self.procs@.len() - i,
        {
            if self.procs[i].job.repo_name == *name {
                proof {
                    assert(repos_of(self@).contains(name@));
                }
                return true;
            }
            i = i + 1;
        }
        proof {
            assert(!repos_of(self@).contains(name@));
        }
        false
    }

    /// Record a newly spawned handler. The caller must have checked that
    /// the repository has no running handler, so single-flight is kept.
    pub fn insert(&mut self, p: RunningProcess)
        requires
            single_flight(old(self)@),
            !repos_of(old(self)@).contains(p.job@.repo_name),
        ensures
            final(self)@ == old(self)@.push(p),
            single_flight(final(self)@),
    {
        proof {
            assert forall|i: int| 0 <= i < self@.len() implies (#[trigger] self@[i].job@.repo_name)
                != p.job@.repo_name by {
                if self@[i].job@.repo_name == p.job@.repo_name {
                    assert(repos_of(self@).contains(p.job@.repo_name));
                }
            }
        }
        self.procs.push(p);
    }

    /// Remove and return the entry whose handler had process id `pid`, if
    /// one is tracked; its repository's slot is free afterwards.
    pub fn remove_pid(&mut self, pid: u64) -> (r: Option<RunningProcess>)
        requires
            single_flight(old(self)@),
        ensures
            find_pid(old(self)@, pid) is None ==> r is None && final(self)@ == old(self)@,
            find_pid(old(self)@, pid) matches Some(i) ==> r matches Some(p) && p == old(self)@[i]
                && final(self)@ == old(self)@.remove(i),
            single_flight(final(self)@),
    {
        proof {
            lemma_find_pid_characterized(self@, pid);
        }
        let mut i: usize = 0;
        while i < self.procs.len()
            invariant
                single_flight(self.procs@),
                self.procs@ == old(self).procs@,
                i <= self.procs@.len(),
                forall|j: int| 0 <= j < i ==> (#[trigger] self.procs@[j].pid) != pid,
            decreases self.procs@.len() - i,
        {
            if self.procs[i].pid == pid {
                proof {
                    lemma_find_pid_at(self.procs@, pid, i as int);
                    lemma_single_flight_remove(self.procs@, i as int);
                }
                let p = self.procs.remove(i);
                return Some(p);
            }
            i = i + 1;
        }
        None
    }
}

/// If index `i` is the first carrying `pid`, `find_pid` returns it.
pub proof fn lemma_find_pid_at(rs: Seq<RunningProcess>, pid: u64, i: int)
    requires
        0 <= i < rs.len(),
        rs[i].pid == pid,
        forall|j: int| 0 <= j < i ==> (#[trigger] rs[j].pid) != pid,
    ensures
        find_pid(rs, pid) == Some(i),
    decreases rs.len(),
{
    if i > 0 {
        assert forall|j: int| 0 <= j < i - 1 implies (#[trigger] rs.skip(1)[j].pid) != pid by {
            assert(rs.skip(1)[j] == rs[j + 1]);
        }
        lemma_find_pid_at(rs.skip(1), pid, i - 1);
        assert(rs.skip(1)[i - 1] == rs[i]);
    }
}

} // verus!
