//! The daemon's shared state and the scheduler's transitions.
//!
//! One `SnareState` value holds what the admission workers and the single
//! scheduler loop share: the current configuration snapshot, the job
//! queue, and the running-process table. The surrounding binary guards it
//! with a lock, waits on the wakeup pipe, performs the I/O (parsing a
//! configuration file, spawning and reaping processes), and feeds the
//! outcomes back into the transition functions here, which make every
//! decision: what to reload, what to pop, what to spawn, what to drop.

use vstd::prelude::*;

use crate::admission::{admit_decision, admit_request, admitted_job, AdmissionOutcome, HookRequest};
use crate::config::{repo_lookup, ConfigSnapshot};
use crate::job::Job;
use crate::queue::{first_eligible, lemma_first_eligible_characterized, Queue};
use crate::running::{repos_of, single_flight, RunningProcess, RunningSet};

verus! {

/// What the scheduler asks of its surroundings after one drain step.
pub enum DrainAction {
    /// Nothing to do: no pending job is eligible, or the global ceiling
    /// is reached.
    Idle,
    /// The popped job's repository is no longer configured: log a warning
    /// and discard the job; nothing is spawned, nothing requeued.
    DropJob(Job),
    /// Spawn the command for the job (both carried here), feed the job's
    /// payload to its standard input, then report back with
    /// `note_spawned` or `note_spawn_failed`.
    Spawn(Job, String),
}

/// The daemon's shared state.
pub struct SnareState {
    /// The current configuration; replaced wholesale on a reload, never
    /// mutated in place.
    pub conf: ConfigSnapshot,
    /// The queue of admitted jobs: admission pushes, the scheduler pops.
    pub queue: Queue,
    /// The running handlers, owned by the scheduler alone.
    pub running: RunningSet,
    /// A job popped by `drain_step` whose spawn the surroundings have not
    /// reported yet; its repository's slot counts as taken.
    pub awaiting_spawn: Option<Job>,
    /// Admission rejects bodies larger than this (413).
    pub max_body: usize,
    /// A global ceiling on concurrently running handlers, on top of the
    /// per-repository single-flight; `None` leaves it unbounded.
    pub max_running: Option<usize>,
}

impl SnareState {
    /// The state's invariant: single-flight in the running table, and a
    /// job awaiting its spawn report holds its repository's slot.
    pub open spec fn wf(self) -> bool {
        &&& single_flight(self.running@)
        &&& (self.awaiting_spawn matches Some(j) ==> !repos_of(self.running@).contains(
            j@.repo_name,
        ))
    }

    /// Is the global concurrency ceiling reached?
    pub open spec fn at_capacity(self) -> bool {
        self.max_running matches Some(m) && self.running@.len() >= m
    }

    /// The daemon's state at startup: the initial snapshot, an empty
    /// queue, nothing running.
    pub fn new(conf: ConfigSnapshot, max_body: usize, max_running: Option<usize>) -> (s:
        SnareState)
        ensures
            s.conf == conf,
            s.queue@ == Seq::<Job>::empty(),
            s.running@ == Seq::<RunningProcess>::empty(),
            s.awaiting_spawn is None,
            s.max_body == max_body,
            s.max_running == max_running,
            s.wf(),
    {
        SnareState {
            conf,
            queue: Queue::new(),
            running: RunningSet::new(),
            awaiting_spawn: None,
            max_body,
            max_running,
        }
    }

    /// Admit one request: decide its outcome against the current snapshot
    /// and, exactly on acceptance, append the job it describes to the
    /// queue. Nothing else changes; in particular a rejected request
    /// leaves the queue as it was, and no delivery is deduplicated.
    pub fn handle(&mut self, req: HookRequest, now: u64) -> (r: AdmissionOutcome)
        ensures
            r == admit_decision(req, old(self).conf, old(self).max_body),
            r == AdmissionOutcome::Accepted ==> final(self).queue@.len() == old(self).queue@.len()
                + 1 && final(self).queue@ == old(self).queue@.push(final(self).queue@.last())
                && admitted_job(final(self).queue@.last(), req, now),
            r != AdmissionOutcome::Accepted ==> final(self).queue@ == old(self).queue@,
            final(self).conf == old(self).conf,
            final(self).running == old(self).running,
            final(self).awaiting_spawn == old(self).awaiting_spawn,
            final(self).max_body == old(self).max_body,
            final(self).max_running == old(self).max_running,
            old(self).wf() ==> final(self).wf(),
    {
        match admit_request(req, &self.conf, self.max_body, now) {
            Ok(job) => {
                self.queue.push(job);
                AdmissionOutcome::Accepted
            },
            Err(outcome) => outcome,
        }
    }

    /// Apply the outcome of re-parsing the configuration after a reload
    /// signal: a good parse replaces the snapshot wholesale, a failed one
    /// keeps the previous snapshot and hands back the message to log —
    /// reload failures are never fatal. Queued jobs, the job awaiting its
    /// spawn report, and running handlers are untouched either way: a job
    /// admitted under the old snapshot keeps everything it captured.
    pub fn check_for_sighup(&mut self, parsed: Result<ConfigSnapshot, String>) -> (log: Option<
        String,
    >)
        ensures
            parsed matches Ok(c) ==> final(self).conf == c && log is None,
            parsed matches Err(m) ==> final(self).conf == old(self).conf && log == Some(m),
            final(self).queue == old(self).queue,
            final(self).running == old(self).running,
            final(self).awaiting_spawn == old(self).awaiting_spawn,
            final(self).max_body == old(self).max_body,
            final(self).max_running == old(self).max_running,
            old(self).wf() ==> final(self).wf(),
    {
        match parsed {
            Ok(conf) => {
                self.conf = conf;
                None
            },
            Err(msg) => Some(msg),
        }
    }

    /// Note one reaped child: remove the entry with process id `pid` from
    /// the running table and hand it back, freeing its repository's slot
    /// for the next drain pass. A pid the table does not hold changes
    /// nothing. The caller logs a non-zero exit status as a warning; it
    /// is propagated nowhere else.
    pub fn reap(&mut self, pid: u64) -> (r: Option<RunningProcess>)
        requires
            old(self).wf(),
        ensures
            crate::running::find_pid(old(self).running@, pid) is None ==> r is None && final(self).running@ == old(self).running@,
            crate::running::find_pid(old(self).running@, pid) matches Some(i) ==> r matches Some(p)
                && p == old(self).running@[i] && final(self).running@ == old(self).running@.remove(i),
            final(self).conf == old(self).conf,
            final(self).queue == old(self).queue,
            final(self).awaiting_spawn == old(self).awaiting_spawn,
            final(self).max_body == old(self).max_body,
            final(self).max_running == old(self).max_running,
            final(self).wf(),
    {
        let r = self.running.remove_pid(pid);
        proof {
            crate::running::lemma_find_pid_characterized(old(self).running@, pid);
            if self.awaiting_spawn is Some {
                assert forall|n: Seq<char>| repos_of(self.running@).contains(n) implies repos_of(
                    old(self).running@,
                ).contains(n) by {
                    let i = choose|i: int|
                        0 <= i < self.running@.len() && self.running@[i].job@.repo_name == n;
                    if let Some(k) = crate::running::find_pid(old(self).running@, pid) {
                        let i0 = if i < k {
                            i
                        } else {
                            i + 1
                        };
                        assert(old(self).running@[i0] == self.running@[i]);
                        assert(repos_of(old(self).running@).contains(n));
                    } else {
                        assert(old(self).running@[i] == self.running@[i]);
                    }
                }
            }
        }
        r
    }

    /// One drain step. Pops the first eligible job, if the global ceiling
    /// leaves room: a job whose repository has since left the
    /// configuration is handed back to be dropped with a warning; any
    /// other is handed back with its repository's configured command to
    /// be spawned, and holds its repository's slot as `awaiting_spawn`
    /// until the spawn is reported. Every other queued job stays, in
    /// order.
    pub fn drain_step(&mut self) -> (a: DrainAction)
        requires
            old(self).wf(),
            old(self).awaiting_spawn is None,
        ensures
            final(self).conf == old(self).conf,
            final(self).running == old(self).running,
            final(self).max_body == old(self).max_body,
            final(self).max_running == old(self).max_running,
            final(self).wf(),
            old(self).at_capacity() ==> a is Idle && final(self).queue == old(self).queue && final(self).awaiting_spawn is None,
            !old(self).at_capacity() ==> (first_eligible(
                old(self).queue@,
                repos_of(old(self).running@),
            ) is None ==> a is Idle && final(self).queue@ == old(self).queue@ && final(self).awaiting_spawn is None),
            !old(self).at_capacity() ==> (first_eligible(
                old(self).queue@,
                repos_of(old(self).running@),
            ) matches Some(i) ==> {
                &&& final(self).queue@ == old(self).queue@.remove(i)
                &&& (repo_lookup(old(self).conf.repos@, old(self).queue@[i]@.repo_name) is None
                    ==> (a matches DrainAction::DropJob(j) && j == old(self).queue@[i] && final(self).awaiting_spawn is None))
                &&& (repo_lookup(old(self).conf.repos@, old(self).queue@[i]@.repo_name) matches
                    Some(rc) ==> (a matches DrainAction::Spawn(j, cmd) && j@ == old(self).queue@[i]@ && cmd@ == rc.command@ && final(self).awaiting_spawn == Some(
                    old(self).queue@[i],
                )))
            }),
    {
        if let Some(m) = self.max_running {
            if self.running.len() >= m {
                return DrainAction::Idle;
            }
        }
        proof {
            lemma_first_eligible_characterized(self.queue@, repos_of(self.running@));
        }
        match self.queue.pop_next(&self.running) {
            None => DrainAction::Idle,
            Some(job) => {
                match self.conf.find_repo(&job.repo_name) {
                    None => DrainAction::DropJob(job),
                    Some(rc) => {
                        let cmd = rc.command.clone();
                        let job_out = job.clone();
                        self.awaiting_spawn = Some(job);
                        DrainAction::Spawn(job_out, cmd)
                    },
                }
            },
        }
    }

    /// Record that the spawn `drain_step` asked for succeeded: move the
    /// awaiting job into the running table under the child's process id.
    /// Single-flight is kept: the job has held its repository's slot
    /// since it was popped.
    pub fn note_spawned(&mut self, pid: u64, now: u64)
        requires
            old(self).wf(),
            old(self).awaiting_spawn is Some,
        ensures
            old(self).awaiting_spawn matches Some(j) ==> final(self).running@ == old(self).running@.push((RunningProcess { job: j, pid, started_at: now })),
            final(self).awaiting_spawn is None,
            final(self).conf == old(self).conf,
            final(self).queue == old(self).queue,
            final(self).max_body == old(self).max_body,
            final(self).max_running == old(self).max_running,
            final(self).wf(),
    {
        let job = match self.awaiting_spawn.take() {
            Some(j) => j,
            None => {
                proof {
                    assert(false);
                }
                unreached()
            },
        };
        self.running.insert(RunningProcess { job, pid, started_at: now });
        proof {
            assert forall|n: Seq<char>| repos_of(self.running@).contains(n) implies repos_of(
                old(self).running@,
            ).contains(n) || n == old(self).awaiting_spawn->Some_0@.repo_name by {
                let i = choose|i: int|
                    0 <= i < self.running@.len() && self.running@[i].job@.repo_name == n;
                if i < self.running@.len() - 1 {
                    assert(old(self).running@[i] == self.running@[i]);
                }
            }
        }
    }

    /// Record that the spawn failed: hand the job back to be logged and
    /// dropped — no retry, so one repository's misconfiguration cannot
    /// stall the others. Its repository's slot is free again.
    pub fn note_spawn_failed(&mut self) -> (j: Job)
        requires
            old(self).wf(),
            old(self).awaiting_spawn is Some,
        ensures
            old(self).awaiting_spawn == Some(j),
            final(self).awaiting_spawn is None,
            final(self).conf == old(self).conf,
            final(self).queue == old(self).queue,
            final(self).running == old(self).running,
            final(self).max_body == old(self).max_body,
            final(self).max_running == old(self).max_running,
            final(self).wf(),
    {
        match self.awaiting_spawn.take() {
            Some(j) => j,
            None => {
                proof {
                    assert(false);
                }
                unreached()
            },
        }
    }
}

} // verus!
