//! The registry: the sessions that a daemon tracks, one for each directory.
//!
//! The model of a registry is the sequence of its sessions, in the order in
//! which their directories were first registered. Every operation is stated
//! as a function on that model: [`register_model`] and [`prune_model`] say
//! what registering and a liveness pass do, and the methods of [`Registry`]
//! are proved to do the same. What follows from the two models for every
//! registry is stated in [`laws`].

use crate::liveness::{counts_as_suspended, is_suspended_state, observe_process, Sighting};
use crate::registry::lemmas::{
    lemma_no_session, lemma_prune_valid, lemma_register_valid, lemma_session_index_is,
};
use crate::sessions::{
    clone_jobs, clone_sessions, jobs_view, lemma_jobs_view_push, lemma_sessions_view_push,
    sessions_view, Job, JobView, Session, SessionView,
};
use vstd::prelude::*;

pub mod laws;
pub mod lemmas;

verus! {

/// Whether a job with process id `pid` is among `jobs`.
pub open spec fn has_pid(jobs: Seq<JobView>, pid: u32) -> bool {
    exists|k: int| 0 <= k < jobs.len() && (#[trigger] jobs[k]).pid == pid
}

/// No two of `jobs` share a process id.
pub open spec fn distinct_pids(jobs: Seq<JobView>) -> bool {
    forall|a: int, b: int|
        0 <= a < b < jobs.len() ==> (#[trigger] jobs[a]).pid != (#[trigger] jobs[b]).pid
}

/// Whether the first session for `directory` stands at index `i`.
pub open spec fn is_session_at(sessions: Seq<SessionView>, directory: Seq<char>, i: int) -> bool {
    &&& 0 <= i < sessions.len()
    &&& sessions[i].directory == directory
    &&& forall|j: int| 0 <= j < i ==> (#[trigger] sessions[j]).directory != directory
}

/// Whether some session is kept for `directory`.
pub open spec fn has_session(sessions: Seq<SessionView>, directory: Seq<char>) -> bool {
    exists|i: int| is_session_at(sessions, directory, i)
}

/// The index of the session for `directory`, where there is one.
pub open spec fn session_index(sessions: Seq<SessionView>, directory: Seq<char>) -> int {
    choose|i: int| is_session_at(sessions, directory, i)
}

/// The session that is kept for `directory`, if any.
pub open spec fn session_of(sessions: Seq<SessionView>, directory: Seq<char>) -> Option<
    SessionView,
> {
    if has_session(sessions, directory) {
        Some(sessions[session_index(sessions, directory)])
    } else {
        None
    }
}

/// The jobs that are kept for `directory`: none where it has no session.
pub open spec fn jobs_of(sessions: Seq<SessionView>, directory: Seq<char>) -> Seq<JobView> {
    match session_of(sessions, directory) {
        Some(session) => session.jobs,
        None => Seq::empty(),
    }
}

/// What makes a sequence of sessions a registry: no session is empty, no two
/// sessions share a directory, and no two jobs of a session share a process id.
pub open spec fn valid_sessions(sessions: Seq<SessionView>) -> bool {
    &&& forall|i: int| 0 <= i < sessions.len() ==> (#[trigger] sessions[i]).jobs.len() >= 1
    &&& forall|i: int, j: int|
        0 <= i < j < sessions.len() ==> (#[trigger] sessions[i]).directory
            != (#[trigger] sessions[j]).directory
    &&& forall|i: int| 0 <= i < sessions.len() ==> distinct_pids((#[trigger] sessions[i]).jobs)
}

/// Registering `job` under `directory`: where the directory has a session, the
/// job joins it at the end unless its process id is there already; where it
/// has none, a session with that one job is added at the end.
pub open spec fn register_model(
    sessions: Seq<SessionView>,
    directory: Seq<char>,
    job: JobView,
) -> Seq<SessionView> {
    if has_session(sessions, directory) {
        let i = session_index(sessions, directory);
        if has_pid(sessions[i].jobs, job.pid) {
            sessions
        } else {
            sessions.update(
                i,
                SessionView { jobs: sessions[i].jobs.push(job), directory: sessions[i].directory },
            )
        }
    } else {
        sessions.push(SessionView { jobs: seq![job], directory: directory })
    }
}

/// The jobs that stay after a liveness pass: job `k` stays exactly where
/// `seen` has a sighting of its process and that sighting counts as
/// suspended. The order is kept.
pub open spec fn kept_jobs(jobs: Seq<JobView>, seen: Seq<Sighting>) -> Seq<JobView>
    decreases jobs.len(),
{
    if jobs.len() == 0 {
        Seq::empty()
    } else {
        let rest = kept_jobs(jobs.drop_last(), seen);
        let k = jobs.len() - 1;
        if k < seen.len() && counts_as_suspended(seen[k]) {
            rest.push(jobs.last())
        } else {
            rest
        }
    }
}

/// The sightings for the jobs of session `i`: none where there are fewer
/// lists of sightings than sessions.
pub open spec fn sightings_at(sightings: Seq<Seq<Sighting>>, i: int) -> Seq<Sighting> {
    if 0 <= i < sightings.len() {
        sightings[i]
    } else {
        Seq::empty()
    }
}

/// A liveness pass over all sessions: each session keeps the jobs whose
/// processes were seen suspended, and a session that keeps none is dropped.
/// The order is kept.
pub open spec fn prune_model(sessions: Seq<SessionView>, sightings: Seq<Seq<Sighting>>) -> Seq<
    SessionView,
>
    decreases sessions.len(),
{
    if sessions.len() == 0 {
        Seq::empty()
    } else {
        let rest = prune_model(sessions.drop_last(), sightings);
        let last = sessions.last();
        let jobs = kept_jobs(last.jobs, sightings_at(sightings, sessions.len() - 1));
        if jobs.len() == 0 {
            rest
        } else {
            rest.push(SessionView { jobs: jobs, directory: last.directory })
        }
    }
}

/// The sightings of each session as sequences, one list for one.
pub open spec fn sightings_view(sightings: Seq<Vec<Sighting>>) -> Seq<Seq<Sighting>> {
    Seq::new(sightings.len(), |i: int| sightings[i]@)
}

/// The answer to a question about a directory that has no session.
#[derive(Debug, Clone, Copy, PartialEq, Eq)]
pub struct NotFound;

/// The sessions of one daemon, found by their directory.
pub struct Registry {
    sessions: Vec<Session>,
}

impl View for Registry {
    type V = Seq<SessionView>;

    closed spec fn view(&self) -> Seq<SessionView> {
        sessions_view(self.sessions@)
    }
}

/// Whether one of `jobs` has the process id `pid`.
pub fn contains_pid(jobs: &Vec<Job>, pid: u32) -> (found: bool)
    ensures
        found == has_pid(jobs_view(jobs@), pid),
{
    let ghost model = jobs_view(jobs@);
    let mut k: usize = 0;
    while k < jobs.len()
        invariant
            k <= jobs.len(),
            model == jobs_view(jobs@),
            forall|m: int| 0 <= m < k ==> (#[trigger] model[m]).pid != pid,
        decreases jobs.len() - k,
    {
        if jobs[k].pid == pid {
            assert(model[k as int].pid == pid);
            return true;
        }
        k += 1;
    }
    false
}

/// Registers `job` under `directory` in a list of sessions.
fn register_into(sessions: &mut Vec<Session>, directory: String, job: Job)
    ensures
        sessions_view(final(sessions)@) == register_model(
            sessions_view(old(sessions)@),
            directory@,
            job@,
        ),
{
    let ghost before = sessions_view(sessions@);
    let mut i: usize = 0;
    while i < sessions.len()
        invariant
            i <= sessions.len(),
            sessions == old(sessions),
            before == sessions_view(sessions@),
            forall|j: int| 0 <= j < i ==> (#[trigger] before[j]).directory != directory@,
        decreases sessions.len() - i,
    {
        if sessions[i].directory == directory {
            proof {
                assert(before[i as int].directory == directory@);
                assert(is_session_at(before, directory@, i as int));
                lemma_session_index_is(before, directory@, i as int);
            }
            if !contains_pid(&sessions[i].jobs, job.pid) {
                sessions[i].jobs.push(job);
                proof {
                    let after = sessions_view(sessions@);
                    lemma_jobs_view_push(old(sessions)@[i as int].jobs@, job);
                    assert(after[i as int].jobs == before[i as int].jobs.push(job@));
                    assert forall|x: int| 0 <= x < after.len() && x != i implies after[x]
                        == before[x] by {
                        assert(sessions@[x] == old(sessions)@[x]);
                    }
                    assert(after =~= register_model(before, directory@, job@));
                }
            }
            return ;
        }
        i += 1;
    }
    proof {
        lemma_no_session(before, directory@);
    }
    let mut jobs: Vec<Job> = Vec::new();
    jobs.push(job);
    let session = Session { jobs, directory };
    proof {
        lemma_sessions_view_push(sessions@, session);
        assert(session@.jobs =~= seq![job@]);
    }
    sessions.push(session);
}

/// Copies of the jobs whose processes were seen suspended.
fn retain_jobs(jobs: &Vec<Job>, seen: &Vec<Sighting>) -> (kept: Vec<Job>)
    ensures
        jobs_view(kept@) == kept_jobs(jobs_view(jobs@), seen@),
{
    let ghost full = jobs_view(jobs@);
    let mut kept: Vec<Job> = Vec::new();
    let mut k: usize = 0;
    assert(jobs_view(kept@) =~= kept_jobs(full.take(0), seen@));
    while k < jobs.len()
        invariant
            k <= jobs.len(),
            full == jobs_view(jobs@),
            jobs_view(kept@) == kept_jobs(full.take(k as int), seen@),
        decreases jobs.len() - k,
    {
        proof {
            assert(full.take(k + 1).drop_last() =~= full.take(k as int));
            assert(full.take(k + 1).last() == full[k as int]);
        }
        if k < seen.len() && is_suspended_state(seen[k]) {
            let job = jobs[k].clone();
            proof {
                lemma_jobs_view_push(kept@, job);
            }
            kept.push(job);
        }
        k += 1;
    }
    assert(full.take(jobs.len() as int) =~= full);
    kept
}

/// Copies of the sessions that a liveness pass leaves, each with the jobs
/// that it leaves.
fn prune_list(sessions: &Vec<Session>, sightings: &Vec<Vec<Sighting>>) -> (pruned: Vec<Session>)
    ensures
        sessions_view(pruned@) == prune_model(sessions_view(sessions@), sightings_view(sightings@)),
{
    let ghost full = sessions_view(sessions@);
    let ghost seen = sightings_view(sightings@);
    let none: Vec<Sighting> = Vec::new();
    let mut pruned: Vec<Session> = Vec::new();
    let mut i: usize = 0;
    assert(sessions_view(pruned@) =~= prune_model(full.take(0), seen));
    while i < sessions.len()
        invariant
            i <= sessions.len(),
            full == sessions_view(sessions@),
            seen == sightings_view(sightings@),
            none@.len() == 0,
            sessions_view(pruned@) == prune_model(full.take(i as int), seen),
        decreases sessions.len() - i,
    {
        proof {
            assert(full.take(i + 1).drop_last() =~= full.take(i as int));
            assert(full.take(i + 1).last() == full[i as int]);
        }
        let of_session = if i < sightings.len() {
            &sightings[i]
        } else {
            &none
        };
        assert(of_session@ =~= sightings_at(seen, i as int));
        let jobs = retain_jobs(&sessions[i].jobs, of_session);
        if jobs.len() > 0 {
            let session = Session { jobs, directory: sessions[i].directory.clone() };
            proof {
                lemma_sessions_view_push(pruned@, session);
            }
            pruned.push(session);
        }
        i += 1;
    }
    assert(full.take(sessions.len() as int) =~= full);
    pruned
}

impl Registry {
    #[verifier::type_invariant]
    spec fn well_formed(self) -> bool {
        valid_sessions(self@)
    }

    /// A registry without sessions.
    pub fn new() -> (registry: Self)
        ensures
            registry@ == Seq::<SessionView>::empty(),
    {
        let registry = Registry { sessions: Vec::new() };
        assert(registry@ =~= Seq::<SessionView>::empty());
        registry
    }

    /// Registers `job` under `directory`. A job whose process id the
    /// directory's session already holds changes nothing.
    pub fn register(&mut self, directory: String, job: Job)
        ensures
            final(self)@ == register_model(old(self)@, directory@, job@),
            valid_sessions(final(self)@),
    {
        proof {
            use_type_invariant(&*self);
            lemma_register_valid(self@, directory@, job@);
        }
        let mut sessions: Vec<Session> = Vec::new();
        core::mem::swap(&mut self.sessions, &mut sessions);
        register_into(&mut sessions, directory, job);
        self.sessions = sessions;
    }

    /// A liveness pass with the sightings given: job `k` of session `i`
    /// stays exactly where `sightings[i][k]` exists and counts as suspended,
    /// and a session that keeps no job is dropped.
    pub fn prune(&mut self, sightings: &Vec<Vec<Sighting>>)
        ensures
            final(self)@ == prune_model(old(self)@, sightings_view(sightings@)),
            valid_sessions(final(self)@),
    {
        proof {
            use_type_invariant(&*self);
            lemma_prune_valid(self@, sightings_view(sightings@));
        }
        let pruned = prune_list(&self.sessions, sightings);
        self.sessions = pruned;
    }

    /// Asks the operating system about the process of every job, in order:
    /// one sighting for each job of each session. What the sightings will
    /// be is not known in advance; the contract gives their number.
    pub fn observe(&self) -> (sightings: Vec<Vec<Sighting>>)
        ensures
            sightings@.len() == self@.len(),
            forall|i: int|
                0 <= i < self@.len() ==> (#[trigger] sightings@[i])@.len() == self@[i].jobs.len(),
    {
        let mut sightings: Vec<Vec<Sighting>> = Vec::new();
        let mut i: usize = 0;
        while i < self.sessions.len()
            invariant
                i <= self.sessions.len(),
                sightings@.len() == i,
                forall|j: int|
                    0 <= j < i ==> (#[trigger] sightings@[j])@.len() == self@[j].jobs.len(),
            decreases self.sessions.len() - i,
        {
            let jobs = &self.sessions[i].jobs;
            let mut seen: Vec<Sighting> = Vec::new();
            let mut k: usize = 0;
            while k < jobs.len()
                invariant
                    k <= jobs.len(),
                    seen@.len() == k,
                decreases jobs.len() - k,
            {
                seen.push(observe_process(jobs[k].pid));
                k += 1;
            }
            sightings.push(seen);
            i += 1;
        }
        sightings
    }

    /// Copies of all sessions, in order.
    pub fn sessions(&self) -> (sessions: Vec<Session>)
        ensures
            sessions_view(sessions@) == self@,
            valid_sessions(self@),
    {
        proof {
            use_type_invariant(self);
        }
        clone_sessions(&self.sessions)
    }

    /// Copies of the jobs of the session for `directory`, which must match
    /// exactly. A directory without a session gives `NotFound`, never an
    /// empty list.
    pub fn jobs(&self, directory: &String) -> (jobs: Result<Vec<Job>, NotFound>)
        ensures
            jobs is Ok <==> has_session(self@, directory@),
            jobs matches Ok(found) ==> found@.len() >= 1 && Some(
                SessionView { jobs: jobs_view(found@), directory: directory@ },
            ) == session_of(self@, directory@),
    {
        proof {
            use_type_invariant(self);
        }
        let ghost model = self@;
        let mut i: usize = 0;
        while i < self.sessions.len()
            invariant
                i <= self.sessions.len(),
                model == self@,
                valid_sessions(model),
                forall|j: int| 0 <= j < i ==> (#[trigger] model[j]).directory != directory@,
            decreases self.sessions.len() - i,
        {
            if self.sessions[i].directory == *directory {
                proof {
                    assert(model[i as int].directory == directory@);
                    assert(model[i as int].jobs.len() >= 1);
                    lemma_session_index_is(model, directory@, i as int);
                }
                return Ok(clone_jobs(&self.sessions[i].jobs));
            }
            i += 1;
        }
        proof {
            lemma_no_session(model, directory@);
        }
        Err(NotFound)
    }

    /// Every registry is valid. A call costs nothing at run time: it makes
    /// the fact known where the registry is only passed through.
    pub fn known_valid(&self)
        ensures
            valid_sessions(self@),
    {
        proof {
            use_type_invariant(self);
        }
    }

    /// How many sessions are kept.
    pub fn len(&self) -> (count: usize)
        ensures
            count == self@.len(),
    {
        self.sessions.len()
    }
}

/// Runs a liveness pass over the registry and returns what is left: the
/// operating system is asked about every job, jobs that are no longer
/// suspended leave, and sessions without jobs are dropped.
///
/// What the system will answer is not known in advance, so the contract says
/// what holds of every answer: the registry after the pass is the registry
/// before it, pruned by some sightings.
pub fn cleanup_sessions(store: &mut Registry) -> (sessions: Vec<Session>)
    ensures
        exists|sightings: Seq<Seq<Sighting>>|
            final(store)@ == prune_model(old(store)@, sightings),
        sessions_view(sessions@) == final(store)@,
        valid_sessions(final(store)@),
{
    let sightings = store.observe();
    store.prune(&sightings);
    store.sessions()
}

} // verus!
