//! What holds of every registry: registering is idempotent and touches one
//! directory only, registrations in a row all arrive, and a liveness pass
//! leaves exactly the jobs whose processes were seen suspended.

use crate::liveness::{counts_as_suspended, Sighting};
use crate::registry::lemmas::{
    has_source, lemma_kept_jobs_were_seen, lemma_no_session, lemma_no_session_anywhere,
    lemma_prune_keeps, lemma_prune_sources, lemma_register_valid, lemma_registered_is_present,
    lemma_session_index_is, pruned_from, seen_suspended_in,
};
use crate::registry::{
    distinct_pids, has_pid, has_session, is_session_at, jobs_of, kept_jobs, prune_model,
    register_model, session_index, session_of, sightings_at, valid_sessions,
};
use crate::sessions::{JobView, SessionView};
use vstd::prelude::*;

verus! {

/// How many of `jobs` have the process id `pid`.
pub open spec fn pid_count(jobs: Seq<JobView>, pid: u32) -> nat
    decreases jobs.len(),
{
    if jobs.len() == 0 {
        0
    } else {
        pid_count(jobs.drop_last(), pid) + if jobs.last().pid == pid {
            1nat
        } else {
            0nat
        }
    }
}

/// A process id that is absent is counted zero times; one that is present
/// among distinct process ids is counted once.
pub proof fn lemma_pid_count(jobs: Seq<JobView>, pid: u32)
    ensures
        !has_pid(jobs, pid) ==> pid_count(jobs, pid) == 0,
        distinct_pids(jobs) && has_pid(jobs, pid) ==> pid_count(jobs, pid) == 1,
    decreases jobs.len(),
{
    if jobs.len() > 0 {
        let front = jobs.drop_last();
        let n = jobs.len() - 1;
        lemma_pid_count(front, pid);
        if has_pid(front, pid) {
            let w = choose|w: int| 0 <= w < front.len() && (#[trigger] front[w]).pid == pid;
            assert(jobs[w].pid == pid);
        }
        if !has_pid(jobs, pid) {
            assert(jobs[n].pid != pid);
        }
        if distinct_pids(jobs) && has_pid(jobs, pid) {
            assert forall|a: int, b: int| 0 <= a < b < front.len() implies (#[trigger] front[a]).pid
                != (#[trigger] front[b]).pid by {
                assert(front[a] == jobs[a]);
                assert(front[b] == jobs[b]);
            }
            let w = choose|w: int| 0 <= w < jobs.len() && (#[trigger] jobs[w]).pid == pid;
            if jobs.last().pid == pid {
                if has_pid(front, pid) {
                    let v = choose|v: int| 0 <= v < front.len() && (#[trigger] front[v]).pid == pid;
                    assert(jobs[v].pid == jobs[n].pid);
                }
            } else {
                assert(front[w].pid == pid);
            }
        }
    }
}

/// Idempotence. Registering a process id a second time under the same
/// directory changes nothing, whatever else the second job says; and after
/// it the directory's session holds exactly one job with that process id.
pub proof fn register_twice_is_register_once(
    sessions: Seq<SessionView>,
    directory: Seq<char>,
    first: JobView,
    second: JobView,
)
    requires
        valid_sessions(sessions),
        first.pid == second.pid,
    ensures
        register_model(register_model(sessions, directory, first), directory, second)
            == register_model(sessions, directory, first),
        pid_count(
            jobs_of(
                register_model(register_model(sessions, directory, first), directory, second),
                directory,
            ),
            first.pid,
        ) == 1,
{
    let once = register_model(sessions, directory, first);
    lemma_registered_is_present(sessions, directory, first);
    lemma_register_valid(sessions, directory, first);
    let i = session_index(once, directory);
    assert(is_session_at(once, directory, i));
    assert(distinct_pids(once[i].jobs));
    lemma_pid_count(once[i].jobs, first.pid);
}

/// Isolation. Registering a job under one directory leaves the session of
/// every other directory as it was.
pub proof fn register_leaves_other_directories(
    sessions: Seq<SessionView>,
    directory: Seq<char>,
    job: JobView,
    other: Seq<char>,
)
    requires
        other != directory,
    ensures
        session_of(register_model(sessions, directory, job), other) == session_of(sessions, other),
{
    let after = register_model(sessions, directory, job);
    assert(after.len() >= sessions.len());
    assert forall|j: int| 0 <= j < sessions.len() implies (#[trigger] after[j]).directory
        == sessions[j].directory && (sessions[j].directory == other ==> after[j] == sessions[j]) by {
        if has_session(sessions, directory) {
            let i = session_index(sessions, directory);
            assert(is_session_at(sessions, directory, i));
        }
    }
    assert forall|j: int| sessions.len() <= j < after.len() implies (#[trigger] after[j]).directory
        != other by {
        if has_session(sessions, directory) {
            let i = session_index(sessions, directory);
            assert(is_session_at(sessions, directory, i));
        }
    }
    if has_session(sessions, other) {
        let k = session_index(sessions, other);
        assert(is_session_at(sessions, other, k));
        assert forall|j: int| 0 <= j < k implies (#[trigger] after[j]).directory != other by {
            assert(sessions[j].directory != other);
        }
        assert(is_session_at(after, other, k));
        lemma_session_index_is(after, other, k);
    } else {
        lemma_no_session_anywhere(sessions, other);
        assert forall|j: int| 0 <= j < after.len() implies (#[trigger] after[j]).directory
            != other by {
            if j < sessions.len() {
                assert(sessions[j].directory != other);
            }
        }
        lemma_no_session(after, other);
    }
}

/// Registering the jobs of `jobs` under `directory` one after the other, in
/// the order of the sequence.
pub open spec fn register_all(
    sessions: Seq<SessionView>,
    directory: Seq<char>,
    jobs: Seq<JobView>,
) -> Seq<SessionView>
    decreases jobs.len(),
{
    if jobs.len() == 0 {
        sessions
    } else {
        register_model(register_all(sessions, directory, jobs.drop_last()), directory, jobs.last())
    }
}

/// Registrations in a row. Jobs with distinct process ids, none of which the
/// directory's session holds yet, all arrive: whatever the order in which
/// they are registered, the session then holds the jobs it held before,
/// followed by every one of the new jobs in the order of arrival. From an
/// empty session, `n` registrations leave exactly `n` jobs.
pub proof fn register_all_adds_every_job(
    sessions: Seq<SessionView>,
    directory: Seq<char>,
    jobs: Seq<JobView>,
)
    requires
        distinct_pids(jobs),
        forall|k: int|
            0 <= k < jobs.len() ==> !has_pid(jobs_of(sessions, directory), (#[trigger] jobs[k]).pid),
    ensures
        jobs_of(register_all(sessions, directory, jobs), directory) == jobs_of(sessions, directory)
            + jobs,
        jobs_of(register_all(sessions, directory, jobs), directory).len() == jobs_of(
            sessions,
            directory,
        ).len() + jobs.len(),
        jobs.len() > 0 ==> has_session(register_all(sessions, directory, jobs), directory),
    decreases jobs.len(),
{
    let held = jobs_of(sessions, directory);
    if jobs.len() == 0 {
        assert(held + jobs =~= held);
    } else {
        let front = jobs.drop_last();
        let last = jobs.last();
        let n = jobs.len() - 1;
        assert forall|a: int, b: int| 0 <= a < b < front.len() implies (#[trigger] front[a]).pid
            != (#[trigger] front[b]).pid by {
            assert(front[a] == jobs[a]);
            assert(front[b] == jobs[b]);
        }
        assert forall|k: int| 0 <= k < front.len() implies !has_pid(
            held,
            (#[trigger] front[k]).pid,
        ) by {
            assert(front[k] == jobs[k]);
        }
        register_all_adds_every_job(sessions, directory, front);
        let before = register_all(sessions, directory, front);
        let present = jobs_of(before, directory);
        assert(present == held + front);
        if has_pid(present, last.pid) {
            let w = choose|w: int| 0 <= w < present.len() && (#[trigger] present[w]).pid == last.pid;
            if w < held.len() {
                assert(held[w].pid == jobs[n].pid);
            } else {
                assert(present[w] == front[w - held.len()]);
                assert(jobs[w - held.len()].pid == jobs[n].pid);
            }
        }
        lemma_registered_is_present(before, directory, last);
        assert((held + front).push(last) =~= held + jobs);
    }
}

/// Arrival order. Two runs that register the same jobs in different orders
/// leave the directory's session with the same jobs, each as often as in the
/// other, and so with the same number of jobs.
pub proof fn register_all_in_any_order(
    sessions: Seq<SessionView>,
    directory: Seq<char>,
    one_order: Seq<JobView>,
    other_order: Seq<JobView>,
)
    requires
        one_order.to_multiset() == other_order.to_multiset(),
        distinct_pids(one_order),
        distinct_pids(other_order),
        forall|k: int|
            0 <= k < one_order.len() ==> !has_pid(
                jobs_of(sessions, directory),
                (#[trigger] one_order[k]).pid,
            ),
        forall|k: int|
            0 <= k < other_order.len() ==> !has_pid(
                jobs_of(sessions, directory),
                (#[trigger] other_order[k]).pid,
            ),
    ensures
        jobs_of(register_all(sessions, directory, one_order), directory).to_multiset() == jobs_of(
            register_all(sessions, directory, other_order),
            directory,
        ).to_multiset(),
        jobs_of(register_all(sessions, directory, one_order), directory).len() == jobs_of(
            register_all(sessions, directory, other_order),
            directory,
        ).len(),
{
    let held = jobs_of(sessions, directory);
    register_all_adds_every_job(sessions, directory, one_order);
    register_all_adds_every_job(sessions, directory, other_order);
    vstd::seq_lib::lemma_multiset_commutative(held, one_order);
    vstd::seq_lib::lemma_multiset_commutative(held, other_order);
    one_order.to_multiset_ensures();
    other_order.to_multiset_ensures();
}

/// Whether the process of job `k` of session `i` was seen, and in a state
/// that counts as suspended.
pub open spec fn seen_suspended(sightings: Seq<Seq<Sighting>>, i: int, k: int) -> bool {
    &&& 0 <= i < sightings.len()
    &&& 0 <= k < sightings[i].len()
    &&& counts_as_suspended(sightings[i][k])
}

/// Whether `job` is a job of `directory` whose process the pass saw
/// suspended.
pub open spec fn was_seen_suspended(
    sessions: Seq<SessionView>,
    sightings: Seq<Seq<Sighting>>,
    directory: Seq<char>,
    job: JobView,
) -> bool {
    exists|i: int, k: int|
        0 <= i < sessions.len() && 0 <= k < sessions[i].jobs.len() && seen_suspended(sightings, i, k)
            && (#[trigger] sessions[i]).directory == directory && #[trigger] sessions[i].jobs[k]
            == job
}

/// Whether `job` is listed under `directory` in `sessions`.
pub open spec fn is_listed(sessions: Seq<SessionView>, directory: Seq<char>, job: JobView) -> bool {
    exists|t: int, m: int|
        0 <= t < sessions.len() && 0 <= m < sessions[t].jobs.len() && (#[trigger] sessions[t]).directory
            == directory && #[trigger] sessions[t].jobs[m] == job
}

/// Liveness. After a pass no session is empty, and a job is listed under a
/// directory exactly if it was a job of that directory whose process was
/// seen in a state that counts as suspended: stopped, or unknown with the
/// code zero. A job whose process was not found, or was not looked at, is
/// gone.
pub proof fn pruned_registry_lists_the_suspended(
    sessions: Seq<SessionView>,
    sightings: Seq<Seq<Sighting>>,
    directory: Seq<char>,
    job: JobView,
)
    ensures
        forall|t: int|
            0 <= t < prune_model(sessions, sightings).len() ==> (#[trigger] prune_model(
                sessions,
                sightings,
            )[t]).jobs.len() >= 1,
        is_listed(prune_model(sessions, sightings), directory, job) <==> was_seen_suspended(
            sessions,
            sightings,
            directory,
            job,
        ),
{
    let pruned = prune_model(sessions, sightings);
    lemma_prune_sources(sessions, sightings);
    assert forall|t: int| 0 <= t < pruned.len() implies (#[trigger] pruned[t]).jobs.len() >= 1 by {
        assert(has_source(sessions, sightings, pruned[t]));
    }
    if is_listed(pruned, directory, job) {
        let (t, m) = choose|t: int, m: int|
            0 <= t < pruned.len() && 0 <= m < pruned[t].jobs.len() && (#[trigger] pruned[t]).directory
                == directory && #[trigger] pruned[t].jobs[m] == job;
        assert(has_source(sessions, sightings, pruned[t]));
        let i = choose|i: int| pruned_from(sessions, sightings, pruned[t], i);
        let seen = sightings_at(sightings, i);
        assert(pruned[t].jobs.contains(job));
        lemma_kept_jobs_were_seen(sessions[i].jobs, seen, job);
        let k = choose|k: int|
            0 <= k < sessions[i].jobs.len() && k < seen.len() && counts_as_suspended(seen[k])
                && #[trigger] sessions[i].jobs[k] == job;
        assert(seen_suspended(sightings, i, k));
        assert(sessions[i].directory == directory && sessions[i].jobs[k] == job);
    }
    if was_seen_suspended(sessions, sightings, directory, job) {
        let (i, k) = choose|i: int, k: int|
            0 <= i < sessions.len() && 0 <= k < sessions[i].jobs.len() && seen_suspended(
                sightings,
                i,
                k,
            ) && (#[trigger] sessions[i]).directory == directory && #[trigger] sessions[i].jobs[k]
                == job;
        lemma_prune_keeps(sessions, sightings, i);
        let kept = kept_jobs(sessions[i].jobs, sightings_at(sightings, i));
        assert(seen_suspended_in(sessions[i].jobs, sightings_at(sightings, i), job));
        lemma_kept_jobs_were_seen(sessions[i].jobs, sightings_at(sightings, i), job);
        let m = choose|m: int| 0 <= m < kept.len() && kept[m] == job;
        let t = choose|t: int|
            0 <= t < pruned.len() && #[trigger] pruned[t] == (SessionView {
                jobs: kept,
                directory: sessions[i].directory,
            });
        assert(pruned[t].directory == directory && pruned[t].jobs[m] == job);
    }
}

} // verus!
