//! Facts about the models of the registry that its operations and its laws
//! are proved from.

use crate::liveness::{counts_as_suspended, Sighting};
use crate::registry::{
    distinct_pids, has_pid, has_session, is_session_at, jobs_of, kept_jobs, prune_model,
    register_model, session_index, sightings_at, valid_sessions,
};
use crate::sessions::{JobView, SessionView};
use vstd::prelude::*;

verus! {

/// A match at `k` means that a first match exists, at or before `k`.
pub proof fn lemma_first_session(sessions: Seq<SessionView>, directory: Seq<char>, k: int)
    requires
        0 <= k < sessions.len(),
        sessions[k].directory == directory,
    ensures
        has_session(sessions, directory),
        0 <= session_index(sessions, directory) <= k,
        is_session_at(sessions, directory, session_index(sessions, directory)),
    decreases k,
{
    if exists|j: int| 0 <= j < k && (#[trigger] sessions[j]).directory == directory {
        let j = choose|j: int| 0 <= j < k && (#[trigger] sessions[j]).directory == directory;
        lemma_first_session(sessions, directory, j);
    } else {
        assert(is_session_at(sessions, directory, k));
        let i = session_index(sessions, directory);
        assert(is_session_at(sessions, directory, i));
        if i > k {
            assert(sessions[k].directory != directory);
        }
    }
}

/// The first match is the only index that `is_session_at` accepts.
pub proof fn lemma_session_index_is(sessions: Seq<SessionView>, directory: Seq<char>, i: int)
    requires
        is_session_at(sessions, directory, i),
    ensures
        has_session(sessions, directory),
        session_index(sessions, directory) == i,
{
    let c = session_index(sessions, directory);
    assert(is_session_at(sessions, directory, c));
    if c < i {
        assert(sessions[c].directory != directory);
    }
    if i < c {
        assert(sessions[i].directory != directory);
    }
}

/// Where no session has the directory, none is found.
pub proof fn lemma_no_session(sessions: Seq<SessionView>, directory: Seq<char>)
    requires
        forall|j: int| 0 <= j < sessions.len() ==> (#[trigger] sessions[j]).directory != directory,
    ensures
        !has_session(sessions, directory),
{
    if has_session(sessions, directory) {
        let c = session_index(sessions, directory);
        assert(is_session_at(sessions, directory, c));
        assert(sessions[c].directory != directory);
    }
}

/// Where no first match exists, no session has the directory.
pub proof fn lemma_no_session_anywhere(sessions: Seq<SessionView>, directory: Seq<char>)
    requires
        !has_session(sessions, directory),
    ensures
        forall|j: int| 0 <= j < sessions.len() ==> (#[trigger] sessions[j]).directory != directory,
{
    assert forall|j: int| 0 <= j < sessions.len() implies (#[trigger] sessions[j]).directory
        != directory by {
        if sessions[j].directory == directory {
            lemma_first_session(sessions, directory, j);
        }
    }
}

/// Registering keeps a registry a registry.
pub proof fn lemma_register_valid(sessions: Seq<SessionView>, directory: Seq<char>, job: JobView)
    requires
        valid_sessions(sessions),
    ensures
        valid_sessions(register_model(sessions, directory, job)),
{
    let after = register_model(sessions, directory, job);
    if has_session(sessions, directory) {
        let i = session_index(sessions, directory);
        assert(is_session_at(sessions, directory, i));
        if !has_pid(sessions[i].jobs, job.pid) {
            let jobs = sessions[i].jobs.push(job);
            assert forall|a: int, b: int| 0 <= a < b < jobs.len() implies (#[trigger] jobs[a]).pid
                != (#[trigger] jobs[b]).pid by {
                if b < sessions[i].jobs.len() {
                    assert(distinct_pids(sessions[i].jobs));
                    assert(jobs[a] == sessions[i].jobs[a]);
                    assert(jobs[b] == sessions[i].jobs[b]);
                } else {
                    assert(jobs[a] == sessions[i].jobs[a]);
                }
            }
            assert forall|x: int| 0 <= x < after.len() implies distinct_pids(
                (#[trigger] after[x]).jobs,
            ) by {
                if x != i {
                    assert(after[x] == sessions[x]);
                }
            }
            assert forall|x: int, y: int| 0 <= x < y < after.len() implies (#[trigger] after[
                x
            ]).directory != (#[trigger] after[y]).directory by {
                assert(after[x].directory == sessions[x].directory);
                assert(after[y].directory == sessions[y].directory);
            }
            assert forall|x: int| 0 <= x < after.len() implies (#[trigger] after[x]).jobs.len()
                >= 1 by {
                if x != i {
                    assert(after[x] == sessions[x]);
                }
            }
        }
    } else {
        assert forall|x: int, y: int| 0 <= x < y < after.len() implies (#[trigger] after[
            x
        ]).directory != (#[trigger] after[y]).directory by {
            if y == sessions.len() {
                if sessions[x].directory == directory {
                    lemma_first_session(sessions, directory, x);
                }
            } else {
                assert(after[x] == sessions[x]);
                assert(after[y] == sessions[y]);
            }
        }
        assert forall|x: int| 0 <= x < after.len() implies distinct_pids(
            (#[trigger] after[x]).jobs,
        ) by {
            if x < sessions.len() {
                assert(after[x] == sessions[x]);
            }
        }
        assert forall|x: int| 0 <= x < after.len() implies (#[trigger] after[x]).jobs.len()
            >= 1 by {
            if x < sessions.len() {
                assert(after[x] == sessions[x]);
            }
        }
    }
}

/// After a job was registered, its directory has a session, and that session
/// holds the job's process id.
pub proof fn lemma_registered_is_present(
    sessions: Seq<SessionView>,
    directory: Seq<char>,
    job: JobView,
)
    ensures
        has_session(register_model(sessions, directory, job), directory),
        has_pid(jobs_of(register_model(sessions, directory, job), directory), job.pid),
        jobs_of(register_model(sessions, directory, job), directory) == if has_pid(
            jobs_of(sessions, directory),
            job.pid,
        ) {
            jobs_of(sessions, directory)
        } else {
            jobs_of(sessions, directory).push(job)
        },
{
    let after = register_model(sessions, directory, job);
    if has_session(sessions, directory) {
        let i = session_index(sessions, directory);
        assert(is_session_at(sessions, directory, i));
        if !has_pid(sessions[i].jobs, job.pid) {
            assert forall|j: int| 0 <= j < i implies (#[trigger] after[j]).directory
                != directory by {
                assert(after[j] == sessions[j]);
            }
            assert(is_session_at(after, directory, i));
            lemma_session_index_is(after, directory, i);
            let jobs = after[i].jobs;
            assert(jobs[jobs.len() - 1].pid == job.pid);
        }
    } else {
        lemma_no_session_anywhere(sessions, directory);
        let n = sessions.len() as int;
        assert forall|j: int| 0 <= j < n implies (#[trigger] after[j]).directory != directory by {
            assert(after[j] == sessions[j]);
        }
        assert(is_session_at(after, directory, n));
        lemma_session_index_is(after, directory, n);
        assert(after[n].jobs[0].pid == job.pid);
        assert(Seq::<JobView>::empty().push(job) =~= seq![job]);
        assert(!has_pid(Seq::<JobView>::empty(), job.pid));
    }
}

/// Whether `job` is one of `jobs` whose process was seen suspended.
pub open spec fn seen_suspended_in(jobs: Seq<JobView>, seen: Seq<Sighting>, job: JobView) -> bool {
    exists|k: int|
        0 <= k < jobs.len() && k < seen.len() && counts_as_suspended(seen[k]) && #[trigger] jobs[k]
            == job
}

/// A job stays exactly if it is one of the jobs that were seen suspended.
pub proof fn lemma_kept_jobs_were_seen(jobs: Seq<JobView>, seen: Seq<Sighting>, job: JobView)
    ensures
        kept_jobs(jobs, seen).contains(job) <==> seen_suspended_in(jobs, seen, job),
    decreases jobs.len(),
{
    let kept = kept_jobs(jobs, seen);
    if jobs.len() == 0 {
        if kept.contains(job) {
            let m = choose|m: int| 0 <= m < kept.len() && kept[m] == job;
        }
    } else {
        let front = jobs.drop_last();
        let rest = kept_jobs(front, seen);
        let k = jobs.len() - 1;
        lemma_kept_jobs_were_seen(front, seen, job);
        if kept.contains(job) {
            let m = choose|m: int| 0 <= m < kept.len() && kept[m] == job;
            if m < rest.len() {
                assert(rest[m] == job);
                assert(rest.contains(job));
                let w = choose|w: int|
                    0 <= w < front.len() && w < seen.len() && counts_as_suspended(seen[w])
                        && #[trigger] front[w] == job;
                assert(jobs[w] == job);
            } else {
                assert(jobs[k] == job);
            }
        }
        if seen_suspended_in(jobs, seen, job) {
            let w = choose|w: int|
                0 <= w < jobs.len() && w < seen.len() && counts_as_suspended(seen[w])
                    && #[trigger] jobs[w] == job;
            if w < k {
                assert(front[w] == job);
                assert(seen_suspended_in(front, seen, job));
                let m = choose|m: int| 0 <= m < rest.len() && rest[m] == job;
                assert(kept[m] == job);
            } else {
                assert(kept[kept.len() - 1] == job);
            }
        }
    }
}

/// A liveness pass brings no process id into a list of jobs.
pub proof fn lemma_kept_jobs_pids(jobs: Seq<JobView>, seen: Seq<Sighting>, pid: u32)
    requires
        !has_pid(jobs, pid),
    ensures
        !has_pid(kept_jobs(jobs, seen), pid),
{
    let kept = kept_jobs(jobs, seen);
    if has_pid(kept, pid) {
        let m = choose|m: int| 0 <= m < kept.len() && (#[trigger] kept[m]).pid == pid;
        assert(kept.contains(kept[m]));
        lemma_kept_jobs_were_seen(jobs, seen, kept[m]);
        let w = choose|w: int|
            0 <= w < jobs.len() && w < seen.len() && counts_as_suspended(seen[w])
                && #[trigger] jobs[w] == kept[m];
        assert(jobs[w].pid == pid);
    }
}

/// A liveness pass keeps the process ids of a session distinct.
pub proof fn lemma_kept_jobs_distinct(jobs: Seq<JobView>, seen: Seq<Sighting>)
    requires
        distinct_pids(jobs),
    ensures
        distinct_pids(kept_jobs(jobs, seen)),
    decreases jobs.len(),
{
    if jobs.len() > 0 {
        let front = jobs.drop_last();
        let rest = kept_jobs(front, seen);
        let kept = kept_jobs(jobs, seen);
        assert forall|a: int, b: int| 0 <= a < b < front.len() implies (#[trigger] front[a]).pid
            != (#[trigger] front[b]).pid by {
            assert(front[a] == jobs[a]);
            assert(front[b] == jobs[b]);
        }
        lemma_kept_jobs_distinct(front, seen);
        if kept.len() > rest.len() {
            let last = jobs.last();
            if has_pid(front, last.pid) {
                let w = choose|w: int|
                    0 <= w < front.len() && (#[trigger] front[w]).pid == last.pid;
                assert(jobs[w].pid == jobs[jobs.len() - 1].pid);
            }
            lemma_kept_jobs_pids(front, seen, last.pid);
            assert forall|a: int, b: int| 0 <= a < b < kept.len() implies (#[trigger] kept[a]).pid
                != (#[trigger] kept[b]).pid by {
                if b < rest.len() {
                    assert(kept[a] == rest[a]);
                    assert(kept[b] == rest[b]);
                } else {
                    assert(kept[a] == rest[a]);
                    assert(rest[a].pid != last.pid);
                }
            }
        }
    }
}

/// Whether session `t` of a pruned registry comes from session `i` of the
/// registry before the pass.
pub open spec fn pruned_from(
    sessions: Seq<SessionView>,
    sightings: Seq<Seq<Sighting>>,
    session: SessionView,
    i: int,
) -> bool {
    &&& 0 <= i < sessions.len()
    &&& session.directory == sessions[i].directory
    &&& session.jobs == kept_jobs(sessions[i].jobs, sightings_at(sightings, i))
    &&& session.jobs.len() >= 1
}

/// Whether a session of a pruned registry comes from some session of the
/// registry before the pass.
pub open spec fn has_source(
    sessions: Seq<SessionView>,
    sightings: Seq<Seq<Sighting>>,
    session: SessionView,
) -> bool {
    exists|i: int| pruned_from(sessions, sightings, session, i)
}

/// Whether two sessions of a pruned registry come from two sessions of the
/// registry before the pass, the first from the earlier one.
pub open spec fn have_ordered_sources(
    sessions: Seq<SessionView>,
    sightings: Seq<Seq<Sighting>>,
    first: SessionView,
    second: SessionView,
) -> bool {
    exists|i: int, j: int|
        i < j && #[trigger] pruned_from(sessions, sightings, first, i) && #[trigger] pruned_from(
            sessions,
            sightings,
            second,
            j,
        )
}

/// Every session after a liveness pass is a session from before it, holding
/// the jobs that the pass kept; and sessions keep their order.
pub proof fn lemma_prune_sources(sessions: Seq<SessionView>, sightings: Seq<Seq<Sighting>>)
    ensures
        forall|t: int|
            0 <= t < prune_model(sessions, sightings).len() ==> has_source(
                sessions,
                sightings,
                #[trigger] prune_model(sessions, sightings)[t],
            ),
        forall|t: int, u: int|
            0 <= t < u < prune_model(sessions, sightings).len() ==> have_ordered_sources(
                sessions,
                sightings,
                #[trigger] prune_model(sessions, sightings)[t],
                #[trigger] prune_model(sessions, sightings)[u],
            ),
    decreases sessions.len(),
{
    let pruned = prune_model(sessions, sightings);
    if sessions.len() > 0 {
        let front = sessions.drop_last();
        let rest = prune_model(front, sightings);
        let n = sessions.len() - 1;
        lemma_prune_sources(front, sightings);
        assert forall|t: int| 0 <= t < pruned.len() implies has_source(
            sessions,
            sightings,
            #[trigger] pruned[t],
        ) by {
            if t < rest.len() {
                assert(has_source(front, sightings, rest[t]));
                let i = choose|i: int| pruned_from(front, sightings, rest[t], i);
                assert(front[i] == sessions[i]);
                assert(pruned_from(sessions, sightings, pruned[t], i));
            } else {
                assert(pruned_from(sessions, sightings, pruned[t], n));
            }
        }
        assert forall|t: int, u: int| 0 <= t < u < pruned.len() implies have_ordered_sources(
            sessions,
            sightings,
            #[trigger] pruned[t],
            #[trigger] pruned[u],
        ) by {
            if u < rest.len() {
                assert(have_ordered_sources(front, sightings, rest[t], rest[u]));
                let (i, j) = choose|i: int, j: int|
                    i < j && #[trigger] pruned_from(front, sightings, rest[t], i)
                        && #[trigger] pruned_from(front, sightings, rest[u], j);
                assert(front[i] == sessions[i]);
                assert(front[j] == sessions[j]);
                assert(pruned_from(sessions, sightings, pruned[t], i));
                assert(pruned_from(sessions, sightings, pruned[u], j));
            } else {
                assert(has_source(front, sightings, rest[t]));
                let i = choose|i: int| pruned_from(front, sightings, rest[t], i);
                assert(front[i] == sessions[i]);
                assert(pruned_from(sessions, sightings, pruned[t], i));
                assert(pruned_from(sessions, sightings, pruned[u], n));
            }
        }
    }
}

/// A liveness pass keeps a registry a registry.
pub proof fn lemma_prune_valid(sessions: Seq<SessionView>, sightings: Seq<Seq<Sighting>>)
    requires
        valid_sessions(sessions),
    ensures
        valid_sessions(prune_model(sessions, sightings)),
{
    let pruned = prune_model(sessions, sightings);
    lemma_prune_sources(sessions, sightings);
    assert forall|t: int| 0 <= t < pruned.len() implies (#[trigger] pruned[t]).jobs.len() >= 1
        && distinct_pids(pruned[t].jobs) by {
        assert(has_source(sessions, sightings, pruned[t]));
        let i = choose|i: int| pruned_from(sessions, sightings, pruned[t], i);
        assert(distinct_pids(sessions[i].jobs));
        lemma_kept_jobs_distinct(sessions[i].jobs, sightings_at(sightings, i));
    }
    assert forall|t: int, u: int| 0 <= t < u < pruned.len() implies (#[trigger] pruned[t]).directory
        != (#[trigger] pruned[u]).directory by {
        assert(have_ordered_sources(sessions, sightings, pruned[t], pruned[u]));
        let (i, j) = choose|i: int, j: int|
            i < j && #[trigger] pruned_from(sessions, sightings, pruned[t], i)
                && #[trigger] pruned_from(sessions, sightings, pruned[u], j);
        assert(sessions[i].directory != sessions[j].directory);
    }
}

/// A session that keeps a job is a session after the pass.
pub proof fn lemma_prune_keeps(sessions: Seq<SessionView>, sightings: Seq<Seq<Sighting>>, i: int)
    requires
        0 <= i < sessions.len(),
    ensures
        kept_jobs(sessions[i].jobs, sightings_at(sightings, i)).len() > 0 ==> exists|t: int|
            0 <= t < prune_model(sessions, sightings).len() && #[trigger] prune_model(
                sessions,
                sightings,
            )[t] == (SessionView {
                jobs: kept_jobs(sessions[i].jobs, sightings_at(sightings, i)),
                directory: sessions[i].directory,
            }),
    decreases sessions.len(),
{
    let pruned = prune_model(sessions, sightings);
    let kept = kept_jobs(sessions[i].jobs, sightings_at(sightings, i));
    let target = SessionView { jobs: kept, directory: sessions[i].directory };
    if kept.len() > 0 {
        let front = sessions.drop_last();
        let rest = prune_model(front, sightings);
        if i == sessions.len() - 1 {
            assert(pruned[pruned.len() - 1] == target);
        } else {
            assert(front[i] == sessions[i]);
            lemma_prune_keeps(front, sightings, i);
            let t = choose|t: int| 0 <= t < rest.len() && #[trigger] rest[t] == target;
            assert(pruned[t] == target);
        }
    }
}

} // verus!
