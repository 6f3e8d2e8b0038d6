//! Facts about the wire format that its readers and writers are proved from.

use crate::codec::format::{
    field, job_json, job_of_json, jobs_json, jobs_of_json, output_json, output_of_json,
    outputs_json, outputs_of_json, request_json, response_json, session_json, session_of_json,
    sessions_json, sessions_of_json, Members,
};
use crate::json::{printable, JsonView};
use crate::sessions::{ClientRequestView, JobOutputView, JobView, ServerResponseView, SessionView};
use vstd::prelude::*;

verus! {

/// What each name of the format reads, letter by letter.
pub proof fn lemma_member_names()
    ensures
        "pid"@ == seq!['p', 'i', 'd'],
        "command"@ == seq!['c', 'o', 'm', 'm', 'a', 'n', 'd'],
        "number"@ == seq!['n', 'u', 'm', 'b', 'e', 'r'],
        "suspended"@ == seq!['s', 'u', 's', 'p', 'e', 'n', 'd', 'e', 'd'],
        "jobs"@ == seq!['j', 'o', 'b', 's'],
        "directory"@ == seq!['d', 'i', 'r', 'e', 'c', 't', 'o', 'r', 'y'],
        "action"@ == seq!['a', 'c', 't', 'i', 'o', 'n'],
        "sessions"@ == seq!['s', 'e', 's', 's', 'i', 'o', 'n', 's'],
        "job"@ == seq!['j', 'o', 'b'],
        "message"@ == seq!['m', 'e', 's', 's', 'a', 'g', 'e'],
        "cwd"@ == seq!['c', 'w', 'd'],
        "fzf"@ == seq!['f', 'z', 'f'],
        "dir"@ == seq!['d', 'i', 'r'],
        "shell"@ == seq!['s', 'h', 'e', 'l', 'l'],
        "list_jobs"@ == seq!['l', 'i', 's', 't', '_', 'j', 'o', 'b', 's'],
        "list_sessions"@ == seq!['l', 'i', 's', 't', '_', 's', 'e', 's', 's', 'i', 'o', 'n', 's'],
        "register"@ == seq!['r', 'e', 'g', 'i', 's', 't', 'e', 'r'],
        "kill"@ == seq!['k', 'i', 'l', 'l'],
        "error"@ == seq!['e', 'r', 'r', 'o', 'r'],
        "list"@ == seq!['l', 'i', 's', 't'],
        "run"@ == seq!['r', 'u', 'n'],
        "init"@ == seq!['i', 'n', 'i', 't'],
{
    reveal_strlit("pid");
    reveal_strlit("command");
    reveal_strlit("number");
    reveal_strlit("suspended");
    reveal_strlit("jobs");
    reveal_strlit("directory");
    reveal_strlit("action");
    reveal_strlit("sessions");
    reveal_strlit("job");
    reveal_strlit("message");
    reveal_strlit("cwd");
    reveal_strlit("fzf");
    reveal_strlit("dir");
    reveal_strlit("shell");
    reveal_strlit("list_jobs");
    reveal_strlit("list_sessions");
    reveal_strlit("register");
    reveal_strlit("kill");
    reveal_strlit("error");
    reveal_strlit("list");
    reveal_strlit("run");
    reveal_strlit("init");
    assert("pid"@ =~= seq!['p', 'i', 'd']);
    assert("command"@ =~= seq!['c', 'o', 'm', 'm', 'a', 'n', 'd']);
    assert("number"@ =~= seq!['n', 'u', 'm', 'b', 'e', 'r']);
    assert("suspended"@ =~= seq!['s', 'u', 's', 'p', 'e', 'n', 'd', 'e', 'd']);
    assert("jobs"@ =~= seq!['j', 'o', 'b', 's']);
    assert("directory"@ =~= seq!['d', 'i', 'r', 'e', 'c', 't', 'o', 'r', 'y']);
    assert("action"@ =~= seq!['a', 'c', 't', 'i', 'o', 'n']);
    assert("sessions"@ =~= seq!['s', 'e', 's', 's', 'i', 'o', 'n', 's']);
    assert("job"@ =~= seq!['j', 'o', 'b']);
    assert("message"@ =~= seq!['m', 'e', 's', 's', 'a', 'g', 'e']);
    assert("cwd"@ =~= seq!['c', 'w', 'd']);
    assert("fzf"@ =~= seq!['f', 'z', 'f']);
    assert("dir"@ =~= seq!['d', 'i', 'r']);
    assert("shell"@ =~= seq!['s', 'h', 'e', 'l', 'l']);
    assert("list_jobs"@ =~= seq!['l', 'i', 's', 't', '_', 'j', 'o', 'b', 's']);
    assert("list_sessions"@ =~= seq![
        'l',
        'i',
        's',
        't',
        '_',
        's',
        'e',
        's',
        's',
        'i',
        'o',
        'n',
        's',
    ]);
    assert("register"@ =~= seq!['r', 'e', 'g', 'i', 's', 't', 'e', 'r']);
    assert("kill"@ =~= seq!['k', 'i', 'l', 'l']);
    assert("error"@ =~= seq!['e', 'r', 'r', 'o', 'r']);
    assert("list"@ =~= seq!['l', 'i', 's', 't']);
    assert("run"@ =~= seq!['r', 'u', 'n']);
    assert("init"@ =~= seq!['i', 'n', 'i', 't']);
}

/// Two texts that differ in length or at some place are not the same.
pub proof fn lemma_texts_differ(a: Seq<char>, b: Seq<char>, at: int)
    requires
        a.len() != b.len() || (0 <= at < a.len() && at < b.len() && a[at] != b[at]),
    ensures
        a != b,
{
}

/// The names that stand side by side in an object differ, and so do the
/// kinds of answers and the kinds of requests.
pub proof fn lemma_names_differ()
    ensures
        "pid"@ != "command"@,
        "pid"@ != "number"@,
        "pid"@ != "suspended"@,
        "command"@ != "number"@,
        "command"@ != "suspended"@,
        "number"@ != "suspended"@,
        "jobs"@ != "directory"@,
        "action"@ != "jobs"@,
        "action"@ != "sessions"@,
        "action"@ != "job"@,
        "action"@ != "message"@,
        "action"@ != "fzf"@,
        "action"@ != "dir"@,
        "action"@ != "cwd"@,
        "fzf"@ != "dir"@,
        "fzf"@ != "cwd"@,
        "dir"@ != "cwd"@,
        "action"@ != "pid"@,
        "action"@ != "number"@,
        "action"@ != "command"@,
        "pid"@ != "cwd"@,
        "number"@ != "cwd"@,
        "command"@ != "cwd"@,
        "action"@ != "shell"@,
        "shell"@ != "cwd"@,
        "list_jobs"@ != "list_sessions"@,
        "list_jobs"@ != "register"@,
        "list_jobs"@ != "kill"@,
        "list_jobs"@ != "error"@,
        "list_sessions"@ != "register"@,
        "list_sessions"@ != "kill"@,
        "list_sessions"@ != "error"@,
        "register"@ != "kill"@,
        "register"@ != "error"@,
        "kill"@ != "error"@,
        "list"@ != "register"@,
        "list"@ != "run"@,
        "list"@ != "kill"@,
        "list"@ != "init"@,
        "register"@ != "run"@,
        "register"@ != "init"@,
        "run"@ != "kill"@,
        "run"@ != "init"@,
        "kill"@ != "init"@,
{
    lemma_member_names();
    lemma_texts_differ("pid"@, "command"@, 0);
    lemma_texts_differ("pid"@, "number"@, 0);
    lemma_texts_differ("pid"@, "suspended"@, 0);
    lemma_texts_differ("command"@, "number"@, 0);
    lemma_texts_differ("command"@, "suspended"@, 0);
    lemma_texts_differ("number"@, "suspended"@, 0);
    lemma_texts_differ("jobs"@, "directory"@, 0);
    lemma_texts_differ("action"@, "jobs"@, 0);
    lemma_texts_differ("action"@, "sessions"@, 0);
    lemma_texts_differ("action"@, "job"@, 0);
    lemma_texts_differ("action"@, "message"@, 0);
    lemma_texts_differ("action"@, "fzf"@, 0);
    lemma_texts_differ("action"@, "dir"@, 0);
    lemma_texts_differ("action"@, "cwd"@, 0);
    lemma_texts_differ("fzf"@, "dir"@, 0);
    lemma_texts_differ("fzf"@, "cwd"@, 0);
    lemma_texts_differ("dir"@, "cwd"@, 0);
    lemma_texts_differ("action"@, "pid"@, 0);
    lemma_texts_differ("action"@, "number"@, 0);
    lemma_texts_differ("action"@, "command"@, 0);
    lemma_texts_differ("pid"@, "cwd"@, 0);
    lemma_texts_differ("number"@, "cwd"@, 0);
    lemma_texts_differ("command"@, "cwd"@, 0);
    lemma_texts_differ("action"@, "shell"@, 0);
    lemma_texts_differ("shell"@, "cwd"@, 0);
    lemma_texts_differ("list_jobs"@, "list_sessions"@, 0);
    lemma_texts_differ("list_jobs"@, "register"@, 0);
    lemma_texts_differ("list_jobs"@, "kill"@, 0);
    lemma_texts_differ("list_jobs"@, "error"@, 0);
    lemma_texts_differ("list_sessions"@, "register"@, 0);
    lemma_texts_differ("list_sessions"@, "kill"@, 0);
    lemma_texts_differ("list_sessions"@, "error"@, 0);
    lemma_texts_differ("register"@, "kill"@, 0);
    lemma_texts_differ("register"@, "error"@, 0);
    lemma_texts_differ("kill"@, "error"@, 0);
    lemma_texts_differ("list"@, "register"@, 0);
    lemma_texts_differ("list"@, "run"@, 0);
    lemma_texts_differ("list"@, "kill"@, 0);
    lemma_texts_differ("list"@, "init"@, 0);
    lemma_texts_differ("register"@, "run"@, 0);
    lemma_texts_differ("register"@, "init"@, 0);
    lemma_texts_differ("run"@, "kill"@, 0);
    lemma_texts_differ("run"@, "init"@, 0);
    lemma_texts_differ("kill"@, "init"@, 0);
}

/// A member after which no member has the same name is the one that a
/// lookup of its name finds.
pub proof fn lemma_field_at(members: Members, i: int)
    requires
        0 <= i < members.len(),
        forall|j: int| i < j < members.len() ==> (#[trigger] members[j]).0 != members[i].0,
    ensures
        field(members, members[i].0) == Some(members[i].1),
    decreases members.len(),
{
    if i < members.len() - 1 {
        let front = members.drop_last();
        assert(members[members.len() - 1].0 != members[i].0);
        assert(front[i] == members[i]);
        assert forall|j: int| i < j < front.len() implies (#[trigger] front[j]).0 != front[i].0 by {
            assert(front[j] == members[j]);
        }
        lemma_field_at(front, i);
    }
}

/// A list with an item that describes no job describes no jobs.
pub proof fn lemma_jobs_unreadable(items: Seq<JsonView>, at: int)
    requires
        0 <= at < items.len(),
        job_of_json(items[at]) is None,
    ensures
        jobs_of_json(items) is None,
    decreases items.len(),
{
    if at < items.len() - 1 {
        assert(items.drop_last()[at] == items[at]);
        lemma_jobs_unreadable(items.drop_last(), at);
    }
}

/// A list with an item that describes no listed job describes no listed jobs.
pub proof fn lemma_outputs_unreadable(items: Seq<JsonView>, at: int)
    requires
        0 <= at < items.len(),
        output_of_json(items[at]) is None,
    ensures
        outputs_of_json(items) is None,
    decreases items.len(),
{
    if at < items.len() - 1 {
        assert(items.drop_last()[at] == items[at]);
        lemma_outputs_unreadable(items.drop_last(), at);
    }
}

/// A list with an item that describes no session describes no sessions.
pub proof fn lemma_sessions_unreadable(items: Seq<JsonView>, at: int)
    requires
        0 <= at < items.len(),
        session_of_json(items[at]) is None,
    ensures
        sessions_of_json(items) is None,
    decreases items.len(),
{
    if at < items.len() - 1 {
        assert(items.drop_last()[at] == items[at]);
        lemma_sessions_unreadable(items.drop_last(), at);
    }
}

/// Every job as an object can be written.
pub proof fn lemma_job_printable(job: JobView)
    ensures
        printable(job_json(job)),
{
    reveal_with_fuel(printable, 2);
}

/// Every listed job as an object can be written.
pub proof fn lemma_output_printable(job: JobOutputView)
    ensures
        printable(output_json(job)),
{
    reveal_with_fuel(printable, 2);
}

/// Every session as an object can be written.
pub proof fn lemma_session_printable(session: SessionView)
    ensures
        printable(session_json(session)),
{
    reveal_with_fuel(printable, 3);
    let items = jobs_json(session.jobs);
    assert forall|i: int| 0 <= i < items.len() implies printable(#[trigger] items[i]) by {
        lemma_job_printable(session.jobs[i]);
    }
    let members = session_json(session)->Record_0;
    assert forall|i: int| 0 <= i < members.len() implies printable((#[trigger] members[i]).1) by {
        if i == 0 {
            assert(members[0].1 == JsonView::List(items));
        }
    }
}

/// Every answer as an object can be written.
pub proof fn lemma_response_printable(response: ServerResponseView)
    ensures
        printable(response_json(response)),
{
    reveal_with_fuel(printable, 3);
    let members = response_json(response)->Record_0;
    match response {
        ServerResponseView::ListJobs { jobs } => {
            let items = outputs_json(jobs);
            assert forall|i: int| 0 <= i < items.len() implies printable(#[trigger] items[i]) by {
                lemma_output_printable(jobs[i]);
            }
            assert forall|i: int| 0 <= i < members.len() implies printable(
                (#[trigger] members[i]).1,
            ) by {
                if i == 1 {
                    assert(members[1].1 == JsonView::List(items));
                }
            }
        },
        ServerResponseView::ListSessions { sessions } => {
            let items = sessions_json(sessions);
            assert forall|i: int| 0 <= i < items.len() implies printable(#[trigger] items[i]) by {
                lemma_session_printable(sessions[i]);
            }
            assert forall|i: int| 0 <= i < members.len() implies printable(
                (#[trigger] members[i]).1,
            ) by {
                if i == 1 {
                    assert(members[1].1 == JsonView::List(items));
                }
            }
        },
        ServerResponseView::Register { job } => {
            lemma_job_printable(job);
            assert forall|i: int| 0 <= i < members.len() implies printable(
                (#[trigger] members[i]).1,
            ) by {
                if i == 1 {
                    assert(members[1].1 == job_json(job));
                }
            }
        },
        ServerResponseView::Kill => {},
        ServerResponseView::Error { message } => {},
    }
}

/// Every request as an object can be written.
pub proof fn lemma_request_printable(request: ClientRequestView)
    ensures
        printable(request_json(request)),
{
    reveal_with_fuel(printable, 2);
}

} // verus!
