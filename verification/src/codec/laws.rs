//! Round trips: whatever is written as an object is read back as it was.

use crate::cli::CommandsView;
use crate::codec::format::{
    job_json, job_of_json, jobs_json, jobs_of_json, optional_text_json, output_json,
    output_of_json, outputs_json, outputs_of_json, request_json, request_of_json, response_json,
    response_of_json, session_json, session_of_json, sessions_json, sessions_of_json,
};
use crate::codec::lemmas::{lemma_field_at, lemma_names_differ};
use crate::json::JsonView;
use crate::sessions::{ClientRequestView, JobOutputView, JobView, ServerResponseView, SessionView};
use vstd::prelude::*;

verus! {

/// A job that is written and read back is the same job.
pub proof fn lemma_job_round_trip(job: JobView)
    ensures
        job_of_json(job_json(job)) == Some(job),
{
    lemma_names_differ();
    let members = seq![
        ("pid"@, JsonView::Unsigned(job.pid as u64)),
        ("command"@, JsonView::Text(job.command)),
        ("number"@, JsonView::Unsigned(job.number as u64)),
        ("suspended"@, JsonView::Unsigned(job.suspended)),
    ];
    lemma_field_at(members, 0);
    lemma_field_at(members, 1);
    lemma_field_at(members, 2);
    lemma_field_at(members, 3);
}

/// A listed job that is written and read back is the same listed job.
pub proof fn lemma_output_round_trip(job: JobOutputView)
    ensures
        output_of_json(output_json(job)) == Some(job),
{
    lemma_names_differ();
    let members = seq![
        ("pid"@, JsonView::Unsigned(job.pid as u64)),
        ("command"@, JsonView::Text(job.command)),
        ("number"@, JsonView::Unsigned(job.number as u64)),
        ("suspended"@, JsonView::Text(job.suspended)),
    ];
    lemma_field_at(members, 0);
    lemma_field_at(members, 1);
    lemma_field_at(members, 2);
    lemma_field_at(members, 3);
}

/// Jobs that are written and read back are the same jobs.
pub proof fn lemma_jobs_round_trip(jobs: Seq<JobView>)
    ensures
        jobs_of_json(jobs_json(jobs)) == Some(jobs),
    decreases jobs.len(),
{
    if jobs.len() == 0 {
        assert(jobs =~= Seq::empty());
    } else {
        lemma_jobs_round_trip(jobs.drop_last());
        lemma_job_round_trip(jobs.last());
        assert(jobs_json(jobs).drop_last() =~= jobs_json(jobs.drop_last()));
        assert(jobs.drop_last().push(jobs.last()) =~= jobs);
    }
}

/// Listed jobs that are written and read back are the same listed jobs.
pub proof fn lemma_outputs_round_trip(jobs: Seq<JobOutputView>)
    ensures
        outputs_of_json(outputs_json(jobs)) == Some(jobs),
    decreases jobs.len(),
{
    if jobs.len() == 0 {
        assert(jobs =~= Seq::empty());
    } else {
        lemma_outputs_round_trip(jobs.drop_last());
        lemma_output_round_trip(jobs.last());
        assert(outputs_json(jobs).drop_last() =~= outputs_json(jobs.drop_last()));
        assert(jobs.drop_last().push(jobs.last()) =~= jobs);
    }
}

/// A session that is written and read back is the same session.
pub proof fn lemma_session_round_trip(session: SessionView)
    ensures
        session_of_json(session_json(session)) == Some(session),
{
    lemma_names_differ();
    let members = seq![
        ("jobs"@, JsonView::List(jobs_json(session.jobs))),
        ("directory"@, JsonView::Text(session.directory)),
    ];
    lemma_field_at(members, 0);
    lemma_field_at(members, 1);
    lemma_jobs_round_trip(session.jobs);
}

/// Sessions that are written and read back are the same sessions.
pub proof fn lemma_sessions_round_trip(sessions: Seq<SessionView>)
    ensures
        sessions_of_json(sessions_json(sessions)) == Some(sessions),
    decreases sessions.len(),
{
    if sessions.len() == 0 {
        assert(sessions =~= Seq::empty());
    } else {
        lemma_sessions_round_trip(sessions.drop_last());
        lemma_session_round_trip(sessions.last());
        assert(sessions_json(sessions).drop_last() =~= sessions_json(sessions.drop_last()));
        assert(sessions.drop_last().push(sessions.last()) =~= sessions);
    }
}

/// Round trip of answers. Every answer, of whatever kind, that is written
/// as an object and read back is the answer that was written.
pub proof fn response_round_trip(response: ServerResponseView)
    ensures
        response_of_json(response_json(response)) == Some(response),
{
    lemma_names_differ();
    match response {
        ServerResponseView::ListJobs { jobs } => {
            let members = seq![
                ("action"@, JsonView::Text("list_jobs"@)),
                ("jobs"@, JsonView::List(outputs_json(jobs))),
            ];
            lemma_field_at(members, 0);
            lemma_field_at(members, 1);
            lemma_outputs_round_trip(jobs);
        },
        ServerResponseView::ListSessions { sessions } => {
            let members = seq![
                ("action"@, JsonView::Text("list_sessions"@)),
                ("sessions"@, JsonView::List(sessions_json(sessions))),
            ];
            lemma_field_at(members, 0);
            lemma_field_at(members, 1);
            lemma_sessions_round_trip(sessions);
        },
        ServerResponseView::Register { job } => {
            let members = seq![("action"@, JsonView::Text("register"@)), ("job"@, job_json(job))];
            lemma_field_at(members, 0);
            lemma_field_at(members, 1);
            lemma_job_round_trip(job);
        },
        ServerResponseView::Kill => {
            let members = seq![("action"@, JsonView::Text("kill"@))];
            lemma_field_at(members, 0);
        },
        ServerResponseView::Error { message } => {
            let members = seq![
                ("action"@, JsonView::Text("error"@)),
                ("message"@, JsonView::Text(message)),
            ];
            lemma_field_at(members, 0);
            lemma_field_at(members, 1);
        },
    }
}

/// Round trip of requests. Every request that is written as an object and
/// read back is the request that was written.
pub proof fn request_round_trip(request: ClientRequestView)
    ensures
        request_of_json(request_json(request)) == Some(request),
{
    lemma_names_differ();
    match request.action {
        CommandsView::List { fzf, dir } => {
            let members = seq![
                ("action"@, JsonView::Text("list"@)),
                ("fzf"@, JsonView::Bool(fzf)),
                ("dir"@, optional_text_json(dir)),
                ("cwd"@, JsonView::Text(request.cwd)),
            ];
            lemma_field_at(members, 0);
            lemma_field_at(members, 1);
            lemma_field_at(members, 2);
            lemma_field_at(members, 3);
        },
        CommandsView::Register { pid, number, command } => {
            let members = seq![
                ("action"@, JsonView::Text("register"@)),
                ("pid"@, JsonView::Unsigned(pid as u64)),
                ("number"@, JsonView::Unsigned(number as u64)),
                ("command"@, JsonView::Text(command)),
                ("cwd"@, JsonView::Text(request.cwd)),
            ];
            lemma_field_at(members, 0);
            lemma_field_at(members, 1);
            lemma_field_at(members, 2);
            lemma_field_at(members, 3);
            lemma_field_at(members, 4);
        },
        CommandsView::Run { command } => {
            let members = seq![
                ("action"@, JsonView::Text("run"@)),
                ("command"@, JsonView::Text(command)),
                ("cwd"@, JsonView::Text(request.cwd)),
            ];
            lemma_field_at(members, 0);
            lemma_field_at(members, 1);
            lemma_field_at(members, 2);
        },
        CommandsView::Kill => {
            let members = seq![
                ("action"@, JsonView::Text("kill"@)),
                ("cwd"@, JsonView::Text(request.cwd)),
            ];
            lemma_field_at(members, 0);
            lemma_field_at(members, 1);
        },
        CommandsView::Init { shell } => {
            let members = seq![
                ("action"@, JsonView::Text("init"@)),
                ("shell"@, JsonView::Text(shell)),
                ("cwd"@, JsonView::Text(request.cwd)),
            ];
            lemma_field_at(members, 0);
            lemma_field_at(members, 1);
            lemma_field_at(members, 2);
        },
    }
}

} // verus!
