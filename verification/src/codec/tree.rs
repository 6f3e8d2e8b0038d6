//! Writing values as objects and reading them back.

use crate::cli::Commands;
use crate::codec::format::{
    command_of_members, field, flag_field, job_json, job_of_json, jobs_json, jobs_of_json,
    list_field, number_field, optional_text_field, output_json, output_of_json, outputs_json,
    outputs_of_json, request_json, request_of_json, response_json, response_of_json, session_json,
    session_of_json, sessions_json, sessions_of_json, text_field,
};
use crate::codec::lemmas::{
    lemma_jobs_unreadable, lemma_outputs_unreadable, lemma_sessions_unreadable,
};
use crate::json::{
    items_view, lemma_items_view_push, lemma_list_view, lemma_record_view, list, member,
    members_view, record, text, Json, JsonView, Member,
};
use crate::sessions::{
    jobs_view, lemma_jobs_view_push, lemma_outputs_view_push, lemma_sessions_view_push,
    outputs_view, sessions_view, ClientRequest, Job, JobOutput, JobOutputView, JobView,
    ServerResponse, Session, SessionView,
};
use vstd::prelude::*;
use vstd::string::StringExecFns;

verus! {

/// A job as an object.
pub fn job_to_json(job: &Job) -> (tree: Json)
    ensures
        tree@ == job_json(job@),
{
    let mut members: Vec<Member> = Vec::new();
    members.push(member("pid", Json::Unsigned(job.pid as u64)));
    members.push(member("command", text(job.command.as_str())));
    members.push(member("number", Json::Unsigned(job.number as u64)));
    members.push(member("suspended", Json::Unsigned(job.suspended)));
    assert(members_view(members@) =~= job_json(job@)->Record_0);
    record(members)
}

/// A listed job as an object.
pub fn output_to_json(job: &JobOutput) -> (tree: Json)
    ensures
        tree@ == output_json(job@),
{
    let mut members: Vec<Member> = Vec::new();
    members.push(member("pid", Json::Unsigned(job.pid as u64)));
    members.push(member("command", text(job.command.as_str())));
    members.push(member("number", Json::Unsigned(job.number as u64)));
    members.push(member("suspended", text(job.suspended.as_str())));
    assert(members_view(members@) =~= output_json(job@)->Record_0);
    record(members)
}

/// Jobs as a list of objects.
pub fn jobs_to_json(jobs: &Vec<Job>) -> (tree: Json)
    ensures
        tree@ == JsonView::List(jobs_json(jobs_view(jobs@))),
{
    let ghost full = jobs_view(jobs@);
    let mut items: Vec<Json> = Vec::new();
    let mut i: usize = 0;
    assert(items_view(items@) =~= jobs_json(full.take(0)));
    while i < jobs.len()
        invariant
            i <= jobs.len(),
            full == jobs_view(jobs@),
            items_view(items@) == jobs_json(full.take(i as int)),
        decreases jobs.len() - i,
    {
        let item = job_to_json(&jobs[i]);
        proof {
            lemma_items_view_push(items@, item);
            assert(jobs_json(full.take(i as int)).push(item@) =~= jobs_json(full.take(i + 1)));
        }
        items.push(item);
        i += 1;
    }
    assert(full.take(jobs.len() as int) =~= full);
    list(items)
}

/// Listed jobs as a list of objects.
pub fn outputs_to_json(jobs: &Vec<JobOutput>) -> (tree: Json)
    ensures
        tree@ == JsonView::List(outputs_json(outputs_view(jobs@))),
{
    let ghost full = outputs_view(jobs@);
    let mut items: Vec<Json> = Vec::new();
    let mut i: usize = 0;
    assert(items_view(items@) =~= outputs_json(full.take(0)));
    while i < jobs.len()
        invariant
            i <= jobs.len(),
            full == outputs_view(jobs@),
            items_view(items@) == outputs_json(full.take(i as int)),
        decreases jobs.len() - i,
    {
        let item = output_to_json(&jobs[i]);
        proof {
            lemma_items_view_push(items@, item);
            assert(outputs_json(full.take(i as int)).push(item@) =~= outputs_json(
                full.take(i + 1),
            ));
        }
        items.push(item);
        i += 1;
    }
    assert(full.take(jobs.len() as int) =~= full);
    list(items)
}

/// A session as an object.
pub fn session_to_json(session: &Session) -> (tree: Json)
    ensures
        tree@ == session_json(session@),
{
    let mut members: Vec<Member> = Vec::new();
    members.push(member("jobs", jobs_to_json(&session.jobs)));
    members.push(member("directory", text(session.directory.as_str())));
    assert(members_view(members@) =~= session_json(session@)->Record_0);
    record(members)
}

/// Sessions as a list of objects.
pub fn sessions_to_json(sessions: &Vec<Session>) -> (tree: Json)
    ensures
        tree@ == JsonView::List(sessions_json(sessions_view(sessions@))),
{
    let ghost full = sessions_view(sessions@);
    let mut items: Vec<Json> = Vec::new();
    let mut i: usize = 0;
    assert(items_view(items@) =~= sessions_json(full.take(0)));
    while i < sessions.len()
        invariant
            i <= sessions.len(),
            full == sessions_view(sessions@),
            items_view(items@) == sessions_json(full.take(i as int)),
        decreases sessions.len() - i,
    {
        let item = session_to_json(&sessions[i]);
        proof {
            lemma_items_view_push(items@, item);
            assert(sessions_json(full.take(i as int)).push(item@) =~= sessions_json(
                full.take(i + 1),
            ));
        }
        items.push(item);
        i += 1;
    }
    assert(full.take(sessions.len() as int) =~= full);
    list(items)
}

/// An answer as an object.
pub fn response_to_json(response: &ServerResponse) -> (tree: Json)
    ensures
        tree@ == response_json(response@),
{
    let mut members: Vec<Member> = Vec::new();
    match response {
        ServerResponse::ListJobs { jobs } => {
            members.push(member("action", text("list_jobs")));
            members.push(member("jobs", outputs_to_json(jobs)));
        },
        ServerResponse::ListSessions { sessions } => {
            members.push(member("action", text("list_sessions")));
            members.push(member("sessions", sessions_to_json(sessions)));
        },
        ServerResponse::Register { job } => {
            members.push(member("action", text("register")));
            members.push(member("job", job_to_json(job)));
        },
        ServerResponse::Kill => {
            members.push(member("action", text("kill")));
        },
        ServerResponse::Error { message } => {
            members.push(member("action", text("error")));
            members.push(member("message", text(message.as_str())));
        },
    }
    assert(members_view(members@) =~= response_json(response@)->Record_0);
    record(members)
}

/// A request as an object.
pub fn request_to_json(request: &ClientRequest) -> (tree: Json)
    ensures
        tree@ == request_json(request@),
{
    let mut members: Vec<Member> = Vec::new();
    match &request.action {
        Commands::List { fzf, dir } => {
            members.push(member("action", text("list")));
            members.push(member("fzf", Json::Bool(*fzf)));
            let dir_tree = match dir {
                Some(directory) => text(directory.as_str()),
                None => Json::Null,
            };
            members.push(member("dir", dir_tree));
        },
        Commands::Register { pid, number, command } => {
            members.push(member("action", text("register")));
            members.push(member("pid", Json::Unsigned(*pid as u64)));
            members.push(member("number", Json::Unsigned(*number as u64)));
            members.push(member("command", text(command.as_str())));
        },
        Commands::Run { command } => {
            members.push(member("action", text("run")));
            members.push(member("command", text(command.as_str())));
        },
        Commands::Kill => {
            members.push(member("action", text("kill")));
        },
        Commands::Init { shell } => {
            members.push(member("action", text("init")));
            members.push(member("shell", text(shell.as_str())));
        },
    }
    members.push(member("cwd", text(request.cwd.as_str())));
    assert(members_view(members@) =~= request_json(request@)->Record_0);
    record(members)
}

/// The value of the member `name` of an object.
fn lookup<'a>(members: &'a Vec<Member>, name: &str) -> (found: Option<&'a Json>)
    ensures
        match found {
            Some(value) => field(members_view(members@), name@) == Some(value@),
            None => field(members_view(members@), name@) is None,
        },
{
    let ghost full = members_view(members@);
    let key = String::from_str(name);
    let mut i: usize = members.len();
    assert(full.take(i as int) =~= full);
    while i > 0
        invariant
            i <= members.len(),
            key@ == name@,
            full == members_view(members@),
            field(full, name@) == field(full.take(i as int), name@),
        decreases i,
    {
        i -= 1;
        proof {
            assert(full.take(i + 1).drop_last() =~= full.take(i as int));
            assert(full.take(i + 1).last() == full[i as int]);
        }
        if members[i].name == key {
            return Some(&members[i].value);
        }
    }
    None
}

/// Reads a member that must be a string.
fn read_text(members: &Vec<Member>, name: &str) -> (read: Option<String>)
    ensures
        match read {
            Some(content) => text_field(members_view(members@), name@) == Some(content@),
            None => text_field(members_view(members@), name@) is None,
        },
{
    match lookup(members, name) {
        Some(Json::Text(content)) => Some(content.clone()),
        _ => None,
    }
}

/// Reads a member that must be a whole number from zero to `limit`.
fn read_number(members: &Vec<Member>, name: &str, limit: u64) -> (read: Option<u64>)
    ensures
        read == number_field(members_view(members@), name@, limit),
{
    match lookup(members, name) {
        Some(Json::Unsigned(number)) => if *number <= limit {
            Some(*number)
        } else {
            None
        },
        _ => None,
    }
}

/// Reads a member that must be `true` or `false`.
fn read_flag(members: &Vec<Member>, name: &str) -> (read: Option<bool>)
    ensures
        read == flag_field(members_view(members@), name@),
{
    match lookup(members, name) {
        Some(Json::Bool(flag)) => Some(*flag),
        _ => None,
    }
}

/// Reads a member that must be a list.
fn read_list<'a>(members: &'a Vec<Member>, name: &str) -> (read: Option<&'a Vec<Json>>)
    ensures
        match read {
            Some(items) => list_field(members_view(members@), name@) == Some(items_view(items@)),
            None => list_field(members_view(members@), name@) is None,
        },
{
    match lookup(members, name) {
        Some(Json::List(items)) => {
            proof {
                lemma_list_view(*items);
            }
            Some(items)
        },
        _ => None,
    }
}

/// Reads a member that may be missing or `null`, and is a string otherwise.
fn read_optional_text(members: &Vec<Member>, name: &str) -> (read: Option<Option<String>>)
    ensures
        match read {
            Some(content) => optional_text_field(members_view(members@), name@) == Some(
                crate::cli::optional_text(content),
            ),
            None => optional_text_field(members_view(members@), name@) is None,
        },
{
    match lookup(members, name) {
        None => Some(None),
        Some(Json::Null) => Some(None),
        Some(Json::Text(content)) => Some(Some(content.clone())),
        _ => None,
    }
}

/// Whether a string reads as `literal`.
fn reads(content: &String, literal: &str) -> (same: bool)
    ensures
        same == (content@ == literal@),
{
    let other = String::from_str(literal);
    *content == other
}

/// The job that an object describes: `None` exactly where it describes none.
pub fn job_from_json(tree: &Json) -> (read: Option<Job>)
    ensures
        match read {
            Some(job) => job_of_json(tree@) == Some(job@),
            None => job_of_json(tree@) is None,
        },
{
    match tree {
        Json::Record(members) => {
            proof {
                lemma_record_view(*members);
            }
            let pid = read_number(members, "pid", u32::MAX as u64);
            let command = read_text(members, "command");
            let number = read_number(members, "number", u8::MAX as u64);
            let suspended = read_number(members, "suspended", u64::MAX);
            match (pid, command, number, suspended) {
                (Some(pid), Some(command), Some(number), Some(suspended)) => Some(
                    Job { pid: pid as u32, command, number: number as u8, suspended },
                ),
                _ => None,
            }
        },
        _ => None,
    }
}

/// The listed job that an object describes: `None` exactly where it
/// describes none.
pub fn output_from_json(tree: &Json) -> (read: Option<JobOutput>)
    ensures
        match read {
            Some(job) => output_of_json(tree@) == Some(job@),
            None => output_of_json(tree@) is None,
        },
{
    match tree {
        Json::Record(members) => {
            proof {
                lemma_record_view(*members);
            }
            let pid = read_number(members, "pid", u32::MAX as u64);
            let command = read_text(members, "command");
            let number = read_number(members, "number", u8::MAX as u64);
            let suspended = read_text(members, "suspended");
            match (pid, command, number, suspended) {
                (Some(pid), Some(command), Some(number), Some(suspended)) => Some(
                    JobOutput { pid: pid as u32, command, number: number as u8, suspended },
                ),
                _ => None,
            }
        },
        _ => None,
    }
}

/// The jobs that a list describes: `None` exactly where some item describes
/// no job.
pub fn jobs_from_json(items: &Vec<Json>) -> (read: Option<Vec<Job>>)
    ensures
        match read {
            Some(jobs) => jobs_of_json(items_view(items@)) == Some(jobs_view(jobs@)),
            None => jobs_of_json(items_view(items@)) is None,
        },
{
    let ghost full = items_view(items@);
    let mut jobs: Vec<Job> = Vec::new();
    let mut i: usize = 0;
    assert(jobs_view(jobs@) =~= Seq::<JobView>::empty());
    while i < items.len()
        invariant
            i <= items.len(),
            full == items_view(items@),
            jobs_of_json(full.take(i as int)) == Some(jobs_view(jobs@)),
        decreases items.len() - i,
    {
        proof {
            assert(full.take(i + 1).drop_last() =~= full.take(i as int));
            assert(full.take(i + 1).last() == full[i as int]);
        }
        match job_from_json(&items[i]) {
            Some(job) => {
                proof {
                    lemma_jobs_view_push(jobs@, job);
                }
                jobs.push(job);
            },
            None => {
                proof {
                    lemma_jobs_unreadable(full, i as int);
                }
                return None;
            },
        }
        i += 1;
    }
    assert(full.take(items.len() as int) =~= full);
    Some(jobs)
}

/// The listed jobs that a list describes: `None` exactly where some item
/// describes no listed job.
pub fn outputs_from_json(items: &Vec<Json>) -> (read: Option<Vec<JobOutput>>)
    ensures
        match read {
            Some(jobs) => outputs_of_json(items_view(items@)) == Some(outputs_view(jobs@)),
            None => outputs_of_json(items_view(items@)) is None,
        },
{
    let ghost full = items_view(items@);
    let mut jobs: Vec<JobOutput> = Vec::new();
    let mut i: usize = 0;
    assert(outputs_view(jobs@) =~= Seq::<JobOutputView>::empty());
    while i < items.len()
        invariant
            i <= items.len(),
            full == items_view(items@),
            outputs_of_json(full.take(i as int)) == Some(outputs_view(jobs@)),
        decreases items.len() - i,
    {
        proof {
            assert(full.take(i + 1).drop_last() =~= full.take(i as int));
            assert(full.take(i + 1).last() == full[i as int]);
        }
        match output_from_json(&items[i]) {
            Some(job) => {
                proof {
                    lemma_outputs_view_push(jobs@, job);
                }
                jobs.push(job);
            },
            None => {
                proof {
                    lemma_outputs_unreadable(full, i as int);
                }
                return None;
            },
        }
        i += 1;
    }
    assert(full.take(items.len() as int) =~= full);
    Some(jobs)
}

/// The session that an object describes: `None` exactly where it describes
/// none.
pub fn session_from_json(tree: &Json) -> (read: Option<Session>)
    ensures
        match read {
            Some(session) => session_of_json(tree@) == Some(session@),
            None => session_of_json(tree@) is None,
        },
{
    match tree {
        Json::Record(members) => {
            proof {
                lemma_record_view(*members);
            }
            let items = read_list(members, "jobs");
            let directory = read_text(members, "directory");
            match (items, directory) {
                (Some(items), Some(directory)) => match jobs_from_json(items) {
                    Some(jobs) => Some(Session { jobs, directory }),
                    None => None,
                },
                _ => None,
            }
        },
        _ => None,
    }
}

/// The sessions that a list describes: `None` exactly where some item
/// describes no session.
pub fn sessions_from_json(items: &Vec<Json>) -> (read: Option<Vec<Session>>)
    ensures
        match read {
            Some(sessions) => sessions_of_json(items_view(items@)) == Some(
                sessions_view(sessions@),
            ),
            None => sessions_of_json(items_view(items@)) is None,
        },
{
    let ghost full = items_view(items@);
    let mut sessions: Vec<Session> = Vec::new();
    let mut i: usize = 0;
    assert(sessions_view(sessions@) =~= Seq::<SessionView>::empty());
    while i < items.len()
        invariant
            i <= items.len(),
            full == items_view(items@),
            sessions_of_json(full.take(i as int)) == Some(sessions_view(sessions@)),
        decreases items.len() - i,
    {
        proof {
            assert(full.take(i + 1).drop_last() =~= full.take(i as int));
            assert(full.take(i + 1).last() == full[i as int]);
        }
        match session_from_json(&items[i]) {
            Some(session) => {
                proof {
                    lemma_sessions_view_push(sessions@, session);
                }
                sessions.push(session);
            },
            None => {
                proof {
                    lemma_sessions_unreadable(full, i as int);
                }
                return None;
            },
        }
        i += 1;
    }
    assert(full.take(items.len() as int) =~= full);
    Some(sessions)
}

/// The answer that an object describes: `None` exactly where it describes
/// none.
pub fn response_from_json(tree: &Json) -> (read: Option<ServerResponse>)
    ensures
        match read {
            Some(response) => response_of_json(tree@) == Some(response@),
            None => response_of_json(tree@) is None,
        },
{
    let members = match tree {
        Json::Record(members) => members,
        _ => {
            return None;
        },
    };
    proof {
        lemma_record_view(*members);
    }
    let kind = match read_text(members, "action") {
        Some(kind) => kind,
        None => {
            return None;
        },
    };
    if reads(&kind, "list_jobs") {
        match read_list(members, "jobs") {
            Some(items) => match outputs_from_json(items) {
                Some(jobs) => Some(ServerResponse::ListJobs { jobs }),
                None => None,
            },
            None => None,
        }
    } else if reads(&kind, "list_sessions") {
        match read_list(members, "sessions") {
            Some(items) => match sessions_from_json(items) {
                Some(sessions) => Some(ServerResponse::ListSessions { sessions }),
                None => None,
            },
            None => None,
        }
    } else if reads(&kind, "register") {
        match lookup(members, "job") {
            Some(inner) => match job_from_json(inner) {
                Some(job) => Some(ServerResponse::Register { job }),
                None => None,
            },
            None => None,
        }
    } else if reads(&kind, "kill") {
        Some(ServerResponse::Kill)
    } else if reads(&kind, "error") {
        match read_text(members, "message") {
            Some(message) => Some(ServerResponse::Error { message }),
            None => None,
        }
    } else {
        None
    }
}

/// The command that the members of an object describe.
fn command_from_members(members: &Vec<Member>) -> (read: Option<Commands>)
    ensures
        match read {
            Some(command) => command_of_members(members_view(members@)) == Some(command@),
            None => command_of_members(members_view(members@)) is None,
        },
{
    let kind = match read_text(members, "action") {
        Some(kind) => kind,
        None => {
            return None;
        },
    };
    if reads(&kind, "list") {
        match (read_flag(members, "fzf"), read_optional_text(members, "dir")) {
            (Some(fzf), Some(dir)) => Some(Commands::List { fzf, dir }),
            _ => None,
        }
    } else if reads(&kind, "register") {
        let pid = read_number(members, "pid", u32::MAX as u64);
        let number = read_number(members, "number", u8::MAX as u64);
        let command = read_text(members, "command");
        match (pid, number, command) {
            (Some(pid), Some(number), Some(command)) => Some(
                Commands::Register { pid: pid as u32, number: number as u8, command },
            ),
            _ => None,
        }
    } else if reads(&kind, "run") {
        match read_text(members, "command") {
            Some(command) => Some(Commands::Run { command }),
            None => None,
        }
    } else if reads(&kind, "kill") {
        Some(Commands::Kill)
    } else if reads(&kind, "init") {
        match read_text(members, "shell") {
            Some(shell) => Some(Commands::Init { shell }),
            None => None,
        }
    } else {
        None
    }
}

/// The request that an object describes: `None` exactly where it describes
/// none.
pub fn request_from_json(tree: &Json) -> (read: Option<ClientRequest>)
    ensures
        match read {
            Some(request) => request_of_json(tree@) == Some(request@),
            None => request_of_json(tree@) is None,
        },
{
    match tree {
        Json::Record(members) => {
            proof {
                lemma_record_view(*members);
            }
            match (command_from_members(members), read_text(members, "cwd")) {
                (Some(action), Some(cwd)) => Some(ClientRequest { action, cwd }),
                _ => None,
            }
        },
        _ => None,
    }
}

} // verus!
