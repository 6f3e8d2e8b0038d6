//! The objects of the wire format.
//!
//! An answer is an object whose member `action` names the kind of answer in
//! lower case with underscores; the other members are the fields of that
//! kind. A request is the same for the command, with the client's directory
//! beside it in the member `cwd`. A reader ignores members that it does not
//! know; where a name occurs twice in an object, the later member counts.

use crate::cli::CommandsView;
use crate::json::JsonView;
use crate::sessions::{ClientRequestView, JobOutputView, JobView, ServerResponseView, SessionView};
use vstd::prelude::*;

verus! {

/// The members of an object.
pub type Members = Seq<(Seq<char>, JsonView)>;

/// The value of the member `name`: that of the last member with this name.
pub open spec fn field(members: Members, name: Seq<char>) -> Option<JsonView>
    decreases members.len(),
{
    if members.len() == 0 {
        None
    } else if members.last().0 == name {
        Some(members.last().1)
    } else {
        field(members.drop_last(), name)
    }
}

/// The text of a member that must be there and be a string.
pub open spec fn text_field(members: Members, name: Seq<char>) -> Option<Seq<char>> {
    match field(members, name) {
        Some(JsonView::Text(text)) => Some(text),
        _ => None,
    }
}

/// The number of a member that must be there and be a whole number from
/// zero to `limit`.
pub open spec fn number_field(members: Members, name: Seq<char>, limit: u64) -> Option<u64> {
    match field(members, name) {
        Some(JsonView::Unsigned(number)) => if number <= limit {
            Some(number)
        } else {
            None
        },
        _ => None,
    }
}

/// The truth value of a member that must be there and be `true` or `false`.
pub open spec fn flag_field(members: Members, name: Seq<char>) -> Option<bool> {
    match field(members, name) {
        Some(JsonView::Bool(flag)) => Some(flag),
        _ => None,
    }
}

/// The items of a member that must be there and be a list.
pub open spec fn list_field(members: Members, name: Seq<char>) -> Option<Seq<JsonView>> {
    match field(members, name) {
        Some(JsonView::List(items)) => Some(items),
        _ => None,
    }
}

/// The text of a member that may be missing or `null`: the outer `None`
/// says that the member is there and is neither a string nor `null`.
pub open spec fn optional_text_field(members: Members, name: Seq<char>) -> Option<
    Option<Seq<char>>,
> {
    match field(members, name) {
        None => Some(None),
        Some(JsonView::Null) => Some(None),
        Some(JsonView::Text(text)) => Some(Some(text)),
        _ => None,
    }
}

/// A job as an object.
pub open spec fn job_json(job: JobView) -> JsonView {
    JsonView::Record(
        seq![
            ("pid"@, JsonView::Unsigned(job.pid as u64)),
            ("command"@, JsonView::Text(job.command)),
            ("number"@, JsonView::Unsigned(job.number as u64)),
            ("suspended"@, JsonView::Unsigned(job.suspended)),
        ],
    )
}

/// The job that an object describes, if it describes one.
pub open spec fn job_of_json(tree: JsonView) -> Option<JobView> {
    match tree {
        JsonView::Record(members) => match (
            number_field(members, "pid"@, u32::MAX as u64),
            text_field(members, "command"@),
            number_field(members, "number"@, u8::MAX as u64),
            number_field(members, "suspended"@, u64::MAX),
        ) {
            (Some(pid), Some(command), Some(number), Some(suspended)) => Some(
                JobView {
                    pid: pid as u32,
                    command: command,
                    number: number as u8,
                    suspended: suspended,
                },
            ),
            _ => None,
        },
        _ => None,
    }
}

/// A listed job as an object.
pub open spec fn output_json(job: JobOutputView) -> JsonView {
    JsonView::Record(
        seq![
            ("pid"@, JsonView::Unsigned(job.pid as u64)),
            ("command"@, JsonView::Text(job.command)),
            ("number"@, JsonView::Unsigned(job.number as u64)),
            ("suspended"@, JsonView::Text(job.suspended)),
        ],
    )
}

/// The listed job that an object describes, if it describes one.
pub open spec fn output_of_json(tree: JsonView) -> Option<JobOutputView> {
    match tree {
        JsonView::Record(members) => match (
            number_field(members, "pid"@, u32::MAX as u64),
            text_field(members, "command"@),
            number_field(members, "number"@, u8::MAX as u64),
            text_field(members, "suspended"@),
        ) {
            (Some(pid), Some(command), Some(number), Some(suspended)) => Some(
                JobOutputView {
                    pid: pid as u32,
                    command: command,
                    number: number as u8,
                    suspended: suspended,
                },
            ),
            _ => None,
        },
        _ => None,
    }
}

/// Jobs as a list of objects.
pub open spec fn jobs_json(jobs: Seq<JobView>) -> Seq<JsonView> {
    Seq::new(jobs.len(), |i: int| job_json(jobs[i]))
}

/// The jobs that a list describes, if every item describes one.
pub open spec fn jobs_of_json(items: Seq<JsonView>) -> Option<Seq<JobView>>
    decreases items.len(),
{
    if items.len() == 0 {
        Some(Seq::empty())
    } else {
        match (jobs_of_json(items.drop_last()), job_of_json(items.last())) {
            (Some(front), Some(job)) => Some(front.push(job)),
            _ => None,
        }
    }
}

/// Listed jobs as a list of objects.
pub open spec fn outputs_json(jobs: Seq<JobOutputView>) -> Seq<JsonView> {
    Seq::new(jobs.len(), |i: int| output_json(jobs[i]))
}

/// The listed jobs that a list describes, if every item describes one.
pub open spec fn outputs_of_json(items: Seq<JsonView>) -> Option<Seq<JobOutputView>>
    decreases items.len(),
{
    if items.len() == 0 {
        Some(Seq::empty())
    } else {
        match (outputs_of_json(items.drop_last()), output_of_json(items.last())) {
            (Some(front), Some(job)) => Some(front.push(job)),
            _ => None,
        }
    }
}

/// A session as an object.
pub open spec fn session_json(session: SessionView) -> JsonView {
    JsonView::Record(
        seq![
            ("jobs"@, JsonView::List(jobs_json(session.jobs))),
            ("directory"@, JsonView::Text(session.directory)),
        ],
    )
}

/// The session that an object describes, if it describes one.
pub open spec fn session_of_json(tree: JsonView) -> Option<SessionView> {
    match tree {
        JsonView::Record(members) => match (
            list_field(members, "jobs"@),
            text_field(members, "directory"@),
        ) {
            (Some(items), Some(directory)) => match jobs_of_json(items) {
                Some(jobs) => Some(SessionView { jobs: jobs, directory: directory }),
                None => None,
            },
            _ => None,
        },
        _ => None,
    }
}

/// Sessions as a list of objects.
pub open spec fn sessions_json(sessions: Seq<SessionView>) -> Seq<JsonView> {
    Seq::new(sessions.len(), |i: int| session_json(sessions[i]))
}

/// The sessions that a list describes, if every item describes one.
pub open spec fn sessions_of_json(items: Seq<JsonView>) -> Option<Seq<SessionView>>
    decreases items.len(),
{
    if items.len() == 0 {
        Some(Seq::empty())
    } else {
        match (sessions_of_json(items.drop_last()), session_of_json(items.last())) {
            (Some(front), Some(session)) => Some(front.push(session)),
            _ => None,
        }
    }
}

/// An answer as an object.
pub open spec fn response_json(response: ServerResponseView) -> JsonView {
    match response {
        ServerResponseView::ListJobs { jobs } => JsonView::Record(
            seq![
                ("action"@, JsonView::Text("list_jobs"@)),
                ("jobs"@, JsonView::List(outputs_json(jobs))),
            ],
        ),
        ServerResponseView::ListSessions { sessions } => JsonView::Record(
            seq![
                ("action"@, JsonView::Text("list_sessions"@)),
                ("sessions"@, JsonView::List(sessions_json(sessions))),
            ],
        ),
        ServerResponseView::Register { job } => JsonView::Record(
            seq![("action"@, JsonView::Text("register"@)), ("job"@, job_json(job))],
        ),
        ServerResponseView::Kill => JsonView::Record(seq![("action"@, JsonView::Text("kill"@))]),
        ServerResponseView::Error { message } => JsonView::Record(
            seq![("action"@, JsonView::Text("error"@)), ("message"@, JsonView::Text(message))],
        ),
    }
}

/// The answer that an object describes, if it describes one.
pub open spec fn response_of_json(tree: JsonView) -> Option<ServerResponseView> {
    match tree {
        JsonView::Record(members) => match text_field(members, "action"@) {
            Some(kind) => if kind == "list_jobs"@ {
                match list_field(members, "jobs"@) {
                    Some(items) => match outputs_of_json(items) {
                        Some(jobs) => Some(ServerResponseView::ListJobs { jobs: jobs }),
                        None => None,
                    },
                    None => None,
                }
            } else if kind == "list_sessions"@ {
                match list_field(members, "sessions"@) {
                    Some(items) => match sessions_of_json(items) {
                        Some(sessions) => Some(
                            ServerResponseView::ListSessions { sessions: sessions },
                        ),
                        None => None,
                    },
                    None => None,
                }
            } else if kind == "register"@ {
                match field(members, "job"@) {
                    Some(inner) => match job_of_json(inner) {
                        Some(job) => Some(ServerResponseView::Register { job: job }),
                        None => None,
                    },
                    None => None,
                }
            } else if kind == "kill"@ {
                Some(ServerResponseView::Kill)
            } else if kind == "error"@ {
                match text_field(members, "message"@) {
                    Some(message) => Some(ServerResponseView::Error { message: message }),
                    None => None,
                }
            } else {
                None
            },
            None => None,
        },
        _ => None,
    }
}

/// An optional text as a string or `null`.
pub open spec fn optional_text_json(text: Option<Seq<char>>) -> JsonView {
    match text {
        Some(text) => JsonView::Text(text),
        None => JsonView::Null,
    }
}

/// A request as an object: the command's members, then the directory.
pub open spec fn request_json(request: ClientRequestView) -> JsonView {
    match request.action {
        CommandsView::List { fzf, dir } => JsonView::Record(
            seq![
                ("action"@, JsonView::Text("list"@)),
                ("fzf"@, JsonView::Bool(fzf)),
                ("dir"@, optional_text_json(dir)),
                ("cwd"@, JsonView::Text(request.cwd)),
            ],
        ),
        CommandsView::Register { pid, number, command } => JsonView::Record(
            seq![
                ("action"@, JsonView::Text("register"@)),
                ("pid"@, JsonView::Unsigned(pid as u64)),
                ("number"@, JsonView::Unsigned(number as u64)),
                ("command"@, JsonView::Text(command)),
                ("cwd"@, JsonView::Text(request.cwd)),
            ],
        ),
        CommandsView::Run { command } => JsonView::Record(
            seq![
                ("action"@, JsonView::Text("run"@)),
                ("command"@, JsonView::Text(command)),
                ("cwd"@, JsonView::Text(request.cwd)),
            ],
        ),
        CommandsView::Kill => JsonView::Record(
            seq![("action"@, JsonView::Text("kill"@)), ("cwd"@, JsonView::Text(request.cwd))],
        ),
        CommandsView::Init { shell } => JsonView::Record(
            seq![
                ("action"@, JsonView::Text("init"@)),
                ("shell"@, JsonView::Text(shell)),
                ("cwd"@, JsonView::Text(request.cwd)),
            ],
        ),
    }
}

/// The command that the members of an object describe, if they describe one.
pub open spec fn command_of_members(members: Members) -> Option<CommandsView> {
    match text_field(members, "action"@) {
        Some(kind) => if kind == "list"@ {
            match (flag_field(members, "fzf"@), optional_text_field(members, "dir"@)) {
                (Some(fzf), Some(dir)) => Some(CommandsView::List { fzf: fzf, dir: dir }),
                _ => None,
            }
        } else if kind == "register"@ {
            match (
                number_field(members, "pid"@, u32::MAX as u64),
                number_field(members, "number"@, u8::MAX as u64),
                text_field(members, "command"@),
            ) {
                (Some(pid), Some(number), Some(command)) => Some(
                    CommandsView::Register {
                        pid: pid as u32,
                        number: number as u8,
                        command: command,
                    },
                ),
                _ => None,
            }
        } else if kind == "run"@ {
            match text_field(members, "command"@) {
                Some(command) => Some(CommandsView::Run { command: command }),
                None => None,
            }
        } else if kind == "kill"@ {
            Some(CommandsView::Kill)
        } else if kind == "init"@ {
            match text_field(members, "shell"@) {
                Some(shell) => Some(CommandsView::Init { shell: shell }),
                None => None,
            }
        } else {
            None
        },
        None => None,
    }
}

/// The request that an object describes, if it describes one.
pub open spec fn request_of_json(tree: JsonView) -> Option<ClientRequestView> {
    match tree {
        JsonView::Record(members) => match (
            command_of_members(members),
            text_field(members, "cwd"@),
        ) {
            (Some(action), Some(cwd)) => Some(ClientRequestView { action: action, cwd: cwd }),
            _ => None,
        },
        _ => None,
    }
}

} // verus!
