//! The daemon's side of one exchange: from a request and the registry to
//! the answer and the registry after it.
//!
//! Serving a request is a function of the request, the registry, the time
//! and, for a listing, of what the operating system says of each job. The
//! daemon around it reads the request, performs what the step asks for, and
//! sends the answer.

use crate::cli::{Commands, CommandsView};
use crate::codec::{
    decode_error_text, decode_request, decode_request_model, encode_response, response_text,
    DecodeErrorView,
};
use crate::liveness::Sighting;
use crate::registry::{
    prune_model, register_model, session_of, valid_sessions, sightings_view, NotFound, Registry,
};
use crate::sessions::{
    jobs_view, lemma_outputs_view_push, outputs_view, ClientRequest, ClientRequestView, Job,
    JobOutput, JobOutputView, JobView, ServerResponse, ServerResponseView, SessionView,
};
use crate::utils::{age_text, elapsed, time_ago};
use vstd::prelude::*;
use vstd::string::StringExecFns;

verus! {

/// What the daemon does next for a request.
#[derive(Debug, PartialEq, Eq)]
pub enum ServerStep {
    /// Send `response`, and stop the daemon afterwards if `shutdown` is set.
    Reply { response: ServerResponse, shutdown: bool },
    /// Start `command` in the background, then register the new process
    /// under `cwd` with [`finish_run`].
    Spawn { command: String, cwd: String },
}

/// The mathematical value of a [`ServerStep`].
pub enum ServerStepView {
    Reply { response: ServerResponseView, shutdown: bool },
    Spawn { command: Seq<char>, cwd: Seq<char> },
}

impl View for ServerStep {
    type V = ServerStepView;

    open spec fn view(&self) -> ServerStepView {
        match *self {
            ServerStep::Reply { response, shutdown } => ServerStepView::Reply {
                response: response@,
                shutdown: shutdown,
            },
            ServerStep::Spawn { command, cwd } => ServerStepView::Spawn {
                command: command@,
                cwd: cwd@,
            },
        }
    }
}

/// The message for a listing of a directory that has no session.
pub open spec fn not_found_message() -> Seq<char> {
    "No jobs found for directory"@
}

/// The message for an action that the daemon does not serve.
pub open spec fn unsupported_message() -> Seq<char> {
    "Unsupported action"@
}

/// A job as a listing at time `now` shows it.
pub open spec fn listed_job(job: JobView, now: u64) -> JobOutputView {
    JobOutputView {
        pid: job.pid,
        command: job.command,
        number: job.number,
        suspended: age_text(elapsed(job.suspended, now)),
    }
}

/// Jobs as a listing at time `now` shows them, in order.
pub open spec fn listed_jobs(jobs: Seq<JobView>, now: u64) -> Seq<JobOutputView> {
    Seq::new(jobs.len(), |i: int| listed_job(jobs[i], now))
}

/// The answer to a listing, from the sessions that the liveness pass left:
/// all sessions where no directory is named, the jobs of the named
/// directory's session where it has one, and an error where it has none.
pub open spec fn list_response(
    sessions: Seq<SessionView>,
    dir: Option<Seq<char>>,
    now: u64,
) -> ServerResponseView {
    match dir {
        None => ServerResponseView::ListSessions { sessions: sessions },
        Some(directory) => match session_of(sessions, directory) {
            Some(session) => ServerResponseView::ListJobs { jobs: listed_jobs(session.jobs, now) },
            None => ServerResponseView::Error { message: not_found_message() },
        },
    }
}

/// Serving a request: the registry after it, and the step to take.
///
/// - A listing runs a liveness pass with the given sightings first,
///   and answers from what is left.
/// - A registration adds the job, stamped `now`, under the client's
///   directory, and answers with that job.
/// - `Kill` answers and asks for the shutdown.
/// - `Run` asks the daemon to start the command.
/// - `Init` is not for the daemon: it gets an error.
pub open spec fn respond_model(
    sessions: Seq<SessionView>,
    request: ClientRequestView,
    now: u64,
    sightings: Seq<Seq<Sighting>>,
) -> (Seq<SessionView>, ServerStepView) {
    match request.action {
        CommandsView::List { fzf, dir } => {
            let left = prune_model(sessions, sightings);
            (
                left,
                ServerStepView::Reply { response: list_response(left, dir, now), shutdown: false },
            )
        },
        CommandsView::Register { pid, number, command } => {
            let job = JobView { pid: pid, command: command, number: number, suspended: now };
            (
                register_model(sessions, request.cwd, job),
                ServerStepView::Reply {
                    response: ServerResponseView::Register { job: job },
                    shutdown: false,
                },
            )
        },
        CommandsView::Run { command } => (
            sessions,
            ServerStepView::Spawn { command: command, cwd: request.cwd },
        ),
        CommandsView::Kill => (
            sessions,
            ServerStepView::Reply { response: ServerResponseView::Kill, shutdown: true },
        ),
        CommandsView::Init { shell } => (
            sessions,
            ServerStepView::Reply {
                response: ServerResponseView::Error { message: unsupported_message() },
                shutdown: false,
            },
        ),
    }
}

/// The jobs as a listing at time `now` shows them.
pub fn list_jobs(jobs: &Vec<Job>, now: u64) -> (listed: Vec<JobOutput>)
    ensures
        outputs_view(listed@) == listed_jobs(jobs_view(jobs@), now),
{
    let ghost full = jobs_view(jobs@);
    let mut listed: Vec<JobOutput> = Vec::new();
    let mut i: usize = 0;
    assert(outputs_view(listed@) =~= listed_jobs(full.take(0), now));
    while i < jobs.len()
        invariant
            i <= jobs.len(),
            full == jobs_view(jobs@),
            outputs_view(listed@) == listed_jobs(full.take(i as int), now),
        decreases jobs.len() - i,
    {
        let job = &jobs[i];
        let output = JobOutput {
            pid: job.pid,
            command: job.command.clone(),
            number: job.number,
            suspended: time_ago(job.suspended, now),
        };
        proof {
            lemma_outputs_view_push(listed@, output);
            assert(output@ == listed_job(full[i as int], now));
            assert(listed_jobs(full.take(i as int), now).push(output@) =~= listed_jobs(
                full.take(i + 1),
                now,
            ));
        }
        listed.push(output);
        i += 1;
    }
    assert(full.take(jobs.len() as int) =~= full);
    listed
}

/// Serves `request` at time `now`, with the sightings for the liveness pass
/// of a listing: `sightings[i][k]` is what was seen of the process of job
/// `k` of session `i`, and a job without an entry counts as gone.
pub fn respond(
    store: &mut Registry,
    request: ClientRequest,
    now: u64,
    sightings: &Vec<Vec<Sighting>>,
) -> (step: ServerStep)
    ensures
        (final(store)@, step@) == respond_model(
            old(store)@,
            request@,
            now,
            sightings_view(sightings@),
        ),
        valid_sessions(final(store)@),
{
    let ClientRequest { action, cwd } = request;
    match action {
        Commands::List { fzf: _, dir } => {
            store.prune(sightings);
            let response = match dir {
                None => ServerResponse::ListSessions { sessions: store.sessions() },
                Some(directory) => match store.jobs(&directory) {
                    Ok(jobs) => ServerResponse::ListJobs { jobs: list_jobs(&jobs, now) },
                    Err(NotFound) => ServerResponse::Error {
                        message: String::from_str("No jobs found for directory"),
                    },
                },
            };
            ServerStep::Reply { response, shutdown: false }
        },
        Commands::Register { pid, number, command } => {
            let job = Job { pid, command, number, suspended: now };
            store.register(cwd, job.clone());
            ServerStep::Reply { response: ServerResponse::Register { job }, shutdown: false }
        },
        Commands::Run { command } => {
            store.known_valid();
            ServerStep::Spawn { command, cwd }
        },
        Commands::Kill => {
            store.known_valid();
            ServerStep::Reply { response: ServerResponse::Kill, shutdown: true }
        },
        Commands::Init { shell: _ } => {
            store.known_valid();
            ServerStep::Reply {
                response: ServerResponse::Error { message: String::from_str("Unsupported action") },
                shutdown: false,
            }
        },
    }
}

/// Serves `request` at time `now`. For a listing the operating system is
/// asked about every job first.
///
/// What the system will answer is not known in advance, so the contract says
/// what holds of every answer: the outcome is that of [`respond`] for some
/// sightings. For every request but a listing the sightings play no part,
/// and the outcome is fixed.
pub fn handle_request(store: &mut Registry, request: ClientRequest, now: u64) -> (step: ServerStep)
    ensures
        exists|sightings: Seq<Seq<Sighting>>|
            (final(store)@, step@) == respond_model(old(store)@, request@, now, sightings),
        !(request@.action is List) ==> (final(store)@, step@) == respond_model(
            old(store)@,
            request@,
            now,
            Seq::empty(),
        ),
        valid_sessions(final(store)@),
{
    let sightings = match &request.action {
        Commands::List { .. } => store.observe(),
        _ => Vec::new(),
    };
    assert(!(request@.action is List) ==> sightings_view(sightings@) =~= Seq::<
        Seq<Sighting>,
    >::empty());
    respond(store, request, now, &sightings)
}

/// The job that stands for a command which the daemon started: it has the
/// new process's id, the number zero, and the time `now`.
pub open spec fn started_job(command: Seq<char>, pid: u32, now: u64) -> JobView {
    JobView { pid: pid, command: command, number: 0, suspended: now }
}

/// Completes a `Run`: registers the process `pid`, which the daemon started
/// for `command`, under `cwd`, and answers with its job.
pub fn finish_run(
    store: &mut Registry,
    cwd: String,
    command: String,
    pid: u32,
    now: u64,
) -> (response: ServerResponse)
    ensures
        final(store)@ == register_model(old(store)@, cwd@, started_job(command@, pid, now)),
        response@ == (ServerResponseView::Register { job: started_job(command@, pid, now) }),
        valid_sessions(final(store)@),
{
    let job = Job { pid, command, number: 0, suspended: now };
    store.register(cwd, job.clone());
    ServerResponse::Register { job }
}

/// The message of the answer to a line that holds no request.
pub open spec fn request_error(error: DecodeErrorView) -> Seq<char> {
    "Request Error: "@ + decode_error_text(error)
}

/// Serving a line: where the line holds a request, the request is served;
/// where it holds none, the registry stays as it is and the answer is an
/// error that says why.
pub open spec fn serve_line_model(
    sessions: Seq<SessionView>,
    line: Seq<char>,
    now: u64,
    sightings: Seq<Seq<Sighting>>,
) -> (Seq<SessionView>, ServerStepView) {
    match decode_request_model(line) {
        Ok(request) => respond_model(sessions, request, now, sightings),
        Err(detail) => (
            sessions,
            ServerStepView::Reply {
                response: ServerResponseView::Error { message: request_error(detail) },
                shutdown: false,
            },
        ),
    }
}

/// Serves the line that a client sent, at time `now`.
///
/// What the operating system will say of the jobs is not known in advance,
/// so the contract says what holds of every answer: the outcome is that of
/// [`serve_line_model`] for some sightings. A line that holds no request
/// never changes the registry and never stops the daemon.
pub fn handle_line(store: &mut Registry, line: &str, now: u64) -> (step: ServerStep)
    ensures
        exists|sightings: Seq<Seq<Sighting>>|
            (final(store)@, step@) == serve_line_model(old(store)@, line@, now, sightings),
        decode_request_model(line@) is Err ==> final(store)@ == old(store)@ && step@
            == (ServerStepView::Reply {
            response: ServerResponseView::Error {
                message: request_error(decode_request_model(line@)->Err_0),
            },
            shutdown: false,
        }),
        valid_sessions(final(store)@),
{
    match decode_request(line) {
        Ok(request) => {
            let ghost before = store@;
            let ghost asked = request@;
            let step = handle_request(store, request, now);
            proof {
                let sightings = choose|sightings: Seq<Seq<Sighting>>|
                    (store@, step@) == respond_model(before, asked, now, sightings);
                assert((store@, step@) == serve_line_model(before, line@, now, sightings));
            }
            step
        },
        Err(detail) => {
            store.known_valid();
            let mut message = String::from_str("Request Error: ");
            message.append(detail.message().as_str());
            let step = ServerStep::Reply {
                response: ServerResponse::Error { message },
                shutdown: false,
            };
            assert((store@, step@) == serve_line_model(
                store@,
                line@,
                now,
                Seq::<Seq<Sighting>>::empty(),
            ));
            step
        },
    }
}

/// The line that carries an answer: its JSON text and a line break.
pub fn response_line(response: &ServerResponse) -> (line: String)
    ensures
        line@ == response_text(response@) + seq!['\n'],
{
    proof {
        reveal_strlit("\n");
        assert("\n"@ =~= seq!['\n']);
    }
    let mut line = encode_response(response);
    line.append("\n");
    line
}

/// What the daemon found when it tried to bind its socket.
#[derive(Debug, Clone, Copy, PartialEq, Eq)]
pub enum BindOutcome {
    /// The socket is bound.
    Bound,
    /// The path is in use, and a daemon answers on it.
    InUseByDaemon,
    /// The path is in use, and nobody answers: a daemon left the file behind.
    InUseByNobody,
    /// Binding failed for another reason.
    Failed,
}

/// What a starting daemon does next.
#[derive(Debug, Clone, Copy, PartialEq, Eq)]
pub enum Startup {
    /// Serve connections on the socket.
    Serve,
    /// Remove the file that was left behind and bind once more.
    ReplaceLeftover,
    /// Another daemon serves this user, or the socket cannot be had: report
    /// it and exit.
    Exit,
}

/// The rule of one daemon for each user: whoever binds the socket serves,
/// and a daemon that finds another one on the socket exits. A file that a
/// daemon left behind is replaced once; if the path is still not to be had
/// after that, the daemon exits.
pub open spec fn startup_rule(outcome: BindOutcome, replaced: bool) -> Startup {
    match outcome {
        BindOutcome::Bound => Startup::Serve,
        BindOutcome::InUseByDaemon => Startup::Exit,
        BindOutcome::InUseByNobody => if replaced {
            Startup::Exit
        } else {
            Startup::ReplaceLeftover
        },
        BindOutcome::Failed => Startup::Exit,
    }
}

/// Decides what a starting daemon does after an attempt to bind its socket.
/// `replaced` says whether it has already replaced a leftover file.
pub fn startup(outcome: BindOutcome, replaced: bool) -> (next: Startup)
    ensures
        next == startup_rule(outcome, replaced),
{
    match outcome {
        BindOutcome::Bound => Startup::Serve,
        BindOutcome::InUseByDaemon => Startup::Exit,
        BindOutcome::InUseByNobody => if replaced {
            Startup::Exit
        } else {
            Startup::ReplaceLeftover
        },
        BindOutcome::Failed => Startup::Exit,
    }
}

/// What can go wrong while the daemon serves a connection.
#[derive(Debug, PartialEq, Eq)]
pub enum JobCtlError {
    /// The socket failed; the text is the system's message.
    Io(String),
    /// A line could not be written or read as JSON; the text says why.
    Json(String),
    /// The daemon could not do what was asked; the text says why.
    Server(String),
}

/// The mathematical value of a [`JobCtlError`].
pub enum JobCtlErrorView {
    Io(Seq<char>),
    Json(Seq<char>),
    Server(Seq<char>),
}

impl View for JobCtlError {
    type V = JobCtlErrorView;

    open spec fn view(&self) -> JobCtlErrorView {
        match *self {
            JobCtlError::Io(detail) => JobCtlErrorView::Io(detail@),
            JobCtlError::Json(detail) => JobCtlErrorView::Json(detail@),
            JobCtlError::Server(detail) => JobCtlErrorView::Server(detail@),
        }
    }
}

/// What a daemon's error reads to a person.
pub open spec fn daemon_error_text(error: JobCtlErrorView) -> Seq<char> {
    match error {
        JobCtlErrorView::Io(detail) => "IO error: "@ + detail,
        JobCtlErrorView::Json(detail) => "JSON error: "@ + detail,
        JobCtlErrorView::Server(detail) => "Server error: "@ + detail,
    }
}

impl JobCtlError {
    /// The error as a sentence for a person.
    pub fn message(&self) -> (text: String)
        ensures
            text@ == daemon_error_text(self@),
    {
        let (heading, detail) = match self {
            JobCtlError::Io(detail) => ("IO error: ", detail),
            JobCtlError::Json(detail) => ("JSON error: ", detail),
            JobCtlError::Server(detail) => ("Server error: ", detail),
        };
        let mut text = String::from_str(heading);
        text.append(detail.as_str());
        text
    }
}

} // verus!
