//! Jobs and sessions: the records that the registry keeps and hands out.

use crate::cli::{Commands, CommandsView};
use vstd::prelude::*;

pub use crate::paths::encode_path;
pub use crate::registry::cleanup_sessions;

verus! {

/// A tracked process: a suspended shell job.
#[derive(Debug, PartialEq, Eq)]
pub struct Job {
    /// The process id, which identifies the job within its session.
    pub pid: u32,
    /// The command that the process runs.
    pub command: String,
    /// The job number that the shell gave it.
    pub number: u8,
    /// When the job was registered, in seconds since the epoch.
    pub suspended: u64,
}

/// A job as it is listed: the registration time has become an age in words.
#[derive(Debug, PartialEq, Eq)]
pub struct JobOutput {
    pub pid: u32,
    pub command: String,
    pub number: u8,
    /// How long ago the job was registered, such as `5m ago`.
    pub suspended: String,
}

/// The jobs that were started from one working directory.
#[derive(Debug, PartialEq, Eq)]
pub struct Session {
    /// The jobs, in the order in which they were registered.
    pub jobs: Vec<Job>,
    /// The directory, as a canonical path.
    pub directory: String,
}

/// One request: what is asked, and the directory from which it is asked.
#[derive(Debug, PartialEq, Eq)]
pub struct ClientRequest {
    pub action: Commands,
    /// The working directory of the client, as a canonical path.
    pub cwd: String,
}

/// The daemon's answer to one request.
#[derive(Debug, PartialEq, Eq)]
pub enum ServerResponse {
    /// The jobs of one directory.
    ListJobs { jobs: Vec<JobOutput> },
    /// All sessions.
    ListSessions { sessions: Vec<Session> },
    /// The job that was registered, or that stood for the registration.
    Register { job: Job },
    /// The daemon stops after this answer.
    Kill,
    /// The request could not be served.
    Error { message: String },
}

/// The mathematical value of a [`ClientRequest`].
pub struct ClientRequestView {
    pub action: CommandsView,
    pub cwd: Seq<char>,
}

/// The mathematical value of a [`ServerResponse`].
pub enum ServerResponseView {
    ListJobs { jobs: Seq<JobOutputView> },
    ListSessions { sessions: Seq<SessionView> },
    Register { job: JobView },
    Kill,
    Error { message: Seq<char> },
}

impl View for ClientRequest {
    type V = ClientRequestView;

    open spec fn view(&self) -> ClientRequestView {
        ClientRequestView { action: self.action@, cwd: self.cwd@ }
    }
}

impl View for ServerResponse {
    type V = ServerResponseView;

    open spec fn view(&self) -> ServerResponseView {
        match *self {
            ServerResponse::ListJobs { jobs } => ServerResponseView::ListJobs {
                jobs: outputs_view(jobs@),
            },
            ServerResponse::ListSessions { sessions } => ServerResponseView::ListSessions {
                sessions: sessions_view(sessions@),
            },
            ServerResponse::Register { job } => ServerResponseView::Register { job: job@ },
            ServerResponse::Kill => ServerResponseView::Kill,
            ServerResponse::Error { message } => ServerResponseView::Error { message: message@ },
        }
    }
}

/// The mathematical value of a [`Job`].
pub struct JobView {
    pub pid: u32,
    pub command: Seq<char>,
    pub number: u8,
    pub suspended: u64,
}

/// The mathematical value of a [`JobOutput`].
pub struct JobOutputView {
    pub pid: u32,
    pub command: Seq<char>,
    pub number: u8,
    pub suspended: Seq<char>,
}

/// The mathematical value of a [`Session`].
pub struct SessionView {
    pub jobs: Seq<JobView>,
    pub directory: Seq<char>,
}

impl View for Job {
    type V = JobView;

    open spec fn view(&self) -> JobView {
        JobView {
            pid: self.pid,
            command: self.command@,
            number: self.number,
            suspended: self.suspended,
        }
    }
}

impl View for JobOutput {
    type V = JobOutputView;

    open spec fn view(&self) -> JobOutputView {
        JobOutputView {
            pid: self.pid,
            command: self.command@,
            number: self.number,
            suspended: self.suspended@,
        }
    }
}

impl View for Session {
    type V = SessionView;

    open spec fn view(&self) -> SessionView {
        SessionView { jobs: jobs_view(self.jobs@), directory: self.directory@ }
    }
}

/// The values of a sequence of jobs, one for one.
pub open spec fn jobs_view(jobs: Seq<Job>) -> Seq<JobView> {
    Seq::new(jobs.len(), |i: int| jobs[i]@)
}

/// The values of a sequence of listed jobs, one for one.
pub open spec fn outputs_view(jobs: Seq<JobOutput>) -> Seq<JobOutputView> {
    Seq::new(jobs.len(), |i: int| jobs[i]@)
}

/// The values of a sequence of sessions, one for one.
pub open spec fn sessions_view(sessions: Seq<Session>) -> Seq<SessionView> {
    Seq::new(sessions.len(), |i: int| sessions[i]@)
}

/// The values of a list that grew by one listed job.
pub proof fn lemma_outputs_view_push(jobs: Seq<JobOutput>, job: JobOutput)
    ensures
        outputs_view(jobs.push(job)) == outputs_view(jobs).push(job@),
{
    assert(outputs_view(jobs.push(job)) =~= outputs_view(jobs).push(job@));
}

/// The values of a list that grew by one job.
pub proof fn lemma_jobs_view_push(jobs: Seq<Job>, job: Job)
    ensures
        jobs_view(jobs.push(job)) == jobs_view(jobs).push(job@),
{
    assert(jobs_view(jobs.push(job)) =~= jobs_view(jobs).push(job@));
}

/// The values of a list that grew by one session.
pub proof fn lemma_sessions_view_push(sessions: Seq<Session>, session: Session)
    ensures
        sessions_view(sessions.push(session)) == sessions_view(sessions).push(session@),
{
    assert(sessions_view(sessions.push(session)) =~= sessions_view(sessions).push(session@));
}

impl Clone for Job {
    fn clone(&self) -> (copy: Self)
        ensures
            copy == *self,
    {
        Job {
            pid: self.pid,
            command: self.command.clone(),
            number: self.number,
            suspended: self.suspended,
        }
    }
}

impl Clone for JobOutput {
    fn clone(&self) -> (copy: Self)
        ensures
            copy == *self,
    {
        JobOutput {
            pid: self.pid,
            command: self.command.clone(),
            number: self.number,
            suspended: self.suspended.clone(),
        }
    }
}

/// A copy of a list of jobs.
pub fn clone_jobs(jobs: &Vec<Job>) -> (copy: Vec<Job>)
    ensures
        copy@ == jobs@,
{
    let mut copy: Vec<Job> = Vec::new();
    let mut i: usize = 0;
    while i < jobs.len()
        invariant
            i <= jobs.len(),
            copy@ == jobs@.take(i as int),
        decreases jobs.len() - i,
    {
        copy.push(jobs[i].clone());
        assert(copy@ =~= jobs@.take(i + 1));
        i += 1;
    }
    assert(jobs@.take(jobs.len() as int) =~= jobs@);
    copy
}

impl Clone for Session {
    fn clone(&self) -> (copy: Self)
        ensures
            copy.jobs@ == self.jobs@,
            copy.directory == self.directory,
            copy@ == self@,
    {
        Session { jobs: clone_jobs(&self.jobs), directory: self.directory.clone() }
    }
}

/// A copy of a list of sessions, with the same value.
pub fn clone_sessions(sessions: &Vec<Session>) -> (copy: Vec<Session>)
    ensures
        sessions_view(copy@) == sessions_view(sessions@),
{
    let mut copy: Vec<Session> = Vec::new();
    let mut i: usize = 0;
    while i < sessions.len()
        invariant
            i <= sessions.len(),
            copy@.len() == i,
            sessions_view(copy@) == sessions_view(sessions@.take(i as int)),
        decreases sessions.len() - i,
    {
        let ghost before = copy@;
        copy.push(sessions[i].clone());
        assert forall|k: int| 0 <= k < copy@.len() implies #[trigger] sessions_view(copy@)[k]
            == sessions_view(sessions@.take(i + 1))[k] by {
            if k < i {
                assert(sessions_view(before)[k] == sessions_view(sessions@.take(i as int))[k]);
            }
        }
        assert(sessions_view(copy@) =~= sessions_view(sessions@.take(i + 1)));
        i += 1;
    }
    assert(sessions@.take(sessions.len() as int) =~= sessions@);
    copy
}

} // verus!
