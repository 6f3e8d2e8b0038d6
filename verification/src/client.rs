//! The client's side of one exchange: whether to start the daemon, what to
//! send, and what to make of the line that comes back.
//!
//! The client around these functions owns the socket. It tries to connect,
//! asks [`after_connect`] what the outcome means, sends the line of
//! [`request_line`], reads one line, and hands it to [`read_answer`].

use crate::cli::{Commands, CommandsView};
use crate::codec::{
    decode_error_text, decode_response, decode_response_model, encode_request, request_text,
    DecodeError, DecodeErrorView,
};
use crate::liveness::look_up;
use crate::sessions::{ClientRequest, ClientRequestView, ServerResponse, ServerResponseView};
use vstd::prelude::*;
use vstd::string::StringExecFns;

verus! {

/// How long a client waits after it started the daemon before it connects
/// again, in milliseconds.
pub const SETTLE_MILLIS: u64 = 500;

/// Why a client has no answer.
#[derive(Debug, PartialEq, Eq)]
pub enum ClientError {
    /// The socket could not be reached or failed; the text says how.
    Connection(String),
    /// A line held no JSON document; the text is the reader's message.
    Serialization(String),
    /// No daemon listens, and none was to be started.
    ServerNotRunning,
    /// The daemon closed the connection without an answer.
    EmptyResponse,
    /// A line held a JSON document that is no answer.
    InvalidResponse(String),
    /// The daemon answered with an error.
    ServerError(String),
}

/// The mathematical value of a [`ClientError`].
pub enum ClientErrorView {
    Connection(Seq<char>),
    Serialization(Seq<char>),
    ServerNotRunning,
    EmptyResponse,
    InvalidResponse(Seq<char>),
    ServerError(Seq<char>),
}

impl View for ClientError {
    type V = ClientErrorView;

    open spec fn view(&self) -> ClientErrorView {
        match *self {
            ClientError::Connection(detail) => ClientErrorView::Connection(detail@),
            ClientError::Serialization(detail) => ClientErrorView::Serialization(detail@),
            ClientError::ServerNotRunning => ClientErrorView::ServerNotRunning,
            ClientError::EmptyResponse => ClientErrorView::EmptyResponse,
            ClientError::InvalidResponse(detail) => ClientErrorView::InvalidResponse(detail@),
            ClientError::ServerError(detail) => ClientErrorView::ServerError(detail@),
        }
    }
}

/// What an error reads to a person.
pub open spec fn error_text(error: ClientErrorView) -> Seq<char> {
    match error {
        ClientErrorView::Connection(detail) => "Connection error: "@ + detail,
        ClientErrorView::Serialization(detail) => "Serialization error: "@ + detail,
        ClientErrorView::ServerNotRunning => "Server not running, no sessions found"@,
        ClientErrorView::EmptyResponse => "Received empty response from server"@,
        ClientErrorView::InvalidResponse(detail) => "Invalid response: "@ + detail,
        ClientErrorView::ServerError(detail) => "Server error: "@ + detail,
    }
}

/// A heading followed by a detail.
fn headed(heading: &str, detail: &String) -> (text: String)
    ensures
        text@ == heading@ + detail@,
{
    let mut text = String::from_str(heading);
    text.append(detail.as_str());
    text
}

impl ClientError {
    /// The error as a sentence for a person.
    pub fn message(&self) -> (text: String)
        ensures
            text@ == error_text(self@),
    {
        match self {
            ClientError::Connection(detail) => headed("Connection error: ", detail),
            ClientError::Serialization(detail) => headed("Serialization error: ", detail),
            ClientError::ServerNotRunning => String::from_str(
                "Server not running, no sessions found",
            ),
            ClientError::EmptyResponse => String::from_str("Received empty response from server"),
            ClientError::InvalidResponse(detail) => headed("Invalid response: ", detail),
            ClientError::ServerError(detail) => headed("Server error: ", detail),
        }
    }
}

/// Whether a command needs a running daemon to have any effect, so that a
/// client starts one where none listens. Registering, running and stopping
/// do. A listing does not: without a daemon there is nothing to list.
/// `Init` never reaches a daemon.
pub open spec fn wants_daemon(command: CommandsView) -> bool {
    command is Register || command is Run || command is Kill
}

/// Whether a client that finds no daemon starts one for this command.
pub fn needs_daemon(command: &Commands) -> (wanted: bool)
    ensures
        wanted == wants_daemon(command@),
{
    match command {
        Commands::Register { .. } => true,
        Commands::Run { .. } => true,
        Commands::Kill => true,
        Commands::List { .. } => false,
        Commands::Init { .. } => false,
    }
}

/// The request that registers the process `pid` as job `number` of the
/// directory `cwd`, where `name` is the name of the program that the process
/// runs. Without a name there is no such process, nothing to register, and
/// no request.
pub open spec fn register_request_model(
    pid: u32,
    number: u8,
    cwd: Seq<char>,
    name: Option<Seq<char>>,
) -> Option<ClientRequestView> {
    match name {
        Some(command) => Some(
            ClientRequestView {
                action: CommandsView::Register { pid: pid, number: number, command: command },
                cwd: cwd,
            },
        ),
        None => None,
    }
}

/// The value of an optional request.
pub open spec fn optional_request_view(request: Option<ClientRequest>) -> Option<
    ClientRequestView,
> {
    match request {
        Some(request) => Some(request@),
        None => None,
    }
}

/// Builds the request that registers a process, from what the operating
/// system said of the process's name.
pub fn register_request_named(pid: u32, number: u8, cwd: String, name: Option<String>) -> (request:
    Option<ClientRequest>)
    ensures
        optional_request_view(request) == register_request_model(
            pid,
            number,
            cwd@,
            crate::cli::optional_text(name),
        ),
{
    match name {
        Some(command) => Some(
            ClientRequest { action: Commands::Register { pid, number, command }, cwd },
        ),
        None => None,
    }
}

/// Builds the request that registers the process `pid` as job `number` of
/// the directory `cwd`, and asks the operating system for the name of the
/// program that the process runs.
///
/// What the system will answer is not known in advance, so the contract says
/// what holds of every answer: the request is that of
/// [`register_request_named`] for some answer.
pub fn register_request(pid: u32, number: u8, cwd: String) -> (request: Option<ClientRequest>)
    ensures
        exists|name: Option<Seq<char>>|
            optional_request_view(request) == register_request_model(pid, number, cwd@, name),
{
    let name = match look_up(pid) {
        Some(info) => Some(info.name),
        None => None,
    };
    let ghost answer = crate::cli::optional_text(name);
    let request = register_request_named(pid, number, cwd, name);
    assert(optional_request_view(request) == register_request_model(pid, number, cwd@, answer));
    request
}

/// Turns an answer that reports an error into an error: the daemon's
/// message comes back as `ServerError`, and every other answer as it is.
pub open spec fn checked_model(response: ServerResponseView) -> Result<
    ServerResponseView,
    ClientErrorView,
> {
    match response {
        ServerResponseView::Error { message } => Err(ClientErrorView::ServerError(message)),
        _ => Ok(response),
    }
}

/// Separates the answers that serve a request from the daemon's refusals.
pub fn checked(response: ServerResponse) -> (outcome: Result<ServerResponse, ClientError>)
    ensures
        outcome_view(outcome) == checked_model(response@),
{
    match response {
        ServerResponse::Error { message } => Err(ClientError::ServerError(message)),
        other => Ok(other),
    }
}

/// Which attempt to connect an outcome belongs to.
#[derive(Debug, Clone, Copy, PartialEq, Eq)]
pub enum ConnectAttempt {
    /// The first attempt.
    First,
    /// The attempt after the client started the daemon and waited.
    AfterStart,
}

/// What a client does after an attempt to connect.
#[derive(Debug, PartialEq, Eq)]
pub enum ConnectDecision {
    /// The connection stands: send the request.
    Proceed,
    /// Start the daemon, wait [`SETTLE_MILLIS`], and connect once more.
    StartDaemon,
    /// Give up with this error.
    GiveUp(ClientError),
}

/// The mathematical value of a [`ConnectDecision`].
pub enum ConnectDecisionView {
    Proceed,
    StartDaemon,
    GiveUp(ClientErrorView),
}

impl View for ConnectDecision {
    type V = ConnectDecisionView;

    open spec fn view(&self) -> ConnectDecisionView {
        match *self {
            ConnectDecision::Proceed => ConnectDecisionView::Proceed,
            ConnectDecision::StartDaemon => ConnectDecisionView::StartDaemon,
            ConnectDecision::GiveUp(error) => ConnectDecisionView::GiveUp(error@),
        }
    }
}

/// The rule for connecting. A connection that stands is used. A first
/// attempt that fails starts the daemon where that was asked for, and
/// otherwise ends with `ServerNotRunning`. A failure after the daemon was
/// started ends with a connection error: there is exactly one retry.
pub open spec fn connect_rule(
    attempt: ConnectAttempt,
    failure: Option<Seq<char>>,
    autostart: bool,
) -> ConnectDecisionView {
    match failure {
        None => ConnectDecisionView::Proceed,
        Some(detail) => match attempt {
            ConnectAttempt::First => if autostart {
                ConnectDecisionView::StartDaemon
            } else {
                ConnectDecisionView::GiveUp(ClientErrorView::ServerNotRunning)
            },
            ConnectAttempt::AfterStart => ConnectDecisionView::GiveUp(
                ClientErrorView::Connection(detail),
            ),
        },
    }
}

/// Decides what follows an attempt to connect. `failure` is `None` where the
/// connection stands, and the system's message where it does not.
pub fn after_connect(
    attempt: ConnectAttempt,
    failure: Option<String>,
    autostart: bool,
) -> (decision: ConnectDecision)
    ensures
        decision@ == connect_rule(attempt, crate::cli::optional_text(failure), autostart),
{
    match failure {
        None => ConnectDecision::Proceed,
        Some(detail) => match attempt {
            ConnectAttempt::First => if autostart {
                ConnectDecision::StartDaemon
            } else {
                ConnectDecision::GiveUp(ClientError::ServerNotRunning)
            },
            ConnectAttempt::AfterStart => ConnectDecision::GiveUp(ClientError::Connection(detail)),
        },
    }
}

/// The line that carries a request: its JSON text and a line break.
pub fn request_line(request: &ClientRequest) -> (line: String)
    ensures
        line@ == request_text(request@) + seq!['\n'],
{
    proof {
        reveal_strlit("\n");
        assert("\n"@ =~= seq!['\n']);
    }
    let mut line = encode_request(request);
    line.append("\n");
    line
}

/// Whether a character is white space, as Unicode defines it.
pub open spec fn is_space(c: char) -> bool {
    let code = c as u32;
    ||| 0x09 <= code <= 0x0D
    ||| code == 0x20
    ||| code == 0x85
    ||| code == 0xA0
    ||| code == 0x1680
    ||| 0x2000 <= code <= 0x200A
    ||| code == 0x2028
    ||| code == 0x2029
    ||| code == 0x202F
    ||| code == 0x205F
    ||| code == 0x3000
}

/// Whether a text holds nothing but white space.
pub open spec fn is_blank_text(text: Seq<char>) -> bool {
    forall|i: int| 0 <= i < text.len() ==> is_space(#[trigger] text[i])
}

/// Whether a character is white space.
fn space(c: char) -> (white: bool)
    ensures
        white == is_space(c),
{
    let code: u32 = c as u32;
    (0x09 <= code && code <= 0x0D) || code == 0x20 || code == 0x85 || code == 0xA0 || code
        == 0x1680 || (0x2000 <= code && code <= 0x200A) || code == 0x2028 || code == 0x2029
        || code == 0x202F || code == 0x205F || code == 0x3000
}

/// Whether a line holds nothing but white space: nothing at all, or only a
/// line break.
pub fn is_blank(text: &str) -> (blank: bool)
    ensures
        blank == is_blank_text(text@),
{
    let count = text.unicode_len();
    let mut i: usize = 0;
    while i < count
        invariant
            i <= count,
            count == text@.len(),
            forall|j: int| 0 <= j < i ==> is_space(#[trigger] text@[j]),
        decreases count - i,
    {
        if !space(text.get_char(i)) {
            return false;
        }
        i += 1;
    }
    true
}

/// What a client makes of the line that came back: a blank line means that
/// the daemon sent no answer, a line that holds an answer gives it, a line
/// that is no JSON is a serialization error, and a line of JSON that is no
/// answer is an invalid response.
pub open spec fn answer_model(line: Seq<char>) -> Result<ServerResponseView, ClientErrorView> {
    if is_blank_text(line) {
        Err(ClientErrorView::EmptyResponse)
    } else {
        match decode_response_model(line) {
            Ok(response) => Ok(response),
            Err(DecodeErrorView::Syntax(detail)) => Err(ClientErrorView::Serialization(detail)),
            Err(DecodeErrorView::Shape) => Err(
                ClientErrorView::InvalidResponse(decode_error_text(DecodeErrorView::Shape)),
            ),
        }
    }
}

/// What a client makes of an exchange: of the line that was read, or of the
/// failure to send or read.
pub open spec fn exchange_model(received: Result<Seq<char>, Seq<char>>) -> Result<
    ServerResponseView,
    ClientErrorView,
> {
    match received {
        Ok(line) => answer_model(line),
        Err(detail) => Err(ClientErrorView::Connection(detail)),
    }
}

/// The value of what was received.
pub open spec fn received_view(received: Result<String, String>) -> Result<Seq<char>, Seq<char>> {
    match received {
        Ok(line) => Ok(line@),
        Err(detail) => Err(detail@),
    }
}

/// The value of an outcome.
pub open spec fn outcome_view(outcome: Result<ServerResponse, ClientError>) -> Result<
    ServerResponseView,
    ClientErrorView,
> {
    match outcome {
        Ok(response) => Ok(response@),
        Err(error) => Err(error@),
    }
}

/// Ends an exchange. `received` is the line that was read from the daemon,
/// empty where the daemon closed the connection, or the system's message
/// where sending or reading failed.
pub fn read_answer(received: Result<String, String>) -> (outcome: Result<
    ServerResponse,
    ClientError,
>)
    ensures
        outcome_view(outcome) == exchange_model(received_view(received)),
{
    match received {
        Ok(line) => {
            if is_blank(line.as_str()) {
                Err(ClientError::EmptyResponse)
            } else {
                match decode_response(line.as_str()) {
                    Ok(response) => Ok(response),
                    Err(DecodeError::Syntax(detail)) => Err(ClientError::Serialization(detail)),
                    Err(DecodeError::Shape) => Err(
                        ClientError::InvalidResponse(DecodeError::Shape.message()),
                    ),
                }
            }
        },
        Err(detail) => Err(ClientError::Connection(detail)),
    }
}

} // verus!
