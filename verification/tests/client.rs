use jobctl::cli::Commands;
use jobctl::client::{
    after_connect, checked, is_blank, needs_daemon, read_answer, register_request,
    register_request_named, request_line, ClientError, ConnectAttempt, ConnectDecision,
    SETTLE_MILLIS,
};
use jobctl::server::{handle_line, response_line, ServerStep};
use jobctl::registry::Registry;
use jobctl::sessions::{ClientRequest, ServerResponse};

fn refused() -> Option<String> {
    Some(String::from("Connection refused (os error 111)"))
}

#[test]
fn a_connection_that_stands_is_used() {
    assert_eq!(after_connect(ConnectAttempt::First, None, false), ConnectDecision::Proceed);
    assert_eq!(after_connect(ConnectAttempt::First, None, true), ConnectDecision::Proceed);
    assert_eq!(after_connect(ConnectAttempt::AfterStart, None, true), ConnectDecision::Proceed);
}

#[test]
fn without_autostart_a_missing_daemon_is_reported() {
    assert_eq!(
        after_connect(ConnectAttempt::First, refused(), false),
        ConnectDecision::GiveUp(ClientError::ServerNotRunning)
    );
}

#[test]
fn with_autostart_a_missing_daemon_is_started() {
    assert_eq!(after_connect(ConnectAttempt::First, refused(), true), ConnectDecision::StartDaemon);
}

#[test]
fn there_is_one_retry_and_no_more() {
    assert_eq!(
        after_connect(ConnectAttempt::AfterStart, refused(), true),
        ConnectDecision::GiveUp(ClientError::Connection(String::from(
            "Connection refused (os error 111)"
        )))
    );
    assert_eq!(
        after_connect(ConnectAttempt::AfterStart, refused(), false),
        ConnectDecision::GiveUp(ClientError::Connection(String::from(
            "Connection refused (os error 111)"
        )))
    );
}

#[test]
fn the_settle_delay_is_half_a_second() {
    assert_eq!(SETTLE_MILLIS, 500);
}

#[test]
fn commands_that_change_something_need_a_daemon() {
    assert!(needs_daemon(&Commands::Register { pid: 1, number: 1, command: String::new() }));
    assert!(needs_daemon(&Commands::Run { command: String::from("x") }));
    assert!(needs_daemon(&Commands::Kill));
    assert!(!needs_daemon(&Commands::List { fzf: false, dir: None }));
    assert!(!needs_daemon(&Commands::List { fzf: true, dir: Some(String::from("/a")) }));
    assert!(!needs_daemon(&Commands::Init { shell: String::from("zsh") }));
}

#[test]
fn request_line_is_the_request_and_a_line_break() {
    let request = ClientRequest { action: Commands::Kill, cwd: String::from("/a") };
    assert_eq!(request_line(&request), "{\"action\":\"kill\",\"cwd\":\"/a\"}\n");
}

#[test]
fn blank_lines() {
    assert!(is_blank(""));
    assert!(is_blank("\n"));
    assert!(is_blank(" \t\r\n"));
    assert!(is_blank("\u{a0}\u{2003}\u{3000}\u{85}\u{2028}"));
    assert!(!is_blank("{}"));
    assert!(!is_blank(" x "));
    assert!(!is_blank("\u{200b}"));
    assert!(!is_blank("\u{8}"));
    assert!(!is_blank("\u{e}"));
}

#[test]
fn an_answer_is_read_from_its_line() {
    assert_eq!(read_answer(Ok(String::from("{\"action\":\"kill\"}\n"))), Ok(ServerResponse::Kill));
    assert_eq!(
        read_answer(Ok(String::from("{\"action\":\"error\",\"message\":\"No jobs found for directory\"}\n"))),
        Ok(ServerResponse::Error { message: String::from("No jobs found for directory") })
    );
}

#[test]
fn a_connection_closed_without_an_answer_is_an_empty_response() {
    assert_eq!(read_answer(Ok(String::new())), Err(ClientError::EmptyResponse));
    assert_eq!(read_answer(Ok(String::from("\n"))), Err(ClientError::EmptyResponse));
    assert_eq!(read_answer(Ok(String::from("  \r\n"))), Err(ClientError::EmptyResponse));
}

#[test]
fn a_line_that_is_no_json_is_a_serialization_error() {
    assert_eq!(
        read_answer(Ok(String::from("not json\n"))),
        Err(ClientError::Serialization(String::from("expected ident at line 1 column 2")))
    );
}

#[test]
fn a_document_that_is_no_answer_is_an_invalid_response() {
    assert_eq!(
        read_answer(Ok(String::from("{\"action\":\"list\"}\n"))),
        Err(ClientError::InvalidResponse(String::from("unexpected form of the document")))
    );
}

#[test]
fn a_failure_to_send_or_read_is_a_connection_error() {
    assert_eq!(
        read_answer(Err(String::from("Broken pipe (os error 32)"))),
        Err(ClientError::Connection(String::from("Broken pipe (os error 32)")))
    );
}

#[test]
fn checked_turns_the_daemons_refusal_into_an_error() {
    assert_eq!(
        checked(ServerResponse::Error { message: String::from("No jobs found for directory") }),
        Err(ClientError::ServerError(String::from("No jobs found for directory")))
    );
    assert_eq!(checked(ServerResponse::Kill), Ok(ServerResponse::Kill));
    assert_eq!(
        checked(ServerResponse::ListJobs { jobs: vec![] }),
        Ok(ServerResponse::ListJobs { jobs: vec![] })
    );
}

#[test]
fn error_messages() {
    assert_eq!(ClientError::Connection(String::from("refused")).message(), "Connection error: refused");
    assert_eq!(ClientError::Serialization(String::from("EOF")).message(), "Serialization error: EOF");
    assert_eq!(ClientError::ServerNotRunning.message(), "Server not running, no sessions found");
    assert_eq!(ClientError::EmptyResponse.message(), "Received empty response from server");
    assert_eq!(ClientError::InvalidResponse(String::from("odd")).message(), "Invalid response: odd");
    assert_eq!(ClientError::ServerError(String::from("no")).message(), "Server error: no");
}

#[test]
fn register_request_named_needs_a_name() {
    assert_eq!(
        register_request_named(100, 1, String::from("/a"), Some(String::from("vim"))),
        Some(ClientRequest {
            action: Commands::Register { pid: 100, number: 1, command: String::from("vim") },
            cwd: String::from("/a"),
        })
    );
    assert_eq!(register_request_named(100, 1, String::from("/a"), None), None);
}

#[test]
fn register_request_of_a_process_that_does_not_exist_is_none() {
    assert_eq!(register_request(u32::MAX, 1, String::from("/a")), None);
}

#[test]
fn register_request_of_a_process_that_exists_names_it() {
    match register_request(1, 2, String::from("/a")) {
        Some(ClientRequest { action: Commands::Register { pid, number, command }, cwd }) => {
            assert_eq!(pid, 1);
            assert_eq!(number, 2);
            assert_eq!(cwd, "/a");
            assert!(!command.is_empty());
        }
        other => panic!("no request for the first process: {:?}", other),
    }
}

#[test]
fn a_client_and_a_daemon_understand_each_other() {
    let mut registry = Registry::new();
    let request = ClientRequest {
        action: Commands::Register { pid: u32::MAX, number: 1, command: String::from("vim") },
        cwd: String::from("/a"),
    };
    let step = handle_line(&mut registry, &request_line(&request), 1_700_000_000);
    let response = match step {
        ServerStep::Reply { response, shutdown: false } => response,
        other => panic!("unexpected step: {:?}", other),
    };
    let answer = read_answer(Ok(response_line(&response)));
    assert_eq!(answer, Ok(response));
    assert_eq!(registry.len(), 1);
}

#[test]
fn blank_agrees_with_white_space_for_every_character() {
    for code in 0..=0x10FFFFu32 {
        if let Some(c) = char::from_u32(code) {
            let mut text = String::new();
            text.push(c);
            assert_eq!(is_blank(&text), c.is_whitespace(), "U+{:04X}", code);
        }
    }
}

#[test]
fn blank_is_what_trimming_leaves_empty() {
    for text in ["", " ", "\n", " \t x", "x\n", "\r\n", "\u{2029}\u{205f}", "\u{feff}"] {
        assert_eq!(is_blank(text), text.trim().is_empty(), "{:?}", text);
    }
}
