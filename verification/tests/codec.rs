use jobctl::cli::Commands;
use jobctl::codec::tree::{
    job_from_json, job_to_json, request_from_json, request_to_json, response_from_json,
    response_to_json,
};
use jobctl::codec::{
    decode_request, decode_response, encode_request, encode_response, DecodeError,
};
use jobctl::json::{is_printable, parse, print, try_print, Json, Member};
use jobctl::sessions::{ClientRequest, Job, JobOutput, ServerResponse, Session};

fn job(pid: u32, number: u8, command: &str) -> Job {
    Job { pid, command: String::from(command), number, suspended: 1_700_000_000 }
}

fn output(pid: u32, number: u8, command: &str, age: &str) -> JobOutput {
    JobOutput { pid, command: String::from(command), number, suspended: String::from(age) }
}

fn request(action: Commands) -> ClientRequest {
    ClientRequest { action, cwd: String::from("/a") }
}

fn member(name: &str, value: Json) -> Member {
    Member { name: String::from(name), value }
}

fn every_response() -> Vec<ServerResponse> {
    vec![
        ServerResponse::ListJobs { jobs: vec![] },
        ServerResponse::ListJobs {
            jobs: vec![output(100, 1, "vim", "5m ago"), output(u32::MAX, 255, "", "")],
        },
        ServerResponse::ListSessions { sessions: vec![] },
        ServerResponse::ListSessions {
            sessions: vec![
                Session { jobs: vec![job(100, 1, "vim"), job(101, 2, "top")], directory: String::from("/a") },
                Session { jobs: vec![], directory: String::from("/b with \"quotes\"") },
            ],
        },
        ServerResponse::Register { job: job(100, 1, "vim") },
        ServerResponse::Register {
            job: Job { pid: 0, command: String::from("a\nb\t\u{fc}\\"), number: 0, suspended: u64::MAX },
        },
        ServerResponse::Kill,
        ServerResponse::Error { message: String::from("No jobs found for directory") },
        ServerResponse::Error { message: String::new() },
    ]
}

fn every_request() -> Vec<ClientRequest> {
    vec![
        request(Commands::List { fzf: false, dir: None }),
        request(Commands::List { fzf: true, dir: Some(String::from("/b")) }),
        request(Commands::Register { pid: 100, number: 1, command: String::from("vim") }),
        request(Commands::Register { pid: u32::MAX, number: 255, command: String::new() }),
        request(Commands::Run { command: String::from("sleep 10 && echo \"done\"") }),
        request(Commands::Kill),
        request(Commands::Init { shell: String::from("zsh") }),
    ]
}

#[test]
fn parse_reads_every_kind_of_value() {
    let tree = parse("{\"b\": [1, -2, 1.5, \"x\", true, null], \"a\": {}}").unwrap();
    assert_eq!(
        tree,
        Json::Record(vec![
            member("a", Json::Record(vec![])),
            member(
                "b",
                Json::List(vec![
                    Json::Unsigned(1),
                    Json::OtherNumber,
                    Json::OtherNumber,
                    Json::Text(String::from("x")),
                    Json::Bool(true),
                    Json::Null,
                ])
            ),
        ])
    );
}

#[test]
fn parse_keeps_unsigned_numbers_up_to_the_largest() {
    assert_eq!(parse("0"), Ok(Json::Unsigned(0)));
    assert_eq!(parse("18446744073709551615"), Ok(Json::Unsigned(u64::MAX)));
    assert_eq!(parse("18446744073709551616"), Ok(Json::OtherNumber));
    assert_eq!(parse("-1"), Ok(Json::OtherNumber));
    assert_eq!(parse("1e2"), Ok(Json::OtherNumber));
}

#[test]
fn parse_accepts_blank_space_around_the_document() {
    assert_eq!(parse(" \t{\"a\":1}\r\n"), Ok(Json::Record(vec![member("a", Json::Unsigned(1))])));
}

#[test]
fn parse_takes_the_later_of_two_members_with_one_name() {
    assert_eq!(parse("{\"a\":1,\"a\":2}"), Ok(Json::Record(vec![member("a", Json::Unsigned(2))])));
}

#[test]
fn parse_refuses_what_is_not_json() {
    assert!(parse("not json\n").is_err());
    assert!(parse("").is_err());
    assert!(parse("{\"a\":1} {\"b\":2}").is_err());
    assert!(parse("{\"a\":").is_err());
}

#[test]
fn print_writes_compact_text() {
    let tree = Json::Record(vec![
        member("b", Json::List(vec![Json::Unsigned(1), Json::Text(String::from("x")), Json::Bool(false), Json::Null])),
        member("a", Json::Record(vec![])),
    ]);
    assert_eq!(print(&tree), "{\"a\":{},\"b\":[1,\"x\",false,null]}");
}

#[test]
fn print_escapes_what_a_string_cannot_hold() {
    assert_eq!(print(&Json::Text(String::from("a\"b\\c\nd"))), "\"a\\\"b\\\\c\\nd\"");
    assert_eq!(print(&Json::Unsigned(u64::MAX)), "18446744073709551615");
}

#[test]
fn print_then_parse_gives_the_tree_back() {
    let tree = Json::Record(vec![
        member("a", Json::List(vec![Json::Unsigned(7), Json::Null, Json::Bool(true)])),
        member("z", Json::Text(String::from("line\nbreak"))),
    ]);
    assert_eq!(parse(&print(&tree)), Ok(tree));
}

#[test]
fn job_as_an_object() {
    let tree = job_to_json(&job(100, 1, "vim"));
    assert_eq!(
        tree,
        Json::Record(vec![
            member("pid", Json::Unsigned(100)),
            member("command", Json::Text(String::from("vim"))),
            member("number", Json::Unsigned(1)),
            member("suspended", Json::Unsigned(1_700_000_000)),
        ])
    );
    assert_eq!(job_from_json(&tree), Some(job(100, 1, "vim")));
}

#[test]
fn job_from_an_object_in_any_order_and_with_more_members() {
    let tree = Json::Record(vec![
        member("suspended", Json::Unsigned(5)),
        member("extra", Json::Null),
        member("number", Json::Unsigned(2)),
        member("command", Json::Text(String::from("top"))),
        member("pid", Json::Unsigned(7)),
    ]);
    assert_eq!(
        job_from_json(&tree),
        Some(Job { pid: 7, command: String::from("top"), number: 2, suspended: 5 })
    );
}

#[test]
fn job_from_an_object_takes_the_later_member_of_a_name() {
    let tree = Json::Record(vec![
        member("pid", Json::Unsigned(7)),
        member("command", Json::Text(String::from("top"))),
        member("number", Json::Unsigned(2)),
        member("suspended", Json::Unsigned(5)),
        member("pid", Json::Unsigned(8)),
    ]);
    assert_eq!(job_from_json(&tree).map(|j| j.pid), Some(8));
}

#[test]
fn job_needs_every_member_in_its_range() {
    let with = |pid: Json, number: Json, command: Json, suspended: Json| {
        Json::Record(vec![
            member("pid", pid),
            member("command", command),
            member("number", number),
            member("suspended", suspended),
        ])
    };
    let text = || Json::Text(String::from("vim"));
    assert!(job_from_json(&with(Json::Unsigned(4294967295), Json::Unsigned(255), text(), Json::Unsigned(u64::MAX))).is_some());
    assert_eq!(job_from_json(&with(Json::Unsigned(4294967296), Json::Unsigned(1), text(), Json::Unsigned(0))), None);
    assert_eq!(job_from_json(&with(Json::Unsigned(1), Json::Unsigned(256), text(), Json::Unsigned(0))), None);
    assert_eq!(job_from_json(&with(Json::OtherNumber, Json::Unsigned(1), text(), Json::Unsigned(0))), None);
    assert_eq!(job_from_json(&with(Json::Unsigned(1), Json::Unsigned(1), Json::Null, Json::Unsigned(0))), None);
    assert_eq!(job_from_json(&with(Json::Unsigned(1), Json::Unsigned(1), text(), Json::Text(String::from("0")))), None);
    assert_eq!(job_from_json(&Json::Record(vec![member("pid", Json::Unsigned(1))])), None);
    assert_eq!(job_from_json(&Json::List(vec![])), None);
    assert_eq!(job_from_json(&Json::Null), None);
}

#[test]
fn every_response_survives_the_tree() {
    for response in every_response() {
        let tree = response_to_json(&response);
        assert_eq!(response_from_json(&tree), Some(response));
    }
}

#[test]
fn every_response_survives_the_line() {
    for response in every_response() {
        let line = encode_response(&response);
        assert!(!line.contains('\n'));
        assert_eq!(decode_response(&line), Ok(response));
    }
}

#[test]
fn every_request_survives_the_tree() {
    for request in every_request() {
        let tree = request_to_json(&request);
        assert_eq!(request_from_json(&tree), Some(request));
    }
}

#[test]
fn every_request_survives_the_line() {
    for request in every_request() {
        let line = encode_request(&request);
        assert!(!line.contains('\n'));
        assert_eq!(decode_request(&line), Ok(request));
    }
}

#[test]
fn responses_as_text() {
    assert_eq!(encode_response(&ServerResponse::Kill), "{\"action\":\"kill\"}");
    assert_eq!(
        encode_response(&ServerResponse::Error { message: String::from("x") }),
        "{\"action\":\"error\",\"message\":\"x\"}"
    );
    assert_eq!(
        encode_response(&ServerResponse::Register { job: job(100, 1, "vim") }),
        "{\"action\":\"register\",\"job\":{\"command\":\"vim\",\"number\":1,\"pid\":100,\"suspended\":1700000000}}"
    );
    assert_eq!(
        encode_response(&ServerResponse::ListJobs { jobs: vec![output(100, 1, "vim", "5m ago")] }),
        "{\"action\":\"list_jobs\",\"jobs\":[{\"command\":\"vim\",\"number\":1,\"pid\":100,\"suspended\":\"5m ago\"}]}"
    );
    assert_eq!(
        encode_response(&ServerResponse::ListSessions {
            sessions: vec![Session { jobs: vec![job(100, 1, "vim")], directory: String::from("/a") }],
        }),
        "{\"action\":\"list_sessions\",\"sessions\":[{\"directory\":\"/a\",\"jobs\":[{\"command\":\"vim\",\"number\":1,\"pid\":100,\"suspended\":1700000000}]}]}"
    );
}

#[test]
fn requests_as_text() {
    assert_eq!(
        encode_request(&request(Commands::List { fzf: false, dir: None })),
        "{\"action\":\"list\",\"cwd\":\"/a\",\"dir\":null,\"fzf\":false}"
    );
    assert_eq!(
        encode_request(&request(Commands::Register { pid: 100, number: 1, command: String::from("vim") })),
        "{\"action\":\"register\",\"command\":\"vim\",\"cwd\":\"/a\",\"number\":1,\"pid\":100}"
    );
    assert_eq!(
        encode_request(&request(Commands::Run { command: String::from("sleep 1") })),
        "{\"action\":\"run\",\"command\":\"sleep 1\",\"cwd\":\"/a\"}"
    );
    assert_eq!(encode_request(&request(Commands::Kill)), "{\"action\":\"kill\",\"cwd\":\"/a\"}");
}

#[test]
fn requests_are_read_with_members_in_any_order() {
    assert_eq!(
        decode_request("{\"action\":\"register\",\"pid\":100,\"number\":1,\"command\":\"vim\",\"cwd\":\"/a\"}\n"),
        Ok(request(Commands::Register { pid: 100, number: 1, command: String::from("vim") }))
    );
    assert_eq!(
        decode_request("{\"cwd\":\"/a\",\"fzf\":true,\"dir\":\"/b\",\"action\":\"list\"}"),
        Ok(request(Commands::List { fzf: true, dir: Some(String::from("/b")) }))
    );
}

#[test]
fn a_listing_may_leave_the_directory_out() {
    assert_eq!(
        decode_request("{\"action\":\"list\",\"fzf\":false,\"cwd\":\"/a\"}"),
        Ok(request(Commands::List { fzf: false, dir: None }))
    );
    assert_eq!(
        decode_request("{\"action\":\"list\",\"fzf\":false,\"dir\":null,\"cwd\":\"/a\"}"),
        Ok(request(Commands::List { fzf: false, dir: None }))
    );
    assert_eq!(
        decode_request("{\"action\":\"list\",\"fzf\":false,\"dir\":7,\"cwd\":\"/a\"}"),
        Err(DecodeError::Shape)
    );
}

#[test]
fn a_document_that_is_no_request_is_refused_for_its_shape() {
    assert_eq!(decode_request("{\"action\":\"dance\",\"cwd\":\"/a\"}"), Err(DecodeError::Shape));
    assert_eq!(decode_request("{\"action\":\"kill\"}"), Err(DecodeError::Shape));
    assert_eq!(decode_request("{\"cwd\":\"/a\"}"), Err(DecodeError::Shape));
    assert_eq!(decode_request("{\"action\":\"list\",\"cwd\":\"/a\"}"), Err(DecodeError::Shape));
    assert_eq!(
        decode_request("{\"action\":\"register\",\"pid\":-1,\"number\":1,\"command\":\"\",\"cwd\":\"/a\"}"),
        Err(DecodeError::Shape)
    );
    assert_eq!(
        decode_request("{\"action\":\"register\",\"pid\":1,\"number\":256,\"command\":\"\",\"cwd\":\"/a\"}"),
        Err(DecodeError::Shape)
    );
    assert_eq!(decode_request("[]"), Err(DecodeError::Shape));
    assert_eq!(decode_request("null"), Err(DecodeError::Shape));
}

#[test]
fn a_line_that_is_no_json_is_refused_for_its_syntax() {
    assert_eq!(
        decode_request("not json\n"),
        Err(DecodeError::Syntax(String::from("expected ident at line 1 column 2")))
    );
    assert!(matches!(decode_request(""), Err(DecodeError::Syntax(_))));
    assert!(matches!(decode_response("{"), Err(DecodeError::Syntax(_))));
}

#[test]
fn a_document_that_is_no_response_is_refused_for_its_shape() {
    assert_eq!(decode_response("{\"action\":\"list\"}"), Err(DecodeError::Shape));
    assert_eq!(decode_response("{\"action\":\"error\"}"), Err(DecodeError::Shape));
    assert_eq!(decode_response("{\"action\":\"list_jobs\",\"jobs\":[{}]}"), Err(DecodeError::Shape));
    assert_eq!(decode_response("{\"action\":\"register\",\"job\":null}"), Err(DecodeError::Shape));
    assert_eq!(decode_response("{\"jobs\":[]}"), Err(DecodeError::Shape));
    assert_eq!(decode_response("7"), Err(DecodeError::Shape));
}

#[test]
fn decode_error_messages() {
    assert_eq!(DecodeError::Shape.message(), "unexpected form of the document");
    assert_eq!(DecodeError::Syntax(String::from("EOF while parsing")).message(), "EOF while parsing");
}

#[test]
fn a_tree_with_a_number_that_was_not_kept_cannot_be_written() {
    let deep = Json::Record(vec![member("a", Json::List(vec![Json::Unsigned(1), Json::OtherNumber]))]);
    assert!(!is_printable(&Json::OtherNumber));
    assert!(!is_printable(&deep));
    assert_eq!(try_print(&deep), None);
    assert_eq!(try_print(&Json::List(vec![Json::OtherNumber])), None);
}

#[test]
fn every_other_tree_can_be_written() {
    let tree = Json::Record(vec![
        member("a", Json::List(vec![Json::Unsigned(1), Json::Null])),
        member("b", Json::Record(vec![member("c", Json::Bool(true))])),
    ]);
    assert!(is_printable(&tree));
    assert_eq!(try_print(&tree), Some(String::from("{\"a\":[1,null],\"b\":{\"c\":true}}")));
    assert_eq!(try_print(&Json::Null), Some(String::from("null")));
    assert_eq!(try_print(&Json::List(vec![])), Some(String::from("[]")));
}

#[test]
fn responses_are_read_with_members_in_any_order() {
    let line = "{\"action\":\"list_sessions\",\"sessions\":[{\"jobs\":[{\"pid\":100,\"command\":\"vim\",\"number\":1,\"suspended\":1700000000}],\"directory\":\"/a\"}]}\n";
    assert_eq!(
        decode_response(line),
        Ok(ServerResponse::ListSessions {
            sessions: vec![Session { jobs: vec![job(100, 1, "vim")], directory: String::from("/a") }],
        })
    );
    let line = "{\"jobs\":[{\"suspended\":\"5m ago\",\"pid\":100,\"number\":1,\"command\":\"vim\"}],\"action\":\"list_jobs\"}";
    assert_eq!(
        decode_response(line),
        Ok(ServerResponse::ListJobs { jobs: vec![output(100, 1, "vim", "5m ago")] })
    );
    assert_eq!(
        decode_response("{\"job\":{\"pid\":100,\"command\":\"vim\",\"number\":1,\"suspended\":1700000000},\"action\":\"register\"}"),
        Ok(ServerResponse::Register { job: job(100, 1, "vim") })
    );
}

#[test]
fn members_that_are_not_known_are_ignored() {
    assert_eq!(decode_response("{\"action\":\"kill\",\"extra\":[1,2,3]}"), Ok(ServerResponse::Kill));
    assert_eq!(
        decode_request("{\"action\":\"kill\",\"cwd\":\"/a\",\"pid\":\"not a number\"}"),
        Ok(request(Commands::Kill))
    );
}
