use jobctl::cli::Commands;
use jobctl::liveness::ProcessState;
use jobctl::registry::Registry;
use jobctl::server::{
    finish_run, handle_line, handle_request, list_jobs, respond, response_line, startup,
    BindOutcome, ServerStep, Startup,
};
use jobctl::sessions::{ClientRequest, Job, JobOutput, ServerResponse, Session};

const NOW: u64 = 1_700_000_300;
const STOPPED: Option<ProcessState> = Some(ProcessState::Stopped);
const GONE: Option<ProcessState> = None;

fn request(action: Commands, cwd: &str) -> ClientRequest {
    ClientRequest { action, cwd: String::from(cwd) }
}

fn register(pid: u32, number: u8) -> Commands {
    Commands::Register { pid, number, command: String::from("vim") }
}

fn list(dir: Option<&str>) -> Commands {
    Commands::List { fzf: false, dir: dir.map(String::from) }
}

fn reply(response: ServerResponse) -> ServerStep {
    ServerStep::Reply { response, shutdown: false }
}

fn not_found() -> ServerStep {
    reply(ServerResponse::Error { message: String::from("No jobs found for directory") })
}

#[test]
fn a_registered_job_is_listed_until_its_process_is_gone() {
    let mut registry = Registry::new();
    let job = Job { pid: 100, command: String::from("vim"), number: 1, suspended: NOW };
    assert_eq!(
        respond(&mut registry, request(register(100, 1), "/a"), NOW, &vec![]),
        reply(ServerResponse::Register { job: job.clone() })
    );
    assert_eq!(
        respond(&mut registry, request(list(None), "/x"), NOW + 5, &vec![vec![STOPPED]]),
        reply(ServerResponse::ListSessions {
            sessions: vec![Session { jobs: vec![job.clone()], directory: String::from("/a") }],
        })
    );
    assert_eq!(
        respond(&mut registry, request(list(Some("/a")), "/x"), NOW + 65, &vec![vec![STOPPED]]),
        reply(ServerResponse::ListJobs {
            jobs: vec![JobOutput {
                pid: 100,
                command: String::from("vim"),
                number: 1,
                suspended: String::from("1m ago"),
            }],
        })
    );
    assert_eq!(
        respond(&mut registry, request(list(Some("/a")), "/x"), NOW + 70, &vec![vec![GONE]]),
        not_found()
    );
    assert_eq!(
        respond(&mut registry, request(list(None), "/x"), NOW + 75, &vec![]),
        reply(ServerResponse::ListSessions { sessions: vec![] })
    );
    assert_eq!(registry.len(), 0);
}

#[test]
fn a_listing_prunes_before_it_answers() {
    let mut registry = Registry::new();
    respond(&mut registry, request(register(100, 1), "/a"), NOW, &vec![]);
    respond(&mut registry, request(register(101, 2), "/a"), NOW, &vec![]);
    respond(&mut registry, request(register(200, 1), "/b"), NOW, &vec![]);
    let step = respond(&mut registry, request(list(None), "/x"), NOW, &vec![vec![GONE, STOPPED], vec![GONE]]);
    assert_eq!(
        step,
        reply(ServerResponse::ListSessions {
            sessions: vec![Session {
                jobs: vec![Job { pid: 101, command: String::from("vim"), number: 2, suspended: NOW }],
                directory: String::from("/a"),
            }],
        })
    );
    assert_eq!(registry.sessions().len(), 1);
}

#[test]
fn listing_a_directory_without_a_session_is_not_found() {
    let mut registry = Registry::new();
    assert_eq!(
        respond(&mut registry, request(list(Some("/unregistered")), "/x"), NOW, &vec![]),
        not_found()
    );
    respond(&mut registry, request(register(100, 1), "/a"), NOW, &vec![]);
    assert_eq!(
        respond(&mut registry, request(list(Some("/unregistered")), "/x"), NOW, &vec![vec![STOPPED]]),
        not_found()
    );
    assert_eq!(registry.len(), 1);
}

#[test]
fn a_listing_goes_by_the_named_directory_and_not_by_the_callers() {
    let mut registry = Registry::new();
    respond(&mut registry, request(register(100, 1), "/a"), NOW, &vec![]);
    assert_eq!(respond(&mut registry, request(list(Some("/b")), "/a"), NOW, &vec![vec![STOPPED]]), not_found());
}

#[test]
fn registering_goes_by_the_callers_directory() {
    let mut registry = Registry::new();
    respond(&mut registry, request(register(100, 1), "/a"), NOW, &vec![]);
    respond(&mut registry, request(register(100, 1), "/b"), NOW + 1, &vec![]);
    assert_eq!(registry.len(), 2);
    assert_eq!(registry.jobs(&String::from("/b")).unwrap()[0].suspended, NOW + 1);
}

#[test]
fn registering_again_answers_with_the_new_job_and_keeps_the_old() {
    let mut registry = Registry::new();
    respond(&mut registry, request(register(100, 1), "/a"), NOW, &vec![]);
    let step = respond(&mut registry, request(register(100, 2), "/a"), NOW + 9, &vec![]);
    assert_eq!(
        step,
        reply(ServerResponse::Register {
            job: Job { pid: 100, command: String::from("vim"), number: 2, suspended: NOW + 9 },
        })
    );
    assert_eq!(
        registry.jobs(&String::from("/a")).ok(),
        Some(vec![Job { pid: 100, command: String::from("vim"), number: 1, suspended: NOW }])
    );
}

#[test]
fn kill_answers_and_asks_for_the_shutdown() {
    let mut registry = Registry::new();
    respond(&mut registry, request(register(100, 1), "/a"), NOW, &vec![]);
    assert_eq!(
        respond(&mut registry, request(Commands::Kill, "/a"), NOW, &vec![]),
        ServerStep::Reply { response: ServerResponse::Kill, shutdown: true }
    );
    assert_eq!(registry.len(), 1);
}

#[test]
fn run_asks_the_daemon_to_start_the_command() {
    let mut registry = Registry::new();
    assert_eq!(
        respond(&mut registry, request(Commands::Run { command: String::from("sleep 9") }, "/a"), NOW, &vec![]),
        ServerStep::Spawn { command: String::from("sleep 9"), cwd: String::from("/a") }
    );
    assert_eq!(registry.len(), 0);
}

#[test]
fn finish_run_registers_the_started_process() {
    let mut registry = Registry::new();
    let job = Job { pid: 4242, command: String::from("sleep 9"), number: 0, suspended: NOW };
    assert_eq!(
        finish_run(&mut registry, String::from("/a"), String::from("sleep 9"), 4242, NOW),
        ServerResponse::Register { job: job.clone() }
    );
    assert_eq!(registry.jobs(&String::from("/a")).ok(), Some(vec![job.clone()]));
    assert_eq!(
        finish_run(&mut registry, String::from("/a"), String::from("other"), 4242, NOW + 1),
        ServerResponse::Register {
            job: Job { pid: 4242, command: String::from("other"), number: 0, suspended: NOW + 1 },
        }
    );
    assert_eq!(registry.jobs(&String::from("/a")).ok(), Some(vec![job]));
}

#[test]
fn init_is_not_served() {
    let mut registry = Registry::new();
    assert_eq!(
        respond(&mut registry, request(Commands::Init { shell: String::from("zsh") }, "/a"), NOW, &vec![]),
        reply(ServerResponse::Error { message: String::from("Unsupported action") })
    );
}

#[test]
fn list_jobs_gives_each_job_its_age() {
    let jobs = vec![
        Job { pid: 1, command: String::from("a"), number: 1, suspended: NOW },
        Job { pid: 2, command: String::from("b"), number: 2, suspended: NOW - 3600 },
        Job { pid: 3, command: String::from("c"), number: 3, suspended: NOW + 10 },
    ];
    let listed = list_jobs(&jobs, NOW);
    let ages: Vec<&str> = listed.iter().map(|j| j.suspended.as_str()).collect();
    assert_eq!(ages, vec!["0s ago", "1h ago", "0s ago"]);
    assert_eq!(listed[1].pid, 2);
    assert_eq!(listed[1].command, "b");
    assert_eq!(listed[1].number, 2);
}

#[test]
fn a_line_that_is_no_request_gets_an_error_and_changes_nothing() {
    let mut registry = Registry::new();
    handle_line(&mut registry, "{\"action\":\"register\",\"pid\":4294967295,\"number\":1,\"command\":\"vim\",\"cwd\":\"/a\"}\n", NOW);
    let before = registry.sessions();
    assert_eq!(
        handle_line(&mut registry, "not json\n", NOW),
        reply(ServerResponse::Error {
            message: String::from("Request Error: expected ident at line 1 column 2"),
        })
    );
    assert_eq!(registry.sessions(), before);
    assert_eq!(
        handle_line(&mut registry, "{\"action\":\"dance\",\"cwd\":\"/a\"}\n", NOW),
        reply(ServerResponse::Error {
            message: String::from("Request Error: unexpected form of the document"),
        })
    );
    assert_eq!(registry.sessions(), before);
    assert_eq!(
        handle_line(&mut registry, "{\"action\":\"kill\",\"cwd\":\"/a\"}\n", NOW),
        ServerStep::Reply { response: ServerResponse::Kill, shutdown: true }
    );
}

#[test]
fn a_line_with_a_request_is_served() {
    let mut registry = Registry::new();
    let step = handle_line(
        &mut registry,
        "{\"action\":\"register\",\"pid\":4294967295,\"number\":3,\"command\":\"vim\",\"cwd\":\"/a\"}\n",
        NOW,
    );
    let job = Job { pid: u32::MAX, command: String::from("vim"), number: 3, suspended: NOW };
    assert_eq!(step, reply(ServerResponse::Register { job: job.clone() }));
    assert_eq!(registry.jobs(&String::from("/a")).ok(), Some(vec![job]));
}

#[test]
fn a_listing_forgets_jobs_whose_process_does_not_exist() {
    let mut registry = Registry::new();
    handle_request(&mut registry, request(register(u32::MAX, 1), "/a"), NOW);
    assert_eq!(registry.len(), 1);
    assert_eq!(
        handle_request(&mut registry, request(list(None), "/a"), NOW),
        reply(ServerResponse::ListSessions { sessions: vec![] })
    );
    assert_eq!(registry.len(), 0);
    assert_eq!(handle_request(&mut registry, request(list(Some("/a")), "/a"), NOW), not_found());
}

#[test]
fn handle_request_serves_what_is_no_listing_as_respond_does() {
    let mut one = Registry::new();
    let mut other = Registry::new();
    for action in [register(7, 1), Commands::Kill, Commands::Run { command: String::from("x") }] {
        let again = match &action {
            Commands::Register { pid, number, command } => {
                Commands::Register { pid: *pid, number: *number, command: command.clone() }
            }
            Commands::Run { command } => Commands::Run { command: command.clone() },
            _ => Commands::Kill,
        };
        assert_eq!(
            handle_request(&mut one, request(action, "/a"), NOW),
            respond(&mut other, request(again, "/a"), NOW, &vec![])
        );
        assert_eq!(one.sessions(), other.sessions());
    }
}

#[test]
fn response_line_ends_with_a_line_break() {
    assert_eq!(response_line(&ServerResponse::Kill), "{\"action\":\"kill\"}\n");
    assert_eq!(
        response_line(&ServerResponse::Error { message: String::from("a\nb") }),
        "{\"action\":\"error\",\"message\":\"a\\nb\"}\n"
    );
}

#[test]
fn the_daemon_that_binds_the_socket_serves() {
    assert_eq!(startup(BindOutcome::Bound, false), Startup::Serve);
    assert_eq!(startup(BindOutcome::Bound, true), Startup::Serve);
}

#[test]
fn a_daemon_that_finds_another_one_exits() {
    assert_eq!(startup(BindOutcome::InUseByDaemon, false), Startup::Exit);
    assert_eq!(startup(BindOutcome::InUseByDaemon, true), Startup::Exit);
}

#[test]
fn a_leftover_socket_is_replaced_once() {
    assert_eq!(startup(BindOutcome::InUseByNobody, false), Startup::ReplaceLeftover);
    assert_eq!(startup(BindOutcome::InUseByNobody, true), Startup::Exit);
}

#[test]
fn a_socket_that_cannot_be_bound_ends_the_daemon() {
    assert_eq!(startup(BindOutcome::Failed, false), Startup::Exit);
    assert_eq!(startup(BindOutcome::Failed, true), Startup::Exit);
}

#[test]
fn daemon_error_messages() {
    assert_eq!(jobctl::JobCtlError::Io(String::from("broken pipe")).message(), "IO error: broken pipe");
    assert_eq!(jobctl::JobCtlError::Json(String::from("EOF")).message(), "JSON error: EOF");
    assert_eq!(
        jobctl::server::JobCtlError::Server(String::from("Failed to spawn process: x")).message(),
        "Server error: Failed to spawn process: x"
    );
}
