use jobctl::paths::{encode_path, socket_path};
use jobctl::sessions::{Job, JobOutput, Session};
use jobctl::text::decimal_string;
use jobctl::utils::{build_fzf_jobs_input, build_fzf_sessions_input, pick_job, time_ago};

fn output(pid: u32, number: u8, command: &str, age: &str) -> JobOutput {
    JobOutput { pid, command: String::from(command), number, suspended: String::from(age) }
}

fn session(directory: &str) -> Session {
    Session {
        jobs: vec![Job { pid: 1, command: String::from("vim"), number: 1, suspended: 0 }],
        directory: String::from(directory),
    }
}

#[test]
fn decimal_of_small_and_large_numbers() {
    assert_eq!(decimal_string(0), "0");
    assert_eq!(decimal_string(7), "7");
    assert_eq!(decimal_string(10), "10");
    assert_eq!(decimal_string(1_700_000_000), "1700000000");
    assert_eq!(decimal_string(u64::MAX), "18446744073709551615");
}

#[test]
fn time_ago_in_seconds() {
    assert_eq!(time_ago(1000, 1000), "0s ago");
    assert_eq!(time_ago(1000, 1001), "1s ago");
    assert_eq!(time_ago(1000, 1059), "59s ago");
}

#[test]
fn time_ago_in_minutes() {
    assert_eq!(time_ago(1000, 1060), "1m ago");
    assert_eq!(time_ago(1000, 1119), "1m ago");
    assert_eq!(time_ago(1000, 1120), "2m ago");
    assert_eq!(time_ago(0, 3599), "59m ago");
}

#[test]
fn time_ago_in_hours() {
    assert_eq!(time_ago(0, 3600), "1h ago");
    assert_eq!(time_ago(0, 7199), "1h ago");
    assert_eq!(time_ago(0, 86399), "23h ago");
}

#[test]
fn time_ago_in_days() {
    assert_eq!(time_ago(0, 86400), "1d ago");
    assert_eq!(time_ago(0, 604799), "6d ago");
}

#[test]
fn time_ago_in_weeks() {
    assert_eq!(time_ago(0, 604800), "1w ago");
    assert_eq!(time_ago(0, 1_700_000_000), "2810w ago");
    assert_eq!(time_ago(0, u64::MAX), "30500568904943w ago");
}

#[test]
fn time_ago_of_a_timestamp_ahead_of_now() {
    assert_eq!(time_ago(2000, 1000), "0s ago");
    assert_eq!(time_ago(u64::MAX, 0), "0s ago");
}

#[test]
fn sessions_input_lists_each_directory_on_a_line() {
    let input = build_fzf_sessions_input(vec![session("/a"), session("/home/user"), session("/c")]);
    assert_eq!(input, "/a\n/home/user\n/c\n");
}

#[test]
fn sessions_input_of_no_sessions_is_empty() {
    assert_eq!(build_fzf_sessions_input(vec![]), "");
}

#[test]
fn jobs_input_of_one_job() {
    let (lines, input) = build_fzf_jobs_input(vec![output(100, 1, "vim", "5m ago")]);
    assert_eq!(lines.len(), 1);
    assert_eq!(lines.get(&1).unwrap(), "[1:100] - vim, 5m ago \n");
    assert_eq!(input, "[1:100] - vim, 5m ago \n");
}

#[test]
fn jobs_input_of_no_jobs() {
    let (lines, input) = build_fzf_jobs_input(vec![]);
    assert!(lines.is_empty());
    assert_eq!(input, "");
}

#[test]
fn jobs_input_holds_every_line_once() {
    let first = "[1:100] - vim, 5m ago \n";
    let second = "[2:4294967295] - sleep 10, 3h ago \n";
    let (lines, input) = build_fzf_jobs_input(vec![
        output(100, 1, "vim", "5m ago"),
        output(u32::MAX, 2, "sleep 10", "3h ago"),
    ]);
    assert_eq!(lines.len(), 2);
    assert_eq!(lines.get(&1).unwrap(), first);
    assert_eq!(lines.get(&2).unwrap(), second);
    let one_way = format!("{}\n{}", first, second);
    let other_way = format!("{}\n{}", second, first);
    assert!(input == one_way || input == other_way);
}

#[test]
fn jobs_input_keeps_the_later_job_of_a_number() {
    let (lines, input) = build_fzf_jobs_input(vec![
        output(100, 1, "vim", "5m ago"),
        output(200, 1, "top", "1s ago"),
    ]);
    assert_eq!(lines.len(), 1);
    assert_eq!(lines.get(&1).unwrap(), "[1:200] - top, 1s ago \n");
    assert_eq!(input, "[1:200] - top, 1s ago \n");
}

#[test]
fn pick_job_finds_the_number_of_a_line() {
    let (lines, _) = build_fzf_jobs_input(vec![
        output(100, 1, "vim", "5m ago"),
        output(200, 2, "top", "1s ago"),
    ]);
    assert_eq!(pick_job(&lines, &String::from("[2:200] - top, 1s ago \n")), Some(2));
    assert_eq!(pick_job(&lines, &String::from("[1:100] - vim, 5m ago \n")), Some(1));
}

#[test]
fn pick_job_finds_nothing_for_another_text() {
    let (lines, _) = build_fzf_jobs_input(vec![output(100, 1, "vim", "5m ago")]);
    assert_eq!(pick_job(&lines, &String::from("[1:100] - vim, 5m ago")), None);
    assert_eq!(pick_job(&lines, &String::new()), None);
}

#[test]
fn encode_path_is_url_safe_base64_without_padding() {
    assert_eq!(encode_path("/a"), "L2E");
    assert_eq!(encode_path("/home/user/project"), "L2hvbWUvdXNlci9wcm9qZWN0");
    assert_eq!(encode_path("/tmp/\u{fc}"), "L3RtcC_DvA");
    assert_eq!(encode_path(""), "");
}

#[test]
fn socket_path_depends_on_the_user_alone() {
    assert_eq!(socket_path(0), "/tmp/jobctl-0.sock");
    assert_eq!(socket_path(1000), "/tmp/jobctl-1000.sock");
    assert_eq!(socket_path(u32::MAX), "/tmp/jobctl-4294967295.sock");
    assert_eq!(socket_path(1000), socket_path(1000));
    assert_ne!(socket_path(1000), socket_path(1001));
}

#[test]
fn items_are_found_under_the_modules_of_their_kind() {
    let mut registry = jobctl::registry::Registry::new();
    assert!(jobctl::sessions::cleanup_sessions(&mut registry).is_empty());
    assert_eq!(jobctl::sessions::encode_path("/a"), "L2E");
    assert!(!jobctl::utils::is_job_suspended(u32::MAX));
    assert_eq!(jobctl::ClientError::EmptyResponse, jobctl::client::ClientError::EmptyResponse);
}

#[test]
fn decimal_agrees_with_the_standard_rendering() {
    let mut n: u64 = 0;
    while n < 5000 {
        assert_eq!(decimal_string(n), format!("{}", n));
        n += 1;
    }
    let mut power: u64 = 1;
    for _ in 0..19 {
        power *= 10;
        assert_eq!(decimal_string(power), format!("{}", power));
        assert_eq!(decimal_string(power - 1), format!("{}", power - 1));
        assert_eq!(decimal_string(power + 1), format!("{}", power + 1));
    }
}

#[test]
fn time_ago_changes_unit_at_each_boundary() {
    let bounds: [(u64, &str, &str); 4] = [
        (60, "59s ago", "1m ago"),
        (3600, "59m ago", "1h ago"),
        (86400, "23h ago", "1d ago"),
        (604800, "6d ago", "1w ago"),
    ];
    for (bound, below, at) in bounds {
        assert_eq!(time_ago(5, 5 + bound - 1), below);
        assert_eq!(time_ago(5, 5 + bound), at);
    }
}
