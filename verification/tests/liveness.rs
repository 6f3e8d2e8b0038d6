use jobctl::liveness::{is_job_suspended, is_suspended_state, sighting, ProcessInfo, ProcessState};

#[test]
fn a_stopped_process_is_suspended() {
    assert!(is_suspended_state(Some(ProcessState::Stopped)));
}

#[test]
fn an_unknown_status_counts_only_with_code_zero() {
    assert!(is_suspended_state(Some(ProcessState::Unknown(0))));
    assert!(!is_suspended_state(Some(ProcessState::Unknown(1))));
    assert!(!is_suspended_state(Some(ProcessState::Unknown(u32::MAX))));
}

#[test]
fn any_other_status_is_not_suspended() {
    assert!(!is_suspended_state(Some(ProcessState::Other)));
}

#[test]
fn a_process_that_is_not_found_is_not_suspended() {
    assert!(!is_suspended_state(None));
}

#[test]
fn a_process_id_that_no_process_has_is_not_suspended() {
    assert!(!is_job_suspended(u32::MAX));
    assert!(!is_job_suspended(u32::MAX - 7));
}

#[test]
fn the_first_process_of_the_system_is_not_a_suspended_job() {
    assert!(!is_job_suspended(1));
}

#[test]
fn a_sighting_is_the_status_of_what_was_found() {
    let found = Some(ProcessInfo { state: ProcessState::Unknown(3), name: String::from("vim") });
    assert_eq!(sighting(&found), Some(ProcessState::Unknown(3)));
    assert_eq!(sighting(&None), None);
}
