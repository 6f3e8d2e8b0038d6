//! Liveness: what the operating system's process table says of a job, and
//! which answers let the job stay in the registry.
//!
//! The policy: a job stays while its process is stopped, which is what a
//! shell's suspended job is. A status that the system reports as unknown
//! counts as stopped exactly when its code is zero. Every other status, and
//! a process that is not found, ends the job.

use sysinfo::{Pid, ProcessRefreshKind, ProcessStatus, RefreshKind, System};
use vstd::prelude::*;

verus! {

/// The status of a process, as far as the policy tells statuses apart.
#[derive(Debug, Clone, Copy, PartialEq, Eq)]
pub enum ProcessState {
    /// Stopped on a signal.
    Stopped,
    /// The system gave a status that it could not name, with this code.
    Unknown(u32),
    /// Any other status: running or runnable, sleeping, exited and waiting
    /// to be reaped.
    Other,
}

/// What one look at the process table showed of a process: its status, or
/// `None` where no such process was found.
pub type Sighting = Option<ProcessState>;

/// Whether what was seen of a process lets its job stay.
pub open spec fn counts_as_suspended(seen: Sighting) -> bool {
    match seen {
        Some(ProcessState::Stopped) => true,
        Some(ProcessState::Unknown(code)) => code == 0,
        Some(ProcessState::Other) => false,
        None => false,
    }
}

/// Decides from a sighting whether a job stays.
pub fn is_suspended_state(seen: Sighting) -> (stays: bool)
    ensures
        stays == counts_as_suspended(seen),
{
    match seen {
        Some(ProcessState::Stopped) => true,
        Some(ProcessState::Unknown(code)) => code == 0,
        Some(ProcessState::Other) => false,
        None => false,
    }
}

/// What the process table shows of one process.
#[derive(Debug, PartialEq, Eq)]
pub struct ProcessInfo {
    /// The status of the process.
    pub state: ProcessState,
    /// The name of the program that the process runs.
    pub name: String,
}

/// Looks the process up in a fresh snapshot of the process table, taken with
/// `sysinfo::System::new_with_specifics`, and reads `sysinfo::Process::status`
/// and `sysinfo::Process::name`, the name with what is not UTF-8 in it
/// replaced. `None` means that `sysinfo::System::process` found no such
/// process. Of the statuses only `Stop` and `Unknown` are told apart; every
/// other one comes back as `Other`.
///
/// Nothing is claimed of the answer: it depends on the machine at the moment
/// of the call, and two calls for one process id may differ.
#[verifier::external_body]
pub(crate) fn look_up(pid: u32) -> (found: Option<ProcessInfo>) {
    let kind = RefreshKind::nothing().with_processes(ProcessRefreshKind::everything());
    let system = System::new_with_specifics(kind);
    system.process(Pid::from(pid as usize)).map(|process| ProcessInfo {
        name: process.name().to_string_lossy().into_owned(),
        state: match process.status() {
            ProcessStatus::Stop => ProcessState::Stopped,
            ProcessStatus::Unknown(code) => ProcessState::Unknown(code),
            _ => ProcessState::Other,
        },
    })
}

/// The sighting in what a look at the process table found.
pub open spec fn sighting_of(found: Option<ProcessInfo>) -> Sighting {
    match found {
        Some(info) => Some(info.state),
        None => None,
    }
}

/// The status in what a look at the process table found.
pub fn sighting(found: &Option<ProcessInfo>) -> (seen: Sighting)
    ensures
        seen == sighting_of(*found),
{
    match found {
        Some(info) => Some(info.state),
        None => None,
    }
}

/// Looks at the process `pid`. What will be seen is not known in advance:
/// it is the sighting in whatever the look at the process table finds.
pub(crate) fn observe_process(pid: u32) -> (seen: Sighting)
    ensures
        exists|found: Option<ProcessInfo>| seen == sighting_of(found),
{
    let found = look_up(pid);
    let seen = sighting(&found);
    assert(seen == sighting_of(found));
    seen
}

/// Asks the operating system whether the process `pid` is still a suspended
/// job. The answer is the policy applied to what the system said at the
/// moment of the call. What it said is not known in advance, so the contract
/// says what holds of every answer: the result is what [`is_suspended_state`]
/// makes of some sighting.
pub fn is_job_suspended(pid: u32) -> (stays: bool)
    ensures
        exists|seen: Sighting| stays == counts_as_suspended(seen),
{
    let seen = observe_process(pid);
    let stays = is_suspended_state(seen);
    assert(stays == counts_as_suspended(seen));
    stays
}

} // verus!
