//! The operating system as this library sees it: the wall clock and the
//! resource usage of the running process. Every item here is a declaration
//! about code outside this crate that Verus accepts without proof.

use crate::health::HealthService;
use scheduled_executor::ThreadPoolExecutor;
use std::time::{Duration, SystemTime, SystemTimeError};
use sysinfo::{Pid, Process, System};
use vstd::prelude::*;

verus! {

/// `std::time::SystemTime`, a reading of the wall clock. Opaque here.
#[verifier::external_type_specification]
#[verifier::external_body]
pub struct ExSystemTime(std::time::SystemTime);

/// `std::time::SystemTimeError`, returned when one reading is asked for the
/// time since a later one. Opaque here.
#[verifier::external_type_specification]
#[verifier::external_body]
pub struct ExSystemTimeError(std::time::SystemTimeError);

/// The number of whole seconds in a `Duration`, as `Duration::as_secs`
/// reports it.
pub uninterp spec fn whole_seconds(d: Duration) -> u64;

/// `SystemTime::now` reads the wall clock. Nothing is claimed of the reading.
pub assume_specification[ SystemTime::now ]() -> (now: SystemTime)
;

/// `Duration::as_secs` returns the whole seconds of the duration, dropping
/// the fractional part. The claim only names that number.
pub assume_specification[ Duration::as_secs ](d: &Duration) -> (secs: u64)
    ensures
        secs == whole_seconds(*d),
;

/// `Duration::from_secs` makes the duration of that many whole seconds.
pub assume_specification[ Duration::from_secs ](secs: u64) -> (d: Duration)
    ensures
        whole_seconds(d) == secs,
;

/// `SystemTime::duration_since` with `UNIX_EPOCH` as the earlier time: the
/// time elapsed since the epoch, or an error when the reading lies before it.
/// Nothing is claimed of which of the two comes back.
#[verifier::external_body]
pub(crate) fn since_unix_epoch(t: &SystemTime) -> (elapsed: Result<Duration, SystemTimeError>)
{
    t.duration_since(std::time::UNIX_EPOCH)
}

/// `sysinfo::System`, a table of what the host reported when it was last
/// refreshed. Opaque here.
#[verifier::external_type_specification]
#[verifier::external_body]
pub struct ExSystem(sysinfo::System);

/// `sysinfo::Process`, one row of that table. Opaque here.
#[verifier::external_type_specification]
#[verifier::external_body]
pub struct ExProcess(sysinfo::Process);

/// `sysinfo::Pid`, a process identifier as the host numbers it. Opaque here.
#[verifier::external_type_specification]
#[verifier::external_body]
pub struct ExPid(sysinfo::Pid);

/// `System::new_all` builds a table with everything loaded. Nothing is
/// claimed of what it holds.
pub assume_specification[ System::new_all ]() -> (sys: System)
;

/// `System::refresh_all` reads the host again. Nothing is claimed of the
/// table afterwards.
pub assume_specification[ System::refresh_all ](sys: &mut System)
;

/// `sysinfo::get_current_pid` gives the identifier of the running process, or
/// an error on a platform that the crate does not know. Nothing is claimed of
/// which of the two comes back.
pub assume_specification[ sysinfo::get_current_pid ]() -> (pid: Result<Pid, &'static str>)
;

/// `System::process` looks a process up by its identifier; `None` when the
/// table has no such row. Nothing is claimed of which of the two comes back.
pub assume_specification[ System::process ](sys: &System, pid: Pid) -> (row: Option<&Process>)
;

/// The resident memory in bytes that a row of the process table records, as
/// `Process::memory` reports it.
pub uninterp spec fn resident_bytes(row: Process) -> u64;

/// The processor usage that a row of the process table records, as
/// `Process::cpu_usage` reports it, by its bit pattern.
pub uninterp spec fn cpu_bits(row: Process) -> u32;

/// The number of a process identifier, as `Pid::as_u32` reports it.
pub uninterp spec fn pid_number(pid: Pid) -> u32;

/// `Process::memory` reads the resident memory of the process, in bytes, off
/// the row. The claim only names that number.
pub assume_specification[ Process::memory ](row: &Process) -> (bytes: u64)
    ensures
        bytes == resident_bytes(*row),
;

/// `Pid::as_u32` gives the identifier as a `u32`. The claim only names that
/// number.
pub assume_specification[ Pid::as_u32 ](pid: Pid) -> (number: u32)
    ensures
        number == pid_number(pid),
;

/// `Process::cpu_usage` reads the share of processor time the process used,
/// in percent, off the row; handed on as the bit pattern of that
/// single-precision number. The claim only names that pattern.
#[verifier::external_body]
pub(crate) fn cpu_usage_bits(row: &Process) -> (bits: u32)
    ensures
        bits == cpu_bits(*row),
{
    row.cpu_usage().to_bits()
}

/// `scheduled_executor::ThreadPoolExecutor`, a scheduling thread with a pool
/// of worker threads behind it. Opaque here.
#[verifier::external_type_specification]
#[verifier::external_body]
pub struct ExThreadPoolExecutor(scheduled_executor::ThreadPoolExecutor);

/// `std::io::Error`, the reason the host gave for refusing a thread. Opaque
/// here.
#[verifier::external_type_specification]
#[verifier::external_body]
pub struct ExIoError(std::io::Error);

/// `ThreadPoolExecutor::new` starts the scheduling thread and a pool of
/// `threads` workers, or hands back the host's error where the scheduling
/// thread could not be spawned. A pool of no threads makes it panic, so one
/// worker at least is asked for. Nothing is claimed of which of the two
/// comes back.
pub assume_specification[ ThreadPoolExecutor::new ](threads: usize) -> (executor: Result<
    ThreadPoolExecutor,
    std::io::Error,
>)
    requires
        threads > 0,
;

/// `ThreadPoolExecutor::clone` gives another handle to the same scheduling
/// thread and pool. Nothing is claimed of the handle.
pub assume_specification[ <ThreadPoolExecutor as Clone>::clone ](
    executor: &ThreadPoolExecutor,
) -> (handle: ThreadPoolExecutor)
;

/// `ThreadPoolExecutor::schedule_fixed_rate` runs a task on the pool, first
/// after `initial` and then every `interval`. The task here takes a snapshot
/// of `service` and lets go of it; the handle that could stop the task is let
/// go of as well, which leaves the task running.
#[verifier::external_body]
pub(crate) fn schedule_snapshots(
    executor: &ThreadPoolExecutor,
    initial: Duration,
    interval: Duration,
    service: &'static HealthService,
) {
    executor.schedule_fixed_rate(
        initial,
        interval,
        move |_remote| {
            let _ = service.get_health();
        },
    );
}

} // verus!
