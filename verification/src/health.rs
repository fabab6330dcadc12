//! The health record of a component and the operations that keep it current.

use crate::health_dependency::{
    all_available, copy_dependencies, dependencies_available, dependency_views, DependencyView,
    HealthDependency,
};
use crate::host::{
    cpu_bits, cpu_usage_bits, pid_number, resident_bytes, schedule_snapshots, since_unix_epoch,
    whole_seconds,
};
use scheduled_executor::ThreadPoolExecutor;
use std::time::{Duration, SystemTime, SystemTimeError};
use sysinfo::{Pid, Process, System};
use vstd::prelude::*;

verus! {

/// Why a reading of the host could not be taken.
#[derive(Debug, Clone, Copy, PartialEq, Eq, Structural)]
pub enum HealthError {
    /// The wall clock reads a time before the Unix epoch.
    ClockBeforeEpoch,
    /// The operating system could not report on the running process.
    StatsUnavailable,
    /// The operating system refused the thread that schedules the refresh.
    SchedulerUnavailable,
}

/// The seconds since the Unix epoch that an elapsed-time reading stands for.
pub open spec fn timestamp_of(elapsed: Result<Duration, SystemTimeError>) -> Result<
    u64,
    HealthError,
> {
    match elapsed {
        Ok(d) => Ok(whole_seconds(d)),
        Err(_) => Err(HealthError::ClockBeforeEpoch),
    }
}

/// Turns the time elapsed since the Unix epoch into a timestamp in whole
/// seconds; a clock that reads before the epoch gives `ClockBeforeEpoch`.
pub fn timestamp_from(elapsed: Result<Duration, SystemTimeError>) -> (stamp: Result<
    u64,
    HealthError,
>)
    ensures
        stamp == timestamp_of(elapsed),
{
    match elapsed {
        Ok(d) => Ok(d.as_secs()),
        Err(_) => Err(HealthError::ClockBeforeEpoch),
    }
}

/// The current wall-clock time in whole seconds since the Unix epoch.
///
/// The reading itself is the host's; the only failure is a clock set before
/// the epoch.
pub fn current_timestamp() -> (stamp: Result<u64, HealthError>)
    ensures
        stamp is Err ==> stamp == Err::<u64, HealthError>(HealthError::ClockBeforeEpoch),
{
    let now = SystemTime::now();
    timestamp_from(since_unix_epoch(&now))
}

/// The coarse lifecycle phase of the owning process. Any phase may follow any
/// other: no transition is refused.
#[derive(Debug, Clone, Copy, PartialEq, Eq, Structural)]
pub enum AppState {
    Stopped,
    Stopping,
    Started,
    Running,
    Error,
    NotRunning,
}

/// The number of bytes in one megabyte, as memory is reported here.
pub const BYTES_PER_MB: u64 = 1048576;

/// Resource usage of the running process at the moment it was sampled.
#[derive(Debug, Clone, Copy, PartialEq, Eq, Structural)]
pub struct Stats {
    /// Resident memory in whole megabytes.
    pub used_mem: u64,
    /// Processor usage in percent, as the bit pattern of a single-precision
    /// number.
    pub used_cpu_bits: u32,
    /// The operating system's identifier of the process.
    pub pid: u32,
}

impl Stats {
    /// The statistics that stand for one raw sample: memory in bytes is
    /// rounded down to whole megabytes, the rest is kept as it came.
    pub open spec fn of_sample(mem_bytes: u64, cpu_bits: u32, pid: u32) -> Stats {
        Stats { used_mem: mem_bytes / BYTES_PER_MB, used_cpu_bits: cpu_bits, pid }
    }

    /// Builds the statistics from one raw sample of the process.
    pub fn from_sample(mem_bytes: u64, cpu_bits: u32, pid: u32) -> (stats: Stats)
        ensures
            stats == Stats::of_sample(mem_bytes, cpu_bits, pid),
    {
        Stats { used_mem: mem_bytes / BYTES_PER_MB, used_cpu_bits: cpu_bits, pid }
    }

    /// Whether some raw sample gives these statistics: the memory figure is
    /// then no more than the largest byte count in megabytes.
    pub open spec fn is_sample(self) -> bool {
        self.used_mem <= u64::MAX / BYTES_PER_MB
    }

    /// The statistics of the process `pid` as its row of the process table
    /// records them: memory and processor usage are read off the row, the
    /// identifier is the number of `pid`.
    pub open spec fn of_process(row: Process, pid: Pid) -> Stats {
        Stats::of_sample(resident_bytes(row), cpu_bits(row), pid_number(pid))
    }

    /// What a look at the process table yields for the process `pid`: the
    /// statistics of its row, or `StatsUnavailable` where the table has none.
    pub open spec fn of_lookup(row: Option<&Process>, pid: Pid) -> Result<Stats, HealthError> {
        match row {
            Some(process) => Ok(Stats::of_process(*process, pid)),
            None => Err(HealthError::StatsUnavailable),
        }
    }
}

/// What a look at the process table yields for the running process: its
/// statistics where the table has a row for it, `StatsUnavailable` where it
/// has none.
pub fn stats_of_row(row: Option<&Process>, pid: Pid) -> (stats: Result<Stats, HealthError>)
    ensures
        stats == Stats::of_lookup(row, pid),
        stats is Ok ==> stats->Ok_0.is_sample(),
{
    match row {
        Some(process) => Ok(
            Stats::from_sample(process.memory(), cpu_usage_bits(process), pid.as_u32()),
        ),
        None => Err(HealthError::StatsUnavailable),
    }
}

/// Samples the resource usage of the running process from the host.
///
/// The process is looked up in a fresh process table under its own
/// identifier. The statistics are those of the row found: its memory in whole
/// megabytes, its processor usage, and the number of the identifier it was
/// looked up under. Which row that is, and whether there is one, is the
/// host's to say; a host that names no identifier or has no row gives
/// `StatsUnavailable`.
pub fn get_stats() -> (stats: Result<Stats, HealthError>)
    ensures
        stats matches Ok(s) ==> s.is_sample() && exists|row: Process, pid: Pid|
            s == #[trigger] Stats::of_process(row, pid),
        stats is Err ==> stats == Err::<Stats, HealthError>(HealthError::StatsUnavailable),
{
    let mut sys = System::new_all();
    sys.refresh_all();
    match sysinfo::get_current_pid() {
        Ok(pid) => stats_of_row(sys.process(pid), pid),
        Err(_) => Err(HealthError::StatsUnavailable),
    }
}

/// Seconds for which a record or a report counts as recent.
pub const RECENT_SECS: u64 = 300;

/// Whether, at time `now`, either a report stamped `timestamp` or a record
/// started at `started` is less than [`RECENT_SECS`] old. All three are
/// seconds since the Unix epoch.
pub open spec fn is_recent(now: u64, timestamp: u64, started: u64) -> bool {
    now - timestamp < RECENT_SECS || now - started < RECENT_SECS
}

/// What a reading of the clock says of a report stamped `timestamp` and a
/// record started at `started`: whether either is recent, where the clock
/// was read and neither lies after the reading; nothing otherwise.
pub open spec fn recency_of(clock: Result<u64, HealthError>, timestamp: u64, started: u64)
    -> Option<bool> {
    match clock {
        Ok(now) => if timestamp <= now && started <= now {
            Some(is_recent(now, timestamp, started))
        } else {
            None
        },
        Err(_) => None,
    }
}

/// The health of a component: who it is, since when it runs, what phase it is
/// in, what it uses, and the services it depends on.
///
/// One value serves both as the long-lived record that the owning process
/// keeps current and as the point-in-time snapshot handed to a reader. In a
/// snapshot `is_available` always agrees with the dependencies; in the
/// long-lived record it may have been asserted by hand and disagree until the
/// dependencies are next replaced.
#[derive(Debug)]
pub struct Health {
    pub component: String,
    pub component_description: String,
    pub version: String,
    /// Seconds since the Unix epoch at which the record was created.
    pub service_started: u64,
    pub is_available: bool,
    pub app_state: AppState,
    pub stats: Stats,
    pub dependencies: Vec<HealthDependency>,
}

/// The mathematical value of a [`Health`].
pub struct HealthView {
    pub component: Seq<char>,
    pub component_description: Seq<char>,
    pub version: Seq<char>,
    pub service_started: u64,
    pub is_available: bool,
    pub app_state: AppState,
    pub stats: Stats,
    pub dependencies: Seq<DependencyView>,
}

impl HealthView {
    /// A fresh record: no dependencies yet, and not available until told so.
    pub open spec fn fresh(
        component: Seq<char>,
        component_description: Seq<char>,
        version: Seq<char>,
        app_state: AppState,
        service_started: u64,
        stats: Stats,
    ) -> HealthView {
        HealthView {
            component,
            component_description,
            version,
            service_started,
            is_available: false,
            app_state,
            stats,
            dependencies: Seq::empty(),
        }
    }

    /// Whether the availability flag is the one that the dependencies give.
    pub open spec fn is_consistent(self) -> bool {
        self.is_available == all_available(self.dependencies)
    }

    /// The record in another lifecycle phase.
    pub open spec fn with_state(self, new_state: AppState) -> HealthView {
        HealthView { app_state: new_state, ..self }
    }

    /// The record with its dependencies replaced and its availability derived
    /// from the new list.
    pub open spec fn with_dependencies(self, deps: Seq<DependencyView>) -> HealthView {
        HealthView { dependencies: deps, is_available: all_available(deps), ..self }
    }

    /// The record with its availability asserted by hand, and with fresh
    /// statistics where a sample could be taken.
    pub open spec fn with_available(
        self,
        available: bool,
        sample: Result<Stats, HealthError>,
    ) -> HealthView {
        HealthView {
            is_available: available,
            stats: match sample {
                Ok(stats) => stats,
                Err(_) => self.stats,
            },
            ..self
        }
    }

    /// The snapshot of the record: everything as stored, but for the
    /// availability, which is derived anew from the dependencies, and the
    /// statistics, which are the ones just sampled.
    pub open spec fn snapshot(self, stats: Stats) -> HealthView {
        HealthView { is_available: all_available(self.dependencies), stats, ..self }
    }
}

impl View for Health {
    type V = HealthView;

    open spec fn view(&self) -> HealthView {
        HealthView {
            component: self.component@,
            component_description: self.component_description@,
            version: self.version@,
            service_started: self.service_started,
            is_available: self.is_available,
            app_state: self.app_state,
            stats: self.stats,
            dependencies: dependency_views(self.dependencies@),
        }
    }
}

impl Clone for Health {
    fn clone(&self) -> (copy: Self)
        ensures
            copy@ == self@,
    {
        Health {
            component: self.component.clone(),
            component_description: self.component_description.clone(),
            version: self.version.clone(),
            service_started: self.service_started,
            is_available: self.is_available,
            app_state: self.app_state,
            stats: self.stats,
            dependencies: copy_dependencies(&self.dependencies),
        }
    }
}

impl Health {
    /// Builds a fresh record from its identity, its first lifecycle phase and
    /// the two readings of the host that a record starts with.
    pub fn from_readings(
        comp: String,
        desc: String,
        ver: String,
        app_s: AppState,
        started: u64,
        stats: Stats,
    ) -> (health: Self)
        ensures
            health@ == HealthView::fresh(comp@, desc@, ver@, app_s, started, stats),
    {
        let dependencies: Vec<HealthDependency> = Vec::new();
        assert(dependency_views(dependencies@) =~= Seq::empty());
        Health {
            component: comp,
            component_description: desc,
            version: ver,
            is_available: false,
            app_state: app_s,
            service_started: started,
            dependencies,
            stats,
        }
    }

    /// Creates the record of a component that starts now: the clock is read
    /// for `service_started` and the process is sampled for `stats`.
    ///
    /// Fails only where the host gives no reading, and then with the error of
    /// the reading that failed; the clock is read first.
    pub fn new(comp: String, desc: String, ver: String, app_s: AppState) -> (health: Result<
        Self,
        HealthError,
    >)
        ensures
            health matches Ok(h) ==> h.stats.is_sample() && h@ == HealthView::fresh(
                comp@,
                desc@,
                ver@,
                app_s,
                h.service_started,
                h.stats,
            ),
            health matches Err(e) ==> e == HealthError::ClockBeforeEpoch || e
                == HealthError::StatsUnavailable,
    {
        let started = match current_timestamp() {
            Ok(secs) => secs,
            Err(e) => {
                return Err(e);
            },
        };
        match get_stats() {
            Ok(stats) => Ok(Health::from_readings(comp, desc, ver, app_s, started, stats)),
            Err(e) => Err(e),
        }
    }

    /// Whether every stored dependency is available. The record is left as it
    /// was.
    pub fn compute_availability(&mut self) -> (available: bool)
        ensures
            *final(self) == *old(self),
            available == all_available(old(self)@.dependencies),
    {
        dependencies_available(&self.dependencies)
    }

    /// Replaces the stored dependencies by `dep`, order kept, and derives the
    /// availability from the new list.
    pub fn update_health(&mut self, dep: Vec<HealthDependency>)
        ensures
            final(self)@ == old(self)@.with_dependencies(dependency_views(dep@)),
            final(self)@.is_consistent(),
    {
        self.dependencies = dep;
        self.is_available = dependencies_available(&self.dependencies);
    }

    /// Stores an availability flag and the outcome of sampling the process:
    /// the flag always, the statistics where the sample succeeded. Returns the
    /// sample's error where it failed.
    pub fn record_available(&mut self, available: bool, sample: Result<Stats, HealthError>) -> (done:
        Result<(), HealthError>)
        ensures
            final(self)@ == old(self)@.with_available(available, sample),
            match sample {
                Ok(_) => done == Ok::<(), HealthError>(()),
                Err(e) => done == Err::<(), HealthError>(e),
            },
    {
        self.is_available = available;
        match sample {
            Ok(stats) => {
                self.stats = stats;
                Ok(())
            },
            Err(e) => Err(e),
        }
    }

    /// Asserts the availability by hand, whatever the dependencies say, and
    /// samples the process anew.
    ///
    /// The flag may now disagree with the dependencies; it does so until
    /// [`Health::update_health`] is next called, and a snapshot never shows
    /// it. Where the process cannot be sampled the flag is still stored, the
    /// old statistics stay, and `StatsUnavailable` is returned.
    pub fn set_available(&mut self, available: bool) -> (done: Result<(), HealthError>)
        ensures
            exists|sample: Result<Stats, HealthError>|
                {
                    &&& #[trigger] old(self)@.with_available(available, sample) == final(self)@
                    &&& sample is Ok <==> done is Ok
                    &&& sample is Ok ==> sample->Ok_0.is_sample()
                },
            done is Err ==> done == Err::<(), HealthError>(HealthError::StatsUnavailable),
    {
        let sample = get_stats();
        self.record_available(available, sample)
    }

    /// Whether, at time `now`, a report stamped `timestamp` is recent or the
    /// record itself was started recently. Neither may lie after `now`.
    pub fn updated_recently_at(&self, now: u64, timestamp: u64) -> (recent: bool)
        requires
            timestamp <= now,
            self.service_started <= now,
        ensures
            recent == is_recent(now, timestamp, self.service_started),
    {
        let elapsed_since_timestamp = now - timestamp;
        let service_elapsed = now - self.service_started;
        elapsed_since_timestamp < RECENT_SECS || service_elapsed < RECENT_SECS
    }

    /// Whether, by a given reading of the clock, a report stamped
    /// `timestamp` is recent or the record itself was started recently.
    ///
    /// `None` where the clock could not be read, or reads a time before
    /// `timestamp` or before the start of the record.
    pub fn recency_at(&self, clock: Result<u64, HealthError>, timestamp: u64) -> (recent: Option<
        bool,
    >)
        ensures
            recent == recency_of(clock, timestamp, self.service_started),
    {
        match clock {
            Ok(now) => {
                if timestamp <= now && self.service_started <= now {
                    Some(self.updated_recently_at(now, timestamp))
                } else {
                    None
                }
            },
            Err(_) => None,
        }
    }

    /// Whether a report stamped `timestamp` is recent by the wall clock, or
    /// the record itself was started recently.
    ///
    /// The clock is read once, and the answer is the one that
    /// [`Health::recency_at`] gives for that reading: `None` where the clock
    /// cannot be read, or reads a time before `timestamp` or before the start
    /// of the record.
    pub fn has_updated_recently(&self, timestamp: u64) -> (recent: Option<bool>)
        ensures
            exists|clock: Result<u64, HealthError>|
                {
                    &&& recent == #[trigger] recency_of(clock, timestamp, self.service_started)
                    &&& clock is Err ==> clock == Err::<u64, HealthError>(
                        HealthError::ClockBeforeEpoch,
                    )
                },
            recent matches Some(r) ==> exists|now: u64|
                timestamp <= now && self.service_started <= now && r == #[trigger] is_recent(
                    now,
                    timestamp,
                    self.service_started,
                ),
    {
        let clock = current_timestamp();
        self.recency_at(clock, timestamp)
    }

    /// Moves the record into another lifecycle phase. Every phase is accepted
    /// after every other.
    pub fn set_state(&mut self, new_state: AppState)
        ensures
            final(self)@ == old(self)@.with_state(new_state),
    {
        self.app_state = new_state;
    }

    /// The snapshot of this record with the statistics just sampled: a value
    /// of its own, whose availability is derived from the dependencies and not
    /// taken from the stored flag.
    pub fn snapshot(&self, stats: Stats) -> (shot: Health)
        ensures
            shot@ == self@.snapshot(stats),
            shot@.is_consistent(),
    {
        Health {
            is_available: dependencies_available(&self.dependencies),
            component: self.component.clone(),
            component_description: self.component_description.clone(),
            version: self.version.clone(),
            service_started: self.service_started,
            app_state: self.app_state,
            stats,
            dependencies: copy_dependencies(&self.dependencies),
        }
    }
}

/// Seconds from [`HealthService::start`] to the first scheduled snapshot.
pub const REFRESH_DELAY_SECS: u64 = 10;

/// Seconds from one scheduled snapshot to the next.
pub const REFRESH_PERIOD_SECS: u64 = 15;

/// A health record together with the scheduler that can take snapshots of it
/// in the background.
pub struct HealthService {
    pub health: Health,
    /// The scheduler behind [`HealthService::start`].
    pub executor: ThreadPoolExecutor,
}

impl View for HealthService {
    type V = HealthView;

    open spec fn view(&self) -> HealthView {
        self.health@
    }
}

impl Clone for HealthService {
    /// A copy of the record, sharing the scheduler of the value it was made from.
    fn clone(&self) -> (copy: Self)
        ensures
            copy@ == self@,
    {
        HealthService { health: self.health.clone(), executor: self.executor.clone() }
    }
}

/// What becomes of an attempt to start the scheduler: the scheduler itself,
/// or `SchedulerUnavailable` in place of the host's error.
pub fn scheduler_from(started: Result<ThreadPoolExecutor, std::io::Error>) -> (executor: Result<
    ThreadPoolExecutor,
    HealthError,
>)
    ensures
        match started {
            Ok(e) => executor == Ok::<ThreadPoolExecutor, HealthError>(e),
            Err(_) => executor == Err::<ThreadPoolExecutor, HealthError>(
                HealthError::SchedulerUnavailable,
            ),
        },
{
    match started {
        Ok(e) => Ok(e),
        Err(_) => Err(HealthError::SchedulerUnavailable),
    }
}

/// The delay before the first scheduled snapshot and the period between
/// snapshots, as handed to the scheduler.
pub fn refresh_schedule() -> (schedule: (Duration, Duration))
    ensures
        whole_seconds(schedule.0) == REFRESH_DELAY_SECS,
        whole_seconds(schedule.1) == REFRESH_PERIOD_SECS,
{
    (Duration::from_secs(REFRESH_DELAY_SECS), Duration::from_secs(REFRESH_PERIOD_SECS))
}

impl HealthService {
    /// Creates the record of a component that starts now, as [`Health::new`]
    /// does, and a scheduler with one worker thread.
    ///
    /// Fails only where the host gives no reading or no thread, with the
    /// error of the step that failed; the record is made first.
    pub fn new(comp: String, desc: String, ver: String, app_s: AppState) -> (service: Result<
        Self,
        HealthError,
    >)
        ensures
            service matches Ok(s) ==> s.health.stats.is_sample() && s@ == HealthView::fresh(
                comp@,
                desc@,
                ver@,
                app_s,
                s.health.service_started,
                s.health.stats,
            ),
    {
        let health = match Health::new(comp, desc, ver, app_s) {
            Ok(h) => h,
            Err(e) => {
                return Err(e);
            },
        };
        match scheduler_from(ThreadPoolExecutor::new(1)) {
            Ok(executor) => Ok(HealthService { health, executor }),
            Err(e) => Err(e),
        }
    }

    /// Moves the record into another lifecycle phase. Every phase is accepted
    /// after every other.
    pub fn set_state(&mut self, new_state: AppState)
        ensures
            final(self)@ == old(self)@.with_state(new_state),
            final(self).executor == old(self).executor,
    {
        self.health.set_state(new_state);
    }

    /// The health of the component right now: the stored record with its
    /// availability derived anew from the dependencies and with statistics
    /// sampled for this call. The stored record is left as it was.
    ///
    /// Fails only where the process cannot be sampled, with
    /// `StatsUnavailable`.
    pub fn get_health(&self) -> (shot: Result<Health, HealthError>)
        ensures
            shot matches Ok(h) ==> h.stats.is_sample() && h@ == self@.snapshot(h.stats)
                && h@.is_consistent(),
            shot is Err ==> shot->Err_0 == HealthError::StatsUnavailable,
    {
        match get_stats() {
            Ok(stats) => Ok(self.health.snapshot(stats)),
            Err(e) => Err(e),
        }
    }

    /// Has the scheduler take a snapshot every [`REFRESH_PERIOD_SECS`]
    /// seconds, the first one [`REFRESH_DELAY_SECS`] seconds from now. The
    /// snapshots are taken for their side effect on the host's caches and
    /// thrown away.
    pub fn start(&'static self) {
        let (initial, interval) = refresh_schedule();
        schedule_snapshots(&self.executor, initial, interval, self);
    }
}

} // verus!
