use health_handler::health::{
    current_timestamp, refresh_schedule, scheduler_from, stats_of_row, timestamp_from,
    HealthError, REFRESH_DELAY_SECS, REFRESH_PERIOD_SECS,
};
use std::time::{Duration, SystemTime, UNIX_EPOCH};

#[test]
fn timestamp_is_the_whole_seconds_elapsed() {
    assert_eq!(timestamp_from(Ok(Duration::from_secs(90))), Ok(90));
    assert_eq!(timestamp_from(Ok(Duration::new(90, 999_999_999))), Ok(90));
    assert_eq!(timestamp_from(Ok(Duration::from_millis(1_500))), Ok(1));
    assert_eq!(timestamp_from(Ok(Duration::from_secs(0))), Ok(0));
}

#[test]
fn clock_before_the_epoch_is_an_error() {
    let later = UNIX_EPOCH + Duration::from_secs(5);
    let elapsed = UNIX_EPOCH.duration_since(later);
    assert!(elapsed.is_err());
    assert_eq!(timestamp_from(elapsed), Err(HealthError::ClockBeforeEpoch));
}

#[test]
fn current_timestamp_agrees_with_the_clock() {
    let before = SystemTime::now().duration_since(UNIX_EPOCH).unwrap().as_secs();
    let stamp = current_timestamp().unwrap();
    let after = SystemTime::now().duration_since(UNIX_EPOCH).unwrap().as_secs();
    assert!(before <= stamp);
    assert!(stamp <= after);
}

#[test]
fn refresh_runs_after_ten_seconds_and_then_every_fifteen() {
    let (initial, interval) = refresh_schedule();
    assert_eq!(REFRESH_DELAY_SECS, 10);
    assert_eq!(REFRESH_PERIOD_SECS, 15);
    assert_eq!(initial, Duration::from_secs(10));
    assert_eq!(interval, Duration::from_secs(15));
    assert_eq!(initial.as_secs(), 10);
    assert_eq!(interval.as_secs(), 15);
}

#[test]
fn missing_process_row_means_no_statistics() {
    let pid = sysinfo::get_current_pid().unwrap();
    assert_eq!(stats_of_row(None, pid), Err(HealthError::StatsUnavailable));
}

#[test]
fn process_row_gives_its_figures() {
    let mut sys = sysinfo::System::new_all();
    sys.refresh_all();
    let pid = sysinfo::get_current_pid().unwrap();
    let row = sys.process(pid).unwrap();
    let stats = stats_of_row(Some(row), pid).unwrap();
    assert_eq!(stats.used_mem, row.memory() / 1_048_576);
    assert_eq!(stats.used_cpu_bits, row.cpu_usage().to_bits());
    assert_eq!(stats.pid, pid.as_u32());
}

#[test]
fn refused_thread_means_no_scheduler() {
    let refused = std::io::Error::new(std::io::ErrorKind::Other, "no threads left");
    assert!(matches!(scheduler_from(Err(refused)), Err(HealthError::SchedulerUnavailable)));
}

#[test]
fn started_scheduler_is_handed_on() {
    let started = scheduled_executor::ThreadPoolExecutor::new(1);
    assert!(started.is_ok());
    assert!(matches!(scheduler_from(started), Ok(_)));
}
