use scree::addr::IpAddr;
use scree::db::ping::{
    records_readable, DbWrite, Deadlines, InsertError, MonitorRecord, MonitorRow, MonitorState, PingMonitor,
    PingMonitorExt, RowError, Stats,
};
use scree::db::util::WithId;
use scree::time::{Duration, Timestamp, MAX_SECS};

fn secs(n: u64) -> Duration {
    Duration::from_secs(n)
}

fn at(n: i64) -> Timestamp {
    Timestamp::new(n, 0).unwrap()
}

fn monitor(period: Duration, grace: Duration) -> PingMonitor {
    PingMonitor {
        token: "t".to_string(),
        name: "backup".to_string(),
        period,
        grace,
        created_at: at(1000),
    }
}

fn stats(last_ping_at: Option<Timestamp>, state: MonitorState) -> Stats {
    Stats { num_pings: 3, last_ping_at, state, state_since: at(1000) }
}

fn ext(last_ping_at: Option<Timestamp>, state: MonitorState, now: Timestamp) -> PingMonitorExt {
    let pm = WithId { inner: monitor(secs(100), secs(10)), id: 7 };
    PingMonitorExt::new(pm, stats(last_ping_at, state), now)
}

fn row(period_s: i32, grace_s: i32) -> MonitorRow {
    MonitorRow {
        token: "t".to_string(),
        name: "backup".to_string(),
        period_s,
        grace_s,
        created_at: at(1000),
    }
}

fn record(id: i32, period_s: i32, grace_s: i32) -> MonitorRecord {
    MonitorRecord { id, row: row(period_s, grace_s), stats: stats(None, MonitorState::Okay) }
}

#[test]
fn row_is_read() {
    let pm = PingMonitor::from_row(row(60, 5)).unwrap();
    assert_eq!(pm.token, "t");
    assert_eq!(pm.name, "backup");
    assert_eq!(pm.period, secs(60));
    assert_eq!(pm.grace, secs(5));
    assert_eq!(pm.created_at, at(1000));
}

#[test]
fn bad_rows_are_refused() {
    assert_eq!(PingMonitor::from_row(row(-1, 5)).err(), Some(RowError::Period));
    assert_eq!(PingMonitor::from_row(row(1, -5)).err(), Some(RowError::Grace));
    assert_eq!(PingMonitor::from_row(row(-1, -5)).err(), Some(RowError::Period));
    assert!(PingMonitor::from_row(row(0, 0)).is_ok());
}

#[test]
fn rows_are_read_in_order() {
    let rows = vec![WithId { inner: row(60, 5), id: 4 }, WithId { inner: row(30, 1), id: 2 }];
    let pings = PingMonitor::get_all(rows).unwrap();
    assert_eq!(pings.len(), 2);
    assert_eq!(pings[0].id, 4);
    assert_eq!(pings[1].id, 2);
    assert_eq!(pings[1].period, secs(30));
}

#[test]
fn first_bad_row_decides() {
    let rows = vec![
        WithId { inner: row(60, 5), id: 4 },
        WithId { inner: row(30, -1), id: 2 },
        WithId { inner: row(-30, 1), id: 3 },
    ];
    assert_eq!(PingMonitor::get_all(rows).err(), Some(RowError::Grace));
}

#[test]
fn monitor_is_stored_in_whole_seconds() {
    let pm = monitor(Duration::new(90, 999_999_999).unwrap(), Duration::new(9, 5).unwrap());
    let stored = pm.insert().unwrap();
    assert_eq!(stored.period_s, 90);
    assert_eq!(stored.grace_s, 9);
    assert_eq!(stored.name, "backup");
    let read = PingMonitor::from_row(stored).unwrap();
    assert_eq!(read.period, secs(90));
    assert_eq!(read.grace, secs(9));
    assert_eq!(read.token, "t");
}

#[test]
fn insert_errors() {
    let too_long = secs(i32::MAX as u64 + 1);
    assert_eq!(monitor(too_long, too_long).insert().err(), Some(InsertError::PeriodTooLong));
    assert_eq!(monitor(secs(0), too_long).insert().err(), Some(InsertError::GraceTooLong));
    assert_eq!(
        monitor(Duration::new(0, 999_999_999).unwrap(), secs(1)).insert().err(),
        Some(InsertError::PeriodTooShort)
    );
    assert_eq!(monitor(secs(i32::MAX as u64), secs(0)).insert().unwrap().period_s, i32::MAX);
    assert_eq!(InsertError::PeriodTooLong.message(), "period");
    assert_eq!(InsertError::GraceTooLong.message(), "grace");
    assert_eq!(InsertError::PeriodTooShort.message(), "period must be at least 1 second");
}

#[test]
fn state_names() {
    assert_eq!(MonitorState::Okay.to_string(), "Ok");
    assert_eq!(MonitorState::Failed.to_string(), "Failed");
}

#[test]
fn deadlines_count_from_last_ping() {
    let pm = ext(Some(at(2000)), MonitorState::Okay, at(2050));
    assert_eq!(pm.deadline(), Some(at(2110)));
    assert!(!pm.is_late(at(2099)));
    assert!(pm.is_late(at(2100)));
    assert!(pm.is_late(at(2109)));
    // the grace period is over, though the failure has not been recorded
    assert!(!pm.is_late(at(2110)));
    assert!(!pm.is_late(at(9999)));
    assert!(!pm.is_deadline_expired(at(2109)));
    assert!(pm.is_deadline_expired(at(2110)));
}

#[test]
fn deadlines_count_from_creation_without_ping() {
    let pm = ext(None, MonitorState::Okay, at(1500));
    assert_eq!(pm.deadline(), Some(at(1110)));
}

#[test]
fn deadlines_never_count_from_the_future() {
    let pm = ext(Some(at(9000)), MonitorState::Okay, at(2000));
    assert_eq!(pm.deadline(), Some(at(2110)));
}

#[test]
fn failed_monitor_has_no_deadline() {
    let pm = ext(Some(at(2000)), MonitorState::Failed, at(2050));
    assert_eq!(pm.deadline(), None);
    assert!(!pm.is_deadline_expired(at(9999)));
    assert!(!pm.is_late(at(9999)));
    assert!(pm.is_failed());
    assert!(!pm.is_ok());
}

#[test]
fn deadlines_exist_within_the_calendar() {
    let pm = monitor(secs(100), secs(10));
    assert!(Deadlines::exist(&pm, Some(at(0)), at(0)));
    assert!(Deadlines::exist(&pm, Some(at(MAX_SECS - 110)), at(MAX_SECS)));
    assert!(!Deadlines::exist(&pm, Some(at(MAX_SECS - 109)), at(MAX_SECS)));
    assert!(!Deadlines::exist(&monitor(secs(0), secs(10)), None, at(0)));
}

#[test]
fn ping_postpones_deadlines() {
    let mut pm = ext(Some(at(2000)), MonitorState::Okay, at(2050));
    let addr = Some(IpAddr::V4(0x7f00_0001));
    assert!(pm.accepts_ping(at(2060)));
    let write = pm.event_ping(at(2060), addr);
    match write {
        DbWrite::Ping { monitor_id, occurred_at, source_addr } => {
            assert_eq!(monitor_id, 7);
            assert_eq!(occurred_at, at(2060));
            assert_eq!(source_addr, addr);
        }
        _ => panic!("not a ping"),
    }
    assert!(pm.written(write).is_none());
    assert_eq!(pm.stats().num_pings, 4);
    assert_eq!(pm.stats().last_ping_at, Some(at(2060)));
    assert_eq!(pm.deadline(), Some(at(2170)));
    assert_eq!(pm.stats().state_since, at(1000));
}

#[test]
fn ping_brings_a_failed_monitor_back() {
    let mut pm = ext(Some(at(2000)), MonitorState::Failed, at(2050));
    let write = pm.event_ping(at(3000), None);
    let next = pm.written(write).unwrap();
    match next {
        DbWrite::State { monitor_id, state, state_since } => {
            assert_eq!(monitor_id, 7);
            assert_eq!(state, MonitorState::Okay);
            assert_eq!(state_since, at(3000));
        }
        _ => panic!("not a state"),
    }
    // not taken over before it has been written
    assert!(pm.is_failed());
    assert!(pm.written(next).is_none());
    assert!(pm.is_ok());
    assert_eq!(pm.stats().state_since, at(3000));
    assert_eq!(pm.deadline(), Some(at(3110)));
}

#[test]
fn failure_is_recorded_once() {
    let mut pm = ext(Some(at(2000)), MonitorState::Okay, at(2050));
    let write = pm.event_deadline_expired(at(2200)).unwrap();
    match write {
        DbWrite::State { monitor_id, state, state_since } => {
            assert_eq!(monitor_id, 7);
            assert_eq!(state, MonitorState::Failed);
            assert_eq!(state_since, at(2200));
        }
        _ => panic!("not a state"),
    }
    assert!(pm.written(write).is_none());
    assert!(pm.is_failed());
    assert_eq!(pm.stats().state_since, at(2200));
    assert!(pm.event_deadline_expired(at(2300)).is_none());
}

#[test]
fn pings_that_cannot_be_counted() {
    let pm = WithId { inner: monitor(secs(100), secs(10)), id: 7 };
    let full = Stats { num_pings: i64::MAX, ..stats(None, MonitorState::Okay) };
    assert!(!PingMonitorExt::new(pm, full, at(2000)).accepts_ping(at(2000)));
    assert!(!ext(None, MonitorState::Okay, at(2000)).accepts_ping(at(MAX_SECS - 100)));
}

#[test]
fn extended_monitor_gives_access_to_the_plain_one() {
    let pm = ext(None, MonitorState::Okay, at(2000)).clone();
    assert_eq!(pm.id, 7);
    assert_eq!(pm.name, "backup");
    assert_eq!(pm.period, secs(100));
    assert_eq!(pm.state(), MonitorState::Okay);
}

#[test]
fn records_are_read_in_order() {
    let records = vec![record(4, 60, 5), record(2, 30, 1)];
    assert!(records.iter().all(|r| r.is_readable(at(2000))));
    let pms = PingMonitorExt::get_all(records, at(2000)).unwrap();
    assert_eq!(pms.len(), 2);
    assert_eq!(pms[0].id, 4);
    assert_eq!(pms[0].deadline(), Some(at(1065)));
    assert_eq!(pms[1].id, 2);
    assert_eq!(pms[1].deadline(), Some(at(1031)));
}

#[test]
fn first_bad_record_decides() {
    let records = vec![record(1, 60, 5), record(2, -30, 1), record(3, 30, -1)];
    assert_eq!(PingMonitorExt::get_all(records, at(2000)).err(), Some(RowError::Period));
}

#[test]
fn records_without_deadlines_are_not_readable() {
    assert!(!record(1, 0, 5).is_readable(at(2000)));
    assert!(record(1, -1, 5).is_readable(at(2000)));
    let mut far = record(1, 100, 5);
    far.stats.last_ping_at = Some(at(MAX_SECS - 10));
    assert!(!far.is_readable(at(MAX_SECS)));
    assert!(far.is_readable(at(2000)));
}

#[test]
fn reload_agrees_with_memory() {
    let mut pms = PingMonitorExt::get_all(vec![record(7, 100, 10)], at(1050)).unwrap();
    let write = pms[0].event_ping(at(1100), None);
    assert!(pms[0].written(write).is_none());
    let mut stored = record(7, 100, 10);
    stored.stats = *pms[0].stats();
    let reloaded = PingMonitorExt::get_all(vec![stored], at(1150)).unwrap();
    assert_eq!(reloaded[0].deadline(), pms[0].deadline());
    assert_eq!(reloaded[0].deadline(), Some(at(1210)));
    assert_eq!(reloaded[0].is_late(at(1200)), pms[0].is_late(at(1200)));
    assert_eq!(reloaded[0].stats().num_pings, 4);
}

#[test]
fn silence_since_last_ping_decides() {
    let mut pm = ext(None, MonitorState::Okay, at(1500));
    for t in [1600, 5000, 5109] {
        let write = pm.event_ping(at(t), None);
        assert!(pm.written(write).is_none());
        assert!(!pm.is_late(at(t + 99)));
        assert!(pm.is_late(at(t + 100)));
        assert!(pm.is_late(at(t + 109)));
        assert!(!pm.is_late(at(t + 110)));
        assert!(!pm.is_deadline_expired(at(t + 109)));
        assert!(pm.is_deadline_expired(at(t + 110)));
    }
    assert_eq!(pm.stats().num_pings, 6);
}

#[test]
fn reload_agrees_after_failure() {
    let mut pms = PingMonitorExt::get_all(vec![record(7, 100, 10)], at(1050)).unwrap();
    let write = pms[0].event_deadline_expired(at(1110)).unwrap();
    assert!(pms[0].written(write).is_none());
    let mut stored = record(7, 100, 10);
    stored.stats = *pms[0].stats();
    let reloaded = PingMonitorExt::get_all(vec![stored], at(1200)).unwrap();
    assert!(reloaded[0].is_failed());
    assert_eq!(reloaded[0].stats().state_since, at(1110));
    assert_eq!(format!("{:?}", reloaded[0]), format!("{:?}", pms[0]));
}

#[test]
fn state_labels() {
    let pm = ext(Some(at(2000)), MonitorState::Okay, at(2050));
    assert_eq!(pm.state_label(at(2099)), "Ok");
    assert_eq!(pm.state_label(at(2100)), "Late");
    assert_eq!(pm.state_label(at(2109)), "Late");
    assert_eq!(pm.state_label(at(2110)), "Failed");
    assert_eq!(ext(None, MonitorState::Failed, at(2050)).state_label(at(0)), "Failed");
}

#[test]
fn readable_up_to_the_first_bad_record() {
    assert!(records_readable(&vec![], at(2000)));
    assert!(records_readable(&vec![record(1, 60, 5), record(2, 30, 1)], at(2000)));
    assert!(!records_readable(&vec![record(1, 60, 5), record(2, 0, 1)], at(2000)));
    // a record behind one that describes no monitor is not reached
    let records = vec![record(1, 60, 5), record(2, -30, 1), record(3, 0, 1)];
    assert!(records_readable(&records, at(2000)));
    assert_eq!(PingMonitorExt::get_all(records, at(2000)).err(), Some(RowError::Period));
}
