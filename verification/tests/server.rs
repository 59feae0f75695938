use axum::http::{HeaderMap, HeaderName, HeaderValue};
use scree::addr::IpAddr;
use scree::cmd::run::deadline_watcher::{
    check_deadlines, get_next_deadline, on_deadline_expired, send_failure_alert, time_until,
    watch_deadlines, WatchAction, WatchEvent,
};
use scree::cmd::run::http::{
    find_addr, get_remote_addr, handle_dashboard, handle_ping, http_dashboard, http_ping,
    AddrSource, DashboardError, PingError, REALIP_HEADER,
};
use scree::cmd::run::reload::{
    process_reload_requests, reload_ping_monitors, ReloadAction, ReloadEvent, ReloadRequest,
};
use scree::cmd::run::{
    exit_result, join_error, join_task, min_reload_interval, poll_db_notifications, task_error,
    AppState, JoinAction, JoinEvent, JoinOutcome, NotificationAction, PingMonitors, TaskJoiner,
    TaskPlan, TaskStage,
};
use scree::db::ping::{
    DbWrite, MonitorRecord, MonitorRow, MonitorState, PingMonitor, PingMonitorExt, RowError, Stats,
};
use scree::db::util::WithId;
use scree::time::{Duration, Instant, Timestamp};

fn secs(n: u64) -> Duration {
    Duration::from_secs(n)
}

fn at(n: i64) -> Timestamp {
    Timestamp::new(n, 0).unwrap()
}

fn tick(n: u64) -> Instant {
    Instant::new(secs(n))
}

fn pm(id: i32, name: &str, last_ping_at: Option<Timestamp>, state: MonitorState) -> PingMonitorExt {
    let inner = PingMonitor {
        token: "t".to_string(),
        name: name.to_string(),
        period: secs(100),
        grace: secs(10),
        created_at: at(1000),
    };
    let stats = Stats { num_pings: 0, last_ping_at, state, state_since: at(1000) };
    PingMonitorExt::new(WithId { inner, id }, stats, at(5000))
}

fn monitors() -> PingMonitors {
    PingMonitors::new(vec![
        pm(4, "a", Some(at(2000)), MonitorState::Okay),
        pm(2, "b", Some(at(1500)), MonitorState::Failed),
        pm(9, "c", Some(at(1800)), MonitorState::Okay),
    ])
}

fn state() -> AppState {
    AppState { last_reload: tick(100), ping_monitors: monitors() }
}

fn record(id: i32, name: &str, period_s: i32) -> MonitorRecord {
    MonitorRecord {
        id,
        row: MonitorRow {
            token: "t".to_string(),
            name: name.to_string(),
            period_s,
            grace_s: 1,
            created_at: at(1000),
        },
        stats: Stats { num_pings: 0, last_ping_at: None, state: MonitorState::Okay, state_since: at(1000) },
    }
}

#[test]
fn monitors_are_found_by_key() {
    let pms = monitors();
    assert_eq!(pms.len(), 3);
    assert_eq!(pms.find(4), Some(0));
    assert_eq!(pms.find(2), Some(1));
    assert_eq!(pms.find(9), Some(2));
    assert_eq!(pms.find(5), None);
    assert_eq!(pms.get(2).name, "c");
    let twice = PingMonitors::new(vec![
        pm(4, "a", None, MonitorState::Okay),
        pm(4, "b", None, MonitorState::Okay),
    ]);
    assert_eq!(twice.find(4), Some(1));
}

#[test]
fn new_state_is_empty() {
    let state = AppState::new(tick(3));
    assert_eq!(state.last_reload, tick(3));
    assert_eq!(state.ping_monitors.len(), 0);
    assert_eq!(min_reload_interval(), secs(5));
}

#[test]
fn critical_task_ends_the_server() {
    let plan = TaskPlan::spawn();
    let mut stage = TaskStage::Spawned;
    let mut stages = Vec::new();
    while stage != TaskStage::Finished {
        stage = plan.next(stage);
        stages.push(stage);
    }
    assert_eq!(stages, [TaskStage::Running, TaskStage::CancellingShutdown, TaskStage::Finished]);
}

#[test]
fn shutdown_task_waits() {
    let plan = TaskPlan::spawn_on_shutdown();
    let mut stage = TaskStage::Spawned;
    let mut stages = Vec::new();
    while stage != TaskStage::Finished {
        stage = plan.next(stage);
        stages.push(stage);
    }
    assert_eq!(stages, [TaskStage::WaitingForShutdown, TaskStage::Running, TaskStage::Finished]);
    assert_eq!(plan.next(TaskStage::Finished), TaskStage::Finished);
}

#[test]
fn task_messages() {
    assert_eq!(task_error("http server"), "error in task 'http server'");
    assert_eq!(join_error("reload_task"), "error joining task 'reload_task'");
}

#[test]
fn joined_tasks() {
    let mut errors: Vec<&str> = Vec::new();
    assert!(!join_task(&mut errors, JoinOutcome::Finished));
    assert!(errors.is_empty());
    assert!(!join_task(&mut errors, JoinOutcome::TaskFailed("a")));
    assert!(join_task(&mut errors, JoinOutcome::JoinFailed("b")));
    assert_eq!(errors, ["a", "b"]);
}

#[test]
fn exit_results() {
    assert_eq!(exit_result(Err("startup"), vec!["a"]), Err("startup"));
    assert_eq!(exit_result(Ok(()), vec!["a", "b"]), Err("a"));
    assert_eq!(exit_result::<&str>(Ok(()), vec![]), Ok(()));
}

#[test]
fn server_ends_as_its_tasks_do() {
    let mut errors: Vec<&str> = Vec::new();
    for outcome in [
        JoinOutcome::Finished,
        JoinOutcome::JoinFailed("second"),
        JoinOutcome::TaskFailed("third"),
        JoinOutcome::Finished,
    ] {
        join_task(&mut errors, outcome);
    }
    assert_eq!(exit_result(Ok(()), errors.clone()), Err("second"));
    assert_eq!(exit_result(Err("startup"), errors), Err("startup"));
}

#[test]
fn joining_goes_on_until_none_are_left() {
    let mut joiner: TaskJoiner<&str> = TaskJoiner::new();
    assert_eq!(joiner.next(JoinEvent::Taken(2)), JoinAction::Join);
    assert_eq!(joiner.next(JoinEvent::Joined(JoinOutcome::TaskFailed("a"))), JoinAction::Join);
    assert_eq!(joiner.next(JoinEvent::Joined(JoinOutcome::Finished)), JoinAction::Take);
    // a task was registered in the meantime
    assert_eq!(joiner.next(JoinEvent::Taken(1)), JoinAction::Join);
    assert_eq!(joiner.next(JoinEvent::Joined(JoinOutcome::JoinFailed("b"))), JoinAction::Take);
    assert_eq!(joiner.next(JoinEvent::Taken(0)), JoinAction::Done);
    assert_eq!(joiner.into_errors(), ["a", "b"]);
    assert!(JoinOutcome::JoinFailed("b").should_log());
    assert!(!JoinOutcome::TaskFailed("a").should_log());
    assert!(!JoinOutcome::<&str>::Finished.should_log());
}

#[test]
fn check_fails_the_expired() {
    let mut pms = monitors();
    let now = at(2110);
    for idx in check_deadlines(&pms, now) {
        let (write, _) = on_deadline_expired(pms.get(idx), now).unwrap();
        assert!(pms.written(idx, write).is_none());
    }
    assert!(check_deadlines(&pms, now).is_empty());
    assert!((0..3).all(|idx| pms.get(idx).is_failed()));
    assert_eq!(pms.get(0).stats().state_since, now);
    // this one had failed before
    assert_eq!(pms.get(1).stats().state_since, at(1000));
    assert_eq!(pms.get(2).stats().state_since, now);
}

#[test]
fn database_notifications() {
    assert_eq!(poll_db_notifications("ping_monitors_changed"), NotificationAction::ReloadPingMonitors);
    assert_eq!(poll_db_notifications("ping_monitors"), NotificationAction::Unhandled);
}

#[test]
fn next_deadline_is_the_earliest() {
    assert_eq!(get_next_deadline(&monitors(), at(1700)), at(1910));
    // a failed monitor has none
    assert_eq!(get_next_deadline(&monitors(), at(9000)), at(1910));
    let empty = PingMonitors::new(vec![]);
    assert_eq!(get_next_deadline(&empty, at(0)), at(86_400));
    let far = PingMonitors::new(vec![pm(1, "a", Some(at(3000)), MonitorState::Okay)]);
    assert_eq!(get_next_deadline(&far, at(-90_000)), at(-3600));
}

#[test]
fn sleep_until_deadline() {
    assert_eq!(time_until(at(1910), at(1700)), secs(210));
    assert_eq!(time_until(at(1910), at(2000)), secs(0));
}

#[test]
fn watch_reacts() {
    assert_eq!(watch_deadlines(WatchEvent::Shutdown), WatchAction::Stop);
    assert_eq!(watch_deadlines(WatchEvent::DeadlinesUpdated), WatchAction::Sleep);
    assert_eq!(watch_deadlines(WatchEvent::Elapsed), WatchAction::Check);
}

#[test]
fn expired_monitors() {
    assert_eq!(check_deadlines(&monitors(), at(1909)), Vec::<usize>::new());
    assert_eq!(check_deadlines(&monitors(), at(1910)), [2]);
    assert_eq!(check_deadlines(&monitors(), at(2110)), [0, 2]);
}

#[test]
fn failure_alert_text() {
    let alert = send_failure_alert(&pm(1, "backup", Some(at(0)), MonitorState::Okay), at(77));
    assert_eq!(alert.subject, "Failed: backup");
    assert_eq!(
        alert.message,
        "Ping monitor failed: backup (last ping was at 1970-01-01 00:00:00 +00:00)"
    );
    assert_eq!(alert.created_at, at(77));
    let alert = send_failure_alert(&pm(1, "backup", None, MonitorState::Okay), at(77));
    assert_eq!(alert.message, "Ping monitor failed: backup (never pinged)");
}

#[test]
fn one_alert_for_a_failure() {
    let mut pms = monitors();
    let now = at(1910);
    let idx = check_deadlines(&pms, now)[0];
    let (write, alert) = on_deadline_expired(pms.get(idx), now).unwrap();
    assert_eq!(alert.subject, "Failed: c");
    assert!(matches!(write, DbWrite::State { monitor_id: 9, state: MonitorState::Failed, .. }));
    assert!(pms.written(idx, write).is_none());
    assert!(check_deadlines(&pms, now).is_empty());
    assert!(on_deadline_expired(pms.get(idx), now).is_none());
    assert_eq!(pms.find(9), Some(2));
}

#[test]
fn reload_is_rate_limited() {
    let mut s = state();
    let req = ReloadEvent::Request(ReloadRequest::new(tick(103)));
    match process_reload_requests(&mut s, req, tick(103)) {
        ReloadAction::Retry(again, delay) => {
            assert_eq!(again, ReloadRequest::new(tick(103)));
            assert_eq!(delay, secs(2));
        }
        other => panic!("{:?}", other),
    }
    assert_eq!(s.last_reload, tick(100));
    assert!(matches!(process_reload_requests(&mut s, req, tick(105)), ReloadAction::Reload));
    assert_eq!(s.last_reload, tick(105));
    // the request is older than the reload that it led to
    assert!(matches!(process_reload_requests(&mut s, req, tick(120)), ReloadAction::Ignore));
    assert_eq!(s.last_reload, tick(105));
    let same = ReloadEvent::Request(ReloadRequest::new(tick(105)));
    assert!(matches!(process_reload_requests(&mut s, same, tick(120)), ReloadAction::Reload));
}

#[test]
fn retried_request_is_served_by_another() {
    let mut s = state();
    let first = ReloadRequest::new(tick(103));
    let again = match process_reload_requests(&mut s, ReloadEvent::Request(first), tick(103)) {
        ReloadAction::Retry(again, delay) => {
            assert_eq!(delay, secs(2));
            again
        }
        other => panic!("{:?}", other),
    };
    // another request leads to a reload before the first one comes in again
    let second = ReloadEvent::Request(ReloadRequest::new(tick(104)));
    assert!(matches!(process_reload_requests(&mut s, second, tick(105)), ReloadAction::Reload));
    let action = process_reload_requests(&mut s, ReloadEvent::Request(again), tick(106));
    assert!(matches!(action, ReloadAction::Ignore));
    assert_eq!(s.last_reload, tick(105));
}

#[test]
fn reload_task_stops() {
    let mut s = state();
    assert!(matches!(process_reload_requests(&mut s, ReloadEvent::Shutdown, tick(200)), ReloadAction::Stop));
    assert!(matches!(process_reload_requests(&mut s, ReloadEvent::Closed, tick(200)), ReloadAction::Stop));
    assert!(ReloadEvent::Shutdown.ends());
    assert!(ReloadEvent::Closed.ends());
    assert!(!ReloadEvent::Request(ReloadRequest::new(tick(0))).ends());
    assert_eq!(s.last_reload, tick(100));
}

#[test]
fn reload_takes_over_records() {
    let mut s = state();
    let records = vec![record(1, "x", 60), record(5, "y", 30)];
    assert_eq!(reload_ping_monitors(&mut s, records, at(2000)), Ok(2));
    assert_eq!(s.ping_monitors.len(), 2);
    assert_eq!(s.ping_monitors.find(5), Some(1));
    assert_eq!(s.ping_monitors.find(4), None);
    assert_eq!(s.ping_monitors.get(0).deadline(), Some(at(1061)));
    assert_eq!(s.last_reload, tick(100));
}

#[test]
fn failed_reload_keeps_monitors() {
    let mut s = state();
    let records = vec![record(1, "x", 60), record(5, "y", -30)];
    assert_eq!(reload_ping_monitors(&mut s, records, at(2000)), Err(RowError::Period));
    assert_eq!(s.ping_monitors.len(), 3);
    assert_eq!(s.ping_monitors.find(4), Some(0));
}

#[test]
fn ping_is_for_one_monitor() {
    let mut s = state();
    let addr = Some(IpAddr::V4(0x0102_0304));
    let (idx, write) = handle_ping(&s, Some(2), at(3000), addr).ok().unwrap();
    assert_eq!(idx, 1);
    match write {
        DbWrite::Ping { monitor_id, occurred_at, source_addr } => {
            assert_eq!((monitor_id, occurred_at, source_addr), (2, at(3000), addr));
        }
        _ => panic!("not a ping"),
    }
    let next = s.ping_monitors.written(idx, write).unwrap();
    assert!(s.ping_monitors.written(idx, next).is_none());
    assert!(s.ping_monitors.get(1).is_ok());
    assert_eq!(s.ping_monitors.get(1).deadline(), Some(at(3110)));
    assert_eq!(s.ping_monitors.get(0).deadline(), Some(at(2110)));
    assert_eq!(s.ping_monitors.get(2).deadline(), Some(at(1910)));
}

#[test]
fn refused_pings() {
    let s = state();
    let e = handle_ping(&s, None, at(3000), None).err().unwrap();
    assert!(matches!(e, PingError::DoesNotExist));
    assert_eq!(e.message(), "no ping monitor exists for the given token");
    assert_eq!(http_ping(&Err(e)), (Err(404), false));
    let e = handle_ping(&s, Some(5), at(3000), None).err().unwrap();
    assert!(matches!(e, PingError::Other(_)));
    assert_eq!(e.message(), "retrieving monitor index for id");
    assert_eq!(http_ping(&Err(e)), (Err(500), true));
    assert_eq!(http_ping(&Ok(())), (Ok("OK"), false));
}

#[test]
fn error_statuses() {
    assert_eq!(PingError::DoesNotExist.status_code(), 404);
    assert!(!PingError::DoesNotExist.should_log());
    let other = PingError::Other("x".to_string());
    assert_eq!(other.status_code(), 500);
    assert!(other.should_log());
    let dashboard = DashboardError::Other("y".to_string());
    assert_eq!(dashboard.status_code(), 500);
    assert!(dashboard.should_log());
    assert_eq!(dashboard.message(), "y");
    assert_eq!(http_dashboard(Err(dashboard)), (Err(500), true));
    assert_eq!(http_dashboard(Ok("<html>".to_string())), (Ok("<html>".to_string()), false));
}

#[test]
fn dashboard_shows_all_monitors() {
    let s = state();
    let d = handle_dashboard(&s, at(3000), at(0), "1.2.3");
    assert_eq!(d.pms.len(), 3);
    assert_eq!(d.pms[1].name, "b");
    assert_eq!(d.pms[1].state(), MonitorState::Failed);
    assert_eq!(d.started_at, "1970-01-01 00:00:00 +00:00");
    assert_eq!(d.version, "1.2.3");
    assert_eq!(d.now, at(3000));
    assert!(d.is_sorted());
}

#[test]
fn order_of_names() {
    let names = ["", "B", "a", "a b", "aa", "ab", "b", "é", "日", "😀"];
    for i in 0..names.len() {
        for j in 0..names.len() {
            let s = AppState {
                last_reload: tick(0),
                ping_monitors: PingMonitors::new(vec![
                    pm(1, names[i], None, MonitorState::Okay),
                    pm(2, names[j], None, MonitorState::Okay),
                ]),
            };
            let sorted = handle_dashboard(&s, at(0), at(0), "").is_sorted();
            assert_eq!(sorted, names[i] <= names[j]);
            assert_eq!(sorted, i <= j);
        }
    }
}

#[test]
fn client_address_from_connection() {
    let mut headers = HeaderMap::new();
    headers.insert(HeaderName::from_static(REALIP_HEADER), HeaderValue::from_static("10.0.0.1"));
    let conn = Some(IpAddr::V4(1));
    let source = get_remote_addr(false, conn, &headers);
    assert!(matches!(source, AddrSource::Connection(a) if a == conn));
    assert_eq!(source.addr(None), conn);
    let source = get_remote_addr(true, conn, &HeaderMap::new());
    assert!(matches!(source, AddrSource::Connection(a) if a == conn));
    let source = get_remote_addr(true, None, &HeaderMap::new());
    assert_eq!(source.addr(Some(IpAddr::V4(2))), None);
}

#[test]
fn client_address_from_header() {
    let mut headers = HeaderMap::new();
    headers.append("X-Real-IP", HeaderValue::from_static("10.0.0.1"));
    headers.append("x-real-ip", HeaderValue::from_static("10.0.0.2"));
    let source = get_remote_addr(true, Some(IpAddr::V4(1)), &headers);
    assert!(matches!(&source, AddrSource::Header(text) if text == "10.0.0.1"));
    assert_eq!(source.addr(Some(IpAddr::V4(2))), Some(IpAddr::V4(2)));
    assert_eq!(source.addr(None), None);
}

#[test]
fn unreadable_header() {
    let mut headers = HeaderMap::new();
    headers.insert(REALIP_HEADER, HeaderValue::from_bytes(&[0xe4]).unwrap());
    let source = get_remote_addr(true, Some(IpAddr::V4(1)), &headers);
    assert!(matches!(source, AddrSource::Unreadable));
    assert_eq!(source.addr(Some(IpAddr::V4(2))), None);
}

#[test]
fn header_text_agrees_with_http() {
    for byte in 0..=255u8 {
        let readable = matches!(find_addr(true, None, Some(vec![byte])), AddrSource::Header(_));
        if let Ok(value) = HeaderValue::from_bytes(&[byte]) {
            assert_eq!(readable, value.to_str().is_ok());
        } else {
            assert!(!readable);
        }
    }
    let source = find_addr(true, None, Some(b"::1\t~".to_vec()));
    assert!(matches!(source, AddrSource::Header(text) if text == "::1\t~"));
}
