use scree::addr::SocketAddr;
use scree::cfg::ServerConfig;
use scree::cli::{
    parse_file_mode, AddrError, AlertCommand, AlertOptions, FileModeError, PingCreateOptions,
    SocketAddrOrPath, TelegramCommand, TelegramEnableOptions, TelegramOptions, DEFAULT_LISTEN,
    DEFAULT_SOCKET_MODE,
};
use scree::cmd::alert::{execute_command, AlertAction};
use scree::cmd::ping::{
    create, create_with_token, created_lines, format_last_ping_delta, list, list_header, list_row,
    list_rows, Align,
};
use scree::db::ping::{MonitorState, PingMonitor, Stats};
use scree::db::util::WithId;
use scree::db::PropertyWrite;
use scree::time::{Duration, Timestamp};
use scree::util::into_result::IntoResult;
use scree::util::signal::{install_error, ExitStage, Signal, SignalAction, SignalEvent, DELAY_SECS};

fn secs(n: u64) -> Duration {
    Duration::from_secs(n)
}

fn at(n: i64) -> Timestamp {
    Timestamp::new(n, 0).unwrap()
}

fn options(grace: Option<Duration>) -> PingCreateOptions {
    PingCreateOptions { name: "backup".to_string(), period: secs(3600), grace }
}

fn ping() -> (WithId<PingMonitor>, Stats) {
    let inner = PingMonitor {
        token: "tok".to_string(),
        name: "backup".to_string(),
        period: secs(3600),
        grace: secs(90),
        created_at: at(0),
    };
    let stats = Stats {
        num_pings: 12,
        last_ping_at: Some(at(86_400)),
        state: MonitorState::Failed,
        state_since: at(90_090),
    };
    (WithId { inner, id: 7 }, stats)
}

#[test]
fn default_grace_is_a_tenth() {
    let pm = create_with_token(&options(None), "tok".to_string(), at(5));
    assert_eq!(pm.token, "tok");
    assert_eq!(pm.name, "backup");
    assert_eq!(pm.period, secs(3600));
    assert_eq!(pm.grace, secs(360));
    assert_eq!(pm.created_at, at(5));
    assert_eq!(create_with_token(&options(Some(secs(0))), String::new(), at(5)).grace, secs(0));
}

#[test]
fn tokens_are_random_uuids() {
    let a = create(&options(None), at(5));
    let b = create(&options(None), at(5));
    assert_ne!(a.token, b.token);
    assert_eq!(a.grace, secs(360));
    for token in [&a.token, &b.token] {
        let id = uuid::Uuid::parse_str(token).unwrap();
        assert_eq!(id.get_version_num(), 4);
        assert_eq!(&id.to_string(), token);
        assert_eq!(token.len(), 36);
        for (i, c) in token.chars().enumerate() {
            match i {
                8 | 13 | 18 | 23 => assert_eq!(c, '-'),
                14 => assert_eq!(c, '4'),
                19 => assert!(matches!(c, '8' | '9' | 'a' | 'b')),
                _ => assert!(matches!(c, '0'..='9' | 'a'..='f')),
            }
        }
    }
}

#[test]
fn report_of_a_new_monitor() {
    let (pm, _) = ping();
    assert_eq!(
        created_lines(&pm.inner),
        [
            "Added ping monitor:",
            "    token : tok",
            "    name  : backup",
            "    period: 1h",
            "    grace : 1m 30s",
        ]
    );
}

#[test]
fn last_ping_deltas() {
    assert_eq!(format_last_ping_delta(at(100), at(40)), "1m ago");
    assert_eq!(format_last_ping_delta(at(100), at(100)), "0s ago");
    assert_eq!(format_last_ping_delta(at(100), at(101)), "error: in the future");
    let now = Timestamp::new(100, 999_999_999).unwrap();
    assert_eq!(format_last_ping_delta(now, at(40)), "1m ago");
}

#[test]
fn rows_of_the_list() {
    let (pm, stats) = ping();
    let row = list_row(&pm, &stats, at(86_460));
    let texts: Vec<&str> = row.iter().map(|c| c.text.as_str()).collect();
    assert_eq!(
        texts,
        [
            "7",
            "tok",
            "backup",
            "1h",
            "1m 30s",
            "1970-01-01 00:00:00 +00:00",
            "12",
            "1970-01-02 00:00:00 +00:00 (1m ago)",
            "Failed",
            "1970-01-02 01:01:30 +00:00",
        ]
    );
    let right: Vec<usize> = (0..row.len()).filter(|&i| row[i].align == Align::Right).collect();
    assert_eq!(right, [0, 3, 4, 6]);
    let never = Stats { last_ping_at: None, num_pings: -3, ..stats };
    let row = list_row(&WithId { inner: pm.inner, id: -12 }, &never, at(0));
    assert_eq!(row[0].text, "-12");
    assert_eq!(row[6].text, "-3");
    assert_eq!(row[7].text, "");
}

#[test]
fn list_is_a_table() {
    let pings = vec![ping(), ping()];
    let header = list_header();
    assert_eq!(
        header,
        ["ID", "TOKEN", "NAME", "PERIOD", "GRACE", "CREATED", "PINGS", "LAST_PING", "STATE", "STATE_SINCE"]
    );
    assert_eq!(list_rows(&pings, at(86_460)).len(), 2);
    let text = list(&pings, at(86_460));
    let mut table = comfy_table::Table::new();
    table.load_preset(comfy_table::presets::NOTHING);
    table.set_header(&header);
    for row in list_rows(&pings, at(86_460)) {
        let cells: Vec<comfy_table::Cell> = row
            .iter()
            .map(|c| {
                let cell = comfy_table::Cell::new(&c.text);
                if c.align == Align::Right {
                    cell.set_alignment(comfy_table::CellAlignment::Right)
                } else {
                    cell
                }
            })
            .collect();
        table.add_row(cells);
    }
    assert_eq!(text, table.to_string());
    assert_eq!(text.lines().count(), 3);
    assert!(text.lines().next().unwrap().contains("STATE_SINCE"));
    let none = list(&vec![], at(0));
    assert_eq!(none.lines().count(), 1);
}

#[test]
fn telegram_commands() {
    let enable = AlertOptions {
        command: AlertCommand::Telegram(TelegramOptions {
            command: TelegramCommand::Enable(TelegramEnableOptions {
                bot_token: "b".to_string(),
                chat_id: "c".to_string(),
            }),
        }),
    };
    match execute_command(&enable, at(5)) {
        AlertAction::Store(writes) => {
            assert_eq!(writes.len(), 2);
            assert!(matches!(&writes[0], PropertyWrite::Upsert { name, value }
                if name == "telegram_bot_token" && value == "b"));
            assert!(matches!(&writes[1], PropertyWrite::Upsert { name, value }
                if name == "telegram_chat_id" && value == "c"));
        }
        AlertAction::Send(_) => panic!("nothing to send"),
    }
    let disable = AlertOptions {
        command: AlertCommand::Telegram(TelegramOptions { command: TelegramCommand::Disable }),
    };
    match execute_command(&disable, at(5)) {
        AlertAction::Store(writes) => {
            assert_eq!(writes.len(), 2);
            assert!(writes.iter().all(|w| matches!(w, PropertyWrite::Delete { .. })));
        }
        AlertAction::Send(_) => panic!("nothing to send"),
    }
}

#[test]
fn alert_test_command() {
    match execute_command(&AlertOptions { command: AlertCommand::Test }, at(5)) {
        AlertAction::Send(alert) => {
            assert_eq!(alert.subject, "Test");
            assert_eq!(alert.message, "This is a test message.");
            assert_eq!(alert.created_at, at(5));
        }
        AlertAction::Store(_) => panic!("nothing to store"),
    }
}

#[test]
fn listen_addresses() {
    let addr = SocketAddr::V4 { ip: 0x7f00_0001, port: 3000 };
    let unix = SocketAddrOrPath::from_str("/run/scree/scree.sock", Some(addr));
    assert!(matches!(unix, Ok(SocketAddrOrPath::Unix(path)) if path == "/run/scree/scree.sock"));
    let inet = SocketAddrOrPath::from_str(DEFAULT_LISTEN, Some(addr));
    assert!(matches!(inet, Ok(SocketAddrOrPath::Inet(a)) if a == addr));
    let v6 = SocketAddr::V6 { ip: 1, port: 80, flowinfo: 5, scope_id: 3 };
    let inet = SocketAddrOrPath::from_str("[::1%3]:80", Some(v6));
    assert!(matches!(inet, Ok(SocketAddrOrPath::Inet(a)) if a == v6));
    assert_eq!(SocketAddrOrPath::from_str("scree.sock", None).err(), Some(AddrError));
    assert_eq!(SocketAddrOrPath::from_str("", None).err(), Some(AddrError));
}

#[test]
fn file_modes() {
    assert_eq!(parse_file_mode(DEFAULT_SOCKET_MODE), Ok(0o700));
    assert_eq!(parse_file_mode("0660"), Ok(0o660));
    assert_eq!(parse_file_mode("+7"), Ok(7));
    assert_eq!(parse_file_mode("37777777777"), Ok(u32::MAX));
    for bad in ["", "8", "-7", "7 7", "+", "40000000000", "0o7"] {
        assert_eq!(parse_file_mode(bad), Err(FileModeError));
        assert!(u32::from_str_radix(bad, 8).is_err());
    }
    assert_eq!(FileModeError.message(), "unable to parse as octal number");
}

#[test]
fn configuration_in_code() {
    let mut cfg = ServerConfig::new();
    assert_eq!(cfg.listen_addr, SocketAddr::V4 { ip: u32::from_be_bytes([127, 0, 0, 1]), port: 3000 });
    assert!(cfg.pings.is_empty());
    cfg.ping("t1", "first", secs(60), secs(6));
    cfg.ping("t2", "second", secs(30), secs(3));
    assert_eq!(cfg.pings.len(), 2);
    assert_eq!(cfg.pings[0].token, "t1");
    assert_eq!(cfg.pings[1].name, "second");
    assert_eq!(cfg.pings[1].period, secs(30));
    assert_eq!(cfg.pings[1].grace, secs(3));
}

#[test]
fn simple_answers() {
    assert_eq!(scree::dashboard(), "Hello World!");
    assert_eq!(scree::ping("abc"), "pinged abc");
}

#[test]
fn results_of_tasks() {
    let nothing: Result<(), String> = ().into_result();
    assert_eq!(nothing, Ok(()));
    let error: Result<u8, String> = Err("x".to_string());
    assert_eq!(error.into_result(), Err("x".to_string()));
}

#[test]
fn signal_names() {
    let names: Vec<&str> = Signal::ALL.iter().map(|s| s.name()).collect();
    assert_eq!(names, ["SIGINT", "SIGTERM", "SIGHUP", "SIGALRM", "SIGUSR1", "SIGUSR2"]);
    assert_eq!(install_error(Signal::Hangup), "unable to install signal handler for SIGHUP");
    assert_eq!(DELAY_SECS, 5);
}

#[test]
fn impatient_user() {
    let ctrl_c = SignalEvent::Received(Signal::Interrupt);
    let mut stage = ExitStage::Running;
    assert_eq!(stage.message(ctrl_c).unwrap(), "Received signal: SIGINT");
    assert_eq!(stage.next(ctrl_c), SignalAction::RunExitHandler);
    for _ in 0..10 {
        assert_eq!(stage.message(ctrl_c), None);
        assert_eq!(stage.next(ctrl_c), SignalAction::WaitAgain);
    }
    assert_eq!(
        stage.message(SignalEvent::DelayElapsed).unwrap(),
        "Clean-up is taking longer than expected. Re-installing terminating signal handlers in 5 seconds."
    );
    assert_eq!(stage.next(SignalEvent::DelayElapsed), SignalAction::WarnAndWait);
    assert_eq!(stage.next(ctrl_c), SignalAction::WaitAgain);
    assert_eq!(
        stage.message(SignalEvent::DelayElapsed).unwrap(),
        "Re-installed terminating signal handlers."
    );
    assert_eq!(stage.next(SignalEvent::DelayElapsed), SignalAction::WaitForSignal);
    assert_eq!(stage.message(ctrl_c).unwrap(), "Received signal: SIGINT ... terminating process.");
    assert_eq!(stage.next(ctrl_c), SignalAction::Abort);
    assert_eq!(stage, ExitStage::Aborted);
}

#[test]
fn delays_before_the_first_signal_do_not_count() {
    let mut stage = ExitStage::Running;
    for _ in 0..3 {
        assert_eq!(stage.next(SignalEvent::DelayElapsed), SignalAction::Nothing);
        assert_eq!(stage, ExitStage::Running);
    }
    let term = SignalEvent::Received(Signal::Terminate);
    assert_eq!(stage.next(term), SignalAction::RunExitHandler);
    assert_eq!(stage.next(term), SignalAction::WaitAgain);
    assert_eq!(stage, ExitStage::CleaningUp);
}

#[test]
fn closed_signal_streams() {
    let mut stage = ExitStage::Running;
    assert_eq!(
        stage.message(SignalEvent::Closed).unwrap(),
        "All signal streams are closed. This should never happen."
    );
    assert_eq!(stage.next(SignalEvent::Closed), SignalAction::RunExitHandler);
    stage.next(SignalEvent::DelayElapsed);
    stage.next(SignalEvent::DelayElapsed);
    assert_eq!(
        stage.message(SignalEvent::Closed).unwrap(),
        "All signal streams are closed. This should never happen. Terminating process."
    );
    assert_eq!(stage.next(SignalEvent::Closed), SignalAction::Abort);
}
