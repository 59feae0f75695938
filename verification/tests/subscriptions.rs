use scree::db::notifications::{
    notice_level, poll_postgres_connection, Backoff, Command, LogLevel, LoopAction, LoopEvent,
    PollAction, PollEnd, PollEvent, Reply, SubscriptionLoop, SubscriptionManager, SubscriptionStep,
};
use scree::time::{Duration, Instant};

fn secs(n: u64) -> Duration {
    Duration::from_secs(n)
}

fn tick(n: u64) -> Instant {
    Instant::new(secs(n))
}

fn executes(step: &SubscriptionStep, expected: &str) -> bool {
    matches!(step, SubscriptionStep::Execute(stmt) if stmt == expected)
}

#[test]
fn attempts_become_rarer() {
    let mut b = Backoff::new();
    assert_eq!(b.wait(tick(0)), None);
    for delay in [1, 5, 10, 30, 60, 60, 60] {
        assert_eq!(b.wait(tick(0)), Some(secs(delay)));
    }
    assert_eq!(b.consecutive_failures(), 7);
}

#[test]
fn long_lived_connection_resets_backoff() {
    let mut b = Backoff::new();
    b.wait(tick(0));
    b.wait(tick(1));
    b.wait(tick(2));
    assert_eq!(b.consecutive_failures(), 2);
    assert_eq!(b.wait(tick(301)), Some(secs(10)));
    assert_eq!(b.wait(tick(601)), None);
    assert_eq!(b.consecutive_failures(), 0);
    assert_eq!(b.wait(tick(602)), Some(secs(1)));
}

#[test]
fn channel_name_rules() {
    assert!(SubscriptionManager::is_channel_safe("ping_monitors_changed"));
    assert!(SubscriptionManager::is_channel_safe("AZaz_"));
    assert!(SubscriptionManager::is_channel_safe(""));
    for bad in ["a b", "a;", "a1", "ä", "a'", "@", "[", "`", "{"] {
        assert!(!SubscriptionManager::is_channel_safe(bad));
    }
}

#[test]
fn one_statement_per_channel() {
    let mut m = SubscriptionManager::new();
    let step = m.subscribe("abc");
    assert!(executes(&step, "LISTEN abc"));
    assert_eq!(m.subscribers("abc"), 0);
    m.listening("abc");
    assert_eq!(m.subscribers("abc"), 1);
    assert!(matches!(m.subscribe("abc"), SubscriptionStep::Reply(Reply::Done)));
    assert_eq!(m.subscribers("abc"), 2);
    assert!(matches!(m.unsubscribe("abc"), SubscriptionStep::Reply(Reply::Done)));
    assert_eq!(m.subscribers("abc"), 1);
    let step = m.unsubscribe("abc");
    assert!(executes(&step, "UNLISTEN abc"));
    assert_eq!(m.subscribers("abc"), 1);
    m.unlistened("abc");
    assert_eq!(m.subscribers("abc"), 0);
}

#[test]
fn refused_subscriptions() {
    let mut m = SubscriptionManager::new();
    assert!(matches!(m.subscribe("a b"), SubscriptionStep::Reply(Reply::UnsafeChannel)));
    assert!(matches!(m.unsubscribe("abc"), SubscriptionStep::Reply(Reply::NotSubscribed)));
    assert_eq!(
        Reply::UnsafeChannel.message("a b").unwrap(),
        "only ASCII letters and '_' are allowed in channel names"
    );
    assert_eq!(Reply::NotSubscribed.message("abc").unwrap(), "not subscribed to channel 'abc'");
    assert!(Reply::Done.message("abc").is_none());
    assert!(Reply::DatabaseError.message("abc").is_none());
}

#[test]
fn loop_connects_and_serves() {
    let (mut l, action) = SubscriptionLoop::new(tick(0));
    assert!(matches!(action, LoopAction::Wait(None)));
    assert!(matches!(l.next(LoopEvent::Waited { cancelled: false }, tick(0)), LoopAction::Connect));
    assert!(matches!(l.next(LoopEvent::Connected(true), tick(0)), LoopAction::Select));
    let subscribe = LoopEvent::Command(Command::Subscribe("abc".to_string()));
    assert!(l.expects(&subscribe));
    let action = l.next(subscribe, tick(1));
    assert!(matches!(action, LoopAction::Execute(stmt) if stmt == "LISTEN abc"));
    assert!(!l.expects(&LoopEvent::Command(Command::Subscribe("abc".to_string()))));
    assert!(matches!(l.next(LoopEvent::Executed(true), tick(1)), LoopAction::Reply(Reply::Done)));
    let again = LoopEvent::Command(Command::Subscribe("abc".to_string()));
    assert!(matches!(l.next(again, tick(2)), LoopAction::Reply(Reply::Done)));
    let leave = LoopEvent::Command(Command::Unsubscribe("xyz".to_string()));
    assert!(matches!(l.next(leave, tick(2)), LoopAction::Reply(Reply::NotSubscribed)));
}

#[test]
fn subscribers_survive_reconnection() {
    let (mut l, _) = SubscriptionLoop::new(tick(0));
    l.next(LoopEvent::Waited { cancelled: false }, tick(0));
    l.next(LoopEvent::Connected(true), tick(0));
    l.next(LoopEvent::Command(Command::Subscribe("abc".to_string())), tick(0));
    l.next(LoopEvent::Executed(true), tick(0));
    let action = l.next(LoopEvent::PollFinished(PollEnd::ConnectionError), tick(10));
    assert!(matches!(action, LoopAction::Wait(Some(d)) if d == secs(1)));
    l.next(LoopEvent::Waited { cancelled: false }, tick(11));
    let action = l.next(LoopEvent::Connected(false), tick(12));
    assert!(matches!(action, LoopAction::Wait(Some(d)) if d == secs(5)));
    l.next(LoopEvent::Waited { cancelled: false }, tick(17));
    l.next(LoopEvent::Connected(true), tick(17));
    // the subscriber is still counted
    let again = LoopEvent::Command(Command::Subscribe("abc".to_string()));
    assert!(matches!(l.next(again, tick(18)), LoopAction::Reply(Reply::Done)));
}

#[test]
fn refused_statement_counts_nobody() {
    let (mut l, _) = SubscriptionLoop::new(tick(0));
    l.next(LoopEvent::Waited { cancelled: false }, tick(0));
    l.next(LoopEvent::Connected(true), tick(0));
    l.next(LoopEvent::Command(Command::Subscribe("abc".to_string())), tick(0));
    assert!(matches!(l.next(LoopEvent::Executed(false), tick(0)), LoopAction::Reply(Reply::DatabaseError)));
    let leave = LoopEvent::Command(Command::Unsubscribe("abc".to_string()));
    assert!(matches!(l.next(leave, tick(1)), LoopAction::Reply(Reply::NotSubscribed)));
}

#[test]
fn loop_stops_when_told() {
    let (mut l, _) = SubscriptionLoop::new(tick(0));
    assert!(matches!(l.next(LoopEvent::Waited { cancelled: true }, tick(0)), LoopAction::Stop));
    assert!(!l.expects(&LoopEvent::Waited { cancelled: true }));
    let (mut l, _) = SubscriptionLoop::new(tick(0));
    l.next(LoopEvent::Waited { cancelled: false }, tick(0));
    l.next(LoopEvent::Connected(true), tick(0));
    assert!(matches!(l.next(LoopEvent::PollFinished(PollEnd::Stopped), tick(0)), LoopAction::Stop));
    let (mut l, _) = SubscriptionLoop::new(tick(0));
    l.next(LoopEvent::Waited { cancelled: false }, tick(0));
    l.next(LoopEvent::Connected(true), tick(0));
    let action = l.next(LoopEvent::PollFinished(PollEnd::Panicked), tick(400));
    assert!(matches!(action, LoopAction::Wait(None)));
}

#[test]
fn notice_levels() {
    for quiet in ["NOTICE", "DEBUG", "INFO", "LOG"] {
        assert_eq!(notice_level(quiet), LogLevel::Debug);
    }
    assert_eq!(notice_level("WARNING"), LogLevel::Warn);
    for loud in ["ERROR", "FATAL", "PANIC", "notice", ""] {
        assert_eq!(notice_level(loud), LogLevel::Error);
    }
}

#[test]
fn polling() {
    assert_eq!(poll_postgres_connection(&PollEvent::Cancelled), PollAction::Stop);
    assert_eq!(poll_postgres_connection(&PollEvent::Notification), PollAction::Forward);
    assert_eq!(
        poll_postgres_connection(&PollEvent::Notice("WARNING".to_string())),
        PollAction::Log(LogLevel::Warn)
    );
    assert_eq!(poll_postgres_connection(&PollEvent::OtherMessage), PollAction::Log(LogLevel::Warn));
    assert_eq!(poll_postgres_connection(&PollEvent::Failed), PollAction::Fail);
    assert_eq!(poll_postgres_connection(&PollEvent::Closed), PollAction::Stop);
}

#[test]
fn count_is_granted_minus_ended() {
    let mut m = SubscriptionManager::new();
    let mut balance: i64 = 0;
    // true: subscribe, false: unsubscribe
    for subscribe in [false, true, true, false, true, true, false, false, false, false, true] {
        let step = if subscribe { m.subscribe("abc") } else { m.unsubscribe("abc") };
        let granted = match step {
            SubscriptionStep::Reply(reply) => reply == Reply::Done,
            SubscriptionStep::Execute(_) => {
                if subscribe {
                    m.listening("abc");
                } else {
                    m.unlistened("abc");
                }
                true
            }
        };
        if granted {
            balance += if subscribe { 1 } else { -1 };
        }
        assert!(balance >= 0);
        assert_eq!(m.subscribers("abc") as i64, balance);
        assert_eq!(m.subscribers("xyz"), 0);
    }
    assert_eq!(balance, 1);
}
