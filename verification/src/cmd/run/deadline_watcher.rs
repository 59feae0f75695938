//! The watch over deadlines: when to look at the monitors, and what to do about a failure.

use vstd::prelude::*;
use vstd::string::*;

use crate::cmd::run::{after_write_at, monitors_wf, PingMonitors};
use crate::db::alert::{Alert, AlertSpec};
use crate::db::ping::{DbWrite, ExtSpec, MonitorState, PingMonitorExt, WriteSpec};
use crate::time::{max_time, utc_text, Duration, Timestamp, NANOS_PER_SEC, SECS_PER_DAY};

verus! {

/// The nanoseconds after which deadlines are looked at in any case.
pub open spec fn longest_sleep() -> int {
    SECS_PER_DAY * NANOS_PER_SEC
}

/// Whether the given point in time is the next one at which deadlines have to be looked at: the
/// earliest deadline of all monitors, but at most a day from now.
pub open spec fn is_next_deadline(monitors: Seq<ExtSpec>, now: int, next: int) -> bool {
    &&& next <= now + longest_sleep()
    &&& forall|i: int|
        0 <= i < monitors.len() && (#[trigger] monitors[i]).deadline() is Some ==> next
            <= monitors[i].deadline()->0
    &&& next == now + longest_sleep() || exists|i: int|
        0 <= i < monitors.len() && (#[trigger] monitors[i]).deadline() == Some(next)
}

/// The next point in time at which deadlines have to be looked at.
pub fn get_next_deadline(ping_monitors: &PingMonitors, now: Timestamp) -> (res: Timestamp)
    requires
        now@ + longest_sleep() <= max_time(),
    ensures
        is_next_deadline(ping_monitors@, now@, res@),
{
    let mut deadline: Timestamp = now.plus(Duration::from_secs(SECS_PER_DAY));
    let ghost monitors = ping_monitors@;
    let mut idx: usize = 0;
    while idx < ping_monitors.len()
        invariant
            idx <= monitors.len(),
            monitors == ping_monitors@,
            is_next_deadline(monitors.take(idx as int), now@, deadline@),
        decreases monitors.len() - idx,
    {
        let ghost seen = monitors.take(idx as int);
        let ghost more = monitors.take(idx + 1);
        let ghost before = deadline@;
        if let Some(pm_deadline) = ping_monitors.get(idx).deadline() {
            if pm_deadline.is_before(deadline) {
                deadline = pm_deadline;
            }
        }
        proof {
            assert(more[idx as int] == monitors[idx as int]);
            assert forall|i: int|
                0 <= i < more.len() && (#[trigger] more[i]).deadline() is Some implies deadline@
                <= more[i].deadline()->0 by {
                if i < idx {
                    assert(more[i] == seen[i]);
                }
            }
            if deadline@ == before && before != now@ + longest_sleep() {
                let i = choose|i: int|
                    0 <= i < seen.len() && (#[trigger] seen[i]).deadline() == Some(before);
                assert(more[i] == seen[i]);
            }
        }
        idx = idx + 1;
    }
    assert(monitors.take(idx as int) =~= monitors);
    deadline
}

/// The nanoseconds to sleep until a deadline: none if it has passed already.
pub open spec fn sleep_until(next: int, now: int) -> int {
    if now <= next {
        next - now
    } else {
        0
    }
}

/// How long to sleep until the given deadline.
pub fn time_until(next_deadline: Timestamp, now: Timestamp) -> (res: Duration)
    ensures
        res@ == sleep_until(next_deadline@, now@),
{
    match next_deadline.since(now) {
        Some(delta) => delta,
        None => Duration::from_secs(0),
    }
}

/// What ends the sleep of the watch.
#[derive(Debug, Clone, Copy, PartialEq, Eq, Structural)]
pub enum WatchEvent {
    /// The server shuts down.
    Shutdown,
    /// Some deadlines have changed.
    DeadlinesUpdated,
    /// The next deadline has come.
    Elapsed,
}

/// What the watch does when it wakes up.
#[derive(Debug, Clone, Copy, PartialEq, Eq, Structural)]
pub enum WatchAction {
    /// End.
    Stop,
    /// Compute the next deadline and sleep again.
    Sleep,
    /// Look at all deadlines, then compute the next one and sleep again.
    Check,
}

/// What the watch does when it wakes up.
pub fn watch_deadlines(event: WatchEvent) -> (res: WatchAction)
    ensures
        res == match event {
            WatchEvent::Shutdown => WatchAction::Stop,
            WatchEvent::DeadlinesUpdated => WatchAction::Sleep,
            WatchEvent::Elapsed => WatchAction::Check,
        },
{
    match event {
        WatchEvent::Shutdown => WatchAction::Stop,
        WatchEvent::DeadlinesUpdated => WatchAction::Sleep,
        WatchEvent::Elapsed => WatchAction::Check,
    }
}

/// Whether the given places are those of all monitors whose deadline has expired, in order.
pub open spec fn are_expired(monitors: Seq<ExtSpec>, now: int, places: Seq<usize>) -> bool {
    &&& forall|k: int|
        0 <= k < places.len() ==> (#[trigger] places[k]) < monitors.len()
            && monitors[places[k] as int].is_deadline_expired(now)
    &&& forall|k: int, l: int| 0 <= k < l < places.len() ==> places[k] < places[l]
    &&& forall|i: int|
        0 <= i < monitors.len() && (#[trigger] monitors[i]).is_deadline_expired(now) ==> exists|
            k: int,
        |
            0 <= k < places.len() && #[trigger] places[k] == i
}

/// The places of the monitors whose deadline has expired, in order.
pub fn check_deadlines(ping_monitors: &PingMonitors, now: Timestamp) -> (res: Vec<usize>)
    ensures
        are_expired(ping_monitors@, now@, res@),
{
    let mut res: Vec<usize> = Vec::new();
    let ghost monitors = ping_monitors@;
    let mut idx: usize = 0;
    while idx < ping_monitors.len()
        invariant
            idx <= monitors.len(),
            monitors == ping_monitors@,
            forall|k: int| 0 <= k < res.len() ==> (#[trigger] res[k]) < idx,
            are_expired(monitors.take(idx as int), now@, res@),
        decreases monitors.len() - idx,
    {
        let ghost seen = monitors.take(idx as int);
        let ghost more = monitors.take(idx + 1);
        let ghost before = res@;
        if ping_monitors.get(idx).is_deadline_expired(now) {
            res.push(idx);
        }
        proof {
            assert(forall|i: int| 0 <= i < seen.len() ==> (#[trigger] more[i]) == seen[i]);
            assert forall|i: int|
                0 <= i < more.len() && (#[trigger] more[i]).is_deadline_expired(now@) implies exists|
                k: int,
            |
                0 <= k < res@.len() && #[trigger] res@[k] == i by {
                if i < idx {
                    assert(seen[i].is_deadline_expired(now@));
                    let k = choose|k: int| 0 <= k < before.len() && #[trigger] before[k] == i;
                    assert(res@[k] == i);
                } else {
                    assert(res@[before.len() as int] == i);
                }
            }
        }
        idx = idx + 1;
    }
    assert(monitors.take(idx as int) =~= monitors);
    res
}

/// The alert that tells of the failure of a monitor.
pub open spec fn failure_alert(m: ExtSpec, occurred_at: int) -> AlertSpec {
    AlertSpec {
        subject: "Failed: "@ + m.monitor.name,
        message: "Ping monitor failed: "@ + m.monitor.name + match m.stats.last_ping_at {
            Some(t) => " (last ping was at "@ + utc_text(t) + ")"@,
            None => " (never pinged)"@,
        },
        created_at: occurred_at,
    }
}

/// The alert that tells of the failure of a monitor.
pub fn send_failure_alert(pm: &PingMonitorExt, occurred_at: Timestamp) -> (res: Alert)
    ensures
        res@ == failure_alert(pm@, occurred_at@),
{
    let mut subject: String = "Failed: ".to_string();
    subject.append(pm.inner.name.as_str());
    let mut message: String = "Ping monitor failed: ".to_string();
    message.append(pm.inner.name.as_str());
    match pm.stats().last_ping_at {
        Some(last_ping_at) => {
            message.append(" (last ping was at ");
            message.append(last_ping_at.format().as_str());
            message.append(")");
        },
        None => {
            message.append(" (never pinged)");
        },
    }
    proof {
        if let Some(t) = pm@.stats.last_ping_at {
            assert(message@ =~= failure_alert(pm@, occurred_at@).message);
        }
    }
    Alert { subject, message, created_at: occurred_at }
}

/// What follows from the failure of a monitor: a write to the database and an alert.
pub open spec fn on_expiry(m: ExtSpec, at: int) -> Option<(WriteSpec, AlertSpec)> {
    match m.state_write(MonitorState::Failed, at) {
        Some(write) => Some((write, failure_alert(m, at))),
        None => None,
    }
}

/// The view of what follows from the failure of a monitor.
pub open spec fn view_expiry(expiry: Option<(DbWrite, Alert)>) -> Option<(WriteSpec, AlertSpec)> {
    match expiry {
        Some((write, alert)) => Some((write@, alert@)),
        None => None,
    }
}

/// The deadline of a monitor has expired. The new state has to be written to the database, and
/// the alert has to be sent, whether or not the write succeeds. There is nothing to do for a
/// monitor that has failed already.
pub fn on_deadline_expired(pm: &PingMonitorExt, expired_at: Timestamp) -> (res: Option<
    (DbWrite, Alert),
>)
    ensures
        view_expiry(res) == on_expiry(pm@, expired_at@),
{
    match pm.event_deadline_expired(expired_at) {
        Some(write) => Some((write, send_failure_alert(pm, expired_at))),
        None => None,
    }
}

/// The watch sleeps through no deadline: when it wakes up, no deadline has passed but those that
/// had passed before it fell asleep. It sleeps for a day at most.
pub proof fn law_no_deadline_is_slept_through(
    monitors: Seq<ExtSpec>,
    now: int,
    next: int,
    i: int,
)
    requires
        is_next_deadline(monitors, now, next),
        0 <= i < monitors.len(),
        monitors[i].deadline() is Some,
    ensures
        0 <= sleep_until(next, now) <= longest_sleep(),
        now + sleep_until(next, now) <= monitors[i].deadline()->0 || monitors[i].deadline()->0
            <= now,
        monitors[i].deadline()->0 <= now ==> sleep_until(next, now) == 0,
{
}

/// The watch does not wake up in vain: unless it has slept for a whole day, some deadline has
/// expired by then, and is found.
pub proof fn law_waking_up_finds_a_failure(
    monitors: Seq<ExtSpec>,
    now: int,
    next: int,
    later: int,
    places: Seq<usize>,
)
    requires
        is_next_deadline(monitors, now, next),
        later >= now + sleep_until(next, now),
        are_expired(monitors, later, places),
    ensures
        sleep_until(next, now) < longest_sleep() ==> places.len() > 0,
{
    if sleep_until(next, now) < longest_sleep() {
        let i = choose|i: int|
            0 <= i < monitors.len() && (#[trigger] monitors[i]).deadline() == Some(next);
        assert(monitors[i].is_deadline_expired(later));
    }
}

/// There is an alert for every monitor whose deadline has expired, and as soon as the failure is
/// recorded there is no second one. The alert is the same whether the failure is recorded or
/// not.
pub proof fn law_one_alert_for_a_failure(m: ExtSpec, at: int, later: int)
    requires
        m.is_deadline_expired(at),
    ensures
        on_expiry(m, at) == Some(
            (
                WriteSpec::State { monitor_id: m.id, state: MonitorState::Failed, state_since: at },
                failure_alert(m, at),
            ),
        ),
        m.after_write(m.state_write(MonitorState::Failed, at)->0) == m.after_deadline_expired(at),
        !m.after_deadline_expired(at).is_deadline_expired(later),
        on_expiry(m.after_deadline_expired(at), later) is None,
        failure_alert(m.after_deadline_expired(at), at) == failure_alert(m, at),
{
}

/// The monitors once the failures of those at the given places have been written to the database,
/// one after the other.
pub open spec fn after_check(monitors: Seq<ExtSpec>, places: Seq<usize>, now: int) -> Seq<ExtSpec>
    decreases places.len(),
{
    if places.len() == 0 {
        monitors
    } else {
        let before = after_check(monitors, places.drop_last(), now);
        let idx = places.last() as int;
        match before[idx].state_write(MonitorState::Failed, now) {
            Some(write) => after_write_at(before, idx, write),
            None => before,
        }
    }
}

/// What the writes for some of the expired monitors have changed.
proof fn lemma_after_check(monitors: Seq<ExtSpec>, places: Seq<usize>, now: int)
    requires
        forall|k: int|
            0 <= k < places.len() ==> (#[trigger] places[k]) < monitors.len()
                && monitors[places[k] as int].is_deadline_expired(now),
        forall|k: int, l: int| 0 <= k < l < places.len() ==> places[k] < places[l],
    ensures
        after_check(monitors, places, now).len() == monitors.len(),
        forall|i: int|
            0 <= i < monitors.len() ==> #[trigger] after_check(monitors, places, now)[i] == if (
            exists|k: int| 0 <= k < places.len() && #[trigger] places[k] == i) {
                monitors[i].after_deadline_expired(now)
            } else {
                monitors[i]
            },
    decreases places.len(),
{
    if places.len() > 0 {
        let rest = places.drop_last();
        let n = rest.len() as int;
        let idx = places.last() as int;
        assert forall|k: int| 0 <= k < n implies (#[trigger] rest[k]) < monitors.len()
            && monitors[rest[k] as int].is_deadline_expired(now) by {
            assert(rest[k] == places[k]);
        }
        lemma_after_check(monitors, rest, now);
        let before = after_check(monitors, rest, now);
        assert(places[n] == idx);
        assert forall|k: int| 0 <= k < n implies #[trigger] rest[k] != idx by {
            assert(places[k] < places[n]);
        }
        assert(before[idx] == monitors[idx]);
        let after = after_check(monitors, places, now);
        assert(after == before.update(idx, monitors[idx].after_deadline_expired(now)));
        assert forall|i: int| 0 <= i < monitors.len() implies #[trigger] after[i] == if (exists|
            k: int,
        |
            0 <= k < places.len() && #[trigger] places[k] == i) {
            monitors[i].after_deadline_expired(now)
        } else {
            monitors[i]
        } by {
            if i == idx {
                assert(places[n] == i);
            } else {
                assert(after[i] == before[i]);
                if exists|k: int| 0 <= k < rest.len() && #[trigger] rest[k] == i {
                    let k = choose|k: int| 0 <= k < rest.len() && #[trigger] rest[k] == i;
                    assert(places[k] == i);
                }
                if exists|k: int| 0 <= k < places.len() && #[trigger] places[k] == i {
                    let k = choose|k: int| 0 <= k < places.len() && #[trigger] places[k] == i;
                    assert(rest[k] == i);
                }
            }
        }
    }
}

/// A whole check, with all its writes, makes exactly those monitors fail whose deadline has
/// expired, and leaves the others as they were. After it no deadline has expired, and monitors
/// stay well formed.
pub proof fn law_check_fails_the_expired(monitors: Seq<ExtSpec>, places: Seq<usize>, now: int)
    requires
        are_expired(monitors, now, places),
    ensures
        ({
            let after = after_check(monitors, places, now);
            &&& after.len() == monitors.len()
            &&& forall|i: int|
                0 <= i < monitors.len() ==> #[trigger] after[i] == if monitors[i].is_deadline_expired(
                    now,
                ) {
                    monitors[i].after_deadline_expired(now)
                } else {
                    monitors[i]
                }
            &&& forall|i: int|
                0 <= i < after.len() ==> !(#[trigger] after[i]).is_deadline_expired(now)
            &&& monitors_wf(monitors) ==> monitors_wf(after)
        }),
{
    lemma_after_check(monitors, places, now);
    let after = after_check(monitors, places, now);
    assert forall|i: int| 0 <= i < monitors.len() implies #[trigger] after[i]
        == if monitors[i].is_deadline_expired(now) {
        monitors[i].after_deadline_expired(now)
    } else {
        monitors[i]
    } by {
        if exists|k: int| 0 <= k < places.len() && #[trigger] places[k] == i {
            let k = choose|k: int| 0 <= k < places.len() && #[trigger] places[k] == i;
            assert(monitors[places[k] as int].is_deadline_expired(now));
        }
    }
}

/// The message of a failure alert depends on the name and on the last ping alone. It tells the
/// time of the last ping if there was one, and says that there was none if and only if that is so.
pub proof fn law_failure_alert_tells_the_last_ping(m: ExtSpec, other: ExtSpec, at: int)
    ensures
        failure_alert(m, at).subject == "Failed: "@ + m.monitor.name,
        failure_alert(m, at).created_at == at,
        m.stats.last_ping_at matches Some(t) ==> failure_alert(m, at).message
            == "Ping monitor failed: "@ + m.monitor.name + (" (last ping was at "@ + utc_text(t)
            + ")"@),
        failure_alert(m, at).message == "Ping monitor failed: "@ + m.monitor.name
            + " (never pinged)"@ <==> m.stats.last_ping_at is None,
        m.monitor.name == other.monitor.name && m.stats.last_ping_at == other.stats.last_ping_at
            ==> failure_alert(m, at) == failure_alert(other, at),
{
    reveal_strlit("Ping monitor failed: ");
    reveal_strlit(" (last ping was at ");
    reveal_strlit(" (never pinged)");
    reveal_strlit(")");
    let start = "Ping monitor failed: "@ + m.monitor.name;
    let never = start + " (never pinged)"@;
    if let Some(t) = m.stats.last_ping_at {
        let rest = " (last ping was at "@ + utc_text(t) + ")"@;
        assert(rest[2] == 'l');
        assert((start + rest)[start.len() as int + 2] == 'l');
        assert(never[start.len() as int + 2] == 'n');
    }
}

/// The next look at the deadlines is a day from now, or at the failure deadline of a monitor that
/// has not failed. No such deadline comes before it, and there is only one such point in time.
pub proof fn law_next_deadline_is_the_earliest(
    monitors: Seq<ExtSpec>,
    now: int,
    next: int,
    other: int,
)
    requires
        is_next_deadline(monitors, now, next),
    ensures
        next <= now + 86_400_000_000_000,
        forall|i: int|
            0 <= i < monitors.len() && (#[trigger] monitors[i]).stats.state == MonitorState::Okay
                ==> next <= monitors[i].deadlines.fail_at,
        next < now + 86_400_000_000_000 ==> exists|i: int|
            0 <= i < monitors.len() && (#[trigger] monitors[i]).stats.state == MonitorState::Okay
                && monitors[i].deadlines.fail_at == next,
        is_next_deadline(monitors, now, other) ==> next == other,
{
    if next < now + 86_400_000_000_000 {
        let i = choose|i: int|
            0 <= i < monitors.len() && (#[trigger] monitors[i]).deadline() == Some(next);
        assert(monitors[i].stats.state == MonitorState::Okay);
    }
    assert forall|i: int|
        0 <= i < monitors.len() && (#[trigger] monitors[i]).stats.state
            == MonitorState::Okay implies next <= monitors[i].deadlines.fail_at by {
        assert(monitors[i].deadline() is Some);
    }
}

/// There is always a next look at the deadlines.
pub proof fn law_there_is_a_next_deadline(monitors: Seq<ExtSpec>, now: int)
    ensures
        exists|next: int| is_next_deadline(monitors, now, next),
    decreases monitors.len(),
{
    if monitors.len() == 0 {
        assert(is_next_deadline(monitors, now, now + longest_sleep()));
    } else {
        let rest = monitors.drop_last();
        let last = monitors.last();
        let n = rest.len() as int;
        law_there_is_a_next_deadline(rest, now);
        let before = choose|next: int| is_next_deadline(rest, now, next);
        let next = match last.deadline() {
            Some(t) if t < before => t,
            _ => before,
        };
        assert(forall|i: int| 0 <= i < n ==> (#[trigger] monitors[i]) == rest[i]);
        if next == before {
            if before != now + longest_sleep() {
                let i = choose|i: int|
                    0 <= i < rest.len() && (#[trigger] rest[i]).deadline() == Some(before);
                assert(monitors[i].deadline() == Some(before));
            }
        } else {
            assert(monitors[n].deadline() == Some(next));
        }
        assert forall|i: int|
            0 <= i < monitors.len() && (#[trigger] monitors[i]).deadline() is Some implies next
            <= monitors[i].deadline()->0 by {
            if i < n {
                assert(rest[i].deadline() is Some);
            }
        }
        assert(is_next_deadline(monitors, now, next));
    }
}

/// The watch wakes up at the deadline, or at once if that has passed.
pub proof fn law_sleep_ends_at_the_deadline(next: int, now: int)
    ensures
        next >= now ==> now + sleep_until(next, now) == next,
        next <= now ==> sleep_until(next, now) == 0,
{
}

/// A check finds a monitor if and only if it has not failed and its failure deadline has come, and
/// it finds it once.
pub proof fn law_check_finds_the_overdue(
    monitors: Seq<ExtSpec>,
    now: int,
    places: Seq<usize>,
    i: int,
)
    requires
        are_expired(monitors, now, places),
        0 <= i < monitors.len(),
    ensures
        (exists|k: int| 0 <= k < places.len() && #[trigger] places[k] == i) <==> monitors[i].stats.state
            == MonitorState::Okay && monitors[i].deadlines.fail_at <= now,
        forall|k: int, l: int|
            0 <= k < places.len() && 0 <= l < places.len() && #[trigger] places[k] == i
                && #[trigger] places[l] == i ==> k == l,
{
    if exists|k: int| 0 <= k < places.len() && #[trigger] places[k] == i {
        let k = choose|k: int| 0 <= k < places.len() && #[trigger] places[k] == i;
        assert(monitors[places[k] as int].is_deadline_expired(now));
    }
    if monitors[i].stats.state == MonitorState::Okay && monitors[i].deadlines.fail_at <= now {
        assert(monitors[i].is_deadline_expired(now));
    }
    assert forall|k: int, l: int|
        0 <= k < places.len() && 0 <= l < places.len() && #[trigger] places[k] == i
            && #[trigger] places[l] == i implies k == l by {
        if k < l {
            assert(places[k] < places[l]);
        } else if l < k {
            assert(places[l] < places[k]);
        }
    }
}

/// There is something to do about an expired deadline if and only if the monitor has not failed:
/// the failure is written for that monitor, with its date, and the alert is dated the same.
pub proof fn law_expiry_is_written_and_told(m: ExtSpec, at: int)
    ensures
        on_expiry(m, at) is None <==> m.stats.state == MonitorState::Failed,
        on_expiry(m, at) matches Some(expiry) ==> {
            let (write, alert) = expiry;
            &&& write == (WriteSpec::State {
                monitor_id: m.id,
                state: MonitorState::Failed,
                state_since: at,
            })
            &&& alert.created_at == at
            &&& alert.subject == "Failed: "@ + m.monitor.name
        },
{
}

/// What is shown of an expiry are its write and its alert.
pub proof fn law_view_of_an_expiry(write: DbWrite, alert: Alert)
    ensures
        view_expiry(Some((write, alert))) == Some((write@, alert@)),
        view_expiry(None) is None,
{
}

} // verus!
