//! Loading the monitors anew: when it happens, and what it changes.

use vstd::prelude::*;

use crate::cmd::run::{
    min_reload_interval, monitors_wf, AppState, PingMonitors, MIN_RELOAD_INTERVAL,
};
use crate::db::ping::{all_readable, first_error, view_all, MonitorRecord, PingMonitorExt, RowError};
use crate::time::{span_between, Duration, Instant, Timestamp, NANOS_PER_SEC};

verus! {

/// The wish that the monitors be loaded anew. Its view is the clock reading when it came up.
#[derive(Debug, Clone, Copy, PartialEq, Eq, Structural)]
pub struct ReloadRequest {
    timestamp: Instant,
}

impl View for ReloadRequest {
    type V = int;

    closed spec fn view(&self) -> int {
        self.timestamp@
    }
}

impl ReloadRequest {
    /// A request that comes up now.
    pub fn new(now: Instant) -> (res: Self)
        ensures
            res@ == now@,
    {
        ReloadRequest { timestamp: now }
    }
}

/// What happens to the task that reloads.
#[derive(Debug, Clone, Copy)]
pub enum ReloadEvent {
    /// The server shuts down.
    Shutdown,
    /// Nobody can make requests any more.
    Closed,
    /// A request has come in.
    Request(ReloadRequest),
}

impl ReloadEvent {
    /// Whether the task ends, whatever the state of the server is.
    pub fn ends(&self) -> (res: bool)
        ensures
            res == !(self is Request),
            forall|last_reload: int, now: int| #[trigger]
                on_event(last_reload, *self, now) == ReloadSpec::Stop <==> res,
    {
        match self {
            ReloadEvent::Request(_) => false,
            _ => true,
        }
    }
}

/// What the task that reloads has to do.
#[derive(Debug, Clone, Copy)]
pub enum ReloadAction {
    /// End.
    Stop,
    /// Nothing: the request is older than the last reload.
    Ignore,
    /// Load the monitors anew.
    Reload,
    /// Bring in the request again after the given span.
    Retry(ReloadRequest, Duration),
}

/// What the task that reloads has to do, in mathematical terms.
pub enum ReloadSpec {
    Stop,
    Ignore,
    Reload,
    Retry { timestamp: int, delay: int },
}

impl View for ReloadAction {
    type V = ReloadSpec;

    open spec fn view(&self) -> ReloadSpec {
        match self {
            ReloadAction::Stop => ReloadSpec::Stop,
            ReloadAction::Ignore => ReloadSpec::Ignore,
            ReloadAction::Reload => ReloadSpec::Reload,
            ReloadAction::Retry(req, delay) => ReloadSpec::Retry {
                timestamp: req@,
                delay: delay@,
            },
        }
    }
}

/// The least number of nanoseconds between two reloads.
pub open spec fn interval() -> int {
    MIN_RELOAD_INTERVAL * NANOS_PER_SEC
}

/// What to do about a request: nothing if it is outdated; otherwise reload, or try again as soon
/// as the last reload is long enough ago.
pub open spec fn on_request(last_reload: int, timestamp: int, now: int) -> ReloadSpec {
    let elapsed = span_between(last_reload, now);
    if timestamp < last_reload {
        ReloadSpec::Ignore
    } else if elapsed >= interval() {
        ReloadSpec::Reload
    } else {
        ReloadSpec::Retry { timestamp, delay: interval() - elapsed }
    }
}

/// What to do about an event at the given clock reading.
pub open spec fn on_event(last_reload: int, event: ReloadEvent, now: int) -> ReloadSpec {
    match event {
        ReloadEvent::Shutdown => ReloadSpec::Stop,
        ReloadEvent::Closed => ReloadSpec::Stop,
        ReloadEvent::Request(req) => on_request(last_reload, req@, now),
    }
}

/// The clock reading of the last reload after an event.
pub open spec fn last_reload_after(last_reload: int, event: ReloadEvent, now: int) -> int {
    if on_event(last_reload, event, now) == ReloadSpec::Reload {
        now
    } else {
        last_reload
    }
}

/// Decides what to do about an event. A reload counts from now on, whether or not it succeeds.
pub fn process_reload_requests(state: &mut AppState, event: ReloadEvent, now: Instant) -> (res:
    ReloadAction)
    ensures
        res@ == on_event(old(state).last_reload@, event, now@),
        final(state).last_reload@ == last_reload_after(old(state).last_reload@, event, now@),
        final(state).ping_monitors == old(state).ping_monitors,
{
    let req: ReloadRequest = match event {
        ReloadEvent::Shutdown => {
            return ReloadAction::Stop;
        },
        ReloadEvent::Closed => {
            return ReloadAction::Stop;
        },
        ReloadEvent::Request(req) => req,
    };
    if req.timestamp.is_before(state.last_reload) {
        return ReloadAction::Ignore;
    }
    let elapsed: Duration = now.duration_since(state.last_reload);
    let interval: Duration = min_reload_interval();
    if elapsed.at_least(interval) {
        state.last_reload = now;
        ReloadAction::Reload
    } else {
        ReloadAction::Retry(req, interval.saturating_sub(elapsed))
    }
}

/// Takes over the monitors that the database holds, and says how many there are. If a record
/// does not describe a monitor, the monitors stay as they were.
pub fn reload_ping_monitors(
    state: &mut AppState,
    records: Vec<MonitorRecord>,
    now: Timestamp,
) -> (res: Result<usize, RowError>)
    requires
        all_readable(records@, now@),
    ensures
        final(state).last_reload == old(state).last_reload,
        match first_error(records@) {
            Some(e) => {
                &&& res == Err::<usize, RowError>(e)
                &&& final(state).ping_monitors == old(state).ping_monitors
            },
            None => {
                &&& res == Ok::<usize, RowError>(records.len())
                &&& final(state).wf()
                &&& final(state).ping_monitors@ == records@.map_values(
                    |r: MonitorRecord| r.ext(now@),
                )
            },
        },
{
    match PingMonitorExt::get_all(records, now) {
        Ok(pms) => {
            let ghost all = view_all(pms@);
            proof {
                assert forall|i: int| 0 <= i < all.len() implies (#[trigger] all[i]).wf() by {
                    assert(all[i] == pms[i]@);
                }
                assert(monitors_wf(all));
                assert(all.len() == records.len());
            }
            state.ping_monitors = PingMonitors::new(pms);
            Ok(state.ping_monitors.len())
        },
        Err(e) => Err(e),
    }
}

/// Requests that are older than the last reload never lead to another one, and others are never
/// dropped: they lead to a reload, or come in again.
pub proof fn law_only_outdated_requests_are_dropped(last_reload: int, timestamp: int, now: int)
    ensures
        on_request(last_reload, timestamp, now) == ReloadSpec::Ignore <==> timestamp < last_reload,
        timestamp >= last_reload && now >= last_reload + interval() ==> on_request(
            last_reload,
            timestamp,
            now,
        ) == ReloadSpec::Reload,
{
}

/// The clock reading of the last reload after a number of events, each with its clock reading.
pub open spec fn last_reload_after_all(
    last_reload: int,
    events: Seq<(ReloadEvent, int)>,
) -> int
    decreases events.len(),
{
    if events.len() == 0 {
        last_reload
    } else {
        let (event, now) = events.last();
        last_reload_after(last_reload_after_all(last_reload, events.drop_last()), event, now)
    }
}

/// The last reload is never set back.
proof fn lemma_last_reload_grows(last_reload: int, events: Seq<(ReloadEvent, int)>)
    ensures
        last_reload_after_all(last_reload, events) >= last_reload,
    decreases events.len(),
{
    if events.len() > 0 {
        lemma_last_reload_grows(last_reload, events.drop_last());
    }
}

/// Any two reloads are the interval apart, whatever happens between them.
pub proof fn law_reloads_are_apart(
    last_reload: int,
    first: (ReloadEvent, int),
    between: Seq<(ReloadEvent, int)>,
    second: (ReloadEvent, int),
)
    requires
        on_event(last_reload, first.0, first.1) == ReloadSpec::Reload,
        on_event(
            last_reload_after_all(last_reload_after(last_reload, first.0, first.1), between),
            second.0,
            second.1,
        ) == ReloadSpec::Reload,
    ensures
        second.1 - first.1 >= interval(),
        first.1 - last_reload >= interval(),
{
    lemma_last_reload_grows(last_reload_after(last_reload, first.0, first.1), between);
}

/// Whether the clock never runs backwards, from the given reading on.
pub open spec fn clock_runs(start: int, events: Seq<(ReloadEvent, int)>) -> bool {
    &&& forall|i: int| 0 <= i < events.len() ==> start <= (#[trigger] events[i]).1
    &&& forall|i: int, j: int|
        0 <= i < j < events.len() ==> (#[trigger] events[i]).1 <= (#[trigger] events[j]).1
}

/// What is done about one of a number of events.
pub open spec fn action_at(start: int, events: Seq<(ReloadEvent, int)>, i: int) -> ReloadSpec {
    on_event(last_reload_after_all(start, events.take(i)), events[i].0, events[i].1)
}

/// What a number of events, and one more, make of the last reload.
proof fn lemma_one_more(start: int, events: Seq<(ReloadEvent, int)>, n: int)
    requires
        0 <= n < events.len(),
    ensures
        last_reload_after_all(start, events.take(n + 1)) == if action_at(start, events, n)
            == ReloadSpec::Reload {
            events[n].1
        } else {
            last_reload_after_all(start, events.take(n))
        },
{
    assert(events.take(n + 1).drop_last() =~= events.take(n));
}

/// The last reload lies between the start and the last clock reading.
proof fn lemma_last_reload_within(start: int, events: Seq<(ReloadEvent, int)>, n: int, now: int)
    requires
        0 <= n <= events.len(),
        start <= now,
        forall|i: int| 0 <= i < n ==> (#[trigger] events[i]).1 <= now,
    ensures
        start <= last_reload_after_all(start, events.take(n)) <= now,
    decreases n,
{
    lemma_last_reload_grows(start, events.take(n));
    if n > 0 {
        lemma_last_reload_within(start, events, n - 1, now);
        lemma_one_more(start, events, n - 1);
    }
}

/// Where the last reload is not what it was, there has been one at its clock reading.
proof fn lemma_reload_between(start: int, events: Seq<(ReloadEvent, int)>, a: int, b: int) -> (j:
    int)
    requires
        0 <= a <= b <= events.len(),
        last_reload_after_all(start, events.take(a)) != last_reload_after_all(
            start,
            events.take(b),
        ),
    ensures
        a <= j < b,
        action_at(start, events, j) == ReloadSpec::Reload,
        events[j].1 == last_reload_after_all(start, events.take(b)),
    decreases b - a,
{
    lemma_one_more(start, events, b - 1);
    if action_at(start, events, b - 1) == ReloadSpec::Reload {
        b - 1
    } else {
        lemma_reload_between(start, events, a, b - 1)
    }
}

/// A request is ignored only if there has been a reload after its timestamp. If it leads to a
/// reload at once, that is no earlier than its timestamp. Otherwise it comes in again, unchanged,
/// after the interval between two reloads at most.
pub proof fn law_ignored_request_was_served(
    start: int,
    events: Seq<(ReloadEvent, int)>,
    i: int,
    req: ReloadRequest,
)
    requires
        clock_runs(start, events),
        0 <= i < events.len(),
        events[i].0 == ReloadEvent::Request(req),
        start <= req@ <= events[i].1,
    ensures
        match action_at(start, events, i) {
            ReloadSpec::Ignore => exists|j: int|
                0 <= j < i && #[trigger] action_at(start, events, j) == ReloadSpec::Reload
                    && events[j].1 > req@,
            ReloadSpec::Reload => events[i].1 >= req@,
            ReloadSpec::Retry { timestamp, delay } => timestamp == req@ && 0 < delay <= interval(),
            ReloadSpec::Stop => false,
        },
{
    if action_at(start, events, i) == ReloadSpec::Ignore {
        assert(events.take(0) =~= Seq::<(ReloadEvent, int)>::empty());
        let j = lemma_reload_between(start, events, 0, i);
        assert(action_at(start, events, j) == ReloadSpec::Reload);
    }
}

/// A request that has to come in again, and does so after its delay, leads to a reload that is no
/// earlier than its timestamp: by itself, or through another request before it comes in again.
pub proof fn law_retried_request_reloads(
    start: int,
    events: Seq<(ReloadEvent, int)>,
    i: int,
    k: int,
    req: ReloadRequest,
)
    requires
        clock_runs(start, events),
        0 <= i < k < events.len(),
        events[i].0 == ReloadEvent::Request(req),
        events[k].0 == ReloadEvent::Request(req),
        start <= req@ <= events[i].1,
        action_at(start, events, i) is Retry,
        events[k].1 >= events[i].1 + action_at(start, events, i)->delay,
    ensures
        exists|j: int|
            i < j <= k && #[trigger] action_at(start, events, j) == ReloadSpec::Reload
                && events[j].1 >= req@,
{
    lemma_last_reload_within(start, events, i, events[i].1);
    lemma_one_more(start, events, i);
    if last_reload_after_all(start, events.take(i + 1)) == last_reload_after_all(
        start,
        events.take(k),
    ) {
        assert(action_at(start, events, k) == ReloadSpec::Reload);
    } else {
        let j = lemma_reload_between(start, events, i + 1, k);
        assert(action_at(start, events, j) == ReloadSpec::Reload);
    }
}

/// A request older than the last reload is ignored. Any other one leads to a reload if the last
/// one was five seconds ago or more, and has to come in again when it will have been if not.
pub proof fn law_five_seconds_between_reloads(last_reload: int, timestamp: int, now: int)
    requires
        last_reload <= now,
    ensures
        on_request(last_reload, timestamp, now) == ReloadSpec::Ignore <==> timestamp < last_reload,
        on_request(last_reload, timestamp, now) == ReloadSpec::Reload <==> timestamp >= last_reload
            && now - last_reload >= 5_000_000_000,
        timestamp >= last_reload && now - last_reload < 5_000_000_000 ==> (on_request(
            last_reload,
            timestamp,
            now,
        ) matches ReloadSpec::Retry { timestamp: again, delay } && again == timestamp && now + delay
            == last_reload + 5_000_000_000),
{
}

/// The task ends at the shutdown and when nobody can make requests any more, and for no request.
/// The last reload changes if and only if there is one, to when that is.
pub proof fn law_events_of_reloading(last_reload: int, event: ReloadEvent, now: int)
    ensures
        on_event(last_reload, event, now) == ReloadSpec::Stop <==> event is Shutdown || event
            is Closed,
        event matches ReloadEvent::Request(req) ==> on_event(last_reload, event, now) == on_request(
            last_reload,
            req@,
            now,
        ),
        on_event(last_reload, event, now) == ReloadSpec::Reload ==> last_reload_after(
            last_reload,
            event,
            now,
        ) == now,
        on_event(last_reload, event, now) != ReloadSpec::Reload ==> last_reload_after(
            last_reload,
            event,
            now,
        ) == last_reload,
{
}

/// What is shown of an action is what is to be done.
pub proof fn law_views_show_the_action(req: ReloadRequest, delay: Duration)
    ensures
        ReloadAction::Stop@ == ReloadSpec::Stop,
        ReloadAction::Ignore@ == ReloadSpec::Ignore,
        ReloadAction::Reload@ == ReloadSpec::Reload,
        ReloadAction::Retry(req, delay)@ == (ReloadSpec::Retry {
            timestamp: req@,
            delay: delay@,
        }),
{
}

} // verus!
