//! Ping monitors: what they are, in which state they are and when they fail.

use core::ops::Deref;

use vstd::prelude::*;

use crate::addr::IpAddr;
use crate::db::util::WithId;
use crate::time::{
    earlier, max_time, view_opt, whole_seconds, Duration, Timestamp, NANOS_PER_SEC,
};

verus! {

/// The key of a ping monitor.
pub type Id = i32;

/// A scheduled task that announces itself by a ping at regular intervals.
#[derive(Debug)]
pub struct PingMonitor {
    /// Token used in ping URL, unique identifier.
    pub token: String,
    /// Name of the ping to display on dashboard and in reports.
    pub name: String,
    /// Expected amount of time between pings.
    pub period: Duration,
    /// Amount of time after a missed deadline before this item is considered to be in error state.
    pub grace: Duration,
    /// The timestamp when this ping monitor was created.
    pub created_at: Timestamp,
}

/// What a ping monitor is, in mathematical terms.
pub struct MonitorSpec {
    pub token: Seq<char>,
    pub name: Seq<char>,
    /// in nanoseconds
    pub period: int,
    /// in nanoseconds
    pub grace: int,
    /// in nanoseconds since the Unix epoch
    pub created_at: int,
}

impl View for PingMonitor {
    type V = MonitorSpec;

    open spec fn view(&self) -> MonitorSpec {
        MonitorSpec {
            token: self.token@,
            name: self.name@,
            period: self.period@,
            grace: self.grace@,
            created_at: self.created_at@,
        }
    }
}

impl Clone for PingMonitor {
    fn clone(&self) -> (res: Self)
        ensures
            res@ == self@,
    {
        PingMonitor {
            token: self.token.clone(),
            name: self.name.clone(),
            period: self.period,
            grace: self.grace,
            created_at: self.created_at,
        }
    }
}

/// The columns of a ping monitor's row.
#[derive(Debug)]
pub struct MonitorRow {
    pub token: String,
    pub name: String,
    pub period_s: i32,
    pub grace_s: i32,
    pub created_at: Timestamp,
}

/// Why a row does not describe a ping monitor.
#[derive(Debug, Clone, Copy, PartialEq, Eq, Structural)]
pub enum RowError {
    /// The period is negative.
    Period,
    /// The grace period is negative.
    Grace,
}

/// Why a ping monitor cannot be stored.
#[derive(Debug, Clone, Copy, PartialEq, Eq, Structural)]
pub enum InsertError {
    /// The period has more seconds than its column holds.
    PeriodTooLong,
    /// The grace period has more seconds than its column holds.
    GraceTooLong,
    /// The period is shorter than one second.
    PeriodTooShort,
}

impl InsertError {
    /// The message that is shown for this error.
    pub fn message(&self) -> (res: &'static str)
        ensures
            res@ == match self {
                InsertError::PeriodTooLong => "period"@,
                InsertError::GraceTooLong => "grace"@,
                InsertError::PeriodTooShort => "period must be at least 1 second"@,
            },
    {
        match self {
            InsertError::PeriodTooLong => "period",
            InsertError::GraceTooLong => "grace",
            InsertError::PeriodTooShort => "period must be at least 1 second",
        }
    }
}

impl MonitorRow {
    /// What the row describes.
    pub open spec fn monitor(&self) -> MonitorSpec {
        MonitorSpec {
            token: self.token@,
            name: self.name@,
            period: self.period_s * NANOS_PER_SEC,
            grace: self.grace_s * NANOS_PER_SEC,
            created_at: self.created_at@,
        }
    }

    /// Why the row does not describe a ping monitor, if it does not.
    pub open spec fn error(&self) -> Option<RowError> {
        if self.period_s < 0 {
            Some(RowError::Period)
        } else if self.grace_s < 0 {
            Some(RowError::Grace)
        } else {
            None
        }
    }
}

/// Why a ping monitor cannot be stored, if it cannot.
pub open spec fn insert_error(pm: MonitorSpec) -> Option<InsertError> {
    if pm.period / (NANOS_PER_SEC as int) > i32::MAX {
        Some(InsertError::PeriodTooLong)
    } else if pm.grace / (NANOS_PER_SEC as int) > i32::MAX {
        Some(InsertError::GraceTooLong)
    } else if pm.period < NANOS_PER_SEC {
        Some(InsertError::PeriodTooShort)
    } else {
        None
    }
}

impl PingMonitor {
    /// Reads a ping monitor from its row.
    pub fn from_row(row: MonitorRow) -> (res: Result<PingMonitor, RowError>)
        ensures
            match row.error() {
                Some(e) => res == Err::<PingMonitor, RowError>(e),
                None => res is Ok && res->Ok_0@ == row.monitor(),
            },
    {
        if row.period_s < 0 {
            return Err(RowError::Period);
        }
        if row.grace_s < 0 {
            return Err(RowError::Grace);
        }
        let period: Duration = Duration::from_secs(row.period_s as u64);
        let grace: Duration = Duration::from_secs(row.grace_s as u64);
        Ok(
            PingMonitor {
                token: row.token,
                name: row.name,
                period,
                grace,
                created_at: row.created_at,
            },
        )
    }

    /// Reads all ping monitors from their rows, in the order of the rows. The first row that
    /// does not describe a monitor decides the error.
    pub fn get_all(rows: Vec<WithId<MonitorRow>>) -> (res: Result<
        Vec<WithId<PingMonitor>>,
        RowError,
    >)
        ensures
            match res {
                Ok(pings) => {
                    &&& pings.len() == rows.len()
                    &&& forall|i: int|
                        0 <= i < rows.len() ==> (#[trigger] rows[i]).inner.error() is None
                            && pings[i].id == rows[i].id && pings[i].inner@
                            == rows[i].inner.monitor()
                },
                Err(e) => exists|i: int|
                    {
                        &&& 0 <= i < rows.len()
                        &&& (#[trigger] rows[i]).inner.error() == Some(e)
                        &&& forall|j: int|
                            0 <= j < i ==> (#[trigger] rows[j]).inner.error() is None
                    },
            },
    {
        let ghost all = rows@;
        let mut res: Vec<WithId<PingMonitor>> = Vec::new();
        for row in it: rows
            invariant
                it.seq() == all,
                res.len() == it.index(),
                forall|i: int|
                    0 <= i < it.index() ==> (#[trigger] all[i]).inner.error() is None
                        && res@[i].id == all[i].id && res@[i].inner@ == all[i].inner.monitor(),
        {
            match PingMonitor::from_row(row.inner) {
                Ok(pm) => {
                    res.push(WithId { inner: pm, id: row.id });
                },
                Err(e) => {
                    assert(all[it.index() as int].inner.error() == Some(e));
                    return Err(e);
                },
            }
        }
        Ok(res)
    }

    /// The row under which a new ping monitor is stored. Columns hold whole seconds: what the
    /// period and the grace period have beyond them is not kept.
    pub fn insert(&self) -> (res: Result<MonitorRow, InsertError>)
        ensures
            match insert_error(self@) {
                Some(e) => res == Err::<MonitorRow, InsertError>(e),
                None => {
                    &&& res is Ok
                    &&& res->Ok_0.error() is None
                    &&& res->Ok_0.monitor() == stored(self@)
                },
            },
    {
        let period_s: u64 = self.period.as_secs();
        let grace_s: u64 = self.grace.as_secs();
        if period_s > i32::MAX as u64 {
            return Err(InsertError::PeriodTooLong);
        }
        if grace_s > i32::MAX as u64 {
            return Err(InsertError::GraceTooLong);
        }
        if period_s == 0 {
            return Err(InsertError::PeriodTooShort);
        }
        Ok(
            MonitorRow {
                token: self.token.clone(),
                name: self.name.clone(),
                period_s: period_s as i32,
                grace_s: grace_s as i32,
                created_at: self.created_at,
            },
        )
    }
}

/// What is left of a ping monitor when it has been stored.
pub open spec fn stored(pm: MonitorSpec) -> MonitorSpec {
    MonitorSpec {
        period: whole_seconds(pm.period),
        grace: whole_seconds(pm.grace),
        ..pm
    }
}

/// Whether a task is on time.
#[derive(Debug, Clone, Copy, PartialEq, Eq, Structural)]
pub enum MonitorState {
    Okay,
    Failed,
}

impl MonitorState {
    /// The name of the state.
    pub open spec fn text(self) -> Seq<char> {
        match self {
            MonitorState::Okay => "Ok"@,
            MonitorState::Failed => "Failed"@,
        }
    }

    /// The name of the state.
    pub fn to_string(&self) -> (res: String)
        ensures
            res@ == self.text(),
    {
        match self {
            MonitorState::Okay => "Ok".to_string(),
            MonitorState::Failed => "Failed".to_string(),
        }
    }
}

/// What has been recorded for a ping monitor.
#[derive(Debug, Clone, Copy)]
pub struct Stats {
    pub num_pings: i64,
    pub last_ping_at: Option<Timestamp>,
    pub state: MonitorState,
    pub state_since: Timestamp,
}

/// What has been recorded for a ping monitor, in mathematical terms.
pub struct StatsSpec {
    pub num_pings: int,
    pub last_ping_at: Option<int>,
    pub state: MonitorState,
    pub state_since: int,
}

impl View for Stats {
    type V = StatsSpec;

    open spec fn view(&self) -> StatsSpec {
        StatsSpec {
            num_pings: self.num_pings as int,
            last_ping_at: view_opt(self.last_ping_at),
            state: self.state,
            state_since: self.state_since@,
        }
    }
}

/// When a task becomes late and when it fails.
#[derive(Debug, Clone, Copy)]
pub struct Deadlines {
    warn_at: Timestamp,
    fail_at: Timestamp,
}

/// When a task becomes late and when it fails, in nanoseconds since the Unix epoch.
pub struct DeadlinesSpec {
    pub warn_at: int,
    pub fail_at: int,
}

impl View for Deadlines {
    type V = DeadlinesSpec;

    closed spec fn view(&self) -> DeadlinesSpec {
        DeadlinesSpec { warn_at: self.warn_at@, fail_at: self.fail_at@ }
    }
}

impl MonitorSpec {
    /// The point in time from which the next ping is due: the last ping, or the creation of the
    /// monitor if there was none, but never a point in the future.
    pub open spec fn base(self, last_ping_at: Option<int>, now: int) -> int {
        earlier(
            match last_ping_at {
                Some(t) => t,
                None => self.created_at,
            },
            now,
        )
    }

    /// The next ping is due one period after the base, and tolerated for the grace period more.
    pub open spec fn deadlines(self, last_ping_at: Option<int>, now: int) -> DeadlinesSpec {
        let base = self.base(last_ping_at, now);
        DeadlinesSpec { warn_at: base + self.period, fail_at: base + self.period + self.grace }
    }

    /// Whether the monitor has deadlines: pings are some time apart, and the calendar covers the
    /// later deadline.
    pub open spec fn has_deadlines(self, last_ping_at: Option<int>, now: int) -> bool {
        &&& self.period > 0
        &&& self.grace >= 0
        &&& self.deadlines(last_ping_at, now).fail_at <= max_time()
    }
}

impl Deadlines {
    /// The deadlines of a monitor that was last pinged at the given point in time.
    pub fn compute(pm: &PingMonitor, last_ping_at: Option<Timestamp>, now: Timestamp) -> (res: Self)
        requires
            pm@.has_deadlines(view_opt(last_ping_at), now@),
        ensures
            res@ == pm@.deadlines(view_opt(last_ping_at), now@),
    {
        let base: Timestamp = last_ping_at.unwrap_or(pm.created_at).min(now);
        let warn_at: Timestamp = base.plus(pm.period);
        let fail_at: Timestamp = warn_at.plus(pm.grace);
        Deadlines { warn_at, fail_at }
    }

    /// Whether a monitor that was last pinged at the given point in time has deadlines.
    pub fn exist(pm: &PingMonitor, last_ping_at: Option<Timestamp>, now: Timestamp) -> (res: bool)
        ensures
            res == pm@.has_deadlines(view_opt(last_ping_at), now@),
    {
        let base: Timestamp = last_ping_at.unwrap_or(pm.created_at).min(now);
        let no_period: bool = pm.period.is_zero();
        !no_period && base.can_add(pm.period) && base.plus(pm.period).can_add(pm.grace)
    }
}

/// A ping monitor with what has been recorded for it and with its deadlines.
#[derive(Debug)]
pub struct PingMonitorExt {
    inner: WithId<PingMonitor>,
    stats: Stats,
    deadlines: Deadlines,
}

/// A ping monitor with what has been recorded for it and with its deadlines, in mathematical
/// terms.
pub struct ExtSpec {
    pub id: int,
    pub monitor: MonitorSpec,
    pub stats: StatsSpec,
    pub deadlines: DeadlinesSpec,
}

impl View for PingMonitorExt {
    type V = ExtSpec;

    closed spec fn view(&self) -> ExtSpec {
        ExtSpec {
            id: self.inner.id as int,
            monitor: self.inner.inner@,
            stats: self.stats@,
            deadlines: self.deadlines@,
        }
    }
}

impl ExtSpec {
    /// What holds of every monitor: pings are some time apart, the failure deadline comes the
    /// grace period after the warning, and the warning comes at most one period after the last
    /// ping, or after the creation of the monitor if there was none.
    pub open spec fn wf(self) -> bool {
        &&& self.monitor.period > 0
        &&& self.monitor.grace >= 0
        &&& self.deadlines.fail_at == self.deadlines.warn_at + self.monitor.grace
        &&& self.deadlines.warn_at <= self.monitor.period + match self.stats.last_ping_at {
            Some(t) => t,
            None => self.monitor.created_at,
        }
    }

    /// The next failure deadline. A monitor that has failed already has none.
    pub open spec fn deadline(self) -> Option<int> {
        match self.stats.state {
            MonitorState::Okay => Some(self.deadlines.fail_at),
            MonitorState::Failed => None,
        }
    }

    /// Whether the failure deadline has passed.
    pub open spec fn is_deadline_expired(self, now: int) -> bool {
        match self.deadline() {
            Some(t) => t <= now,
            None => false,
        }
    }

    /// Whether the ping is overdue, but still within the grace period.
    pub open spec fn is_late(self, now: int) -> bool {
        self.stats.state == MonitorState::Okay && self.deadlines.warn_at <= now
            < self.deadlines.fail_at
    }

    /// What a user is shown as the state. A task whose failure is yet to be recorded has failed
    /// all the same.
    pub open spec fn label(self, now: int) -> Seq<char> {
        if self.stats.state == MonitorState::Failed || self.is_deadline_expired(now) {
            "Failed"@
        } else if self.is_late(now) {
            "Late"@
        } else {
            "Ok"@
        }
    }

    /// The monitor once the given state has been recorded. A state that has not changed keeps
    /// its date.
    pub open spec fn with_state(self, state: MonitorState, since: int) -> ExtSpec {
        if self.stats.state == state {
            self
        } else {
            ExtSpec { stats: StatsSpec { state: state, state_since: since, ..self.stats }, ..self }
        }
    }

    /// The monitor once a ping has been recorded.
    pub open spec fn with_ping(self, at: int) -> ExtSpec {
        ExtSpec {
            stats: StatsSpec {
                num_pings: self.stats.num_pings + 1,
                last_ping_at: Some(at),
                ..self.stats
            },
            deadlines: self.monitor.deadlines(Some(at), at),
            ..self
        }
    }

    /// The monitor after a ping.
    pub open spec fn after_ping(self, at: int) -> ExtSpec {
        self.with_ping(at).with_state(MonitorState::Okay, at)
    }

    /// The monitor after its failure deadline.
    pub open spec fn after_deadline_expired(self, at: int) -> ExtSpec {
        self.with_state(MonitorState::Failed, at)
    }

    /// Whether one more ping can be counted and leads to deadlines.
    pub open spec fn accepts_ping(self, at: int) -> bool {
        &&& self.stats.num_pings < i64::MAX
        &&& self.monitor.has_deadlines(Some(at), at)
    }

    /// What has to be written to the database for a ping.
    pub open spec fn ping_write(self, at: int, source_addr: Option<IpAddr>) -> WriteSpec {
        WriteSpec::Ping { monitor_id: self.id, occurred_at: at, source_addr: source_addr }
    }

    /// What has to be written to the database for the given state: nothing, if the monitor is in
    /// that state already.
    pub open spec fn state_write(self, state: MonitorState, since: int) -> Option<WriteSpec> {
        if self.stats.state == state {
            None
        } else {
            Some(WriteSpec::State { monitor_id: self.id, state: state, state_since: since })
        }
    }

    /// The monitor after a write to the database.
    pub open spec fn after_write(self, write: WriteSpec) -> ExtSpec {
        match write {
            WriteSpec::Ping { occurred_at, .. } => self.with_ping(occurred_at),
            WriteSpec::State { state, state_since, .. } => self.with_state(state, state_since),
        }
    }

    /// What has to be written to the database after the given write. A ping makes the monitor
    /// all right; a state is the last thing to be written.
    pub open spec fn next_write(self, write: WriteSpec) -> Option<WriteSpec> {
        match write {
            WriteSpec::Ping { occurred_at, .. } => self.with_ping(occurred_at).state_write(
                MonitorState::Okay,
                occurred_at,
            ),
            WriteSpec::State { .. } => None,
        }
    }

    /// Whether a write concerns this monitor and can be taken over.
    pub open spec fn accepts_write(self, write: WriteSpec) -> bool {
        match write {
            WriteSpec::Ping { monitor_id, occurred_at, .. } => {
                &&& monitor_id == self.id
                &&& self.accepts_ping(occurred_at)
            },
            WriteSpec::State { monitor_id, .. } => monitor_id == self.id,
        }
    }
}

/// A row to be added to the database.
#[derive(Debug, Clone, Copy)]
pub enum DbWrite {
    /// A ping was received.
    Ping { monitor_id: Id, occurred_at: Timestamp, source_addr: Option<IpAddr> },
    /// The state of a monitor changed.
    State { monitor_id: Id, state: MonitorState, state_since: Timestamp },
}

/// A row to be added to the database, in mathematical terms.
pub enum WriteSpec {
    Ping { monitor_id: int, occurred_at: int, source_addr: Option<IpAddr> },
    State { monitor_id: int, state: MonitorState, state_since: int },
}

impl View for DbWrite {
    type V = WriteSpec;

    open spec fn view(&self) -> WriteSpec {
        match self {
            DbWrite::Ping { monitor_id, occurred_at, source_addr } => WriteSpec::Ping {
                monitor_id: *monitor_id as int,
                occurred_at: occurred_at@,
                source_addr: *source_addr,
            },
            DbWrite::State { monitor_id, state, state_since } => WriteSpec::State {
                monitor_id: *monitor_id as int,
                state: *state,
                state_since: state_since@,
            },
        }
    }
}

/// The view of a row that may be missing.
pub open spec fn view_write(write: Option<DbWrite>) -> Option<WriteSpec> {
    match write {
        Some(w) => Some(w@),
        None => None,
    }
}

impl Clone for PingMonitorExt {
    fn clone(&self) -> (res: Self)
        ensures
            res@ == self@,
    {
        PingMonitorExt {
            inner: WithId { inner: self.inner.inner.clone(), id: self.inner.id },
            stats: self.stats,
            deadlines: self.deadlines,
        }
    }
}

impl Deref for PingMonitorExt {
    type Target = WithId<PingMonitor>;

    fn deref(&self) -> (res: &WithId<PingMonitor>)
        ensures
            res.id == self@.id,
            res.inner@ == self@.monitor,
    {
        &self.inner
    }
}

impl PingMonitorExt {
    /// A monitor with what has been recorded for it so far.
    pub fn new(pm: WithId<PingMonitor>, stats: Stats, now: Timestamp) -> (res: Self)
        requires
            pm.inner@.has_deadlines(view_opt(stats.last_ping_at), now@),
        ensures
            res@ == (ExtSpec {
                id: pm.id as int,
                monitor: pm.inner@,
                stats: stats@,
                deadlines: pm.inner@.deadlines(view_opt(stats.last_ping_at), now@),
            }),
            res@.wf(),
    {
        let deadlines: Deadlines = Deadlines::compute(&pm.inner, stats.last_ping_at, now);
        PingMonitorExt { inner: pm, stats, deadlines }
    }

    /// Computes the deadlines anew.
    fn update_deadlines(&mut self, now: Timestamp)
        requires
            old(self)@.monitor.has_deadlines(old(self)@.stats.last_ping_at, now@),
        ensures
            final(self)@ == (ExtSpec {
                deadlines: old(self)@.monitor.deadlines(old(self)@.stats.last_ping_at, now@),
                ..old(self)@
            }),
    {
        self.deadlines = Deadlines::compute(&self.inner.inner, self.stats.last_ping_at, now);
    }

    /// Takes over a state that has been written to the database.
    fn record_state(&mut self, new_state: MonitorState, new_state_since: Timestamp)
        ensures
            final(self)@ == old(self)@.with_state(new_state, new_state_since@),
    {
        if self.state() == new_state {
            return;
        }
        self.stats.state = new_state;
        self.stats.state_since = new_state_since;
    }

    /// Takes over a ping that has been written to the database.
    fn record_ping(&mut self, occurred_at: Timestamp)
        requires
            old(self)@.accepts_ping(occurred_at@),
        ensures
            final(self)@ == old(self)@.with_ping(occurred_at@),
    {
        self.stats.num_pings = self.stats.num_pings + 1;
        self.stats.last_ping_at = Some(occurred_at);
        self.update_deadlines(occurred_at);
    }

    /// What has to be written to the database for the given state.
    fn state_write(&self, state: MonitorState, state_since: Timestamp) -> (res: Option<DbWrite>)
        ensures
            view_write(res) == self@.state_write(state, state_since@),
    {
        if self.state() == state {
            None
        } else {
            Some(DbWrite::State { monitor_id: self.inner.id, state, state_since })
        }
    }

    /// A ping was received. The result has to be written to the database; `written` then takes
    /// it over and says what to write next.
    pub fn event_ping(&self, now: Timestamp, source_addr: Option<IpAddr>) -> (res: DbWrite)
        ensures
            res@ == self@.ping_write(now@, source_addr),
    {
        DbWrite::Ping { monitor_id: self.inner.id, occurred_at: now, source_addr }
    }

    /// The failure deadline has passed. The result, if any, has to be written to the database;
    /// `written` then takes it over.
    pub fn event_deadline_expired(&self, expired_at: Timestamp) -> (res: Option<DbWrite>)
        ensures
            view_write(res) == self@.state_write(MonitorState::Failed, expired_at@),
    {
        self.state_write(MonitorState::Failed, expired_at)
    }

    /// Takes over what has been written to the database and says what has to be written next.
    pub fn written(&mut self, write: DbWrite) -> (res: Option<DbWrite>)
        requires
            old(self)@.accepts_write(write@),
        ensures
            final(self)@ == old(self)@.after_write(write@),
            view_write(res) == old(self)@.next_write(write@),
            old(self)@.wf() ==> final(self)@.wf(),
    {
        match write {
            DbWrite::Ping { occurred_at, .. } => {
                self.record_ping(occurred_at);
                self.state_write(MonitorState::Okay, occurred_at)
            },
            DbWrite::State { state, state_since, .. } => {
                self.record_state(state, state_since);
                None
            },
        }
    }

    /// Whether a ping at the given point in time can be taken over.
    pub fn accepts_ping(&self, at: Timestamp) -> (res: bool)
        ensures
            res == self@.accepts_ping(at@),
    {
        self.stats.num_pings < i64::MAX && Deadlines::exist(&self.inner.inner, Some(at), at)
    }

    /// The recorded state.
    pub fn state(&self) -> (res: MonitorState)
        ensures
            res == self@.stats.state,
    {
        self.stats.state
    }

    /// Whether the task is all right.
    pub fn is_ok(&self) -> (res: bool)
        ensures
            res == (self@.stats.state == MonitorState::Okay),
    {
        self.state() == MonitorState::Okay
    }

    /// true if ping is late but still within the grace period (the state is still "ok")
    pub fn is_late(&self, now: Timestamp) -> (res: bool)
        ensures
            res == self@.is_late(now@),
    {
        self.is_ok() && !now.is_before(self.deadlines.warn_at) && now.is_before(
            self.deadlines.fail_at,
        )
    }

    /// Whether the task has failed.
    pub fn is_failed(&self) -> (res: bool)
        ensures
            res == (self@.stats.state == MonitorState::Failed),
    {
        self.state() == MonitorState::Failed
    }

    /// What has been recorded.
    pub fn stats(&self) -> (res: &Stats)
        ensures
            res@ == self@.stats,
    {
        &self.stats
    }

    /// The next failure deadline.
    pub fn deadline(&self) -> (res: Option<Timestamp>)
        ensures
            view_opt(res) == self@.deadline(),
    {
        match self.state() {
            MonitorState::Okay => Some(self.deadlines.fail_at),
            MonitorState::Failed => None,
        }
    }

    /// Whether the failure deadline has passed.
    pub fn is_deadline_expired(&self, now: Timestamp) -> (res: bool)
        ensures
            res == self@.is_deadline_expired(now@),
    {
        match self.deadline() {
            Some(deadline) => !now.is_before(deadline),
            None => false,
        }
    }

    /// What a user is shown as the state.
    pub fn state_label(&self, now: Timestamp) -> (res: &'static str)
        ensures
            res@ == self@.label(now@),
    {
        if self.is_failed() || self.is_deadline_expired(now) {
            "Failed"
        } else if self.is_late(now) {
            "Late"
        } else {
            "Ok"
        }
    }
}

/// What the database holds of a ping monitor: its row and what has been recorded for it.
#[derive(Debug)]
pub struct MonitorRecord {
    pub id: Id,
    pub row: MonitorRow,
    pub stats: Stats,
}

impl MonitorRecord {
    /// Whether the record can be read: its row describes no monitor at all, or one that has
    /// deadlines.
    pub open spec fn readable(&self, now: int) -> bool {
        self.row.error() is None ==> self.row.monitor().has_deadlines(
            view_opt(self.stats.last_ping_at),
            now,
        )
    }

    /// Whether the record can be read.
    pub fn is_readable(&self, now: Timestamp) -> (res: bool)
        ensures
            res == self.readable(now@),
    {
        if self.row.period_s < 0 || self.row.grace_s < 0 {
            return true;
        }
        let base: Timestamp = self.stats.last_ping_at.unwrap_or(self.row.created_at).min(now);
        let period: Duration = Duration::from_secs(self.row.period_s as u64);
        let grace: Duration = Duration::from_secs(self.row.grace_s as u64);
        self.row.period_s > 0 && base.can_add(period) && base.plus(period).can_add(grace)
    }

    /// The monitor that the record describes.
    pub open spec fn ext(&self, now: int) -> ExtSpec {
        let last_ping_at = view_opt(self.stats.last_ping_at);
        ExtSpec {
            id: self.id as int,
            monitor: self.row.monitor(),
            stats: self.stats@,
            deadlines: self.row.monitor().deadlines(last_ping_at, now),
        }
    }
}

/// The views of a list of monitors.
pub open spec fn view_all(pms: Seq<PingMonitorExt>) -> Seq<ExtSpec> {
    pms.map_values(|pm: PingMonitorExt| pm@)
}

/// The error of the first record that has one.
pub open spec fn first_error(records: Seq<MonitorRecord>) -> Option<RowError>
    decreases records.len(),
{
    if records.len() == 0 {
        None
    } else if records[0].row.error() is Some {
        records[0].row.error()
    } else {
        first_error(records.drop_first())
    }
}

/// Records without an error have no first one.
proof fn lemma_no_error(records: Seq<MonitorRecord>)
    requires
        forall|i: int| 0 <= i < records.len() ==> (#[trigger] records[i]).row.error() is None,
    ensures
        first_error(records) is None,
    decreases records.len(),
{
    if records.len() > 0 {
        lemma_no_error(records.drop_first());
    }
}

/// Whether all records can be read that are reached: those up to the first one that does not
/// describe a monitor.
pub open spec fn all_readable(records: Seq<MonitorRecord>, now: int) -> bool {
    forall|i: int|
        0 <= i < records.len() && first_error(records.take(i)) is None ==> (
        #[trigger] records[i]).readable(now)
}

/// Records with an error among them have a first one.
proof fn lemma_some_error(records: Seq<MonitorRecord>, i: int)
    requires
        0 <= i < records.len(),
        records[i].row.error() is Some,
    ensures
        first_error(records) is Some,
    decreases records.len(),
{
    if i > 0 {
        lemma_some_error(records.drop_first(), i - 1);
    }
}

/// Whether all records can be read that are reached.
pub fn records_readable(records: &Vec<MonitorRecord>, now: Timestamp) -> (res: bool)
    ensures
        res == all_readable(records@, now@),
{
    let mut idx: usize = 0;
    while idx < records.len()
        invariant
            idx <= records.len(),
            forall|i: int|
                0 <= i < idx ==> (#[trigger] records[i]).readable(now@)
                    && records[i].row.error() is None,
        decreases records.len() - idx,
    {
        let record: &MonitorRecord = &records[idx];
        if record.row.period_s < 0 || record.row.grace_s < 0 {
            assert forall|i: int|
                0 <= i < records.len() && first_error(records@.take(i)) is None implies (
            #[trigger] records[i]).readable(now@) by {
                if i > idx {
                    assert(records@.take(i)[idx as int] == records[idx as int]);
                    lemma_some_error(records@.take(i), idx as int);
                }
            }
            return true;
        }
        if !record.is_readable(now) {
            proof {
                lemma_no_error(records@.take(idx as int));
            }
            assert(!records@[idx as int].readable(now@));
            return false;
        }
        idx = idx + 1;
    }
    true
}

impl PingMonitorExt {
    /// Reads all ping monitors from their records, in the order of the records. The first record
    /// that does not describe a monitor decides the error.
    pub fn get_all(records: Vec<MonitorRecord>, now: Timestamp) -> (res: Result<
        Vec<PingMonitorExt>,
        RowError,
    >)
        requires
            all_readable(records@, now@),
        ensures
            match first_error(records@) {
                Some(e) => res == Err::<Vec<PingMonitorExt>, RowError>(e),
                None => {
                    &&& res is Ok
                    &&& view_all(res->Ok_0@) == records@.map_values(
                        |r: MonitorRecord| r.ext(now@),
                    )
                    &&& forall|i: int| 0 <= i < res->Ok_0.len() ==> (#[trigger] res->Ok_0[i])@.wf()
                },
            },
    {
        let ghost all = records@;
        let mut res: Vec<PingMonitorExt> = Vec::new();
        assert(all.skip(0) =~= all);
        for record in it: records
            invariant
                it.seq() == all,
                all_readable(all, now@),
                forall|i: int|
                    0 <= i < it.index() ==> (#[trigger] all[i]).row.error() is None,
                first_error(all) == first_error(all.skip(it.index())),
                res.len() == it.index(),
                forall|i: int|
                    0 <= i < it.index() ==> (#[trigger] res@[i])@ == all[i].ext(now@)
                        && res@[i]@.wf(),
        {
            let ghost k = it.index();
            proof {
                lemma_no_error(all.take(k));
            }
            assert(all[k].readable(now@));
            assert(all.skip(k)[0] == all[k]);
            assert(all.skip(k).drop_first() =~= all.skip(k + 1));
            match PingMonitor::from_row(record.row) {
                Ok(pm) => {
                    let pm: WithId<PingMonitor> = WithId { inner: pm, id: record.id };
                    res.push(PingMonitorExt::new(pm, record.stats, now));
                },
                Err(e) => {
                    return Err(e);
                },
            }
        }
        assert(view_all(res@) =~= all.map_values(|r: MonitorRecord| r.ext(now@)));
        Ok(res)
    }
}

/// A ping is due after the last one, and a task fails no earlier than it becomes late. Deadlines
/// never count from a point in the future, even if the last ping seems to lie there.
pub proof fn law_deadlines_in_order(pm: MonitorSpec, last_ping_at: Option<int>, now: int)
    requires
        pm.has_deadlines(last_ping_at, now),
    ensures
        pm.base(last_ping_at, now) <= now,
        pm.base(last_ping_at, now) < pm.deadlines(last_ping_at, now).warn_at,
        pm.deadlines(last_ping_at, now).warn_at <= pm.deadlines(last_ping_at, now).fail_at,
        pm.deadlines(last_ping_at, now).fail_at <= now + pm.period + pm.grace,
{
}

/// A ping makes a monitor all right, whatever state it was in. The monitor is then not late for
/// one period, and does not fail for the grace period more.
pub proof fn law_ping_postpones_deadlines(m: ExtSpec, at: int, now: int)
    requires
        m.wf(),
        m.accepts_ping(at),
    ensures
        m.after_ping(at).wf(),
        m.after_ping(at).stats.state == MonitorState::Okay,
        m.after_ping(at).stats.num_pings == m.stats.num_pings + 1,
        m.after_ping(at).stats.last_ping_at == Some(at),
        m.after_ping(at).deadline() == Some(at + m.monitor.period + m.monitor.grace),
        m.after_ping(at).is_late(now) <==> at + m.monitor.period <= now < at + m.monitor.period
            + m.monitor.grace,
        m.after_ping(at).is_deadline_expired(now) <==> at + m.monitor.period + m.monitor.grace
            <= now,
        m.after_ping(at).monitor == m.monitor,
        m.after_ping(at).id == m.id,
{
}

/// The failure of a monitor is recorded once: as soon as it is, the deadline is gone and expires
/// no more, and nothing is left to be written.
pub proof fn law_failure_is_recorded_once(m: ExtSpec, at: int, later: int)
    requires
        m.is_deadline_expired(at),
    ensures
        m.state_write(MonitorState::Failed, at) is Some,
        m.after_deadline_expired(at).stats.state == MonitorState::Failed,
        m.after_deadline_expired(at).stats.state_since == at,
        m.after_deadline_expired(at).deadline() is None,
        !m.after_deadline_expired(at).is_deadline_expired(later),
        !m.after_deadline_expired(at).is_late(later),
        m.after_deadline_expired(at).state_write(MonitorState::Failed, later) is None,
        m.wf() ==> m.after_deadline_expired(at).wf(),
{
}

/// A monitor is late for the length of its grace period, which starts with the warning and ends
/// with the failure deadline. A failed monitor is not late, nor is one without a grace period.
pub proof fn law_late_means_grace_period(m: ExtSpec, now: int)
    requires
        m.wf(),
    ensures
        m.is_late(now) <==> m.stats.state == MonitorState::Okay && m.deadlines.warn_at <= now
            < m.deadlines.warn_at + m.monitor.grace,
        m.is_late(now) ==> !m.is_deadline_expired(now),
        m.stats.state == MonitorState::Okay && m.deadlines.warn_at <= now ==> m.is_late(now)
            || m.is_deadline_expired(now),
        m.monitor.grace == 0 ==> !m.is_late(now),
{
}

/// A monitor has a deadline if and only if it has not failed.
pub proof fn law_deadline_unless_failed(m: ExtSpec)
    ensures
        m.deadline() is Some <==> m.stats.state == MonitorState::Okay,
        m.deadline() is None <==> m.stats.state == MonitorState::Failed,
{
}

/// The writes for a ping, taken over one by one, leave the monitor as it is after a ping. There
/// is a second write if and only if the monitor had failed.
pub proof fn law_writes_of_a_ping(m: ExtSpec, at: int, source_addr: Option<IpAddr>)
    ensures
        ({
            let first = m.ping_write(at, source_addr);
            match m.next_write(first) {
                None => {
                    &&& m.stats.state == MonitorState::Okay
                    &&& m.after_write(first) == m.after_ping(at)
                },
                Some(second) => {
                    &&& m.stats.state == MonitorState::Failed
                    &&& m.after_write(first).after_write(second) == m.after_ping(at)
                    &&& m.after_write(first).next_write(second) is None
                },
            }
        }),
{
}

/// The write for an expired deadline, taken over, leaves the monitor as it is after the
/// deadline.
pub proof fn law_write_of_a_failure(m: ExtSpec, at: int)
    ensures
        match m.state_write(MonitorState::Failed, at) {
            None => m == m.after_deadline_expired(at),
            Some(write) => {
                &&& m.after_write(write) == m.after_deadline_expired(at)
                &&& m.next_write(write) is None
            },
        },
{
}

/// A ping monitor that can be stored is read back as it was, but for the parts of its spans
/// below one second. Storing it again changes nothing more.
pub proof fn law_stored_is_read_back(pm: MonitorSpec, row: MonitorRow)
    requires
        pm.grace >= 0,
        insert_error(pm) is None,
        row.monitor() == stored(pm),
    ensures
        row.error() is None,
        insert_error(row.monitor()) is None,
        stored(row.monitor()) == row.monitor(),
        pm.period % (NANOS_PER_SEC as int) == 0 && pm.grace % (NANOS_PER_SEC as int) == 0
            ==> row.monitor() == pm,
{
}

/// The monitor after pings at the given points in time, one after the other.
pub open spec fn after_pings(m: ExtSpec, times: Seq<int>) -> ExtSpec
    decreases times.len(),
{
    if times.len() == 0 {
        m
    } else {
        after_pings(m, times.drop_last()).after_ping(times.last())
    }
}

/// A task is watched from its last ping on, whatever happened before: it becomes late once it has
/// been silent for the period, and its deadline expires once it has been silent for the grace
/// period more, which ends its being late. Every ping counts.
pub proof fn law_silence_since_last_ping_decides(m: ExtSpec, times: Seq<int>, now: int)
    requires
        times.len() > 0,
    ensures
        ({
            let after = after_pings(m, times);
            let silence = now - times.last();
            &&& after.monitor == m.monitor
            &&& after.id == m.id
            &&& after.stats.num_pings == m.stats.num_pings + times.len()
            &&& after.stats.last_ping_at == Some(times.last())
            &&& after.stats.state == MonitorState::Okay
            &&& after.is_late(now) <==> m.monitor.period <= silence < m.monitor.period
                + m.monitor.grace
            &&& after.is_deadline_expired(now) <==> silence >= m.monitor.period + m.monitor.grace
        }),
    decreases times.len(),
{
    reveal_with_fuel(after_pings, 2);
    if times.len() > 1 {
        law_silence_since_last_ping_decides(m, times.drop_last(), now);
    }
}

/// A task that has never been heard of is watched from the creation of its monitor on.
pub proof fn law_first_ping_is_due_after_creation(record: MonitorRecord, now: int)
    requires
        record.stats.last_ping_at is None,
        record.stats.state == MonitorState::Okay,
        record.row.created_at@ <= now,
    ensures
        ({
            let m = record.ext(now);
            let silence = now - record.row.created_at@;
            &&& m.is_late(now) <==> m.monitor.period <= silence < m.monitor.period
                + m.monitor.grace
            &&& m.is_deadline_expired(now) <==> silence >= m.monitor.period + m.monitor.grace
        }),
{
}

/// Nothing is lost when monitors are loaded anew: a record that holds what a ping has left in
/// memory describes the same monitor, down to its deadlines, from the ping on.
pub proof fn law_reload_agrees_with_memory(m: ExtSpec, at: int, record: MonitorRecord, now: int)
    requires
        at <= now,
        record.id == m.id,
        record.row.monitor() == m.monitor,
        record.stats@ == m.after_ping(at).stats,
    ensures
        record.ext(now) == m.after_ping(at),
{
}

/// Nothing is lost when monitors are loaded anew without a ping in between, either: a record that
/// holds the same as memory describes the same monitor, down to its deadlines, and so does one
/// that holds the failure that was recorded last. The deadlines in memory were computed at some
/// point before, by which the last ping, or the creation of the monitor, had taken place.
pub proof fn law_reload_agrees_after_failure(
    m: ExtSpec,
    at: int,
    record: MonitorRecord,
    computed_at: int,
    now: int,
)
    requires
        computed_at <= now,
        m.deadlines == m.monitor.deadlines(m.stats.last_ping_at, computed_at),
        match m.stats.last_ping_at {
            Some(t) => t <= computed_at,
            None => m.monitor.created_at <= computed_at,
        },
        record.id == m.id,
        record.row.monitor() == m.monitor,
    ensures
        record.stats@ == m.stats ==> record.ext(now) == m,
        record.stats@ == m.after_deadline_expired(at).stats ==> record.ext(now)
            == m.after_deadline_expired(at),
{
}

/// Whether a ping can be taken over depends on the counter, on the spans of the monitor and on the
/// end of the calendar, and on nothing else. In particular a monitor that has failed takes pings
/// like any other one.
pub proof fn law_ping_is_accepted_in_every_state(m: ExtSpec, other: ExtSpec, at: int)
    ensures
        m.accepts_ping(at) <==> {
            &&& m.stats.num_pings < i64::MAX
            &&& m.monitor.period > 0
            &&& m.monitor.grace >= 0
            &&& at + m.monitor.period + m.monitor.grace <= max_time()
        },
        m.wf() && m.stats.num_pings < i64::MAX && at + m.monitor.period + m.monitor.grace
            <= max_time() ==> m.accepts_ping(at) && m.after_deadline_expired(at).accepts_ping(at),
        m.monitor == other.monitor && m.stats.num_pings == other.stats.num_pings
            ==> m.accepts_ping(at) == other.accepts_ping(at),
        m.accepts_ping(at) && at >= 0 ==> m.accepts_ping(0),
{
}

/// What a ping does: it is counted, it becomes the last one, it moves both deadlines, and it makes
/// the monitor all right. The state gets a new date if and only if the monitor had failed.
pub proof fn law_effect_of_a_ping(m: ExtSpec, at: int)
    ensures
        m.after_ping(at).id == m.id,
        m.after_ping(at).monitor == m.monitor,
        m.after_ping(at).stats.num_pings == m.stats.num_pings + 1,
        m.after_ping(at).stats.last_ping_at == Some(at),
        m.after_ping(at).stats.state == MonitorState::Okay,
        m.stats.state == MonitorState::Failed ==> m.after_ping(at).stats.state_since == at,
        m.stats.state == MonitorState::Okay ==> m.after_ping(at).stats.state_since
            == m.stats.state_since,
        m.after_ping(at).deadlines.warn_at == at + m.monitor.period,
        m.after_ping(at).deadlines.fail_at == at + m.monitor.period + m.monitor.grace,
{
}

/// What a failure does: the state changes, with a date, if the monitor had not failed before.
/// Nothing else changes, and a second failure changes nothing at all.
pub proof fn law_effect_of_a_failure(m: ExtSpec, at: int, later: int)
    ensures
        m.after_deadline_expired(at).id == m.id,
        m.after_deadline_expired(at).monitor == m.monitor,
        m.after_deadline_expired(at).deadlines == m.deadlines,
        m.after_deadline_expired(at).stats.num_pings == m.stats.num_pings,
        m.after_deadline_expired(at).stats.last_ping_at == m.stats.last_ping_at,
        m.after_deadline_expired(at).stats.state == MonitorState::Failed,
        m.stats.state == MonitorState::Okay ==> m.after_deadline_expired(at).stats.state_since
            == at,
        m.stats.state == MonitorState::Failed ==> m.after_deadline_expired(at) == m,
        m.after_deadline_expired(at).after_deadline_expired(later) == m.after_deadline_expired(at),
{
}

/// What is written for a ping tells the monitor, the time and the address of the client, and
/// nothing of what was recorded before. A state is written if and only if it is a new one.
pub proof fn law_writes_tell_what_happened(
    m: ExtSpec,
    at: int,
    source_addr: Option<IpAddr>,
    state: MonitorState,
)
    ensures
        m.ping_write(at, source_addr) matches WriteSpec::Ping {
            monitor_id,
            occurred_at,
            source_addr: addr,
        } && monitor_id == m.id && occurred_at == at && addr == source_addr,
        m.state_write(state, at) is None <==> m.stats.state == state,
        m.state_write(state, at) matches Some(write) ==> (write matches WriteSpec::State {
            monitor_id,
            state: new_state,
            state_since,
        } && monitor_id == m.id && new_state == state && state_since == at),
        m.stats.state == MonitorState::Okay ==> m.next_write(m.ping_write(at, source_addr)) is None,
        m.stats.state == MonitorState::Failed ==> m.next_write(m.ping_write(at, source_addr))
            == Some(
            WriteSpec::State { monitor_id: m.id, state: MonitorState::Okay, state_since: at },
        ),
{
}

/// A write can be taken over if it concerns the monitor and, for a ping, if the ping can be.
pub proof fn law_own_writes_are_accepted(
    m: ExtSpec,
    at: int,
    source_addr: Option<IpAddr>,
    state: MonitorState,
    id: int,
)
    ensures
        m.accepts_write(m.ping_write(at, source_addr)) == m.accepts_ping(at),
        m.accepts_write(WriteSpec::State { monitor_id: id, state, state_since: at }) <==> id
            == m.id,
        m.accepts_write(WriteSpec::Ping { monitor_id: id, occurred_at: at, source_addr }) ==> id
            == m.id,
        m.accepts_ping(at) && m.next_write(m.ping_write(at, source_addr)) is Some
            ==> m.after_write(m.ping_write(at, source_addr)).accepts_write(
            m.next_write(m.ping_write(at, source_addr))->0,
        ),
{
}

/// Deadlines count from the last ping, or from the creation of the monitor if there was none, or
/// from now if that lies in the future. They exist if the spans make sense and the calendar
/// covers both.
pub proof fn law_deadlines_count_from_the_base(pm: MonitorSpec, last_ping_at: Option<int>, now: int)
    ensures
        ({
            let d = pm.deadlines(last_ping_at, now);
            let from = d.warn_at - pm.period;
            &&& d.fail_at - d.warn_at == pm.grace
            &&& last_ping_at matches Some(t) ==> (t <= now ==> from == t)
            &&& last_ping_at matches Some(t) ==> (t > now ==> from == now)
            &&& last_ping_at is None && pm.created_at <= now ==> from == pm.created_at
            &&& last_ping_at is None && pm.created_at > now ==> from == now
            &&& pm.has_deadlines(last_ping_at, now) <==> pm.period > 0 && pm.grace >= 0 && d.fail_at
                <= max_time()
        }),
{
}

/// A monitor that has not failed has the failure deadline, which has expired from then on. A
/// monitor that has failed has none. Whatever else is recorded has no influence.
pub proof fn law_deadline_is_the_failure_deadline(m: ExtSpec, now: int)
    ensures
        m.stats.state == MonitorState::Okay ==> m.deadline() == Some(m.deadlines.fail_at),
        m.stats.state == MonitorState::Failed ==> m.deadline() is None,
        m.is_deadline_expired(now) <==> m.stats.state == MonitorState::Okay && m.deadlines.fail_at
            <= now,
        m.is_late(now) <==> m.stats.state == MonitorState::Okay && m.deadlines.warn_at <= now
            && now < m.deadlines.fail_at,
{
}

/// A monitor whose failure is recorded is shown as `Failed` at any time. One that is all right is
/// shown as `Ok` until the warning, as `Late` during its grace period, and as `Failed` from then
/// on. The three are told apart.
pub proof fn law_label_tells_the_state(m: ExtSpec, now: int, at: int)
    ensures
        m.stats.state == MonitorState::Failed ==> m.label(now) == "Failed"@,
        m.stats.state == MonitorState::Okay && m.deadlines.fail_at <= now ==> m.label(now)
            == "Failed"@,
        m.stats.state == MonitorState::Okay && m.deadlines.warn_at <= now < m.deadlines.fail_at
            ==> m.label(now) == "Late"@,
        m.stats.state == MonitorState::Okay && now < m.deadlines.warn_at && now
            < m.deadlines.fail_at ==> m.label(now) == "Ok"@,
        m.label(now) == "Ok"@ ==> m.stats.state == MonitorState::Okay && now < m.deadlines.fail_at,
        m.after_deadline_expired(at).label(now) == "Failed"@,
        m.monitor.period > 0 && m.monitor.grace >= 0 ==> m.after_ping(at).label(at) == "Ok"@,
{
    reveal_strlit("Ok");
    reveal_strlit("Late");
    reveal_strlit("Failed");
    assert("Ok"@.len() == 2 && "Late"@.len() == 4 && "Failed"@.len() == 6);
}

/// The names of the states are told apart.
pub proof fn law_state_names(state: MonitorState)
    ensures
        state.text() == "Ok"@ <==> state == MonitorState::Okay,
        state.text() == "Failed"@ <==> state == MonitorState::Failed,
{
    reveal_strlit("Ok");
    reveal_strlit("Failed");
    assert("Ok"@.len() == 2 && "Failed"@.len() == 6);
}

/// A row describes a monitor if and only if neither of its spans is negative. The monitor has the
/// row's texts and date, and spans of as many seconds as the row says.
pub proof fn law_row_describes_its_columns(row: MonitorRow)
    ensures
        row.error() is None <==> row.period_s >= 0 && row.grace_s >= 0,
        row.error() == Some(RowError::Period) <==> row.period_s < 0,
        row.error() == Some(RowError::Grace) <==> row.period_s >= 0 && row.grace_s < 0,
        row.monitor().token == row.token@,
        row.monitor().name == row.name@,
        row.monitor().period == row.period_s * 1_000_000_000,
        row.monitor().grace == row.grace_s * 1_000_000_000,
        row.monitor().created_at == row.created_at@,
{
}

/// A monitor can be stored if and only if its period is a second at least and both spans have no
/// more seconds than fit into 31 bits. What is stored has the same texts and date, and spans that
/// are less than a second shorter.
pub proof fn law_storable_monitors(pm: MonitorSpec)
    requires
        pm.period >= 0,
        pm.grace >= 0,
    ensures
        insert_error(pm) is None <==> 1_000_000_000 <= pm.period < 2_147_483_648_000_000_000
            && pm.grace < 2_147_483_648_000_000_000,
        insert_error(pm) == Some(InsertError::PeriodTooLong) <==> pm.period
            >= 2_147_483_648_000_000_000,
        insert_error(pm) == Some(InsertError::GraceTooLong) <==> pm.period
            < 2_147_483_648_000_000_000 && pm.grace >= 2_147_483_648_000_000_000,
        insert_error(pm) == Some(InsertError::PeriodTooShort) <==> pm.period < 1_000_000_000
            && pm.grace < 2_147_483_648_000_000_000,
        stored(pm).token == pm.token,
        stored(pm).name == pm.name,
        stored(pm).created_at == pm.created_at,
        stored(pm).period <= pm.period < stored(pm).period + 1_000_000_000,
        stored(pm).period % 1_000_000_000 == 0,
        stored(pm).grace <= pm.grace < stored(pm).grace + 1_000_000_000,
        stored(pm).grace % 1_000_000_000 == 0,
{
}

/// A record describes a monitor with its key, its row and what has been recorded. It can be read
/// unless it describes a monitor without deadlines.
pub proof fn law_record_describes_its_monitor(record: MonitorRecord, now: int)
    ensures
        record.ext(now).id == record.id,
        record.ext(now).monitor == record.row.monitor(),
        record.ext(now).stats == record.stats@,
        record.ext(now).deadlines == record.row.monitor().deadlines(
            record.stats@.last_ping_at,
            now,
        ),
        record.row.period_s < 0 || record.row.grace_s < 0 ==> record.readable(now),
        record.row.period_s >= 0 && record.row.grace_s >= 0 ==> (record.readable(now)
            <==> record.row.period_s > 0 && record.ext(now).deadlines.fail_at <= max_time()),
{
}

/// The first record that does not describe a monitor decides the error of all of them.
pub proof fn law_first_bad_record_decides(records: Seq<MonitorRecord>, i: int)
    requires
        0 <= i < records.len(),
        records[i].row.error() is Some,
        forall|j: int| 0 <= j < i ==> (#[trigger] records[j]).row.error() is None,
    ensures
        first_error(records) == records[i].row.error(),
    decreases i,
{
    if i > 0 {
        assert(records[0].row.error() is None);
        let rest = records.drop_first();
        assert forall|j: int| 0 <= j < i - 1 implies (#[trigger] rest[j]).row.error() is None by {
            assert(rest[j] == records[j + 1]);
        }
        law_first_bad_record_decides(rest, i - 1);
    }
}

/// Records have an error if and only if one of them has.
pub proof fn law_good_records_have_no_error(records: Seq<MonitorRecord>)
    ensures
        first_error(records) is None <==> forall|i: int|
            0 <= i < records.len() ==> (#[trigger] records[i]).row.error() is None,
{
    if forall|i: int| 0 <= i < records.len() ==> (#[trigger] records[i]).row.error() is None {
        lemma_no_error(records);
    } else {
        let i = choose|i: int|
            0 <= i < records.len() && !((#[trigger] records[i]).row.error() is None);
        lemma_some_error(records, i);
    }
}

/// What is shown of a monitor and of what has been recorded are their fields.
pub proof fn law_views_show_the_fields(pm: PingMonitor, stats: Stats)
    ensures
        pm@.token == pm.token@,
        pm@.name == pm.name@,
        pm@.period == pm.period@,
        pm@.grace == pm.grace@,
        pm@.created_at == pm.created_at@,
        stats@.num_pings == stats.num_pings,
        stats@.state == stats.state,
        stats@.state_since == stats.state_since@,
        stats.last_ping_at is None <==> stats@.last_ping_at is None,
        stats.last_ping_at matches Some(t) ==> stats@.last_ping_at == Some(t@),
{
}

/// Records can be read if each of them can be, and also if all up to the first one that describes
/// no monitor can be. They cannot if one before that has no deadlines.
pub proof fn law_readable_records(records: Seq<MonitorRecord>, now: int, i: int)
    requires
        0 <= i < records.len(),
        forall|j: int| 0 <= j < i ==> (#[trigger] records[j]).row.error() is None,
    ensures
        (forall|j: int| 0 <= j < records.len() ==> (#[trigger] records[j]).readable(now))
            ==> all_readable(records, now),
        !records[i].readable(now) ==> !all_readable(records, now),
        records[i].row.error() is Some && (forall|j: int|
            0 <= j < i ==> (#[trigger] records[j]).readable(now)) ==> all_readable(records, now),
{
    assert forall|j: int| 0 <= j < i implies (#[trigger] records.take(i)[j]).row.error() is None by {
        assert(records.take(i)[j] == records[j]);
    }
    lemma_no_error(records.take(i));
    if records[i].row.error() is Some && (forall|j: int|
        0 <= j < i ==> (#[trigger] records[j]).readable(now)) {
        assert forall|j: int|
            0 <= j < records.len() && first_error(records.take(j)) is None implies (
        #[trigger] records[j]).readable(now) by {
            if j > i {
                assert(records.take(j)[i] == records[i]);
                lemma_some_error(records.take(j), i);
            }
        }
    }
}

/// What is shown of a list of monitors are the monitors, and what is shown of a row to be written
/// is the row.
pub proof fn law_views_show_monitors_and_writes(
    pms: Seq<PingMonitorExt>,
    i: int,
    write: DbWrite,
)
    requires
        0 <= i < pms.len(),
    ensures
        view_all(pms).len() == pms.len(),
        view_all(pms)[i] == pms[i]@,
        view_write(Some(write)) == Some(write@),
        view_write(None) is None,
        write matches DbWrite::Ping { monitor_id, occurred_at, source_addr } ==> write@
            == (WriteSpec::Ping {
            monitor_id: monitor_id as int,
            occurred_at: occurred_at@,
            source_addr,
        }),
        write matches DbWrite::State { monitor_id, state, state_since } ==> write@
            == (WriteSpec::State {
            monitor_id: monitor_id as int,
            state,
            state_since: state_since@,
        }),
{
}

} // verus!
