//! The server: it watches ping monitors, sends alerts and answers requests.

use std::collections::HashMap;

use vstd::prelude::*;
use vstd::string::*;

use crate::db::ping::{view_all, view_write, DbWrite, ExtSpec, Id, PingMonitorExt, WriteSpec};
use crate::text::same_text;
use crate::time::{Duration, Instant, NANOS_PER_SEC};

pub mod deadline_watcher;
pub mod http;
pub mod reload;

verus! {

broadcast use vstd::std_specs::hash::group_hash_axioms;

/// The ping monitors that the server knows. The view is the list of them.
#[derive(Debug)]
pub struct PingMonitors {
    all: Vec<PingMonitorExt>,
    by_id: HashMap<Id, usize>,
}

impl View for PingMonitors {
    type V = Seq<ExtSpec>;

    closed spec fn view(&self) -> Seq<ExtSpec> {
        view_all(self.all@)
    }
}

/// Whether the monitor with the given key is at the given place. If a key occurs more than once,
/// the last place counts.
pub open spec fn is_at(monitors: Seq<ExtSpec>, id: int, idx: int) -> bool {
    &&& 0 <= idx < monitors.len()
    &&& monitors[idx].id == id
    &&& forall|j: int| idx < j < monitors.len() ==> (#[trigger] monitors[j]).id != id
}

/// Whether a monitor has the given key.
pub open spec fn has_id(monitors: Seq<ExtSpec>, id: int) -> bool {
    exists|i: int| 0 <= i < monitors.len() && (#[trigger] monitors[i]).id == id
}

/// Whether all monitors are well formed.
pub open spec fn monitors_wf(monitors: Seq<ExtSpec>) -> bool {
    forall|i: int| 0 <= i < monitors.len() ==> (#[trigger] monitors[i]).wf()
}

/// The monitors once something has been written to the database for one of them.
pub open spec fn after_write_at(monitors: Seq<ExtSpec>, idx: int, write: WriteSpec) -> Seq<ExtSpec> {
    monitors.update(idx, monitors[idx].after_write(write))
}

/// Whether the places of the first monitors are known.
spec fn index_covers(by_id: Map<Id, usize>, monitors: Seq<ExtSpec>) -> bool {
    &&& forall|id: Id| #[trigger]
        by_id.contains_key(id) ==> is_at(monitors, id as int, by_id[id] as int)
    &&& forall|i: int, id: Id|
        0 <= i < monitors.len() && (#[trigger] monitors[i]).id == id
            ==> #[trigger] by_id.contains_key(id)
}

impl PingMonitors {
    /// What holds at any time: the index knows the place of every monitor.
    pub closed spec fn wf(&self) -> bool {
        index_covers(self.by_id@, self@)
    }

    /// A list of monitors that can be searched by key.
    pub fn new(pms: Vec<PingMonitorExt>) -> (res: Self)
        ensures
            res.wf(),
            res@ == view_all(pms@),
    {
        let mut by_id: HashMap<Id, usize> = HashMap::new();
        let ghost all = view_all(pms@);
        let mut idx: usize = 0;
        while idx < pms.len()
            invariant
                idx <= pms.len(),
                all == view_all(pms@),
                index_covers(by_id@, all.take(idx as int)),
            decreases pms.len() - idx,
        {
            let id: Id = pms[idx].id;
            assert(all[idx as int].id == id);
            let ghost before = by_id@;
            let ghost known = all.take(idx as int);
            let ghost more = all.take(idx + 1);
            by_id.insert(id, idx);
            proof {
                assert forall|key: Id| #[trigger] by_id@.contains_key(key) implies is_at(
                    more,
                    key as int,
                    by_id@[key] as int,
                ) by {
                    if key != id {
                        assert(before.contains_key(key));
                        assert(is_at(known, key as int, before[key] as int));
                        assert(more[before[key] as int] == known[before[key] as int]);
                        assert forall|j: int| before[key] < j < more.len() implies (
                        #[trigger] more[j]).id != key by {
                            if j < idx {
                                assert(more[j] == known[j]);
                            }
                        }
                    }
                }
                assert forall|i: int, key: Id|
                    0 <= i < more.len() && (#[trigger] more[i]).id == key implies
                    #[trigger] by_id@.contains_key(key) by {
                    if i < idx {
                        assert(known[i] == more[i]);
                    }
                }
            }
            idx = idx + 1;
        }
        assert(all.take(idx as int) =~= all);
        PingMonitors { all: pms, by_id }
    }

    /// The number of monitors.
    pub fn len(&self) -> (res: usize)
        ensures
            res == self@.len(),
    {
        self.all.len()
    }

    /// The monitor at the given place.
    pub fn get(&self, idx: usize) -> (res: &PingMonitorExt)
        requires
            idx < self@.len(),
        ensures
            res@ == self@[idx as int],
    {
        &self.all[idx]
    }

    /// The place of the monitor with the given key.
    pub fn find(&self, id: Id) -> (res: Option<usize>)
        requires
            self.wf(),
        ensures
            match res {
                Some(idx) => is_at(self@, id as int, idx as int),
                None => !has_id(self@, id as int),
            },
    {
        match self.by_id.get(&id) {
            Some(idx) => Some(*idx),
            None => None,
        }
    }

    /// Takes over what has been written to the database for the monitor at the given place, and
    /// says what has to be written next.
    pub fn written(&mut self, idx: usize, write: DbWrite) -> (res: Option<DbWrite>)
        requires
            old(self).wf(),
            idx < old(self)@.len(),
            old(self)@[idx as int].accepts_write(write@),
        ensures
            final(self).wf(),
            final(self)@ == after_write_at(old(self)@, idx as int, write@),
            view_write(res) == old(self)@[idx as int].next_write(write@),
            monitors_wf(old(self)@) ==> monitors_wf(final(self)@),
    {
        let res = self.all[idx].written(write);
        proof {
            let before = old(self)@;
            let after = self@;
            assert(after =~= before.update(idx as int, before[idx as int].after_write(write@)));
            assert(forall|i: int|
                0 <= i < after.len() ==> (#[trigger] after[i]).id == before[i].id);
            assert forall|id: Id| #[trigger] self.by_id@.contains_key(id) implies is_at(
                after,
                id as int,
                self.by_id@[id] as int,
            ) by {
                assert(is_at(before, id as int, self.by_id@[id] as int));
            }
        }
        res
    }
}

/// What the server keeps in memory.
#[derive(Debug)]
pub struct AppState {
    pub last_reload: Instant,
    pub ping_monitors: PingMonitors,
}

/// The least number of seconds between two reloads of the monitors.
pub const MIN_RELOAD_INTERVAL: u64 = 5;

impl AppState {
    /// What holds at any time: monitors can be found, and all of them are well formed.
    pub open spec fn wf(&self) -> bool {
        self.ping_monitors.wf() && monitors_wf(self.ping_monitors@)
    }

    /// The state before any monitor has been loaded.
    pub fn new(now: Instant) -> (res: Self)
        ensures
            res.wf(),
            res.last_reload@ == now@,
            res.ping_monitors@.len() == 0,
    {
        AppState { last_reload: now, ping_monitors: PingMonitors::new(Vec::new()) }
    }
}

/// The least span between two reloads of the monitors.
pub fn min_reload_interval() -> (res: Duration)
    ensures
        res@ == MIN_RELOAD_INTERVAL * NANOS_PER_SEC,
{
    Duration::from_secs(MIN_RELOAD_INTERVAL)
}

/// When a background task runs and what its end means.
#[derive(Debug, Clone, Copy, PartialEq, Eq, Structural)]
pub struct TaskPlan {
    /// The task runs only once the server shuts down.
    pub wait_on_shutdown: bool,
    /// The server shuts down when the task ends.
    pub critical: bool,
}

/// How far a background task has come.
#[derive(Debug, Clone, Copy, PartialEq, Eq, Structural)]
pub enum TaskStage {
    /// The task was set up.
    Spawned,
    /// The task waits for the server to shut down.
    WaitingForShutdown,
    /// The task does its work.
    Running,
    /// The task makes the server shut down.
    CancellingShutdown,
    /// The task is over.
    Finished,
}

impl TaskPlan {
    /// A critical task, which lives until the end of the program.
    pub fn spawn() -> (res: TaskPlan)
        ensures
            res == (TaskPlan { wait_on_shutdown: false, critical: true }),
    {
        TaskPlan { wait_on_shutdown: false, critical: true }
    }

    /// A task that runs when the server shuts down.
    pub fn spawn_on_shutdown() -> (res: TaskPlan)
        ensures
            res == (TaskPlan { wait_on_shutdown: true, critical: false }),
    {
        TaskPlan { wait_on_shutdown: true, critical: false }
    }

    /// The stage that follows on the given one.
    pub open spec fn stage_after(self, stage: TaskStage) -> TaskStage {
        match stage {
            TaskStage::Spawned => if self.wait_on_shutdown {
                TaskStage::WaitingForShutdown
            } else {
                TaskStage::Running
            },
            TaskStage::WaitingForShutdown => TaskStage::Running,
            TaskStage::Running => if self.critical {
                TaskStage::CancellingShutdown
            } else {
                TaskStage::Finished
            },
            TaskStage::CancellingShutdown => TaskStage::Finished,
            TaskStage::Finished => TaskStage::Finished,
        }
    }

    /// The stage that follows on the given one.
    pub fn next(&self, stage: TaskStage) -> (res: TaskStage)
        ensures
            res == self.stage_after(stage),
    {
        match stage {
            TaskStage::Spawned => if self.wait_on_shutdown {
                TaskStage::WaitingForShutdown
            } else {
                TaskStage::Running
            },
            TaskStage::WaitingForShutdown => TaskStage::Running,
            TaskStage::Running => if self.critical {
                TaskStage::CancellingShutdown
            } else {
                TaskStage::Finished
            },
            TaskStage::CancellingShutdown => TaskStage::Finished,
            TaskStage::Finished => TaskStage::Finished,
        }
    }

    /// The stages of a task in the given number of steps.
    pub open spec fn stage_at(self, steps: nat) -> TaskStage
        decreases steps,
    {
        if steps == 0 {
            TaskStage::Spawned
        } else {
            self.stage_after(self.stage_at((steps - 1) as nat))
        }
    }
}

/// A critical task runs at once, then makes the server shut down. A task for the shutdown waits
/// for it, then runs, and does not shut anything down. Either kind is over after that.
pub proof fn law_stages_of_a_task(plan: TaskPlan, steps: nat)
    ensures
        plan == (TaskPlan { wait_on_shutdown: false, critical: true }) ==> {
            &&& plan.stage_at(1) == TaskStage::Running
            &&& plan.stage_at(2) == TaskStage::CancellingShutdown
            &&& steps >= 3 ==> plan.stage_at(steps) == TaskStage::Finished
        },
        plan == (TaskPlan { wait_on_shutdown: true, critical: false }) ==> {
            &&& plan.stage_at(1) == TaskStage::WaitingForShutdown
            &&& plan.stage_at(2) == TaskStage::Running
            &&& steps >= 3 ==> plan.stage_at(steps) == TaskStage::Finished
        },
        steps >= 4 ==> plan.stage_at(steps) == TaskStage::Finished,
    decreases steps,
{
    reveal_with_fuel(TaskPlan::stage_at, 5);
    if steps > 4 {
        law_stages_of_a_task(plan, (steps - 1) as nat);
    }
}

/// A name in quotes after some words.
fn quoted(words: &str, name: &str) -> (res: String)
    ensures
        res@ == words@ + " '"@ + name@ + "'"@,
{
    let mut res: String = words.to_string();
    res.append(" '");
    res.append(name);
    res.append("'");
    res
}

/// What is said of the error of a task.
pub fn task_error(name: &str) -> (res: String)
    ensures
        res@ == "error in task"@ + " '"@ + name@ + "'"@,
{
    quoted("error in task", name)
}

/// What is said of a task that cannot be joined.
pub fn join_error(name: &str) -> (res: String)
    ensures
        res@ == "error joining task"@ + " '"@ + name@ + "'"@,
{
    quoted("error joining task", name)
}

/// How a background task ended.
#[derive(Debug)]
pub enum JoinOutcome<E> {
    /// The task did what it had to do.
    Finished,
    /// The task ended with an error, which it has logged itself.
    TaskFailed(E),
    /// The task cannot be joined.
    JoinFailed(E),
}

/// The error of a task that has ended, if there is one.
pub open spec fn error_of<E>(outcome: JoinOutcome<E>) -> Option<E> {
    match outcome {
        JoinOutcome::Finished => None,
        JoinOutcome::TaskFailed(e) => Some(e),
        JoinOutcome::JoinFailed(e) => Some(e),
    }
}

/// The errors so far, and that of one more task.
pub open spec fn with_outcome<E>(errors: Seq<E>, outcome: JoinOutcome<E>) -> Seq<E> {
    match error_of(outcome) {
        Some(e) => errors.push(e),
        None => errors,
    }
}

impl<E> JoinOutcome<E> {
    /// Whether the error is still to be logged.
    pub fn should_log(&self) -> (res: bool)
        ensures
            res == (self is JoinFailed),
    {
        match self {
            JoinOutcome::JoinFailed(_) => true,
            _ => false,
        }
    }
}

/// Collects the error of a task that has ended, if there is one. Says whether it is still to be
/// logged.
pub fn join_task<E>(errors: &mut Vec<E>, outcome: JoinOutcome<E>) -> (log: bool)
    ensures
        log == (outcome is JoinFailed),
        final(errors)@ == with_outcome(old(errors)@, outcome),
{
    match outcome {
        JoinOutcome::Finished => false,
        JoinOutcome::TaskFailed(e) => {
            errors.push(e);
            false
        },
        JoinOutcome::JoinFailed(e) => {
            errors.push(e);
            true
        },
    }
}

/// How the server ends: with the error of its startup, or else with the first error of a task,
/// or else well.
pub open spec fn exit_of<E>(startup: Result<(), E>, task_errors: Seq<E>) -> Result<(), E> {
    match startup {
        Err(e) => Err(e),
        Ok(_) => if task_errors.len() > 0 {
            Err(task_errors[0])
        } else {
            Ok(())
        },
    }
}

/// How the server ends.
pub fn exit_result<E>(startup: Result<(), E>, task_errors: Vec<E>) -> (res: Result<(), E>)
    ensures
        res == exit_of(startup, task_errors@),
{
    match startup {
        Err(e) => Err(e),
        Ok(_) => {
            let mut errors: Vec<E> = task_errors;
            if errors.len() > 0 {
                return Err(errors.remove(0));
            }
            Ok(())
        },
    }
}

/// The errors of a number of tasks, in the order in which they are joined.
pub open spec fn collected<E>(outcomes: Seq<JoinOutcome<E>>) -> Seq<E>
    decreases outcomes.len(),
{
    if outcomes.len() == 0 {
        Seq::empty()
    } else {
        with_outcome(collected(outcomes.drop_last()), outcomes.last())
    }
}

/// Whether the given task is the first one that failed.
pub open spec fn is_first_failure<E>(outcomes: Seq<JoinOutcome<E>>, i: int) -> bool {
    &&& 0 <= i < outcomes.len()
    &&& error_of(outcomes[i]) is Some
    &&& forall|j: int| 0 <= j < i ==> error_of(#[trigger] outcomes[j]) is None
}

/// There are errors if and only if a task has failed, and the first of them is that of the first
/// task that has.
proof fn lemma_first_failure<E>(outcomes: Seq<JoinOutcome<E>>)
    ensures
        collected(outcomes).len() == 0 <==> forall|i: int|
            0 <= i < outcomes.len() ==> error_of(#[trigger] outcomes[i]) is None,
        forall|i: int| #[trigger]
            is_first_failure(outcomes, i) ==> collected(outcomes).len() > 0
                && error_of(outcomes[i]) == Some(collected(outcomes)[0]),
    decreases outcomes.len(),
{
    if outcomes.len() > 0 {
        let rest = outcomes.drop_last();
        let n = rest.len() as int;
        lemma_first_failure(rest);
        assert(forall|j: int| 0 <= j < n ==> (#[trigger] outcomes[j]) == rest[j]);
        if collected(outcomes).len() == 0 {
            assert forall|i: int| 0 <= i < outcomes.len() implies error_of(
                #[trigger] outcomes[i],
            ) is None by {
                if i < n {
                    assert(error_of(rest[i]) is None);
                }
            }
        } else if forall|i: int|
            0 <= i < outcomes.len() ==> error_of(#[trigger] outcomes[i]) is None {
            assert forall|i: int| 0 <= i < n implies error_of(#[trigger] rest[i]) is None by {
                assert(error_of(outcomes[i]) is None);
            }
            assert(error_of(outcomes[n]) is None);
        }
        assert forall|i: int| #[trigger] is_first_failure(outcomes, i) implies collected(
            outcomes,
        ).len() > 0 && error_of(outcomes[i]) == Some(collected(outcomes)[0]) by {
            if i < n {
                assert forall|j: int| 0 <= j < i implies error_of(#[trigger] rest[j]) is None by {
                    assert(error_of(outcomes[j]) is None);
                }
                assert(is_first_failure(rest, i));
            } else {
                assert forall|j: int| 0 <= j < n implies error_of(#[trigger] rest[j]) is None by {
                    assert(error_of(outcomes[j]) is None);
                }
            }
        }
    }
}

/// The server ends well if and only if its startup and all of its tasks do. If only tasks fail,
/// it ends with the error of the first one that does.
pub proof fn law_server_ends_as_its_tasks_do<E>(
    startup: Result<(), E>,
    outcomes: Seq<JoinOutcome<E>>,
)
    ensures
        exit_of(startup, collected(outcomes)) is Ok <==> startup is Ok && forall|i: int|
            0 <= i < outcomes.len() ==> #[trigger] outcomes[i] is Finished,
        startup is Err ==> exit_of(startup, collected(outcomes)) == startup,
        startup is Ok ==> forall|i: int| #[trigger]
            is_first_failure(outcomes, i) ==> error_of(outcomes[i]) == Some(
                exit_of(startup, collected(outcomes))->Err_0,
            ),
{
    lemma_first_failure(outcomes);
    assert(forall|i: int|
        0 <= i < outcomes.len() ==> (error_of(#[trigger] outcomes[i]) is None <==> outcomes[i]
            is Finished));
    if forall|i: int| 0 <= i < outcomes.len() ==> #[trigger] outcomes[i] is Finished {
        assert forall|i: int| 0 <= i < outcomes.len() implies error_of(
            #[trigger] outcomes[i],
        ) is None by {}
    }
}

/// What happens while the tasks of the server are joined.
#[derive(Debug)]
pub enum JoinEvent<E> {
    /// All tasks that were registered since the last time have been taken: so many.
    Taken(usize),
    /// One of the tasks that were taken has ended.
    Joined(JoinOutcome<E>),
}

/// What to do next while the tasks of the server are joined.
#[derive(Debug, Clone, Copy, PartialEq, Eq, Structural)]
pub enum JoinAction {
    /// Take all tasks that have been registered since the last time.
    Take,
    /// Wait for the end of the next task that was taken.
    Join,
    /// No task is left.
    Done,
}

/// The joining of all tasks of the server. Tasks may register others as long as they run, so
/// tasks are taken until none are left.
#[derive(Debug)]
pub struct TaskJoiner<E> {
    left: usize,
    done: bool,
    errors: Vec<E>,
}

/// The joining of all tasks of the server, in mathematical terms.
pub struct JoinSpec<E> {
    /// how many tasks have been taken and not joined
    pub left: int,
    /// whether a look for tasks has found none
    pub done: bool,
    /// the errors so far
    pub errors: Seq<E>,
}

impl<E> View for TaskJoiner<E> {
    type V = JoinSpec<E>;

    closed spec fn view(&self) -> JoinSpec<E> {
        JoinSpec { left: self.left as int, done: self.done, errors: self.errors@ }
    }
}

impl<E> JoinSpec<E> {
    /// No task has been taken yet.
    pub open spec fn start() -> JoinSpec<E> {
        JoinSpec { left: 0, done: false, errors: Seq::empty() }
    }

    /// Whether an event can happen now: tasks are taken when none is left to be joined.
    pub open spec fn expects(self, event: JoinEvent<E>) -> bool {
        match event {
            JoinEvent::Taken(_) => self.left == 0 && !self.done,
            JoinEvent::Joined(_) => self.left > 0,
        }
    }

    /// How far the joining is after an event.
    pub open spec fn after(self, event: JoinEvent<E>) -> JoinSpec<E> {
        match event {
            JoinEvent::Taken(n) => JoinSpec { left: n as int, done: n == 0, ..self },
            JoinEvent::Joined(outcome) => JoinSpec {
                left: self.left - 1,
                errors: with_outcome(self.errors, outcome),
                ..self
            },
        }
    }

    /// What to do next.
    pub open spec fn action(self) -> JoinAction {
        if self.done {
            JoinAction::Done
        } else if self.left > 0 {
            JoinAction::Join
        } else {
            JoinAction::Take
        }
    }
}

impl<E> TaskJoiner<E> {
    /// No task has been taken yet. The first thing to do is to take all of them.
    pub fn new() -> (res: Self)
        ensures
            res@ == JoinSpec::<E>::start(),
            res@.action() == JoinAction::Take,
    {
        let res = TaskJoiner { left: 0, done: false, errors: Vec::new() };
        assert(res@.errors =~= Seq::<E>::empty());
        res
    }

    /// Takes note of an event, and says what to do next.
    pub fn next(&mut self, event: JoinEvent<E>) -> (res: JoinAction)
        requires
            old(self)@.expects(event),
        ensures
            final(self)@ == old(self)@.after(event),
            res == final(self)@.action(),
    {
        match event {
            JoinEvent::Taken(n) => {
                self.left = n;
                self.done = n == 0;
            },
            JoinEvent::Joined(outcome) => {
                join_task(&mut self.errors, outcome);
                self.left = self.left - 1;
            },
        }
        if self.done {
            JoinAction::Done
        } else if self.left > 0 {
            JoinAction::Join
        } else {
            JoinAction::Take
        }
    }

    /// The errors so far.
    pub fn into_errors(self) -> (res: Vec<E>)
        ensures
            res@ == self@.errors,
    {
        self.errors
    }
}

/// How far the joining is after a number of events.
pub open spec fn joined_after<E>(events: Seq<JoinEvent<E>>) -> JoinSpec<E>
    decreases events.len(),
{
    if events.len() == 0 {
        JoinSpec::start()
    } else {
        joined_after(events.drop_last()).after(events.last())
    }
}

/// Whether each of the events can happen when it does.
pub open spec fn are_expected<E>(events: Seq<JoinEvent<E>>) -> bool {
    forall|i: int|
        0 <= i < events.len() ==> joined_after(events.take(i)).expects(#[trigger] events[i])
}

/// How many tasks have been taken.
pub open spec fn tasks_taken<E>(events: Seq<JoinEvent<E>>) -> int
    decreases events.len(),
{
    if events.len() == 0 {
        0
    } else {
        tasks_taken(events.drop_last()) + match events.last() {
            JoinEvent::Taken(n) => n as int,
            JoinEvent::Joined(_) => 0,
        }
    }
}

/// How the tasks that have been joined have ended.
pub open spec fn outcomes_of<E>(events: Seq<JoinEvent<E>>) -> Seq<JoinOutcome<E>>
    decreases events.len(),
{
    if events.len() == 0 {
        Seq::empty()
    } else {
        match events.last() {
            JoinEvent::Taken(_) => outcomes_of(events.drop_last()),
            JoinEvent::Joined(outcome) => outcomes_of(events.drop_last()).push(outcome),
        }
    }
}

/// The server waits for all of its tasks. Joining is over if and only if the last look for tasks
/// has found none, and then every task that was ever found has been joined. All their errors are
/// there, in order.
pub proof fn law_all_tasks_are_joined<E>(events: Seq<JoinEvent<E>>)
    requires
        are_expected(events),
    ensures
        ({
            let joined = joined_after(events);
            &&& joined.left == tasks_taken(events) - outcomes_of(events).len()
            &&& joined.left >= 0
            &&& joined.errors == collected(outcomes_of(events))
            &&& joined.action() == JoinAction::Done <==> events.len() > 0 && events.last()
                == JoinEvent::<E>::Taken(0)
            &&& joined.action() == JoinAction::Done ==> outcomes_of(events).len() == tasks_taken(
                events,
            )
        }),
    decreases events.len(),
{
    if events.len() > 0 {
        let before = events.drop_last();
        assert forall|i: int| 0 <= i < before.len() implies joined_after(before.take(i)).expects(
            #[trigger] before[i],
        ) by {
            assert(before.take(i) =~= events.take(i));
            assert(before[i] == events[i]);
        }
        law_all_tasks_are_joined(before);
        assert(events.take(events.len() - 1) =~= before);
        assert(joined_after(before).expects(events[events.len() - 1]));
        if let JoinEvent::Joined(outcome) = events.last() {
            let outcomes = outcomes_of(before).push(outcome);
            assert(outcomes.drop_last() =~= outcomes_of(before));
        }
    }
}

/// The channel by which the database tells that ping monitors have changed.
pub const PING_MONITORS_CHANGED: &'static str = "ping_monitors_changed";

/// What to do about a notification of the database.
#[derive(Debug, Clone, Copy, PartialEq, Eq, Structural)]
pub enum NotificationAction {
    /// Load the monitors anew.
    ReloadPingMonitors,
    /// Nobody handles such a notification.
    Unhandled,
}

/// What to do about a notification on the given channel.
pub fn poll_db_notifications(channel: &str) -> (res: NotificationAction)
    ensures
        res == if channel@ == PING_MONITORS_CHANGED@ {
            NotificationAction::ReloadPingMonitors
        } else {
            NotificationAction::Unhandled
        },
{
    if same_text(channel, PING_MONITORS_CHANGED) {
        NotificationAction::ReloadPingMonitors
    } else {
        NotificationAction::Unhandled
    }
}

/// A monitor is found by its key if and only if one has that key, and only at one place.
pub proof fn law_monitor_is_found_by_key(monitors: Seq<ExtSpec>, id: int, a: int, b: int)
    ensures
        has_id(monitors, id) <==> exists|idx: int| is_at(monitors, id, idx),
        has_id(monitors, id) <==> exists|i: int|
            0 <= i < monitors.len() && (#[trigger] monitors[i]).id == id,
        is_at(monitors, id, a) && is_at(monitors, id, b) ==> a == b,
        is_at(monitors, id, a) ==> 0 <= a < monitors.len() && monitors[a].id == id,
    decreases monitors.len(),
{
    if monitors.len() > 0 {
        let rest = monitors.drop_last();
        let n = rest.len() as int;
        law_monitor_is_found_by_key(rest, id, a, b);
        assert(forall|i: int| 0 <= i < n ==> (#[trigger] monitors[i]) == rest[i]);
        if has_id(monitors, id) {
            if monitors[n].id == id {
                assert(is_at(monitors, id, n));
            } else {
                let i = choose|i: int|
                    0 <= i < monitors.len() && (#[trigger] monitors[i]).id == id;
                assert(rest[i].id == id);
                assert(has_id(rest, id));
                let idx = choose|idx: int| is_at(rest, id, idx);
                assert(monitors[idx] == rest[idx]);
                assert forall|j: int| idx < j < monitors.len() implies (#[trigger] monitors[j]).id
                    != id by {
                    if j < n {
                        assert(rest[j].id != id);
                    }
                }
                assert(is_at(monitors, id, idx));
            }
        }
    }
    if is_at(monitors, id, a) && is_at(monitors, id, b) {
        if a < b {
            assert(monitors[b].id != id);
        } else if b < a {
            assert(monitors[a].id != id);
        }
    }
    if exists|idx: int| is_at(monitors, id, idx) {
        let idx = choose|idx: int| is_at(monitors, id, idx);
        assert(monitors[idx].id == id);
    }
}

/// A write changes the monitor that it is for, and no other one.
pub proof fn law_write_changes_one_monitor(
    monitors: Seq<ExtSpec>,
    idx: int,
    write: WriteSpec,
    i: int,
)
    requires
        0 <= idx < monitors.len(),
        0 <= i < monitors.len(),
    ensures
        after_write_at(monitors, idx, write).len() == monitors.len(),
        after_write_at(monitors, idx, write)[idx] == monitors[idx].after_write(write),
        i != idx ==> after_write_at(monitors, idx, write)[i] == monitors[i],
{
}

/// Any task runs, and waits for the shutdown before that if and only if it is to do so, and shuts
/// the server down after that if and only if it is critical.
pub proof fn law_plan_of_a_task(plan: TaskPlan)
    ensures
        plan.stage_after(TaskStage::Spawned) == TaskStage::WaitingForShutdown
            <==> plan.wait_on_shutdown,
        plan.stage_after(TaskStage::Spawned) == TaskStage::Running <==> !plan.wait_on_shutdown,
        plan.stage_after(TaskStage::WaitingForShutdown) == TaskStage::Running,
        plan.stage_after(TaskStage::Running) == TaskStage::CancellingShutdown <==> plan.critical,
        plan.stage_after(TaskStage::Running) == TaskStage::Finished <==> !plan.critical,
        plan.stage_after(TaskStage::CancellingShutdown) == TaskStage::Finished,
        plan.stage_after(TaskStage::Finished) == TaskStage::Finished,
{
}

/// No error is lost: every task that has not finished well adds its error behind those before it,
/// and one that has adds nothing.
pub proof fn law_no_error_is_lost<E>(errors: Seq<E>, outcome: JoinOutcome<E>, e: E)
    ensures
        with_outcome(errors, JoinOutcome::<E>::Finished) == errors,
        with_outcome(errors, JoinOutcome::TaskFailed(e)) == errors.push(e),
        with_outcome(errors, JoinOutcome::JoinFailed(e)) == errors.push(e),
        error_of(outcome) is None <==> outcome is Finished,
{
}

/// The server ends with the error of its startup, or else with the first error of a task.
pub proof fn law_first_error_decides<E>(e: E, task_errors: Seq<E>)
    ensures
        exit_of(Err(e), task_errors) == Err::<(), E>(e),
        task_errors.len() > 0 ==> exit_of(Ok(()), task_errors) == Err::<(), E>(task_errors[0]),
        exit_of(Ok(()), Seq::<E>::empty()) == Ok::<(), E>(()),
{
}

/// Tasks are joined as long as some of those taken are left, then others are taken, until a look
/// for them finds none. Whatever comes of either is taken note of.
pub proof fn law_steps_of_joining<E>(j: JoinSpec<E>, n: usize, outcome: JoinOutcome<E>)
    requires
        j.left >= 0,
    ensures
        !j.done ==> (j.action() == JoinAction::Join <==> j.left > 0),
        !j.done ==> (j.action() == JoinAction::Take <==> j.left == 0),
        j.action() == JoinAction::Done <==> j.done,
        j.action() == JoinAction::Take ==> j.expects(JoinEvent::Taken(n)),
        j.action() == JoinAction::Join ==> j.expects(JoinEvent::Joined(outcome)),
        j.after(JoinEvent::Taken(n)).left == n,
        j.after(JoinEvent::Taken(n)).done <==> n == 0,
        j.after(JoinEvent::Taken(n)).errors == j.errors,
        j.after(JoinEvent::Joined(outcome)).left == j.left - 1,
        j.after(JoinEvent::Joined(outcome)).done == j.done,
        j.after(JoinEvent::Joined(outcome)).errors == with_outcome(j.errors, outcome),
{
}

} // verus!
