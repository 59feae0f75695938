//! Subscriptions to notifications of the database.

use vstd::hash_map::StringHashMap;
use vstd::prelude::*;
use vstd::string::*;

use crate::text::{chars_of, same_text};
use crate::time::{span_between, Duration, Instant, NANOS_PER_SEC};

verus! {

/// A connection that lived this many seconds counts as a success.
pub const SUCCESS_THRESHOLD: u64 = 300;

/// How many seconds to wait before the next attempt, by the number of failures in a row.
pub const FAILURE_DELAYS: [u64; 5] = [1, 5, 10, 30, 60];

/// Keeps track of attempts to connect, so that they become rarer while they fail.
#[derive(Debug)]
pub struct Backoff {
    prev_attempt: Option<Instant>,
    consecutive_failures: usize,
}

/// The attempts to connect so far, in mathematical terms.
pub struct BackoffSpec {
    pub prev_attempt: Option<int>,
    pub consecutive_failures: int,
}

impl View for Backoff {
    type V = BackoffSpec;

    closed spec fn view(&self) -> BackoffSpec {
        BackoffSpec {
            prev_attempt: match self.prev_attempt {
                Some(t) => Some(t@),
                None => None,
            },
            consecutive_failures: self.consecutive_failures as int,
        }
    }
}

/// How long to wait after the given number of failures in a row, in nanoseconds.
pub open spec fn failure_delay(failures: int) -> int {
    let idx = if failures < FAILURE_DELAYS@.len() {
        failures
    } else {
        FAILURE_DELAYS@.len() - 1
    };
    FAILURE_DELAYS@[idx] * NANOS_PER_SEC
}

impl BackoffSpec {
    /// No attempt was made yet.
    pub open spec fn start() -> BackoffSpec {
        BackoffSpec { prev_attempt: None, consecutive_failures: 0 }
    }

    /// Whether the connection of the previous attempt has lived long enough.
    pub open spec fn was_alive(self, now: int) -> bool {
        self.prev_attempt is Some && span_between(self.prev_attempt->0, now) >= SUCCESS_THRESHOLD
            * NANOS_PER_SEC
    }

    /// How long to wait before an attempt. The first attempt is made at once, and so is one after
    /// a connection that lived long enough.
    pub open spec fn delay(self, now: int) -> Option<int> {
        if self.prev_attempt is None || self.was_alive(now) {
            None
        } else {
            Some(failure_delay(self.consecutive_failures))
        }
    }

    /// What is known once an attempt is due.
    pub open spec fn after(self, now: int) -> BackoffSpec {
        BackoffSpec {
            prev_attempt: Some(now),
            consecutive_failures: if self.prev_attempt is None {
                self.consecutive_failures
            } else if self.was_alive(now) {
                0
            } else {
                self.consecutive_failures + 1
            },
        }
    }
}

/// The view of a span that may be missing.
pub open spec fn view_span(span: Option<Duration>) -> Option<int> {
    match span {
        Some(d) => Some(d@),
        None => None,
    }
}

impl Backoff {
    /// No attempt was made yet.
    pub fn new() -> (res: Self)
        ensures
            res@ == BackoffSpec::start(),
    {
        Backoff { prev_attempt: None, consecutive_failures: 0 }
    }

    /// Notes down the next attempt, and says how long to wait before it, if at all.
    pub fn wait(&mut self, now: Instant) -> (res: Option<Duration>)
        requires
            old(self)@.consecutive_failures < usize::MAX,
        ensures
            view_span(res) == old(self)@.delay(now@),
            final(self)@ == old(self)@.after(now@),
    {
        let prev_attempt = self.prev_attempt;
        self.prev_attempt = Some(now);
        match prev_attempt {
            None => None,
            Some(prev_attempt) => {
                let elapsed: Duration = now.duration_since(prev_attempt);
                if elapsed.at_least(Duration::from_secs(SUCCESS_THRESHOLD)) {
                    self.consecutive_failures = 0;
                    return None;
                }
                let last: usize = FAILURE_DELAYS.len() - 1;
                let delay_idx: usize = if self.consecutive_failures < last {
                    self.consecutive_failures
                } else {
                    last
                };
                let delay: Duration = Duration::from_secs(FAILURE_DELAYS[delay_idx]);
                self.consecutive_failures = self.consecutive_failures + 1;
                Some(delay)
            },
        }
    }

    /// The number of failures in a row.
    pub fn consecutive_failures(&self) -> (res: usize)
        ensures
            res == self@.consecutive_failures,
    {
        self.consecutive_failures
    }
}

/// Attempts become rarer as failures add up, but there is one every minute at least, and never
/// two in a row without a second between them.
pub proof fn law_failure_delays_grow(fewer: int, more: int)
    requires
        0 <= fewer <= more,
    ensures
        NANOS_PER_SEC <= failure_delay(fewer) <= failure_delay(more) <= 60 * NANOS_PER_SEC,
{
}

/// The first attempt is made at once. So is one after a connection that lived for five minutes,
/// and the failures before it are forgotten: after the next one the wait is as short as after
/// the first.
pub proof fn law_success_resets_backoff(b: BackoffSpec, now: int, later: int)
    ensures
        BackoffSpec::start().delay(now) is None,
        b.was_alive(now) ==> b.delay(now) is None,
        b.was_alive(now) && later < now + SUCCESS_THRESHOLD * NANOS_PER_SEC ==> b.after(now).delay(
            later,
        ) == Some(NANOS_PER_SEC as int),
{
}

/// Whether a character may occur in the name of a channel.
pub open spec fn is_channel_char(c: char) -> bool {
    c == '_' || 'a' <= c <= 'z' || 'A' <= c <= 'Z'
}

/// Whether a channel name may be put into a statement as it is.
pub open spec fn channel_safe(channel: Seq<char>) -> bool {
    forall|i: int| 0 <= i < channel.len() ==> is_channel_char(#[trigger] channel[i])
}

/// What the one who asked for a subscription, or for its end, is told.
#[derive(Debug, Clone, Copy, PartialEq, Eq, Structural)]
pub enum Reply {
    /// It is done.
    Done,
    /// The name of the channel is not acceptable.
    UnsafeChannel,
    /// There is no subscription to the channel.
    NotSubscribed,
    /// The database refused the statement.
    DatabaseError,
}

impl Reply {
    /// The message that goes with a refusal, for the given channel.
    pub open spec fn message_text(self, channel: Seq<char>) -> Option<Seq<char>> {
        match self {
            Reply::UnsafeChannel => Some(
                "only ASCII letters and '_' are allowed in channel names"@,
            ),
            Reply::NotSubscribed => Some("not subscribed to channel '"@ + channel + "'"@),
            _ => None,
        }
    }

    /// The message that goes with a refusal, for the given channel. The database words its own
    /// refusals.
    pub fn message(&self, channel: &str) -> (res: Option<String>)
        ensures
            match self.message_text(channel@) {
                Some(text) => res is Some && res->0@ == text,
                None => res is None,
            },
    {
        match self {
            Reply::UnsafeChannel => Some(
                "only ASCII letters and '_' are allowed in channel names".to_string(),
            ),
            Reply::NotSubscribed => {
                let mut text: String = "not subscribed to channel '".to_string();
                text.append(channel);
                text.append("'");
                Some(text)
            },
            _ => None,
        }
    }
}

/// What to do about a subscription.
#[derive(Debug)]
pub enum SubscriptionStep {
    /// Tell the outcome.
    Reply(Reply),
    /// Have the database execute a statement first.
    Execute(String),
}

/// What to do about a subscription, in mathematical terms.
pub enum StepSpec {
    Reply(Reply),
    Execute(Seq<char>),
}

impl View for SubscriptionStep {
    type V = StepSpec;

    open spec fn view(&self) -> StepSpec {
        match self {
            SubscriptionStep::Reply(reply) => StepSpec::Reply(*reply),
            SubscriptionStep::Execute(stmt) => StepSpec::Execute(stmt@),
        }
    }
}

/// The statement that starts notifications.
pub open spec fn listen_stmt(channel: Seq<char>) -> Seq<char> {
    "LISTEN "@ + channel
}

/// The statement that ends notifications.
pub open spec fn unlisten_stmt(channel: Seq<char>) -> Seq<char> {
    "UNLISTEN "@ + channel
}

/// The number of subscribers of each channel that has any.
pub type Subscribers = Map<Seq<char>, usize>;

/// What holds of the subscribers at any time: a channel that is listed has a subscriber, and its
/// name is safe.
pub open spec fn subscribers_wf(active: Subscribers) -> bool {
    forall|channel: Seq<char>| #[trigger]
        active.contains_key(channel) ==> active[channel] >= 1 && channel_safe(channel)
}

/// Whether a channel can take one more subscriber.
pub open spec fn has_room(active: Subscribers, channel: Seq<char>) -> bool {
    active.contains_key(channel) ==> active[channel] < usize::MAX
}

/// What to do about a new subscription.
pub open spec fn subscribe_step(active: Subscribers, channel: Seq<char>) -> StepSpec {
    if !channel_safe(channel) {
        StepSpec::Reply(Reply::UnsafeChannel)
    } else if active.contains_key(channel) {
        StepSpec::Reply(Reply::Done)
    } else {
        StepSpec::Execute(listen_stmt(channel))
    }
}

/// The subscribers with one more on the given channel.
pub open spec fn with_subscriber(active: Subscribers, channel: Seq<char>) -> Subscribers {
    if active.contains_key(channel) {
        active.insert(channel, (active[channel] + 1) as usize)
    } else {
        active.insert(channel, 1)
    }
}

/// What to do about the end of a subscription.
pub open spec fn unsubscribe_step(active: Subscribers, channel: Seq<char>) -> StepSpec {
    if !active.contains_key(channel) {
        StepSpec::Reply(Reply::NotSubscribed)
    } else if active[channel] <= 1 {
        StepSpec::Execute(unlisten_stmt(channel))
    } else {
        StepSpec::Reply(Reply::Done)
    }
}

/// The subscribers with one less on the given channel.
pub open spec fn without_subscriber(active: Subscribers, channel: Seq<char>) -> Subscribers {
    if active[channel] <= 1 {
        active.remove(channel)
    } else {
        active.insert(channel, (active[channel] - 1) as usize)
    }
}

/// The subscribers after a step for the given channel: only what is done at once is counted at
/// once.
pub open spec fn after_step(
    active: Subscribers,
    step: StepSpec,
    counted: Subscribers,
) -> Subscribers {
    if step == StepSpec::Reply(Reply::Done) {
        counted
    } else {
        active
    }
}

/// Keeps track of who listens to which channel, so that the database is asked once per channel.
pub struct SubscriptionManager {
    active: StringHashMap<usize>,
}

impl View for SubscriptionManager {
    type V = Subscribers;

    closed spec fn view(&self) -> Subscribers {
        self.active@
    }
}

impl SubscriptionManager {
    /// Nobody listens to anything.
    pub fn new() -> (res: Self)
        ensures
            res@ == Map::<Seq<char>, usize>::empty(),
            subscribers_wf(res@),
    {
        SubscriptionManager { active: StringHashMap::new() }
    }

    /// Whether a channel name may be put into a statement as it is. Statements for notifications
    /// take no parameters, so names have to be checked before a statement is built from them.
    pub fn is_channel_safe(channel: &str) -> (res: bool)
        ensures
            res == channel_safe(channel@),
    {
        let chars: Vec<char> = chars_of(channel);
        let mut i: usize = 0;
        while i < chars.len()
            invariant
                chars@ == channel@,
                i <= chars.len(),
                forall|j: int| 0 <= j < i ==> is_channel_char(#[trigger] channel@[j]),
            decreases chars.len() - i,
        {
            let c = chars[i];
            if !(c == '_' || ('a' <= c && c <= 'z') || ('A' <= c && c <= 'Z')) {
                assert(!is_channel_char(channel@[i as int]));
                return false;
            }
            i = i + 1;
        }
        true
    }

    /// The number of subscribers of a channel.
    pub fn subscribers(&self, channel: &str) -> (res: usize)
        ensures
            res == if self@.contains_key(channel@) {
                self@[channel@]
            } else {
                0
            },
    {
        match self.active.get(channel) {
            Some(n) => *n,
            None => 0,
        }
    }

    /// A new subscriber. If a statement has to be executed, the subscriber counts only once
    /// `listening` is called.
    pub fn subscribe(&mut self, channel: &str) -> (res: SubscriptionStep)
        requires
            has_room(old(self)@, channel@),
        ensures
            res@ == subscribe_step(old(self)@, channel@),
            final(self)@ == after_step(
                old(self)@,
                res@,
                with_subscriber(old(self)@, channel@),
            ),
            subscribers_wf(old(self)@) ==> subscribers_wf(final(self)@),
    {
        if !Self::is_channel_safe(channel) {
            return SubscriptionStep::Reply(Reply::UnsafeChannel);
        }
        let subscribers: Option<usize> = match self.active.get(channel) {
            Some(n) => Some(*n),
            None => None,
        };
        match subscribers {
            Some(n) => {
                self.active.insert(channel.to_string(), n + 1);
                SubscriptionStep::Reply(Reply::Done)
            },
            None => {
                let mut stmt: String = "LISTEN ".to_string();
                stmt.append(channel);
                SubscriptionStep::Execute(stmt)
            },
        }
    }

    /// The database has started notifications for a new subscriber.
    pub fn listening(&mut self, channel: &str)
        requires
            channel_safe(channel@),
            !old(self)@.contains_key(channel@),
        ensures
            final(self)@ == with_subscriber(old(self)@, channel@),
            subscribers_wf(old(self)@) ==> subscribers_wf(final(self)@),
    {
        self.active.insert(channel.to_string(), 1);
    }

    /// A subscriber leaves. If a statement has to be executed, the subscriber counts until
    /// `unlistened` is called.
    pub fn unsubscribe(&mut self, channel: &str) -> (res: SubscriptionStep)
        ensures
            res@ == unsubscribe_step(old(self)@, channel@),
            final(self)@ == after_step(
                old(self)@,
                res@,
                without_subscriber(old(self)@, channel@),
            ),
            subscribers_wf(old(self)@) ==> subscribers_wf(final(self)@),
    {
        let subscribers: Option<usize> = match self.active.get(channel) {
            Some(n) => Some(*n),
            None => None,
        };
        match subscribers {
            Some(n) => {
                if n <= 1 {
                    let mut stmt: String = "UNLISTEN ".to_string();
                    stmt.append(channel);
                    SubscriptionStep::Execute(stmt)
                } else {
                    self.active.insert(channel.to_string(), n - 1);
                    SubscriptionStep::Reply(Reply::Done)
                }
            },
            None => SubscriptionStep::Reply(Reply::NotSubscribed),
        }
    }

    /// The database has ended notifications for the last subscriber.
    pub fn unlistened(&mut self, channel: &str)
        requires
            old(self)@.contains_key(channel@),
            old(self)@[channel@] <= 1,
        ensures
            final(self)@ == without_subscriber(old(self)@, channel@),
            subscribers_wf(old(self)@) ==> subscribers_wf(final(self)@),
    {
        self.active.remove(channel);
    }
}

/// The end of a subscription undoes its start, and every other channel is left alone by both.
pub proof fn law_unsubscribe_undoes_subscribe(active: Subscribers, channel: Seq<char>)
    requires
        subscribers_wf(active),
        has_room(active, channel),
    ensures
        without_subscriber(with_subscriber(active, channel), channel) == active,
        with_subscriber(active, channel).remove(channel) == active.remove(channel),
{
    assert(without_subscriber(with_subscriber(active, channel), channel) =~= active);
    assert(with_subscriber(active, channel).remove(channel) =~= active.remove(channel));
}

/// The database is asked to start notifications for the first subscriber of a channel and to
/// end them for the last one, and at no other time.
pub proof fn law_one_statement_per_channel(active: Subscribers, channel: Seq<char>)
    requires
        subscribers_wf(active),
        channel_safe(channel),
    ensures
        subscribe_step(active, channel) is Execute <==> !active.contains_key(channel),
        unsubscribe_step(active, channel) is Execute <==> active.contains_key(channel)
            && !without_subscriber(active, channel).contains_key(channel),
        unsubscribe_step(active, channel) == StepSpec::Reply(Reply::NotSubscribed)
            <==> !active.contains_key(channel),
{
}

/// Whatever name is asked for, a statement is a fixed word followed by nothing but letters and
/// underscores.
pub proof fn law_statements_are_safe(active: Subscribers, channel: Seq<char>)
    requires
        subscribers_wf(active),
    ensures
        subscribe_step(active, channel) matches StepSpec::Execute(stmt) ==> stmt == "LISTEN "@
            + channel && channel_safe(channel),
        unsubscribe_step(active, channel) matches StepSpec::Execute(stmt) ==> stmt == "UNLISTEN "@
            + channel && channel_safe(channel),
{
}

/// A request that was served: what was asked for, and whether the database executed the statement
/// that it took, if it took one.
pub struct ServedSpec {
    pub command: CommandSpec,
    pub executed: bool,
}

impl ServedSpec {
    /// What there was to do about the request.
    pub open spec fn step(self, active: Subscribers) -> StepSpec {
        match self.command {
            CommandSpec::Subscribe(channel) => subscribe_step(active, channel),
            CommandSpec::Unsubscribe(channel) => unsubscribe_step(active, channel),
        }
    }

    /// Whether the request was granted.
    pub open spec fn granted(self, active: Subscribers) -> bool {
        match self.step(active) {
            StepSpec::Reply(reply) => reply == Reply::Done,
            StepSpec::Execute(_) => self.executed,
        }
    }

    /// The subscribers after the request.
    pub open spec fn after(self, active: Subscribers) -> Subscribers {
        if !self.granted(active) {
            active
        } else {
            match self.command {
                CommandSpec::Subscribe(channel) => with_subscriber(active, channel),
                CommandSpec::Unsubscribe(channel) => without_subscriber(active, channel),
            }
        }
    }

    /// By how much the request changes the number of subscribers of a channel.
    pub open spec fn change(self, active: Subscribers, channel: Seq<char>) -> int {
        if !self.granted(active) {
            0
        } else if self.command == CommandSpec::Subscribe(channel) {
            1
        } else if self.command == CommandSpec::Unsubscribe(channel) {
            -1
        } else {
            0
        }
    }
}

/// The subscribers after a number of requests, when there was nobody at first.
pub open spec fn after_all(served: Seq<ServedSpec>) -> Subscribers
    decreases served.len(),
{
    if served.len() == 0 {
        Map::empty()
    } else {
        served.last().after(after_all(served.drop_last()))
    }
}

/// The granted subscriptions of a channel minus the granted ends of subscriptions.
pub open spec fn balance(served: Seq<ServedSpec>, channel: Seq<char>) -> int
    decreases served.len(),
{
    if served.len() == 0 {
        0
    } else {
        let before = served.drop_last();
        balance(before, channel) + served.last().change(after_all(before), channel)
    }
}

/// After any requests, the number of subscribers of a channel is that of the granted
/// subscriptions minus that of the granted ends of subscriptions, which is never negative. The
/// channel is listed if and only if that number is not zero, and its name is then safe. There is
/// always room for one more, and whatever statement the next request takes names a safe channel.
pub proof fn law_count_is_the_balance(
    served: Seq<ServedSpec>,
    channel: Seq<char>,
    next: ServedSpec,
)
    requires
        served.len() < usize::MAX,
    ensures
        ({
            let active = after_all(served);
            &&& 0 <= balance(served, channel) <= served.len()
            &&& active.contains_key(channel) <==> balance(served, channel) > 0
            &&& active.contains_key(channel) ==> active[channel] == balance(served, channel)
            &&& active.contains_key(channel) ==> channel_safe(channel)
            &&& has_room(active, channel)
            &&& subscribers_wf(active)
            &&& next.step(active) is Execute ==> match next.command {
                CommandSpec::Subscribe(c) => channel_safe(c),
                CommandSpec::Unsubscribe(c) => channel_safe(c),
            }
        }),
{
    lemma_count(served, channel);
    assert forall|c: Seq<char>| #[trigger] after_all(served).contains_key(c) implies after_all(
        served,
    )[c] >= 1 && channel_safe(c) by {
        lemma_count(served, c);
    }
}

/// The count of one channel after any requests.
proof fn lemma_count(served: Seq<ServedSpec>, channel: Seq<char>)
    requires
        served.len() <= usize::MAX,
    ensures
        0 <= balance(served, channel) <= served.len(),
        after_all(served).contains_key(channel) <==> balance(served, channel) > 0,
        after_all(served).contains_key(channel) ==> after_all(served)[channel] == balance(
            served,
            channel,
        ) && channel_safe(channel),
    decreases served.len(),
{
    if served.len() > 0 {
        let before = served.drop_last();
        lemma_count(before, channel);
        match served.last().command {
            CommandSpec::Subscribe(c) => {
                lemma_count(before, c);
            },
            CommandSpec::Unsubscribe(c) => {
                lemma_count(before, c);
            },
        }
    }
}

/// A request to the subscription loop.
#[derive(Debug)]
pub enum Command {
    Subscribe(String),
    Unsubscribe(String),
}

/// A request to the subscription loop, in mathematical terms.
pub enum CommandSpec {
    Subscribe(Seq<char>),
    Unsubscribe(Seq<char>),
}

impl View for Command {
    type V = CommandSpec;

    open spec fn view(&self) -> CommandSpec {
        match self {
            Command::Subscribe(channel) => CommandSpec::Subscribe(channel@),
            Command::Unsubscribe(channel) => CommandSpec::Unsubscribe(channel@),
        }
    }
}

/// How the polling of a connection ended.
#[derive(Debug, Clone, Copy, PartialEq, Eq, Structural)]
pub enum PollEnd {
    /// It was told to stop.
    Stopped,
    /// The connection broke.
    ConnectionError,
    /// The task that polled did not survive.
    Panicked,
}

/// What happens to the subscription loop.
#[derive(Debug)]
pub enum LoopEvent {
    /// The wait before an attempt to connect is over.
    Waited { cancelled: bool },
    /// An attempt to connect has succeeded or failed.
    Connected(bool),
    /// A request has come in.
    Command(Command),
    /// The database has executed or refused a statement.
    Executed(bool),
    /// The connection is not polled any more.
    PollFinished(PollEnd),
}

/// What happens to the subscription loop, in mathematical terms.
pub enum EventSpec {
    Waited { cancelled: bool },
    Connected(bool),
    Command(CommandSpec),
    Executed(bool),
    PollFinished(PollEnd),
}

impl View for LoopEvent {
    type V = EventSpec;

    open spec fn view(&self) -> EventSpec {
        match self {
            LoopEvent::Waited { cancelled } => EventSpec::Waited { cancelled: *cancelled },
            LoopEvent::Connected(ok) => EventSpec::Connected(*ok),
            LoopEvent::Command(command) => EventSpec::Command(command@),
            LoopEvent::Executed(ok) => EventSpec::Executed(*ok),
            LoopEvent::PollFinished(end) => EventSpec::PollFinished(*end),
        }
    }
}

/// What the subscription loop does next.
#[derive(Debug)]
pub enum LoopAction {
    /// Wait for the given span, if any, or until cancelled.
    Wait(Option<Duration>),
    /// Connect to the database.
    Connect,
    /// Wait for a request or for the end of the connection.
    Select,
    /// Execute a statement.
    Execute(String),
    /// Tell the outcome of a request, then go on as for `Select`.
    Reply(Reply),
    /// Stop for good.
    Stop,
}

/// What the subscription loop does next, in mathematical terms.
pub enum ActionSpec {
    Wait(Option<int>),
    Connect,
    Select,
    Execute(Seq<char>),
    Reply(Reply),
    Stop,
}

impl View for LoopAction {
    type V = ActionSpec;

    open spec fn view(&self) -> ActionSpec {
        match self {
            LoopAction::Wait(delay) => ActionSpec::Wait(view_span(*delay)),
            LoopAction::Connect => ActionSpec::Connect,
            LoopAction::Select => ActionSpec::Select,
            LoopAction::Execute(stmt) => ActionSpec::Execute(stmt@),
            LoopAction::Reply(reply) => ActionSpec::Reply(*reply),
            LoopAction::Stop => ActionSpec::Stop,
        }
    }
}

/// What the subscription loop waits for.
#[derive(Debug)]
enum Phase {
    Waiting,
    Connecting,
    Selecting,
    Executing(Command),
    Stopped,
}

/// What the subscription loop waits for, in mathematical terms.
pub enum PhaseSpec {
    Waiting,
    Connecting,
    Selecting,
    Executing(CommandSpec),
    Stopped,
}

/// The loop that keeps a connection for notifications and serves requests.
pub struct SubscriptionLoop {
    subs: SubscriptionManager,
    backoff: Backoff,
    phase: Phase,
}

/// The loop that keeps a connection for notifications, in mathematical terms.
pub struct LoopSpec {
    pub subs: Subscribers,
    pub backoff: BackoffSpec,
    pub phase: PhaseSpec,
}

impl View for SubscriptionLoop {
    type V = LoopSpec;

    closed spec fn view(&self) -> LoopSpec {
        LoopSpec {
            subs: self.subs@,
            backoff: self.backoff@,
            phase: match self.phase {
                Phase::Waiting => PhaseSpec::Waiting,
                Phase::Connecting => PhaseSpec::Connecting,
                Phase::Selecting => PhaseSpec::Selecting,
                Phase::Executing(command) => PhaseSpec::Executing(command@),
                Phase::Stopped => PhaseSpec::Stopped,
            },
        }
    }
}

impl LoopSpec {
    /// What holds of the loop at any time: the subscribers are well formed, and a statement is
    /// only ever executed for the first subscriber of a safe channel or for the last one.
    pub open spec fn wf(self) -> bool {
        &&& subscribers_wf(self.subs)
        &&& match self.phase {
            PhaseSpec::Executing(CommandSpec::Subscribe(channel)) => {
                channel_safe(channel) && !self.subs.contains_key(channel)
            },
            PhaseSpec::Executing(CommandSpec::Unsubscribe(channel)) => {
                self.subs.contains_key(channel) && self.subs[channel] <= 1
            },
            _ => true,
        }
    }

    /// Whether the event is one that the loop waits for. Counters have room for one more.
    pub open spec fn expects(self, event: EventSpec) -> bool {
        match (self.phase, event) {
            (PhaseSpec::Waiting, EventSpec::Waited { .. }) => true,
            (PhaseSpec::Connecting, EventSpec::Connected(ok)) => {
                ok || self.backoff.consecutive_failures < usize::MAX
            },
            (PhaseSpec::Selecting, EventSpec::Command(CommandSpec::Subscribe(channel))) => {
                has_room(self.subs, channel)
            },
            (PhaseSpec::Selecting, EventSpec::Command(CommandSpec::Unsubscribe(_))) => true,
            (PhaseSpec::Selecting, EventSpec::PollFinished(end)) => {
                end == PollEnd::Stopped || self.backoff.consecutive_failures < usize::MAX
            },
            (PhaseSpec::Executing(_), EventSpec::Executed(_)) => true,
            _ => false,
        }
    }

    /// The loop that attempts to connect again.
    pub open spec fn retry(self, now: int) -> (LoopSpec, ActionSpec) {
        (
            LoopSpec { backoff: self.backoff.after(now), phase: PhaseSpec::Waiting, ..self },
            ActionSpec::Wait(self.backoff.delay(now)),
        )
    }

    /// The loop in the given phase.
    pub open spec fn at(self, phase: PhaseSpec) -> LoopSpec {
        LoopSpec { phase: phase, ..self }
    }

    /// The loop with the given subscribers, ready for what comes next.
    pub open spec fn ready(self, subs: Subscribers) -> LoopSpec {
        LoopSpec { subs: subs, phase: PhaseSpec::Selecting, ..self }
    }

    /// What the loop does about a request that leads to the given step.
    pub open spec fn serve(
        self,
        command: CommandSpec,
        step: StepSpec,
        counted: Subscribers,
    ) -> (LoopSpec, ActionSpec) {
        match step {
            StepSpec::Reply(reply) => (
                self.ready(after_step(self.subs, step, counted)),
                ActionSpec::Reply(reply),
            ),
            StepSpec::Execute(stmt) => (
                self.at(PhaseSpec::Executing(command)),
                ActionSpec::Execute(stmt),
            ),
        }
    }

    /// The loop after an event, and what it does next.
    pub open spec fn next(self, event: EventSpec, now: int) -> (LoopSpec, ActionSpec) {
        match (self.phase, event) {
            (PhaseSpec::Waiting, EventSpec::Waited { cancelled }) => if cancelled {
                (self.at(PhaseSpec::Stopped), ActionSpec::Stop)
            } else {
                (self.at(PhaseSpec::Connecting), ActionSpec::Connect)
            },
            (PhaseSpec::Connecting, EventSpec::Connected(ok)) => if ok {
                (self.at(PhaseSpec::Selecting), ActionSpec::Select)
            } else {
                self.retry(now)
            },
            (PhaseSpec::Selecting, EventSpec::Command(CommandSpec::Subscribe(channel))) => {
                self.serve(
                    CommandSpec::Subscribe(channel),
                    subscribe_step(self.subs, channel),
                    with_subscriber(self.subs, channel),
                )
            },
            (PhaseSpec::Selecting, EventSpec::Command(CommandSpec::Unsubscribe(channel))) => {
                self.serve(
                    CommandSpec::Unsubscribe(channel),
                    unsubscribe_step(self.subs, channel),
                    without_subscriber(self.subs, channel),
                )
            },
            (PhaseSpec::Executing(command), EventSpec::Executed(ok)) => if ok {
                (
                    self.ready(
                        match command {
                            CommandSpec::Subscribe(channel) => with_subscriber(self.subs, channel),
                            CommandSpec::Unsubscribe(channel) => without_subscriber(
                                self.subs,
                                channel,
                            ),
                        },
                    ),
                    ActionSpec::Reply(Reply::Done),
                )
            } else {
                (self.at(PhaseSpec::Selecting), ActionSpec::Reply(Reply::DatabaseError))
            },
            (PhaseSpec::Selecting, EventSpec::PollFinished(end)) => if end == PollEnd::Stopped {
                (self.at(PhaseSpec::Stopped), ActionSpec::Stop)
            } else {
                self.retry(now)
            },
            _ => (self, ActionSpec::Stop),
        }
    }
}

impl SubscriptionLoop {
    /// The loop at its start, which is the wait before the first attempt to connect.
    pub fn new(now: Instant) -> (res: (Self, LoopAction))
        ensures
            res.0@ == (LoopSpec {
                subs: Map::<Seq<char>, usize>::empty(),
                backoff: BackoffSpec::start().after(now@),
                phase: PhaseSpec::Waiting,
            }),
            res.0@.wf(),
            res.1@ == ActionSpec::Wait(None),
    {
        let mut backoff: Backoff = Backoff::new();
        let delay = backoff.wait(now);
        let subs: SubscriptionManager = SubscriptionManager::new();
        (SubscriptionLoop { subs, backoff, phase: Phase::Waiting }, LoopAction::Wait(delay))
    }

    /// Takes note of an attempt to connect that has to be repeated.
    fn retry(&mut self, now: Instant) -> (res: LoopAction)
        requires
            old(self)@.backoff.consecutive_failures < usize::MAX,
        ensures
            (final(self)@, res@) == old(self)@.retry(now@),
    {
        let delay = self.backoff.wait(now);
        self.phase = Phase::Waiting;
        LoopAction::Wait(delay)
    }

    /// Serves a request.
    fn serve(&mut self, command: Command) -> (res: LoopAction)
        requires
            old(self)@.phase is Selecting,
            command@ matches CommandSpec::Subscribe(channel) ==> has_room(old(self)@.subs, channel),
        ensures
            (final(self)@, res@) == match command@ {
                CommandSpec::Subscribe(channel) => old(self)@.serve(
                    command@,
                    subscribe_step(old(self)@.subs, channel),
                    with_subscriber(old(self)@.subs, channel),
                ),
                CommandSpec::Unsubscribe(channel) => old(self)@.serve(
                    command@,
                    unsubscribe_step(old(self)@.subs, channel),
                    without_subscriber(old(self)@.subs, channel),
                ),
            },
    {
        let step = match &command {
            Command::Subscribe(channel) => self.subs.subscribe(channel.as_str()),
            Command::Unsubscribe(channel) => self.subs.unsubscribe(channel.as_str()),
        };
        match step {
            SubscriptionStep::Reply(reply) => LoopAction::Reply(reply),
            SubscriptionStep::Execute(stmt) => {
                self.phase = Phase::Executing(command);
                LoopAction::Execute(stmt)
            },
        }
    }

    /// Whether an event is one that the loop waits for.
    pub fn expects(&self, event: &LoopEvent) -> (res: bool)
        ensures
            res == self@.expects(event@),
    {
        match (&self.phase, event) {
            (Phase::Waiting, LoopEvent::Waited { .. }) => true,
            (Phase::Connecting, LoopEvent::Connected(ok)) => {
                *ok || self.backoff.consecutive_failures() < usize::MAX
            },
            (Phase::Selecting, LoopEvent::Command(Command::Subscribe(channel))) => {
                self.subs.subscribers(channel.as_str()) < usize::MAX
            },
            (Phase::Selecting, LoopEvent::Command(Command::Unsubscribe(_))) => true,
            (Phase::Selecting, LoopEvent::PollFinished(end)) => {
                *end == PollEnd::Stopped || self.backoff.consecutive_failures() < usize::MAX
            },
            (Phase::Executing(_), LoopEvent::Executed(_)) => true,
            _ => false,
        }
    }

    /// Takes note of an event and says what to do next.
    pub fn next(&mut self, event: LoopEvent, now: Instant) -> (res: LoopAction)
        requires
            old(self)@.wf(),
            old(self)@.expects(event@),
        ensures
            (final(self)@, res@) == old(self)@.next(event@, now@),
            final(self)@.wf(),
    {
        match event {
            LoopEvent::Waited { cancelled } => if cancelled {
                self.phase = Phase::Stopped;
                LoopAction::Stop
            } else {
                self.phase = Phase::Connecting;
                LoopAction::Connect
            },
            LoopEvent::Connected(ok) => if ok {
                self.phase = Phase::Selecting;
                LoopAction::Select
            } else {
                self.retry(now)
            },
            LoopEvent::Command(command) => self.serve(command),
            LoopEvent::Executed(ok) => {
                if ok {
                    match &self.phase {
                        Phase::Executing(Command::Subscribe(channel)) => {
                            self.subs.listening(channel.as_str());
                        },
                        Phase::Executing(Command::Unsubscribe(channel)) => {
                            self.subs.unlistened(channel.as_str());
                        },
                        _ => {},
                    }
                }
                self.phase = Phase::Selecting;
                if ok {
                    LoopAction::Reply(Reply::Done)
                } else {
                    LoopAction::Reply(Reply::DatabaseError)
                }
            },
            LoopEvent::PollFinished(end) => if end == PollEnd::Stopped {
                self.phase = Phase::Stopped;
                LoopAction::Stop
            } else {
                self.retry(now)
            },
        }
    }
}

/// Subscribers change by served requests only: a lost connection, a failed attempt to connect and
/// a refused statement leave all counts in place. The counts are all that survives. No statement
/// is executed on a new connection to start notifications again for the channels that are
/// counted.
pub proof fn law_subscribers_survive_reconnection(l: LoopSpec, event: EventSpec, now: int)
    requires
        l.expects(event),
        !(event is Command),
        event != EventSpec::Executed(true),
    ensures
        l.next(event, now).0.subs == l.subs,
{
}

/// A request is answered at once or after one statement, and the answer is `Done` if and only if
/// the request is granted. Subscribers are counted accordingly. While the statement is executed
/// no other request is served.
pub proof fn law_every_request_is_answered(
    l: LoopSpec,
    command: CommandSpec,
    executed: bool,
    now: int,
    later: int,
)
    requires
        l.wf(),
        l.expects(EventSpec::Command(command)),
    ensures
        ({
            let (mid, action) = l.next(EventSpec::Command(command), now);
            let served = ServedSpec { command, executed };
            match action {
                ActionSpec::Reply(reply) => {
                    &&& mid.phase is Selecting
                    &&& mid.subs == served.after(l.subs)
                    &&& reply == Reply::Done <==> served.granted(l.subs)
                },
                ActionSpec::Execute(_) => {
                    &&& mid.subs == l.subs
                    &&& mid.phase == PhaseSpec::Executing(command)
                    &&& mid.expects(EventSpec::Executed(executed))
                    &&& !mid.expects(EventSpec::Command(command))
                    &&& mid.next(EventSpec::Executed(executed), later).0.phase is Selecting
                    &&& mid.next(EventSpec::Executed(executed), later).0.subs == served.after(
                        l.subs,
                    )
                    &&& executed == served.granted(l.subs)
                    &&& mid.next(EventSpec::Executed(executed), later).1 == ActionSpec::Reply(
                        if executed {
                            Reply::Done
                        } else {
                            Reply::DatabaseError
                        },
                    )
                },
                _ => false,
            }
        }),
{
}

/// The loop stops when it is cancelled during a wait, or when polling was told to stop, and for
/// no other reason.
pub proof fn law_loop_stops_only_when_told(l: LoopSpec, event: EventSpec, now: int)
    requires
        l.expects(event),
    ensures
        l.next(event, now).1 is Stop <==> event == (EventSpec::Waited { cancelled: true }) || event
            == EventSpec::PollFinished(PollEnd::Stopped),
        l.next(event, now).1 is Stop <==> l.next(event, now).0.phase is Stopped,
{
}

/// How loud a message is to be logged.
#[derive(Debug, Clone, Copy, PartialEq, Eq, Structural)]
pub enum LogLevel {
    Debug,
    Warn,
    Error,
}

/// How loud a notice of the given severity is to be logged.
pub open spec fn notice_level_of(severity: Seq<char>) -> LogLevel {
    if severity == "NOTICE"@ || severity == "DEBUG"@ || severity == "INFO"@ || severity
        == "LOG"@ {
        LogLevel::Debug
    } else if severity == "WARNING"@ {
        LogLevel::Warn
    } else {
        LogLevel::Error
    }
}

/// How loud a notice of the given severity is to be logged. What is not known to be harmless is
/// an error.
pub fn notice_level(severity: &str) -> (res: LogLevel)
    ensures
        res == notice_level_of(severity@),
{
    if same_text(severity, "NOTICE") || same_text(severity, "DEBUG") || same_text(severity, "INFO")
        || same_text(severity, "LOG") {
        LogLevel::Debug
    } else if same_text(severity, "WARNING") {
        LogLevel::Warn
    } else {
        LogLevel::Error
    }
}

/// What happens while a connection is polled.
#[derive(Debug)]
pub enum PollEvent {
    /// Polling is to stop.
    Cancelled,
    /// A notification has come in.
    Notification,
    /// A notice of the given severity has come in.
    Notice(String),
    /// A message of another kind has come in.
    OtherMessage,
    /// The connection is broken.
    Failed,
    /// The connection is closed.
    Closed,
}

/// What to do while a connection is polled.
#[derive(Debug, Clone, Copy, PartialEq, Eq, Structural)]
pub enum PollAction {
    /// Hand the notification on.
    Forward,
    /// Log the message.
    Log(LogLevel),
    /// Stop polling.
    Stop,
    /// Stop polling with the error of the connection.
    Fail,
}

/// What to do about an event while a connection is polled.
pub fn poll_postgres_connection(event: &PollEvent) -> (res: PollAction)
    ensures
        res == match event {
            PollEvent::Cancelled => PollAction::Stop,
            PollEvent::Notification => PollAction::Forward,
            PollEvent::Notice(severity) => PollAction::Log(notice_level_of(severity@)),
            PollEvent::OtherMessage => PollAction::Log(LogLevel::Warn),
            PollEvent::Failed => PollAction::Fail,
            PollEvent::Closed => PollAction::Stop,
        },
{
    match event {
        PollEvent::Cancelled => PollAction::Stop,
        PollEvent::Notification => PollAction::Forward,
        PollEvent::Notice(severity) => PollAction::Log(notice_level(severity.as_str())),
        PollEvent::OtherMessage => PollAction::Log(LogLevel::Warn),
        PollEvent::Failed => PollAction::Fail,
        PollEvent::Closed => PollAction::Stop,
    }
}

/// The waits before attempts are one second, five, ten, thirty, and then a minute each.
pub proof fn law_failure_delays(failures: int)
    requires
        failures >= 0,
    ensures
        failure_delay(0) == 1_000_000_000,
        failure_delay(1) == 5_000_000_000,
        failure_delay(2) == 10_000_000_000,
        failure_delay(3) == 30_000_000_000,
        failures >= 4 ==> failure_delay(failures) == 60_000_000_000,
{
}

/// An attempt waits if and only if the one before it was made less than five minutes ago. It then
/// counts as one more failure; a longer life of the connection starts the count over. Every
/// attempt is dated.
pub proof fn law_attempts_are_counted(b: BackoffSpec, now: int)
    ensures
        b.after(now).prev_attempt == Some(now),
        b.prev_attempt is None ==> b.delay(now) is None && b.after(now).consecutive_failures
            == b.consecutive_failures,
        b.prev_attempt matches Some(t) ==> (now - t >= 300_000_000_000 ==> b.delay(now) is None
            && b.after(now).consecutive_failures == 0),
        b.prev_attempt matches Some(t) ==> (now - t < 300_000_000_000 ==> b.delay(now) == Some(
            failure_delay(b.consecutive_failures),
        ) && b.after(now).consecutive_failures == b.consecutive_failures + 1),
{
}

/// A channel name is safe if and only if it is made of ASCII letters and underscores.
pub proof fn law_safe_names(channel: Seq<char>, c: char)
    ensures
        channel_safe(Seq::empty()),
        channel_safe(channel.push(c)) <==> channel_safe(channel) && {
            ||| c as int == 95
            ||| 65 <= c as int <= 90
            ||| 97 <= c as int <= 122
        },
{
    let more = channel.push(c);
    assert(more[channel.len() as int] == c);
    if channel_safe(more) {
        assert forall|i: int| 0 <= i < channel.len() implies is_channel_char(
            #[trigger] channel[i],
        ) by {
            assert(more[i] == channel[i]);
        }
        assert(is_channel_char(more[channel.len() as int]));
    }
}

/// A new subscription is refused if and only if the name is not safe, and it counts for its
/// channel alone. The end of a subscription is refused if and only if there is none.
pub proof fn law_steps_of_a_subscription(
    active: Subscribers,
    channel: Seq<char>,
    other: Seq<char>,
)
    requires
        subscribers_wf(active),
        has_room(active, channel),
    ensures
        subscribe_step(active, channel) == StepSpec::Reply(Reply::UnsafeChannel) <==> !channel_safe(
            channel,
        ),
        active.contains_key(channel) ==> subscribe_step(active, channel) == StepSpec::Reply(
            Reply::Done,
        ),
        active.contains_key(channel) && active[channel] > 1 ==> unsubscribe_step(active, channel)
            == StepSpec::Reply(Reply::Done),
        active.contains_key(channel) && active[channel] == 1 ==> unsubscribe_step(active, channel)
            == StepSpec::Execute("UNLISTEN "@ + channel),
        channel_safe(channel) && !active.contains_key(channel) ==> subscribe_step(active, channel)
            == StepSpec::Execute("LISTEN "@ + channel),
        with_subscriber(active, channel).contains_key(channel),
        with_subscriber(active, channel)[channel] == 1 + if active.contains_key(channel) {
            active[channel] as int
        } else {
            0
        },
        active.contains_key(channel) && active[channel] > 1 ==> without_subscriber(
            active,
            channel,
        ).contains_key(channel) && without_subscriber(active, channel)[channel] == active[channel]
            - 1,
        active.contains_key(channel) && active[channel] == 1 ==> !without_subscriber(
            active,
            channel,
        ).contains_key(channel),
        other != channel ==> with_subscriber(active, channel).contains_key(other)
            == active.contains_key(other) && without_subscriber(active, channel).contains_key(other)
            == active.contains_key(other),
        other != channel && active.contains_key(other) ==> with_subscriber(active, channel)[other]
            == active[other] && without_subscriber(active, channel)[other] == active[other],
{
}

/// A refusal tells its reason, and the channel where there is no subscription to it.
pub proof fn law_refusals_tell_the_reason(channel: Seq<char>)
    ensures
        Reply::UnsafeChannel.message_text(channel) == Some(
            "only ASCII letters and '_' are allowed in channel names"@,
        ),
        Reply::NotSubscribed.message_text(channel) == Some(
            "not subscribed to channel '"@ + channel + "'"@,
        ),
        Reply::Done.message_text(channel) is None,
        Reply::DatabaseError.message_text(channel) is None,
{
}

/// The loop waits, connects and then serves. Whenever an attempt fails or the connection breaks,
/// it goes back to waiting, and that is the only time when attempts are counted.
pub proof fn law_loop_reconnects(l: LoopSpec, event: EventSpec, now: int)
    requires
        l.expects(event),
    ensures
        event == (EventSpec::Waited { cancelled: false }) ==> l.next(event, now).1
            == ActionSpec::Connect && l.next(event, now).0.phase is Connecting,
        event == EventSpec::Connected(true) ==> l.next(event, now).1 == ActionSpec::Select && l.next(
            event,
            now,
        ).0.phase is Selecting,
        event == EventSpec::Connected(false) || event == EventSpec::PollFinished(
            PollEnd::ConnectionError,
        ) || event == EventSpec::PollFinished(PollEnd::Panicked) ==> {
            &&& l.next(event, now).0.phase is Waiting
            &&& l.next(event, now).1 == ActionSpec::Wait(l.backoff.delay(now))
            &&& l.next(event, now).0.backoff == l.backoff.after(now)
            &&& l.next(event, now).0.subs == l.subs
        },
        !(l.next(event, now).1 is Wait) ==> l.next(event, now).0.backoff == l.backoff,
        l.next(event, now).1 is Wait <==> event == EventSpec::Connected(false) || event
            == EventSpec::PollFinished(PollEnd::ConnectionError) || event
            == EventSpec::PollFinished(PollEnd::Panicked),
{
}

/// The loop is ready for whatever can happen next: for both ends of a wait, for both outcomes of
/// an attempt and of a statement, and, while it is connected, for requests and for the end of the
/// connection.
pub proof fn law_loop_is_ready(
    l: LoopSpec,
    flag: bool,
    channel: Seq<char>,
    end: PollEnd,
)
    requires
        l.backoff.consecutive_failures < usize::MAX,
        has_room(l.subs, channel),
    ensures
        l.phase is Waiting ==> l.expects(EventSpec::Waited { cancelled: flag }),
        l.phase is Connecting ==> l.expects(EventSpec::Connected(flag)),
        l.phase is Executing ==> l.expects(EventSpec::Executed(flag)),
        l.phase is Selecting ==> l.expects(EventSpec::Command(CommandSpec::Subscribe(channel)))
            && l.expects(EventSpec::Command(CommandSpec::Unsubscribe(channel))) && l.expects(
            EventSpec::PollFinished(end),
        ),
{
}

/// Harmless notices are logged quietly, warnings as such, and anything else as an error.
pub proof fn law_notice_levels(severity: Seq<char>)
    ensures
        notice_level_of(severity) == LogLevel::Debug <==> severity == "NOTICE"@ || severity
            == "DEBUG"@ || severity == "INFO"@ || severity == "LOG"@,
        notice_level_of(severity) == LogLevel::Warn <==> severity == "WARNING"@,
{
    reveal_strlit("NOTICE");
    reveal_strlit("DEBUG");
    reveal_strlit("INFO");
    reveal_strlit("LOG");
    reveal_strlit("WARNING");
    assert("WARNING"@.len() == 7 && "NOTICE"@.len() == 6 && "DEBUG"@.len() == 5 && "INFO"@.len()
        == 4 && "LOG"@.len() == 3);
}

/// What is shown of a request is its channel.
pub proof fn law_views_show_the_request(channel: String)
    ensures
        Command::Subscribe(channel)@ == CommandSpec::Subscribe(channel@),
        Command::Unsubscribe(channel)@ == CommandSpec::Unsubscribe(channel@),
        LoopEvent::Command(Command::Subscribe(channel))@ == EventSpec::Command(
            CommandSpec::Subscribe(channel@),
        ),
        LoopEvent::Command(Command::Unsubscribe(channel))@ == EventSpec::Command(
            CommandSpec::Unsubscribe(channel@),
        ),
{
}

/// A channel has room for one more subscriber unless its counter is at its end.
pub proof fn law_room_for_subscribers(active: Subscribers, channel: Seq<char>)
    ensures
        !active.contains_key(channel) ==> has_room(active, channel),
        active.contains_key(channel) ==> (has_room(active, channel) <==> active[channel]
            < usize::MAX),
{
}

/// What is shown of a step and of an action is what is to be done.
pub proof fn law_views_show_what_to_do(reply: Reply, stmt: String, delay: Duration)
    ensures
        SubscriptionStep::Reply(reply)@ == StepSpec::Reply(reply),
        SubscriptionStep::Execute(stmt)@ == StepSpec::Execute(stmt@),
        LoopAction::Wait(Some(delay))@ == ActionSpec::Wait(Some(delay@)),
        LoopAction::Wait(None)@ == ActionSpec::Wait(None),
        LoopAction::Execute(stmt)@ == ActionSpec::Execute(stmt@),
        LoopAction::Reply(reply)@ == ActionSpec::Reply(reply),
        LoopAction::Connect@ == ActionSpec::Connect,
        LoopAction::Select@ == ActionSpec::Select,
        LoopAction::Stop@ == ActionSpec::Stop,
{
}

} // verus!
