//! Signals from the operating system, and how they end the program.

use vstd::prelude::*;
use vstd::string::*;

verus! {

/// A signal that ends the program.
#[derive(Debug, Clone, Copy, PartialEq, Eq, Hash, Structural)]
pub enum Signal {
    Interrupt,
    Terminate,
    Hangup,
    Alarm,
    UserDefined1,
    UserDefined2,
}

impl Signal {
    /// All signals that end the program.
    pub const ALL: [Signal; 6] = [
        Signal::Interrupt,
        Signal::Terminate,
        Signal::Hangup,
        Signal::Alarm,
        Signal::UserDefined1,
        Signal::UserDefined2,
    ];

    /// The name of the signal.
    pub open spec fn text(self) -> Seq<char> {
        match self {
            Signal::Interrupt => "SIGINT"@,
            Signal::Terminate => "SIGTERM"@,
            Signal::Hangup => "SIGHUP"@,
            Signal::Alarm => "SIGALRM"@,
            Signal::UserDefined1 => "SIGUSR1"@,
            Signal::UserDefined2 => "SIGUSR2"@,
        }
    }

    /// The name of the signal.
    pub fn name(&self) -> (res: &'static str)
        ensures
            res@ == self.text(),
    {
        match self {
            Signal::Interrupt => "SIGINT",
            Signal::Terminate => "SIGTERM",
            Signal::Hangup => "SIGHUP",
            Signal::Alarm => "SIGALRM",
            Signal::UserDefined1 => "SIGUSR1",
            Signal::UserDefined2 => "SIGUSR2",
        }
    }
}

/// What is said if a signal cannot be watched for.
pub fn install_error(signal: Signal) -> (res: String)
    ensures
        res@ == "unable to install signal handler for "@ + signal.text(),
{
    let mut res: String = "unable to install signal handler for ".to_string();
    res.append(signal.name());
    res
}

/// The seconds for which the program waits, twice, before it can be aborted.
pub const DELAY_SECS: u64 = 5;

/// How far the end of the program has come.
#[derive(Debug, Clone, Copy, PartialEq, Eq, Structural)]
pub enum ExitStage {
    /// The program runs.
    Running,
    /// The program cleans up.
    CleaningUp,
    /// The clean-up takes long, and the user has been told so.
    Warned,
    /// The next signal aborts the program.
    Armed,
    /// The program is aborted.
    Aborted,
}

/// What happens to the program.
#[derive(Debug, Clone, Copy, PartialEq, Eq, Structural)]
pub enum SignalEvent {
    /// A signal was received.
    Received(Signal),
    /// There will be no more signals.
    Closed,
    /// The program has waited for the delay without any signal.
    DelayElapsed,
}

/// What the program has to do.
#[derive(Debug, Clone, Copy, PartialEq, Eq, Structural)]
pub enum SignalAction {
    /// Run the exit handler, then wait for the delay or a signal.
    RunExitHandler,
    /// Wait for the whole delay again, or a signal.
    WaitAgain,
    /// Tell the user that the clean-up takes long, then wait for the delay or a signal.
    WarnAndWait,
    /// Wait for a signal.
    WaitForSignal,
    /// Abort the program.
    Abort,
    /// Nothing.
    Nothing,
}

impl ExitStage {
    /// The stage after an event. A signal during a delay makes the delay start over.
    pub open spec fn after(self, event: SignalEvent) -> ExitStage {
        match (self, event) {
            (ExitStage::Running, SignalEvent::DelayElapsed) => ExitStage::Running,
            (ExitStage::Running, _) => ExitStage::CleaningUp,
            (ExitStage::CleaningUp, SignalEvent::DelayElapsed) => ExitStage::Warned,
            (ExitStage::CleaningUp, _) => ExitStage::CleaningUp,
            (ExitStage::Warned, SignalEvent::DelayElapsed) => ExitStage::Armed,
            (ExitStage::Warned, _) => ExitStage::Warned,
            (ExitStage::Armed, SignalEvent::DelayElapsed) => ExitStage::Armed,
            (ExitStage::Armed, _) => ExitStage::Aborted,
            (ExitStage::Aborted, _) => ExitStage::Aborted,
        }
    }

    /// What has to be done about an event.
    pub open spec fn action(self, event: SignalEvent) -> SignalAction {
        match (self, event) {
            (ExitStage::Running, SignalEvent::DelayElapsed) => SignalAction::Nothing,
            (ExitStage::Running, _) => SignalAction::RunExitHandler,
            (ExitStage::CleaningUp, SignalEvent::DelayElapsed) => SignalAction::WarnAndWait,
            (ExitStage::CleaningUp, _) => SignalAction::WaitAgain,
            (ExitStage::Warned, SignalEvent::DelayElapsed) => SignalAction::WaitForSignal,
            (ExitStage::Warned, _) => SignalAction::WaitAgain,
            (ExitStage::Armed, SignalEvent::DelayElapsed) => SignalAction::Nothing,
            (ExitStage::Armed, _) => SignalAction::Abort,
            (ExitStage::Aborted, _) => SignalAction::Nothing,
        }
    }

    /// Takes over an event, and says what has to be done about it.
    pub fn next(&mut self, event: SignalEvent) -> (res: SignalAction)
        ensures
            *final(self) == old(self).after(event),
            res == old(self).action(event),
    {
        let elapsed: bool = match event {
            SignalEvent::DelayElapsed => true,
            _ => false,
        };
        match *self {
            ExitStage::Running => {
                if elapsed {
                    return SignalAction::Nothing;
                }
                *self = ExitStage::CleaningUp;
                SignalAction::RunExitHandler
            },
            ExitStage::CleaningUp => {
                if !elapsed {
                    return SignalAction::WaitAgain;
                }
                *self = ExitStage::Warned;
                SignalAction::WarnAndWait
            },
            ExitStage::Warned => {
                if !elapsed {
                    return SignalAction::WaitAgain;
                }
                *self = ExitStage::Armed;
                SignalAction::WaitForSignal
            },
            ExitStage::Armed => {
                if elapsed {
                    return SignalAction::Nothing;
                }
                *self = ExitStage::Aborted;
                SignalAction::Abort
            },
            ExitStage::Aborted => SignalAction::Nothing,
        }
    }

    /// What the log should say about an event, if anything.
    pub open spec fn text(self, event: SignalEvent) -> Option<Seq<char>> {
        match (self, event) {
            (ExitStage::Running, SignalEvent::Received(sig)) => Some(
                "Received signal: "@ + sig.text(),
            ),
            (ExitStage::Running, SignalEvent::Closed) => Some(
                "All signal streams are closed. This should never happen."@,
            ),
            (ExitStage::CleaningUp, SignalEvent::DelayElapsed) => Some(
                "Clean-up is taking longer than expected. Re-installing terminating signal handlers in 5 seconds."@,
            ),
            (ExitStage::Warned, SignalEvent::DelayElapsed) => Some(
                "Re-installed terminating signal handlers."@,
            ),
            (ExitStage::Armed, SignalEvent::Received(sig)) => Some(
                "Received signal: "@ + sig.text() + " ... terminating process."@,
            ),
            (ExitStage::Armed, SignalEvent::Closed) => Some(
                "All signal streams are closed. This should never happen. Terminating process."@,
            ),
            _ => None,
        }
    }

    /// What the log should say about an event, if anything.
    pub fn message(&self, event: SignalEvent) -> (res: Option<String>)
        ensures
            match self.text(event) {
                Some(text) => res is Some && res->0@ == text,
                None => res is None,
            },
    {
        match (*self, event) {
            (ExitStage::Running, SignalEvent::Received(sig)) => {
                let mut res: String = "Received signal: ".to_string();
                res.append(sig.name());
                Some(res)
            },
            (ExitStage::Running, SignalEvent::Closed) => Some(
                "All signal streams are closed. This should never happen.".to_string(),
            ),
            (ExitStage::CleaningUp, SignalEvent::DelayElapsed) => Some(
                "Clean-up is taking longer than expected. Re-installing terminating signal handlers in 5 seconds.".to_string(),
            ),
            (ExitStage::Warned, SignalEvent::DelayElapsed) => Some(
                "Re-installed terminating signal handlers.".to_string(),
            ),
            (ExitStage::Armed, SignalEvent::Received(sig)) => {
                let mut res: String = "Received signal: ".to_string();
                res.append(sig.name());
                res.append(" ... terminating process.");
                Some(res)
            },
            (ExitStage::Armed, SignalEvent::Closed) => Some(
                "All signal streams are closed. This should never happen. Terminating process.".to_string(),
            ),
            _ => None,
        }
    }
}

/// The stage after a number of events.
pub open spec fn stage_after_all(events: Seq<SignalEvent>) -> ExitStage
    decreases events.len(),
{
    if events.len() == 0 {
        ExitStage::Running
    } else {
        stage_after_all(events.drop_last()).after(events.last())
    }
}

/// Whether there has been a signal, or the news that there will be none.
pub open spec fn signalled(events: Seq<SignalEvent>) -> bool {
    exists|i: int| 0 <= i < events.len() && #[trigger] events[i] != SignalEvent::DelayElapsed
}

/// The number of delays that have elapsed since the first signal.
pub open spec fn delays_since_signal(events: Seq<SignalEvent>) -> nat
    decreases events.len(),
{
    if events.len() == 0 {
        0
    } else {
        let before = events.drop_last();
        if signalled(before) && events.last() == SignalEvent::DelayElapsed {
            delays_since_signal(before) + 1
        } else {
            delays_since_signal(before)
        }
    }
}

/// The exit handler runs for the first signal, or when there will be none, and never again.
pub proof fn law_exit_handler_runs_once(before: Seq<SignalEvent>, event: SignalEvent)
    ensures
        stage_after_all(before).action(event) == SignalAction::RunExitHandler <==> event
            != SignalEvent::DelayElapsed && !signalled(before),
{
    lemma_running_until_signal(before);
}

/// The program runs until the first signal.
proof fn lemma_running_until_signal(events: Seq<SignalEvent>)
    ensures
        stage_after_all(events) == ExitStage::Running <==> !signalled(events),
    decreases events.len(),
{
    if events.len() > 0 {
        let rest = events.drop_last();
        lemma_running_until_signal(rest);
        if signalled(rest) {
            let i = choose|i: int|
                0 <= i < rest.len() && #[trigger] rest[i] != SignalEvent::DelayElapsed;
            assert(events[i] == rest[i]);
        } else if signalled(events) {
            let i = choose|i: int|
                0 <= i < events.len() && #[trigger] events[i] != SignalEvent::DelayElapsed;
            if i < rest.len() {
                assert(rest[i] == events[i]);
            }
        } else {
            assert(events[events.len() - 1] == SignalEvent::DelayElapsed);
        }
    }
}

/// The program is not aborted before two delays have elapsed since the first signal, however many
/// signals come in, and the user is not warned before one has.
pub proof fn law_abort_takes_two_delays(events: Seq<SignalEvent>)
    ensures
        match stage_after_all(events) {
            ExitStage::Running => !signalled(events) && delays_since_signal(events) == 0,
            ExitStage::CleaningUp => signalled(events) && delays_since_signal(events) == 0,
            ExitStage::Warned => signalled(events) && delays_since_signal(events) == 1,
            ExitStage::Armed => signalled(events) && delays_since_signal(events) >= 2,
            ExitStage::Aborted => signalled(events) && delays_since_signal(events) >= 2,
        },
    decreases events.len(),
{
    lemma_running_until_signal(events);
    if events.len() > 0 {
        law_abort_takes_two_delays(events.drop_last());
    }
}

/// A signal makes a running program clean up, makes a delay start over, and aborts a program that
/// is armed. A delay without a signal leads from the clean-up to the warning and on to being
/// armed.
pub proof fn law_steps_to_the_end(signal: SignalEvent)
    requires
        signal != SignalEvent::DelayElapsed,
    ensures
        ExitStage::Running.after(signal) == ExitStage::CleaningUp,
        ExitStage::Running.action(signal) == SignalAction::RunExitHandler,
        ExitStage::CleaningUp.after(signal) == ExitStage::CleaningUp,
        ExitStage::CleaningUp.action(signal) == SignalAction::WaitAgain,
        ExitStage::Warned.after(signal) == ExitStage::Warned,
        ExitStage::Warned.action(signal) == SignalAction::WaitAgain,
        ExitStage::Armed.after(signal) == ExitStage::Aborted,
        ExitStage::Armed.action(signal) == SignalAction::Abort,
        ExitStage::CleaningUp.after(SignalEvent::DelayElapsed) == ExitStage::Warned,
        ExitStage::CleaningUp.action(SignalEvent::DelayElapsed) == SignalAction::WarnAndWait,
        ExitStage::Warned.after(SignalEvent::DelayElapsed) == ExitStage::Armed,
        ExitStage::Warned.action(SignalEvent::DelayElapsed) == SignalAction::WaitForSignal,
{
}

/// The signals that end the program are told apart by their names.
pub proof fn law_signal_names()
    ensures
        Signal::Interrupt.text() == "SIGINT"@,
        Signal::Terminate.text() == "SIGTERM"@,
        Signal::Hangup.text() == "SIGHUP"@,
        Signal::Alarm.text() == "SIGALRM"@,
        Signal::UserDefined1.text() == "SIGUSR1"@,
        Signal::UserDefined2.text() == "SIGUSR2"@,
{
}

/// The log names the signal that makes the program clean up, and the one that aborts it. Signals
/// in between are not logged.
pub proof fn law_log_names_the_signal(sig: Signal)
    ensures
        ExitStage::Running.text(SignalEvent::Received(sig)) == Some(
            "Received signal: "@ + sig.text(),
        ),
        ExitStage::Armed.text(SignalEvent::Received(sig)) == Some(
            "Received signal: "@ + sig.text() + " ... terminating process."@,
        ),
        ExitStage::CleaningUp.text(SignalEvent::Received(sig)) is None,
        ExitStage::Warned.text(SignalEvent::Received(sig)) is None,
        ExitStage::CleaningUp.text(SignalEvent::DelayElapsed) is Some,
        ExitStage::Warned.text(SignalEvent::DelayElapsed) is Some,
{
}

} // verus!
