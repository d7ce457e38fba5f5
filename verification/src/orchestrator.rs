//! The relay's orchestrator: it decides when the shared cancellation signal
//! is raised and how the relay ends once it has been.
//!
//! The orchestrator is a state machine. Its host starts the watchers, feeds
//! the machine what it observes, and carries out the action that `step`
//! returns: it raises the cancellation signal and starts the grace timer on
//! [`RelayAction::Cancel`], and returns on [`RelayAction::Exit`].
//!
//! The relay never returns before it has cancelled: an exit is handed out
//! only in the drain that follows [`RelayAction::Cancel`]. Where every task
//! has ended while the relay still ran, the signal is raised first, and the
//! drain that follows ends at once.

use vstd::prelude::*;
use crate::dbwatcher::event::{ActionView, EventView};
use crate::dbwatcher::model::{Phase, Stage, WatcherView};
use crate::dbwatcher::outcome::{WatcherError, WatcherOutcome};

verus! {

/// The number of seconds that watchers are given to finish once the relay has
/// been cancelled, unless the host chooses another.
pub const SHUTDOWN_GRACE_SECS: u64 = 10;

/// How the relay's shutdown went.
#[derive(Debug, Clone, Copy, PartialEq, Eq, Structural)]
pub enum ShutdownOutcome {
    /// Every task finished within the grace period.
    Graceful,
    /// The grace period ran out while a task was still running.
    TimedOut,
    /// An interrupt during the drain cut the wait short.
    Forced,
}

/// Where the relay stands.
#[derive(Debug, Clone, Copy, PartialEq, Eq, Structural)]
pub enum RelayPhase {
    /// The watchers run and the cancellation signal is down.
    Running,
    /// The cancellation signal is up and the grace timer runs.
    Draining,
    /// The relay has returned.
    Finished(ShutdownOutcome),
}

/// What the host observed.
#[derive(Debug, Clone, Copy, PartialEq, Eq, Structural)]
pub enum RelayEvent {
    /// A watcher task ended with the given outcome.
    WatcherFinished(WatcherOutcome),
    /// The process was asked from outside to interrupt or terminate.
    Interrupted,
    /// Every task has finished. While the relay runs this raises the
    /// cancellation signal like an interrupt; in the drain it ends the relay.
    Drained,
    /// The grace timer ran out.
    DrainTimedOut,
}

/// What the host does next.
#[derive(Debug, Clone, Copy, PartialEq, Eq, Structural)]
pub enum RelayAction {
    /// Keep waiting for the next event.
    Wait,
    /// Raise the shared cancellation signal, then wait for every task to
    /// finish, for at most `grace_secs` seconds.
    Cancel { grace_secs: u64 },
    /// Return to the caller with this outcome.
    Exit(ShutdownOutcome),
}

/// The orchestrator's state.
#[derive(Debug, Clone, Copy, PartialEq, Eq, Structural)]
pub struct Orchestrator {
    /// Where the relay stands.
    pub phase: RelayPhase,
    /// The grace period handed out with [`RelayAction::Cancel`].
    pub grace_secs: u64,
    /// The outcome of the first watcher that failed, if one did.
    pub failure: Option<WatcherOutcome>,
}

impl Orchestrator {
    /// The state in which the relay starts.
    pub open spec fn initial(grace_secs: u64) -> Orchestrator {
        Orchestrator { phase: RelayPhase::Running, grace_secs, failure: None }
    }

    /// Whether the relay has left its running phase. In every run from
    /// [`Orchestrator::initial`] this holds exactly once the host has been
    /// asked to raise the shared cancellation signal (see
    /// [`law_cancelled_iff_cancel_was_asked`]).
    pub open spec fn cancelled(self) -> bool {
        self.phase != RelayPhase::Running
    }

    /// The failure that the state remembers once `event` has been seen: the
    /// first failed watcher's outcome.
    pub open spec fn failure_after(self, event: RelayEvent) -> Option<WatcherOutcome> {
        match (self.failure, event) {
            (None, RelayEvent::WatcherFinished(outcome)) if outcome.is_failure() => Some(outcome),
            _ => self.failure,
        }
    }

    /// The state that follows `self` on `event`, and the action handed out.
    pub open spec fn next(self, event: RelayEvent) -> (Orchestrator, RelayAction) {
        let failure = self.failure_after(event);
        match self.phase {
            RelayPhase::Running => match event {
                RelayEvent::WatcherFinished(outcome) => if outcome.is_failure() {
                    (
                        Orchestrator { phase: RelayPhase::Draining, failure, ..self },
                        RelayAction::Cancel { grace_secs: self.grace_secs },
                    )
                } else {
                    (self, RelayAction::Wait)
                },
                RelayEvent::Interrupted | RelayEvent::Drained => (
                    Orchestrator { phase: RelayPhase::Draining, ..self },
                    RelayAction::Cancel { grace_secs: self.grace_secs },
                ),
                RelayEvent::DrainTimedOut => (self, RelayAction::Wait),
            },
            RelayPhase::Draining => match event {
                RelayEvent::WatcherFinished(_) => (
                    Orchestrator { failure, ..self },
                    RelayAction::Wait,
                ),
                RelayEvent::Interrupted => (
                    Orchestrator { phase: RelayPhase::Finished(ShutdownOutcome::Forced), ..self },
                    RelayAction::Exit(ShutdownOutcome::Forced),
                ),
                RelayEvent::Drained => (
                    Orchestrator { phase: RelayPhase::Finished(ShutdownOutcome::Graceful), ..self },
                    RelayAction::Exit(ShutdownOutcome::Graceful),
                ),
                RelayEvent::DrainTimedOut => (
                    Orchestrator { phase: RelayPhase::Finished(ShutdownOutcome::TimedOut), ..self },
                    RelayAction::Exit(ShutdownOutcome::TimedOut),
                ),
            },
            RelayPhase::Finished(outcome) => (self, RelayAction::Exit(outcome)),
        }
    }

    /// The actions handed out in answer to `events`, one after the other.
    pub open spec fn answers(self, events: Seq<RelayEvent>) -> Seq<RelayAction>
        decreases events.len(),
    {
        if events.len() == 0 {
            Seq::<RelayAction>::empty()
        } else {
            seq![self.next(events[0]).1] + self.next(events[0]).0.answers(events.skip(1))
        }
    }

    /// The state reached once `events` have been taken in.
    pub open spec fn after(self, events: Seq<RelayEvent>) -> Orchestrator
        decreases events.len(),
    {
        if events.len() == 0 {
            self
        } else {
            self.next(events[0]).0.after(events.skip(1))
        }
    }

    /// An orchestrator whose relay runs, with the usual grace period.
    pub fn new() -> (orchestrator: Orchestrator)
        ensures
            orchestrator == Orchestrator::initial(SHUTDOWN_GRACE_SECS),
    {
        Orchestrator { phase: RelayPhase::Running, grace_secs: SHUTDOWN_GRACE_SECS, failure: None }
    }

    /// An orchestrator whose relay runs, with a grace period of `grace_secs`
    /// seconds.
    pub fn with_grace(grace_secs: u64) -> (orchestrator: Orchestrator)
        ensures
            orchestrator == Orchestrator::initial(grace_secs),
    {
        Orchestrator { phase: RelayPhase::Running, grace_secs, failure: None }
    }

    /// Whether the relay has left its running phase: the host has been asked
    /// to raise the shared cancellation signal.
    pub fn is_cancelled(&self) -> (up: bool)
        ensures
            up == self.cancelled(),
    {
        match self.phase {
            RelayPhase::Running => false,
            _ => true,
        }
    }

    /// Takes in one event and says what the host does next.
    pub fn step(&mut self, event: RelayEvent) -> (action: RelayAction)
        ensures
            (*final(self), action) == old(self).next(event),
    {
        if let RelayPhase::Finished(outcome) = self.phase {
            return RelayAction::Exit(outcome);
        }
        if self.failure.is_none() {
            if let RelayEvent::WatcherFinished(outcome) = event {
                if outcome.failed() {
                    self.failure = Some(outcome);
                }
            }
        }
        match self.phase {
            RelayPhase::Running => match event {
                RelayEvent::WatcherFinished(outcome) => {
                    if outcome.failed() {
                        self.phase = RelayPhase::Draining;
                        RelayAction::Cancel { grace_secs: self.grace_secs }
                    } else {
                        RelayAction::Wait
                    }
                },
                RelayEvent::Interrupted | RelayEvent::Drained => {
                    self.phase = RelayPhase::Draining;
                    RelayAction::Cancel { grace_secs: self.grace_secs }
                },
                RelayEvent::DrainTimedOut => RelayAction::Wait,
            },
            RelayPhase::Draining => match event {
                RelayEvent::WatcherFinished(_) => RelayAction::Wait,
                RelayEvent::Interrupted => {
                    self.phase = RelayPhase::Finished(ShutdownOutcome::Forced);
                    RelayAction::Exit(ShutdownOutcome::Forced)
                },
                RelayEvent::Drained => {
                    self.phase = RelayPhase::Finished(ShutdownOutcome::Graceful);
                    RelayAction::Exit(ShutdownOutcome::Graceful)
                },
                RelayEvent::DrainTimedOut => {
                    self.phase = RelayPhase::Finished(ShutdownOutcome::TimedOut);
                    RelayAction::Exit(ShutdownOutcome::TimedOut)
                },
            },
            RelayPhase::Finished(outcome) => RelayAction::Exit(outcome),
        }
    }
}

/// Whether the answer to the event at `at` asks the host to raise the
/// cancellation signal.
pub open spec fn cancels_at(relay: Orchestrator, events: Seq<RelayEvent>, at: int) -> bool {
    0 <= at < events.len() && relay.answers(events)[at] is Cancel
}

/// Every event has its answer, and the answers to the events after the
/// first are those that the next state gives.
pub proof fn lemma_relay_answers(relay: Orchestrator, events: Seq<RelayEvent>)
    ensures
        relay.answers(events).len() == events.len(),
        forall|i: int|
            1 <= i < events.len() ==> #[trigger] relay.answers(events)[i] == relay.next(
                events[0],
            ).0.answers(events.skip(1))[i - 1],
        events.len() > 0 ==> relay.answers(events)[0] == relay.next(events[0]).1,
    decreases events.len(),
{
    if events.len() > 0 {
        lemma_relay_answers(relay.next(events[0]).0, events.skip(1));
    }
}

/// Where a run hands out an exit, the relay had left its running phase
/// when the run began, or the run has asked for the cancellation signal
/// before.
pub proof fn lemma_exit_has_its_cancel(relay: Orchestrator, events: Seq<RelayEvent>, at: int)
    requires
        0 <= at < events.len(),
        relay.answers(events)[at] is Exit,
    ensures
        relay.cancelled() || exists|earlier: int|
            0 <= earlier < at && #[trigger] cancels_at(relay, events, earlier),
    decreases at,
{
    lemma_relay_answers(relay, events);
    if at > 0 && !relay.cancelled() {
        let next = relay.next(events[0]).0;
        let rest = events.skip(1);
        lemma_relay_answers(next, rest);
        lemma_exit_has_its_cancel(next, rest, at - 1);
        if next.cancelled() {
            assert(cancels_at(relay, events, 0));
        } else {
            let found = choose|earlier: int|
                0 <= earlier < at - 1 && #[trigger] cancels_at(next, rest, earlier);
            assert(relay.answers(events)[found + 1] == next.answers(rest)[found]);
            assert(cancels_at(relay, events, found + 1));
        }
    }
}

/// No return without cancellation: in every run of a relay that is running
/// at its start, an exit is handed out only after the host has been asked
/// to raise the shared cancellation signal.
pub proof fn law_exit_follows_cancel(grace_secs: u64, events: Seq<RelayEvent>, at: int)
    requires
        0 <= at < events.len(),
        Orchestrator::initial(grace_secs).answers(events)[at] is Exit,
    ensures
        exists|earlier: int|
            0 <= earlier < at && #[trigger] cancels_at(
                Orchestrator::initial(grace_secs),
                events,
                earlier,
            ),
{
    lemma_exit_has_its_cancel(Orchestrator::initial(grace_secs), events, at);
}

/// A relay has left its running phase exactly where it had done so at the
/// start of the run or the run has asked for the cancellation signal.
pub proof fn lemma_cancelled_iff_cancel_was_asked(relay: Orchestrator, events: Seq<RelayEvent>)
    ensures
        relay.after(events).cancelled() <==> relay.cancelled() || exists|at: int|
            #[trigger] cancels_at(relay, events, at),
    decreases events.len(),
{
    lemma_relay_answers(relay, events);
    if events.len() > 0 {
        let next = relay.next(events[0]).0;
        let rest = events.skip(1);
        lemma_relay_answers(next, rest);
        lemma_cancelled_iff_cancel_was_asked(next, rest);
        if exists|at: int| #[trigger] cancels_at(next, rest, at) {
            let found = choose|at: int| #[trigger] cancels_at(next, rest, at);
            assert(relay.answers(events)[found + 1] == next.answers(rest)[found]);
            assert(cancels_at(relay, events, found + 1));
        }
        if !relay.cancelled() && next.cancelled() {
            assert(cancels_at(relay, events, 0));
        }
        if exists|at: int| #[trigger] cancels_at(relay, events, at) {
            let found = choose|at: int| #[trigger] cancels_at(relay, events, at);
            if found > 0 {
                assert(cancels_at(next, rest, found - 1));
            }
        }
    }
}

/// The cancellation signal and the phase go together: in every run from a
/// new orchestrator, the relay has left its running phase exactly once the
/// host has been asked to raise the shared cancellation signal.
pub proof fn law_cancelled_iff_cancel_was_asked(grace_secs: u64, events: Seq<RelayEvent>)
    ensures
        Orchestrator::initial(grace_secs).after(events).cancelled() <==> exists|at: int|
            #[trigger] cancels_at(Orchestrator::initial(grace_secs), events, at),
{
    lemma_cancelled_iff_cancel_was_asked(Orchestrator::initial(grace_secs), events);
}

/// Fail fast: a watcher that ends in any way but a clean return brings the
/// cancellation signal up, and the grace period that is handed out is the
/// orchestrator's own.
pub proof fn law_watcher_failure_cancels_relay(relay: Orchestrator, outcome: WatcherOutcome)
    requires
        relay.phase == RelayPhase::Running,
        outcome.is_failure(),
    ensures
        relay.next(RelayEvent::WatcherFinished(outcome)).1 == (RelayAction::Cancel {
            grace_secs: relay.grace_secs,
        }),
        relay.next(RelayEvent::WatcherFinished(outcome)).0.cancelled(),
        relay.next(RelayEvent::WatcherFinished(outcome)).0.phase == RelayPhase::Draining,
{
}

/// Fatal propagation: when the bus does not take an envelope, the watcher
/// that handed it out ends with an error, and that outcome, reported to an
/// orchestrator whose relay runs, brings the shared cancellation signal up.
pub proof fn law_publish_failure_cancels_relay(watcher: WatcherView, relay: Orchestrator)
    requires
        watcher.stage == Stage::Publishing,
        relay.phase == RelayPhase::Running,
    ensures
        ({
            let (stopped, action) = watcher.next(EventView::PublishFailed);
            let outcome = WatcherOutcome::Failed(WatcherError::Publish);
            &&& action == ActionView::Stop(outcome)
            &&& stopped.phase() == Phase::Stopped
            &&& relay.next(RelayEvent::WatcherFinished(outcome)).0.cancelled()
            &&& relay.next(RelayEvent::WatcherFinished(outcome)).1 == (RelayAction::Cancel {
                grace_secs: relay.grace_secs,
            })
        }),
{
}

/// Once the cancellation signal is up it stays up, and the grace period is
/// never handed out a second time.
pub proof fn law_cancellation_stays_up(relay: Orchestrator, events: Seq<RelayEvent>)
    requires
        relay.cancelled(),
    ensures
        relay.after(events).cancelled(),
        relay.after(events).grace_secs == relay.grace_secs,
        events.len() > 0 ==> !(relay.next(events[0]).1 is Cancel),
    decreases events.len(),
{
    if events.len() > 0 {
        law_cancellation_stays_up(relay.next(events[0]).0, events.skip(1));
    }
}

/// Once the relay has returned, it has returned for good, with the same
/// outcome.
pub proof fn law_exit_is_final(relay: Orchestrator, events: Seq<RelayEvent>)
    requires
        relay.phase is Finished,
    ensures
        relay.after(events) == relay,
    decreases events.len(),
{
    if events.len() > 0 {
        law_exit_is_final(relay.next(events[0]).0, events.skip(1));
    }
}

/// Bounded drain: once the cancellation signal is up, the relay has
/// returned by the time the grace timer has run out, whatever else happens
/// in between and whether or not any watcher ever finishes. Where nothing
/// ended the drain before, the outcome says that the time ran out.
pub proof fn law_drain_is_bounded(relay: Orchestrator, events: Seq<RelayEvent>)
    requires
        relay.cancelled(),
    ensures
        relay.after(events.push(RelayEvent::DrainTimedOut)).phase is Finished,
        relay.after(events).phase == RelayPhase::Draining ==> relay.after(
            events.push(RelayEvent::DrainTimedOut),
        ).phase == RelayPhase::Finished(ShutdownOutcome::TimedOut),
    decreases events.len(),
{
    let all = events.push(RelayEvent::DrainTimedOut);
    if events.len() == 0 {
        let last = relay.next(RelayEvent::DrainTimedOut).0;
        assert(last.after(all.skip(1)) == last);
    } else {
        assert(all.skip(1) == events.skip(1).push(RelayEvent::DrainTimedOut));
        law_drain_is_bounded(relay.next(events[0]).0, events.skip(1));
    }
}

} // verus!
