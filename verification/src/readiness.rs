//! The readiness poller: probing the backend's health endpoint until it
//! answers with success or the time budget is spent.
//!
//! The poller is a state machine. The embedding program reads the clock,
//! sends the probe and sleeps; the poller decides, from the elapsed time and
//! from each probe's outcome, what comes next. It asks for a probe only
//! while the elapsed time is within the budget, and finishes as ready on the
//! first probe that succeeds.

use vstd::prelude::*;

verus! {

/// The time budget of the poller that start-up launches, in milliseconds.
pub const READINESS_TIMEOUT_MILLIS: u64 = 10_000;

/// The pause between two probes, in milliseconds.
pub const PROBE_INTERVAL_MILLIS: u64 = 500;

/// What came of one probe of the health endpoint.
#[derive(Clone, Copy, Debug, PartialEq, Eq, Structural)]
pub enum ProbeOutcome {
    /// The endpoint answered, with this HTTP status code.
    Responded { status: u16 },
    /// No answer: connection refused, timed out, or any other failure.
    Unreachable,
}

/// How polling ended.
#[derive(Clone, Copy, Debug, PartialEq, Eq, Structural)]
pub enum Readiness {
    /// A probe succeeded.
    Ready,
    /// The time budget was spent without a successful probe.
    TimedOut,
}

/// What the poller is waiting for.
#[derive(Clone, Copy, Debug, PartialEq, Eq, Structural)]
pub enum PollerPhase {
    /// Waiting to be told the elapsed time, before deciding on a probe.
    AwaitingClock,
    /// A probe was asked for; waiting for its outcome.
    AwaitingProbe,
    /// Polling has ended.
    Finished(Readiness),
}

/// What the embedding program tells the poller.
#[derive(Clone, Copy, Debug, PartialEq, Eq, Structural)]
pub enum PollerEvent {
    /// The time since polling started, in milliseconds, rounded up.
    Clock { elapsed_millis: u64 },
    /// The outcome of the probe that was asked for.
    Probed(ProbeOutcome),
}

/// What the poller asks the embedding program to do next.
#[derive(Clone, Copy, Debug, PartialEq, Eq, Structural)]
pub enum PollerAction {
    /// Send one probe and report its outcome.
    Probe,
    /// Sleep this long, then report the clock.
    Sleep { millis: u64 },
    /// Stop: polling has ended with this result.
    Finish(Readiness),
    /// The event does not fit what the poller was waiting for; it was
    /// ignored and the poller still waits for the same thing.
    Rejected,
}

/// The state of a readiness poller.
#[derive(Clone, Copy, Debug, PartialEq, Eq, Structural)]
pub struct ReadinessPoller {
    /// The time budget, in milliseconds.
    pub timeout_millis: u64,
    /// The pause between two probes, in milliseconds.
    pub interval_millis: u64,
    /// What the poller is waiting for.
    pub phase: PollerPhase,
}

/// Whether an HTTP status code is a success: 200 to 299.
pub open spec fn is_success_status(status: u16) -> bool {
    200 <= status < 300
}

/// Whether a probe found the backend ready: it was answered, and with a
/// success status. What the answer held besides is of no concern.
pub open spec fn probe_succeeded_spec(outcome: ProbeOutcome) -> bool {
    match outcome {
        ProbeOutcome::Responded { status } => is_success_status(status),
        ProbeOutcome::Unreachable => false,
    }
}

/// Asks `reqwest::StatusCode` whether `status` is a success. The contract
/// claims what the `http` crate's source shows: `StatusCode::from_u16`
/// accepts 100 to 999, and `StatusCode::is_success` holds for 200 to 299,
/// so exactly the codes from 200 to 299 are reported as success.
#[verifier::external_body]
fn status_is_success(status: u16) -> (success: bool)
    ensures
        success == is_success_status(status),
{
    match reqwest::StatusCode::from_u16(status) {
        Ok(code) => code.is_success(),
        Err(_) => false,
    }
}

/// Whether a probe found the backend ready.
#[verifier::when_used_as_spec(probe_succeeded_spec)]
pub fn probe_succeeded(outcome: ProbeOutcome) -> (ready: bool)
    ensures
        ready == probe_succeeded_spec(outcome),
{
    match outcome {
        ProbeOutcome::Responded { status } => status_is_success(status),
        ProbeOutcome::Unreachable => false,
    }
}

/// Whether `event` is a clock reading within a budget of `timeout_millis`.
pub open spec fn is_clock_within(event: PollerEvent, timeout_millis: u64) -> bool {
    match event {
        PollerEvent::Clock { elapsed_millis } => elapsed_millis <= timeout_millis,
        PollerEvent::Probed(_) => false,
    }
}

/// Whether `event` is a clock reading past a budget of `timeout_millis`.
pub open spec fn is_clock_past(event: PollerEvent, timeout_millis: u64) -> bool {
    match event {
        PollerEvent::Clock { elapsed_millis } => elapsed_millis > timeout_millis,
        PollerEvent::Probed(_) => false,
    }
}

/// Whether `event` reports a probe that succeeded.
pub open spec fn is_success_report(event: PollerEvent) -> bool {
    match event {
        PollerEvent::Clock { .. } => false,
        PollerEvent::Probed(outcome) => probe_succeeded_spec(outcome),
    }
}

impl ReadinessPoller {
    /// The poller after `event`, and what it asks for.
    ///
    /// Told the clock while waiting for it, the poller finishes as timed out
    /// if the elapsed time exceeds the budget, and asks for a probe
    /// otherwise. Told the outcome of the probe it asked for, it finishes as
    /// ready if the probe succeeded, and asks for a sleep otherwise. Once
    /// finished it stays finished and repeats its result. An event that does
    /// not fit is rejected and changes nothing.
    pub open spec fn step_spec(self, event: PollerEvent) -> (ReadinessPoller, PollerAction) {
        match (self.phase, event) {
            (PollerPhase::Finished(result), _) => (self, PollerAction::Finish(result)),
            (PollerPhase::AwaitingClock, PollerEvent::Clock { elapsed_millis }) => {
                if elapsed_millis > self.timeout_millis {
                    (
                        ReadinessPoller {
                            phase: PollerPhase::Finished(Readiness::TimedOut),
                            ..self
                        },
                        PollerAction::Finish(Readiness::TimedOut),
                    )
                } else {
                    (
                        ReadinessPoller { phase: PollerPhase::AwaitingProbe, ..self },
                        PollerAction::Probe,
                    )
                }
            },
            (PollerPhase::AwaitingProbe, PollerEvent::Probed(outcome)) => {
                if probe_succeeded(outcome) {
                    (
                        ReadinessPoller {
                            phase: PollerPhase::Finished(Readiness::Ready),
                            ..self
                        },
                        PollerAction::Finish(Readiness::Ready),
                    )
                } else {
                    (
                        ReadinessPoller { phase: PollerPhase::AwaitingClock, ..self },
                        PollerAction::Sleep { millis: self.interval_millis },
                    )
                }
            },
            _ => (self, PollerAction::Rejected),
        }
    }

    /// The poller after a sequence of events, handled in order.
    pub open spec fn run(self, events: Seq<PollerEvent>) -> ReadinessPoller
        decreases events.len(),
    {
        if events.len() == 0 {
            self
        } else {
            self.run(events.drop_last()).step_spec(events.last()).0
        }
    }

    /// What the poller asked for in answer to event `index` of `events`.
    pub open spec fn action_at(self, events: Seq<PollerEvent>, index: int) -> PollerAction
        recommends
            0 <= index < events.len(),
    {
        self.run(events.take(index)).step_spec(events[index]).1
    }

    /// A poller with a budget of `timeout_millis` that pauses
    /// `interval_millis` between probes. It starts by waiting for the clock.
    pub fn new(timeout_millis: u64, interval_millis: u64) -> (poller: Self)
        ensures
            poller == (ReadinessPoller {
                timeout_millis,
                interval_millis,
                phase: PollerPhase::AwaitingClock,
            }),
    {
        ReadinessPoller { timeout_millis, interval_millis, phase: PollerPhase::AwaitingClock }
    }

    /// The poller that start-up launches: a budget of
    /// [`READINESS_TIMEOUT_MILLIS`], a pause of [`PROBE_INTERVAL_MILLIS`].
    pub fn standard() -> (poller: Self)
        ensures
            poller == (ReadinessPoller {
                timeout_millis: READINESS_TIMEOUT_MILLIS,
                interval_millis: PROBE_INTERVAL_MILLIS,
                phase: PollerPhase::AwaitingClock,
            }),
    {
        ReadinessPoller::new(READINESS_TIMEOUT_MILLIS, PROBE_INTERVAL_MILLIS)
    }

    /// The result of polling, once it has ended.
    pub fn result(&self) -> (result: Option<Readiness>)
        ensures
            result == match self.phase {
                PollerPhase::Finished(readiness) => Some(readiness),
                _ => None::<Readiness>,
            },
    {
        match self.phase {
            PollerPhase::Finished(readiness) => Some(readiness),
            _ => None,
        }
    }

    /// Handles one event and says what to do next: see
    /// [`ReadinessPoller::step_spec`].
    pub fn step(&mut self, event: PollerEvent) -> (action: PollerAction)
        ensures
            (*final(self), action) == old(self).step_spec(event),
            action == PollerAction::Probe ==> is_clock_within(event, old(self).timeout_millis),
            old(self).phase == PollerPhase::AwaitingProbe && is_success_report(event) ==> action
                == PollerAction::Finish(Readiness::Ready),
    {
        match (self.phase, event) {
            (PollerPhase::Finished(result), _) => PollerAction::Finish(result),
            (PollerPhase::AwaitingClock, PollerEvent::Clock { elapsed_millis }) => {
                if elapsed_millis > self.timeout_millis {
                    self.phase = PollerPhase::Finished(Readiness::TimedOut);
                    PollerAction::Finish(Readiness::TimedOut)
                } else {
                    self.phase = PollerPhase::AwaitingProbe;
                    PollerAction::Probe
                }
            },
            (PollerPhase::AwaitingProbe, PollerEvent::Probed(outcome)) => {
                if probe_succeeded(outcome) {
                    self.phase = PollerPhase::Finished(Readiness::Ready);
                    PollerAction::Finish(Readiness::Ready)
                } else {
                    self.phase = PollerPhase::AwaitingClock;
                    PollerAction::Sleep { millis: self.interval_millis }
                }
            },
            _ => PollerAction::Rejected,
        }
    }
}

/// The address of the backend's health endpoint.
pub fn health_endpoint() -> (url: String)
    ensures
        url@ == "http://127.0.0.1:8000/health"@,
{
    "http://127.0.0.1:8000/health".to_owned()
}

/// The poller answers a successful probe at once: whatever went before, the
/// step that is told of a success for the probe it asked for ends polling
/// as ready.
pub proof fn lemma_ready_at_first_success(poller: ReadinessPoller, outcome: ProbeOutcome)
    requires
        poller.phase == PollerPhase::AwaitingProbe,
        probe_succeeded(outcome),
    ensures
        poller.step_spec(PollerEvent::Probed(outcome)).1 == PollerAction::Finish(Readiness::Ready),
        poller.step_spec(PollerEvent::Probed(outcome)).0.phase == PollerPhase::Finished(
            Readiness::Ready,
        ),
{
}

/// The poller never asks for a probe once the elapsed time exceeds its
/// budget: a probe is asked for only in answer to a clock reading that is
/// within the budget.
pub proof fn lemma_no_probe_past_timeout(poller: ReadinessPoller, event: PollerEvent)
    ensures
        poller.step_spec(event).1 == PollerAction::Probe ==> is_clock_within(
            event,
            poller.timeout_millis,
        ),
        is_clock_past(event, poller.timeout_millis) ==> poller.step_spec(event).1
            != PollerAction::Probe,
        is_clock_past(event, poller.timeout_millis) && poller.phase == PollerPhase::AwaitingClock
            ==> poller.step_spec(event).1 == PollerAction::Finish(Readiness::TimedOut),
{
}

/// The budget and the pause of a poller never change.
pub proof fn lemma_run_keeps_settings(poller: ReadinessPoller, events: Seq<PollerEvent>)
    ensures
        poller.run(events).timeout_millis == poller.timeout_millis,
        poller.run(events).interval_millis == poller.interval_millis,
    decreases events.len(),
{
    if events.len() > 0 {
        lemma_run_keeps_settings(poller, events.drop_last());
    }
}

/// Over a whole run, whatever the events: every probe that the poller asks
/// for answers a clock reading within the budget, and every success
/// reported for a probe that was asked for ends polling as ready in that
/// very step.
pub proof fn lemma_run_is_bounded_and_prompt(
    poller: ReadinessPoller,
    events: Seq<PollerEvent>,
    index: int,
)
    requires
        0 <= index < events.len(),
    ensures
        poller.action_at(events, index) == PollerAction::Probe ==> is_clock_within(
            events[index],
            poller.timeout_millis,
        ),
        poller.run(events.take(index)).phase == PollerPhase::AwaitingProbe && is_success_report(
            events[index],
        ) ==> poller.action_at(events, index) == PollerAction::Finish(Readiness::Ready),
{
    lemma_run_keeps_settings(poller, events.take(index));
}

/// Once polling has ended it stays ended: every later event is answered
/// with the same result, and no probe is asked for again.
pub proof fn lemma_finished_stays_finished(
    poller: ReadinessPoller,
    events: Seq<PollerEvent>,
    result: Readiness,
)
    requires
        poller.phase == PollerPhase::Finished(result),
    ensures
        poller.run(events) == poller,
        forall|index: int|
            0 <= index < events.len() ==> #[trigger] poller.action_at(events, index)
                == PollerAction::Finish(result),
    decreases events.len(),
{
    if events.len() > 0 {
        lemma_finished_stays_finished(poller, events.drop_last(), result);
        assert forall|index: int| 0 <= index < events.len() implies #[trigger] poller.action_at(
            events,
            index,
        ) == PollerAction::Finish(result) by {
            lemma_finished_stays_finished(poller, events.take(index), result);
        }
    }
}

} // verus!
