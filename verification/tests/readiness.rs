use ai_client::readiness::{
    health_endpoint, probe_succeeded, PollerAction, PollerEvent, PollerPhase, ProbeOutcome,
    Readiness, ReadinessPoller, PROBE_INTERVAL_MILLIS, READINESS_TIMEOUT_MILLIS,
};

fn clock(elapsed_millis: u64) -> PollerEvent {
    PollerEvent::Clock { elapsed_millis }
}

fn answered(status: u16) -> PollerEvent {
    PollerEvent::Probed(ProbeOutcome::Responded { status })
}

fn unreachable_probe() -> PollerEvent {
    PollerEvent::Probed(ProbeOutcome::Unreachable)
}

#[test]
fn the_standard_poller() {
    assert_eq!(READINESS_TIMEOUT_MILLIS, 10_000);
    assert_eq!(PROBE_INTERVAL_MILLIS, 500);
    let poller = ReadinessPoller::standard();
    assert_eq!(poller, ReadinessPoller::new(10_000, 500));
    assert_eq!(poller.phase, PollerPhase::AwaitingClock);
    assert_eq!(poller.result(), None);
    assert_eq!(health_endpoint(), "http://127.0.0.1:8000/health");
}

#[test]
fn success_is_a_status_from_200_to_299() {
    for status in [200u16, 201, 204, 250, 299] {
        assert!(probe_succeeded(ProbeOutcome::Responded { status }), "{}", status);
    }
    for status in [0u16, 1, 99, 100, 199, 300, 301, 404, 500, 503, 999, 1000, 65535] {
        assert!(!probe_succeeded(ProbeOutcome::Responded { status }), "{}", status);
    }
    assert!(!probe_succeeded(ProbeOutcome::Unreachable));
}

#[test]
fn ready_on_the_first_probe() {
    let mut poller = ReadinessPoller::new(10_000, 500);
    assert_eq!(poller.step(clock(0)), PollerAction::Probe);
    assert_eq!(poller.phase, PollerPhase::AwaitingProbe);
    assert_eq!(poller.step(answered(200)), PollerAction::Finish(Readiness::Ready));
    assert_eq!(poller.result(), Some(Readiness::Ready));
}

#[test]
fn a_failed_probe_leads_to_a_sleep_and_a_retry() {
    let mut poller = ReadinessPoller::new(10_000, 500);
    assert_eq!(poller.step(clock(0)), PollerAction::Probe);
    assert_eq!(poller.step(unreachable_probe()), PollerAction::Sleep { millis: 500 });
    assert_eq!(poller.phase, PollerPhase::AwaitingClock);
    assert_eq!(poller.step(clock(500)), PollerAction::Probe);
    assert_eq!(poller.step(answered(503)), PollerAction::Sleep { millis: 500 });
    assert_eq!(poller.step(clock(1_010)), PollerAction::Probe);
    assert_eq!(poller.step(answered(204)), PollerAction::Finish(Readiness::Ready));
}

#[test]
fn the_pause_is_the_one_configured() {
    let mut poller = ReadinessPoller::new(3_000, 125);
    assert_eq!(poller.step(clock(0)), PollerAction::Probe);
    assert_eq!(poller.step(unreachable_probe()), PollerAction::Sleep { millis: 125 });
}

#[test]
fn a_probe_is_still_sent_at_exactly_the_timeout() {
    let mut poller = ReadinessPoller::new(10_000, 500);
    assert_eq!(poller.step(clock(10_000)), PollerAction::Probe);
}

#[test]
fn no_probe_once_the_timeout_is_exceeded() {
    let mut poller = ReadinessPoller::new(10_000, 500);
    assert_eq!(poller.step(clock(10_001)), PollerAction::Finish(Readiness::TimedOut));
    assert_eq!(poller.phase, PollerPhase::Finished(Readiness::TimedOut));
    assert_eq!(poller.result(), Some(Readiness::TimedOut));
}

#[test]
fn times_out_when_the_endpoint_never_answers() {
    let mut poller = ReadinessPoller::standard();
    let mut elapsed = 0u64;
    let mut probes = 0;
    loop {
        match poller.step(clock(elapsed)) {
            PollerAction::Probe => {
                assert!(elapsed <= 10_000);
                probes += 1;
                match poller.step(unreachable_probe()) {
                    PollerAction::Sleep { millis } => elapsed += millis,
                    other => panic!("unexpected {:?}", other),
                }
            }
            PollerAction::Finish(result) => {
                assert_eq!(result, Readiness::TimedOut);
                break;
            }
            other => panic!("unexpected {:?}", other),
        }
    }
    assert_eq!(probes, 21);
    assert_eq!(elapsed, 10_500);
}

#[test]
fn a_zero_timeout_allows_one_probe() {
    let mut poller = ReadinessPoller::new(0, 500);
    assert_eq!(poller.step(clock(0)), PollerAction::Probe);
    assert_eq!(poller.step(unreachable_probe()), PollerAction::Sleep { millis: 500 });
    assert_eq!(poller.step(clock(500)), PollerAction::Finish(Readiness::TimedOut));
}

#[test]
fn a_finished_poller_repeats_its_result() {
    let mut poller = ReadinessPoller::new(10_000, 500);
    assert_eq!(poller.step(clock(0)), PollerAction::Probe);
    assert_eq!(poller.step(answered(200)), PollerAction::Finish(Readiness::Ready));
    let ended = poller;
    assert_eq!(poller.step(clock(20_000)), PollerAction::Finish(Readiness::Ready));
    assert_eq!(poller.step(unreachable_probe()), PollerAction::Finish(Readiness::Ready));
    assert_eq!(poller.step(clock(0)), PollerAction::Finish(Readiness::Ready));
    assert_eq!(poller, ended);
}

#[test]
fn an_event_that_does_not_fit_is_rejected() {
    let mut poller = ReadinessPoller::new(10_000, 500);
    let fresh = poller;
    assert_eq!(poller.step(answered(200)), PollerAction::Rejected);
    assert_eq!(poller, fresh);
    assert_eq!(poller.step(clock(0)), PollerAction::Probe);
    let probing = poller;
    assert_eq!(poller.step(clock(100)), PollerAction::Rejected);
    assert_eq!(poller.step(clock(20_000)), PollerAction::Rejected);
    assert_eq!(poller, probing);
    assert_eq!(poller.result(), None);
}

#[test]
fn endpoint_that_comes_up_late_is_found_ready_when_it_does() {
    // the endpoint refuses connections for ten seconds and answers from 10.2 s on;
    // each round of probe and pause takes 510 ms, so the clock reads 10.2 s at the
    // twenty-first probe; the budget is fifteen seconds
    let mut poller = ReadinessPoller::new(15_000, 500);
    let mut round = 0u64;
    let finished_at = loop {
        let elapsed = 510 * round;
        assert_eq!(poller.step(clock(elapsed)), PollerAction::Probe);
        let outcome = if elapsed >= 10_200 {
            ProbeOutcome::Responded { status: 200 }
        } else {
            ProbeOutcome::Unreachable
        };
        match poller.step(PollerEvent::Probed(outcome)) {
            PollerAction::Sleep { millis } => {
                assert!(elapsed < 10_200);
                assert_eq!(millis, 500);
                assert_eq!(poller.result(), None);
            }
            PollerAction::Finish(result) => {
                assert_eq!(result, Readiness::Ready);
                break elapsed;
            }
            other => panic!("unexpected {:?}", other),
        }
        round += 1;
    };
    assert_eq!(finished_at, 10_200);
    assert_eq!(round, 20);
    assert_eq!(poller.result(), Some(Readiness::Ready));
}

#[test]
fn endpoint_that_comes_up_late_is_probed_on_schedule() {
    // same endpoint, with the poller strictly on its 500 ms schedule: the first
    // probe at or after 10.2 s is the one at 10.5 s
    let mut poller = ReadinessPoller::new(15_000, 500);
    let mut elapsed = 0u64;
    let result = loop {
        assert_eq!(poller.step(clock(elapsed)), PollerAction::Probe);
        let outcome = if elapsed >= 10_200 {
            ProbeOutcome::Responded { status: 200 }
        } else {
            ProbeOutcome::Unreachable
        };
        match poller.step(PollerEvent::Probed(outcome)) {
            PollerAction::Sleep { millis } => elapsed += millis,
            PollerAction::Finish(result) => break result,
            other => panic!("unexpected {:?}", other),
        }
    };
    assert_eq!(result, Readiness::Ready);
    assert_eq!(elapsed, 10_500);
}
