use backend_health::health::HealthResult;
use backend_health::request::{probe_request, PROBE_TIMEOUT_SECS};
use backend_health::supervisor::{
    diagnostic_lines, is_done, start, step, Action, Event, Phase, STARTUP_DELAY_SECS,
};

fn drive(events: &[Event]) -> (Phase, Vec<Action>) {
    let mut phase = start();
    let mut actions = Vec::new();
    for event in events {
        let (next, action) = step(phase, *event);
        phase = next;
        actions.push(action);
    }
    (phase, actions)
}

fn finished(health: HealthResult) -> Event {
    Event::ProbeFinished { health }
}

#[test]
fn probe_request_is_fixed() {
    let request = probe_request();
    assert_eq!(request.url, "http://localhost:8000/api/v1/health");
    assert_eq!(request.timeout_secs, 2);
    assert_eq!(PROBE_TIMEOUT_SECS, 2);
}

#[test]
fn look_starts_idle() {
    assert_eq!(start(), Phase::Idle);
    assert!(!is_done(start()));
}

#[test]
fn launch_asks_for_the_delay() {
    assert_eq!(STARTUP_DELAY_SECS, 2);
    assert_eq!(step(Phase::Idle, Event::Launched), (Phase::Waiting, Action::Sleep { secs: 2 }));
}

#[test]
fn end_of_delay_asks_for_the_probe() {
    assert_eq!(step(Phase::Waiting, Event::DelayElapsed), (Phase::Probing, Action::Probe));
}

#[test]
fn unhealthy_probe_asks_for_the_report() {
    assert_eq!(
        step(Phase::Probing, finished(HealthResult::Unhealthy)),
        (Phase::Done, Action::Report)
    );
}

#[test]
fn healthy_probe_asks_for_nothing() {
    assert_eq!(
        step(Phase::Probing, finished(HealthResult::Healthy)),
        (Phase::Done, Action::Nothing)
    );
}

#[test]
fn full_look_with_backend_down() {
    let (phase, actions) =
        drive(&[Event::Launched, Event::DelayElapsed, finished(HealthResult::Unhealthy)]);
    assert_eq!(phase, Phase::Done);
    assert!(is_done(phase));
    assert_eq!(actions, vec![Action::Sleep { secs: 2 }, Action::Probe, Action::Report]);
}

#[test]
fn full_look_with_backend_up() {
    let (phase, actions) =
        drive(&[Event::Launched, Event::DelayElapsed, finished(HealthResult::Healthy)]);
    assert_eq!(phase, Phase::Done);
    assert_eq!(actions, vec![Action::Sleep { secs: 2 }, Action::Probe, Action::Nothing]);
}

#[test]
fn unexpected_events_change_nothing() {
    let unhealthy = finished(HealthResult::Unhealthy);
    assert_eq!(step(Phase::Idle, Event::DelayElapsed), (Phase::Idle, Action::Nothing));
    assert_eq!(step(Phase::Idle, unhealthy), (Phase::Idle, Action::Nothing));
    assert_eq!(step(Phase::Waiting, Event::Launched), (Phase::Waiting, Action::Nothing));
    assert_eq!(step(Phase::Waiting, unhealthy), (Phase::Waiting, Action::Nothing));
    assert_eq!(step(Phase::Probing, Event::Launched), (Phase::Probing, Action::Nothing));
    assert_eq!(step(Phase::Probing, Event::DelayElapsed), (Phase::Probing, Action::Nothing));
}

#[test]
fn finished_look_stays_finished() {
    for event in [
        Event::Launched,
        Event::DelayElapsed,
        finished(HealthResult::Healthy),
        finished(HealthResult::Unhealthy),
    ] {
        assert_eq!(step(Phase::Done, event), (Phase::Done, Action::Nothing));
    }
}

#[test]
fn no_second_probe_and_no_second_report() {
    let unhealthy = finished(HealthResult::Unhealthy);
    let (phase, actions) = drive(&[
        unhealthy,
        Event::Launched,
        Event::Launched,
        Event::DelayElapsed,
        Event::DelayElapsed,
        unhealthy,
        unhealthy,
        Event::Launched,
        Event::DelayElapsed,
        unhealthy,
    ]);
    assert_eq!(phase, Phase::Done);
    assert_eq!(actions.iter().filter(|a| matches!(a, Action::Sleep { .. })).count(), 1);
    assert_eq!(actions.iter().filter(|a| **a == Action::Probe).count(), 1);
    assert_eq!(actions.iter().filter(|a| **a == Action::Report).count(), 1);
    let sleep_at = actions.iter().position(|a| matches!(a, Action::Sleep { .. })).unwrap();
    let probe_at = actions.iter().position(|a| *a == Action::Probe).unwrap();
    let report_at = actions.iter().position(|a| *a == Action::Report).unwrap();
    assert!(sleep_at < probe_at && probe_at < report_at);
}

#[test]
fn diagnostic_lines_are_fixed() {
    let (first, second) = diagnostic_lines();
    assert_eq!(first, "\u{26a0}\u{fe0f} Backend server not detected at http://localhost:8000");
    assert_eq!(second, "\u{26a0}\u{fe0f} Please start the backend with: python run_api.py");
}
