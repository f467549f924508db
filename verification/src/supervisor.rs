//! The look for the backend after launch.
//!
//! Once per launch the shell waits a moment, so that a backend started
//! alongside it can bind its port, probes once, and tells the operator if
//! nothing answered. There is no second probe and no way for the look to
//! fail: its only trace is the message.
//!
//! The waiting, the probing and the writing are the caller's. This module is
//! the sequence itself, as a machine that the caller drives: it hands
//! [`step`] what has just happened and carries out the action that comes
//! back.

use vstd::prelude::*;
use crate::health::HealthResult;

verus! {

/// The time between launch and the probe, in seconds.
pub const STARTUP_DELAY_SECS: u64 = 2;

/// Where the look stands.
#[derive(Clone, Copy, Debug, PartialEq, Eq, Structural)]
pub enum Phase {
    /// Nothing has happened yet.
    Idle,
    /// The delay is running.
    Waiting,
    /// The probe is under way.
    Probing,
    /// The look is over.
    Done,
}

/// What the caller reports to the machine.
#[derive(Clone, Copy, Debug, PartialEq, Eq, Structural)]
pub enum Event {
    /// The application has been launched.
    Launched,
    /// The sleep that was asked for is over.
    DelayElapsed,
    /// The probe that was asked for has ended, with this health.
    ProbeFinished { health: HealthResult },
}

/// What the machine asks of the caller.
#[derive(Clone, Copy, Debug, PartialEq, Eq, Structural)]
pub enum Action {
    /// Sleep for `secs` seconds, then report `DelayElapsed`.
    Sleep { secs: u64 },
    /// Probe the backend once, then report `ProbeFinished`.
    Probe,
    /// Write the diagnostic lines to the error stream.
    Report,
    /// Do nothing.
    Nothing,
}

impl Phase {
    /// How far the look has come, as a number that only grows.
    pub open spec fn rank(self) -> nat {
        match self {
            Phase::Idle => 0,
            Phase::Waiting => 1,
            Phase::Probing => 2,
            Phase::Done => 3,
        }
    }
}

/// The phase that follows `phase` on `event`. An event that the phase does
/// not expect changes nothing.
pub open spec fn next_phase(phase: Phase, event: Event) -> Phase {
    match (phase, event) {
        (Phase::Idle, Event::Launched) => Phase::Waiting,
        (Phase::Waiting, Event::DelayElapsed) => Phase::Probing,
        (Phase::Probing, Event::ProbeFinished { .. }) => Phase::Done,
        _ => phase,
    }
}

/// The action that `event` calls for in `phase`. The report is made for an
/// unhealthy probe only, and an unexpected event calls for nothing.
pub open spec fn action_for(phase: Phase, event: Event) -> Action {
    match (phase, event) {
        (Phase::Idle, Event::Launched) => Action::Sleep { secs: STARTUP_DELAY_SECS },
        (Phase::Waiting, Event::DelayElapsed) => Action::Probe,
        (Phase::Probing, Event::ProbeFinished { health: HealthResult::Unhealthy }) => Action::Report,
        _ => Action::Nothing,
    }
}

/// The phase in which a look is before its first event.
pub fn start() -> (phase: Phase)
    ensures
        phase == Phase::Idle,
{
    Phase::Idle
}

/// Advances the look by one event: the phase that follows, and what the
/// caller is to do now.
pub fn step(phase: Phase, event: Event) -> (next: (Phase, Action))
    ensures
        next.0 == next_phase(phase, event),
        next.1 == action_for(phase, event),
{
    match phase {
        Phase::Idle => match event {
            Event::Launched => (Phase::Waiting, Action::Sleep { secs: STARTUP_DELAY_SECS }),
            _ => (phase, Action::Nothing),
        },
        Phase::Waiting => match event {
            Event::DelayElapsed => (Phase::Probing, Action::Probe),
            _ => (phase, Action::Nothing),
        },
        Phase::Probing => match event {
            Event::ProbeFinished { health } => if health.is_healthy() {
                (Phase::Done, Action::Nothing)
            } else {
                (Phase::Done, Action::Report)
            },
            _ => (phase, Action::Nothing),
        },
        Phase::Done => (phase, Action::Nothing),
    }
}

/// Whether the look is over, so that the caller can stop driving it.
pub fn is_done(phase: Phase) -> (done: bool)
    ensures
        done == (phase == Phase::Done),
{
    match phase {
        Phase::Done => true,
        _ => false,
    }
}

/// The first diagnostic line: what was found.
pub open spec fn not_detected_text() -> Seq<char> {
    "\u{26a0}\u{fe0f} Backend server not detected at http://localhost:8000"@
}

/// The second diagnostic line: what the operator can do about it.
pub open spec fn start_hint_text() -> Seq<char> {
    "\u{26a0}\u{fe0f} Please start the backend with: python run_api.py"@
}

/// The two lines of a report, in the order in which they are written.
pub fn diagnostic_lines() -> (lines: (&'static str, &'static str))
    ensures
        lines.0@ == not_detected_text(),
        lines.1@ == start_hint_text(),
{
    (
        "\u{26a0}\u{fe0f} Backend server not detected at http://localhost:8000",
        "\u{26a0}\u{fe0f} Please start the backend with: python run_api.py",
    )
}

/// The phase of a look that began in `start` and has seen `events`.
pub open spec fn phase_after(start: Phase, events: Seq<Event>) -> Phase
    decreases events.len(),
{
    if events.len() == 0 {
        start
    } else {
        next_phase(phase_after(start, events.drop_last()), events.last())
    }
}

/// The action that the `i`-th of `events` called for, in a look that began
/// in `start`.
pub open spec fn action_at(start: Phase, events: Seq<Event>, i: int) -> Action
    recommends
        0 <= i < events.len(),
{
    action_for(phase_after(start, events.take(i)), events[i])
}

/// A look never goes back: whatever happens, the phase that follows is no
/// earlier than the phase before, and `Done` is never left.
pub proof fn lemma_step_advances(phase: Phase, event: Event)
    ensures
        phase.rank() <= next_phase(phase, event).rank(),
        phase == Phase::Done ==> next_phase(phase, event) == Phase::Done,
        phase == Phase::Done ==> action_for(phase, event) == Action::Nothing,
{
}

/// Over a whole run the phase only advances: after more events the look is
/// at least as far as after fewer.
pub proof fn lemma_run_advances(start: Phase, events: Seq<Event>, i: int, j: int)
    requires
        0 <= i <= j <= events.len(),
    ensures
        phase_after(start, events.take(i)).rank() <= phase_after(start, events.take(j)).rank(),
    decreases j - i,
{
    if i < j {
        lemma_run_advances(start, events, i, j - 1);
        assert(events.take(j).drop_last() =~= events.take(j - 1));
        assert(events.take(j).last() == events[j - 1]);
        lemma_step_advances(phase_after(start, events.take(j - 1)), events[j - 1]);
    }
}

/// Every action but `Nothing` moves the look on by exactly one phase, and
/// says from which: a sleep leaves `Idle`, a probe leaves `Waiting`, a
/// report leaves `Probing`.
pub proof fn lemma_action_leaves_phase(phase: Phase, event: Event)
    ensures
        action_for(phase, event) is Sleep ==> phase == Phase::Idle,
        action_for(phase, event) is Sleep ==> event == Event::Launched,
        action_for(phase, event) is Sleep ==> action_for(phase, event) == (Action::Sleep {
            secs: STARTUP_DELAY_SECS,
        }),
        action_for(phase, event) is Probe ==> phase == Phase::Waiting,
        action_for(phase, event) is Probe ==> event == Event::DelayElapsed,
        action_for(phase, event) is Report ==> phase == Phase::Probing,
        action_for(phase, event) is Report ==> event == (Event::ProbeFinished {
            health: HealthResult::Unhealthy,
        }),
        action_for(phase, event) != Action::Nothing ==> next_phase(phase, event).rank()
            == phase.rank() + 1,
{
}

/// No retry: in any run, from any phase, the backend is probed at most
/// once, the delay is waited at most once and the report is made at most
/// once. Two events that called for the same action other than `Nothing`
/// are one event.
pub proof fn lemma_each_action_once(start: Phase, events: Seq<Event>, i: int, j: int)
    requires
        0 <= i < events.len(),
        0 <= j < events.len(),
        action_at(start, events, i) != Action::Nothing,
        action_at(start, events, i) == action_at(start, events, j),
    ensures
        i == j,
{
    if i != j {
        let (lo, hi) = if i < j { (i, j) } else { (j, i) };
        let before = phase_after(start, events.take(lo));
        lemma_action_leaves_phase(before, events[lo]);
        lemma_action_leaves_phase(phase_after(start, events.take(hi)), events[hi]);
        assert(events.take(lo + 1).drop_last() =~= events.take(lo));
        assert(events.take(lo + 1).last() == events[lo]);
        assert(phase_after(start, events.take(lo + 1)) == next_phase(before, events[lo]));
        lemma_run_advances(start, events, lo + 1, hi);
    }
}

/// The order of a look: a probe is preceded by the full delay, and a report
/// by a probe that ended unhealthy. In a run from `Idle`, an event that
/// called for a probe came after one that called for a sleep of
/// `STARTUP_DELAY_SECS` seconds, and an event that called for the report is
/// the end of an unhealthy probe that an earlier event called for.
pub proof fn lemma_order_of_actions(events: Seq<Event>, i: int)
    requires
        0 <= i < events.len(),
    ensures
        action_at(Phase::Idle, events, i) is Probe ==> exists|k: int|
            0 <= k < i && #[trigger] action_at(Phase::Idle, events, k) == (Action::Sleep {
                secs: STARTUP_DELAY_SECS,
            }),
        action_at(Phase::Idle, events, i) is Report ==> events[i] == (Event::ProbeFinished {
            health: HealthResult::Unhealthy,
        }),
        action_at(Phase::Idle, events, i) is Report ==> exists|k: int|
            0 <= k < i && #[trigger] action_at(Phase::Idle, events, k) == Action::Probe,
{
    let act = action_at(Phase::Idle, events, i);
    lemma_action_leaves_phase(phase_after(Phase::Idle, events.take(i)), events[i]);
    if act is Probe {
        let k = lemma_phase_was_entered(events, i, Phase::Waiting);
        lemma_action_leaves_phase(phase_after(Phase::Idle, events.take(k)), events[k]);
    }
    if act is Report {
        let k = lemma_phase_was_entered(events, i, Phase::Probing);
        lemma_action_leaves_phase(phase_after(Phase::Idle, events.take(k)), events[k]);
    }
}

/// A run from `Idle` that stands in a later phase `phase` after `n` events
/// entered it at one of them: the returned index is that of the event whose
/// step led from the phase before into `phase`.
pub proof fn lemma_phase_was_entered(events: Seq<Event>, n: int, phase: Phase) -> (k: int)
    requires
        0 <= n <= events.len(),
        phase_after(Phase::Idle, events.take(n)) == phase,
        phase != Phase::Idle,
    ensures
        0 <= k < n,
        phase_after(Phase::Idle, events.take(k)).rank() + 1 == phase.rank(),
        next_phase(phase_after(Phase::Idle, events.take(k)), events[k]) == phase,
        action_at(Phase::Idle, events, k) != Action::Nothing || phase == Phase::Done,
    decreases n,
{
    if n == 0 {
        assert(events.take(0).len() == 0);
        0
    } else {
        assert(events.take(n).drop_last() =~= events.take(n - 1));
        assert(events.take(n).last() == events[n - 1]);
        let before = phase_after(Phase::Idle, events.take(n - 1));
        if before == phase {
            lemma_phase_was_entered(events, n - 1, phase)
        } else {
            n - 1
        }
    }
}

/// A healthy backend leaves no trace: a run from `Idle` in which no probe
/// ended unhealthy calls for no report.
pub proof fn lemma_healthy_is_silent(events: Seq<Event>, i: int)
    requires
        0 <= i < events.len(),
        events[i] != (Event::ProbeFinished { health: HealthResult::Unhealthy }),
    ensures
        !(action_at(Phase::Idle, events, i) is Report),
{
}

/// The events of a look that the caller drives to its end: launch, the end
/// of the delay, and the end of the probe with `health`.
pub open spec fn full_run(health: HealthResult) -> Seq<Event> {
    seq![Event::Launched, Event::DelayElapsed, Event::ProbeFinished { health }]
}

/// The whole look: it sleeps for the delay, probes once, and reports
/// exactly when the probe ended unhealthy; then it is over.
pub proof fn lemma_full_run(health: HealthResult)
    ensures
        action_at(Phase::Idle, full_run(health), 0) == (Action::Sleep { secs: STARTUP_DELAY_SECS }),
        action_at(Phase::Idle, full_run(health), 1) == Action::Probe,
        health is Unhealthy ==> action_at(Phase::Idle, full_run(health), 2) == Action::Report,
        health is Healthy ==> action_at(Phase::Idle, full_run(health), 2) == Action::Nothing,
        phase_after(Phase::Idle, full_run(health)) == Phase::Done,
{
    let events = full_run(health);
    let e0 = events.take(0);
    let e1 = events.take(1);
    let e2 = events.take(2);
    assert(e1.drop_last() =~= e0);
    assert(e2.drop_last() =~= e1);
    assert(events.drop_last() =~= e2);
    assert(phase_after(Phase::Idle, e0) == Phase::Idle);
    assert(phase_after(Phase::Idle, e1) == Phase::Waiting);
    assert(phase_after(Phase::Idle, e2) == Phase::Probing);
}

} // verus!
