//! Classification of one probe attempt.
//!
//! A probe attempt ends in one of three ways: the HTTP client could not be
//! set up, the exchange failed in transport, or a response arrived. The
//! caller reports which as a [`ProbeOutcome`]; the functions here say what
//! that means for the backend's health and for the front end.

use vstd::prelude::*;
use crate::status::{is_success_code, is_success_status};

verus! {

/// The answer of a health check. There is no third value: a check never
/// fails hard towards its caller.
#[derive(Clone, Copy, Debug, PartialEq, Eq, Structural)]
pub enum HealthResult {
    Healthy,
    Unhealthy,
}

impl HealthResult {
    /// The health as the flag that the front end receives.
    pub open spec fn flag(self) -> bool {
        self is Healthy
    }

    /// `true` for `Healthy`, `false` for `Unhealthy`.
    pub fn is_healthy(&self) -> (healthy: bool)
        ensures
            healthy == self.flag(),
    {
        match self {
            HealthResult::Healthy => true,
            HealthResult::Unhealthy => false,
        }
    }

    /// The health that the flag `healthy` stands for.
    pub fn from_flag(healthy: bool) -> (health: HealthResult)
        ensures
            health.flag() == healthy,
            health == (if healthy { HealthResult::Healthy } else { HealthResult::Unhealthy }),
    {
        if healthy {
            HealthResult::Healthy
        } else {
            HealthResult::Unhealthy
        }
    }
}

/// Why an exchange ended without a response.
#[derive(Clone, Copy, Debug, PartialEq, Eq, Structural)]
pub enum TransportFailure {
    /// No connection could be made: refused, unreachable, or the name did
    /// not resolve.
    Connect,
    /// The time allowed for the request ran out.
    Timeout,
    /// Any other failure below the level of an HTTP response.
    Other,
}

impl TransportFailure {
    /// The failure that two observations of a transport error stand for.
    /// A timeout while connecting is a timeout.
    pub open spec fn of_flags(timed_out: bool, connect: bool) -> TransportFailure {
        if timed_out {
            TransportFailure::Timeout
        } else if connect {
            TransportFailure::Connect
        } else {
            TransportFailure::Other
        }
    }

    /// Names a transport error from what the HTTP client says of it:
    /// whether it was a timeout, and whether it arose while connecting.
    pub fn from_flags(timed_out: bool, connect: bool) -> (failure: TransportFailure)
        ensures
            failure == Self::of_flags(timed_out, connect),
    {
        if timed_out {
            TransportFailure::Timeout
        } else if connect {
            TransportFailure::Connect
        } else {
            TransportFailure::Other
        }
    }
}

/// How one probe attempt ended.
#[derive(Clone, Debug, PartialEq, Eq)]
pub enum ProbeOutcome {
    /// The HTTP client could not be constructed; `reason` is the client's
    /// own description of the failure.
    ClientInit { reason: String },
    /// The request was sent, or tried to be, and no response came back.
    Transport { failure: TransportFailure },
    /// A response arrived with this status code. Its body is not looked at.
    Response { status: u16 },
}

/// A [`ProbeOutcome`] as a mathematical value: the reason as a sequence of
/// characters.
pub enum OutcomeView {
    ClientInit { reason: Seq<char> },
    Transport { failure: TransportFailure },
    Response { status: u16 },
}

impl View for ProbeOutcome {
    type V = OutcomeView;

    open spec fn view(&self) -> OutcomeView {
        match *self {
            ProbeOutcome::ClientInit { reason } => OutcomeView::ClientInit { reason: reason@ },
            ProbeOutcome::Transport { failure } => OutcomeView::Transport { failure },
            ProbeOutcome::Response { status } => OutcomeView::Response { status },
        }
    }
}

/// Whether an outcome is a response with a success status, 200 to 299.
pub open spec fn is_success_response(outcome: OutcomeView) -> bool {
    outcome matches OutcomeView::Response { status } && 200 <= status < 300
}

/// The health that an outcome shows: healthy exactly when a response
/// arrived and its status is a success.
pub open spec fn health_of(outcome: OutcomeView) -> HealthResult {
    match outcome {
        OutcomeView::Response { status } => if is_success_code(status) {
            HealthResult::Healthy
        } else {
            HealthResult::Unhealthy
        },
        OutcomeView::Transport { .. } => HealthResult::Unhealthy,
        OutcomeView::ClientInit { .. } => HealthResult::Unhealthy,
    }
}

/// What the bridge command hands to the front end for an outcome: the
/// health flag, or the reason why no client could be constructed.
pub open spec fn bridge_reply(outcome: OutcomeView) -> Result<bool, Seq<char>> {
    match outcome {
        OutcomeView::Response { status } => Ok(is_success_code(status)),
        OutcomeView::Transport { .. } => Ok(false),
        OutcomeView::ClientInit { reason } => Err(reason),
    }
}

/// The view of a bridge reply: the error text as a sequence of characters.
pub open spec fn reply_view(reply: Result<bool, String>) -> Result<bool, Seq<char>> {
    match reply {
        Ok(healthy) => Ok(healthy),
        Err(reason) => Err(reason@),
    }
}

/// Classifies a probe attempt as healthy or unhealthy.
///
/// A response with a status from 200 to 299 is healthy. Every other way the
/// attempt can end is unhealthy: a response with another status, a refused
/// connection, a timeout, any other transport failure, and a client that
/// could not be constructed. The last is folded in on purpose, so that the
/// answer is never an error.
pub fn check_health(outcome: &ProbeOutcome) -> (health: HealthResult)
    ensures
        health == health_of(outcome@),
        is_success_response(outcome@) ==> health is Healthy,
        outcome@ is Response && !is_success_response(outcome@) ==> health is Unhealthy,
        outcome@ == (OutcomeView::Transport { failure: TransportFailure::Connect }) ==> health
            is Unhealthy,
        outcome@ == (OutcomeView::Transport { failure: TransportFailure::Timeout }) ==> health
            is Unhealthy,
        outcome@ is Transport ==> health is Unhealthy,
        outcome@ is ClientInit ==> health is Unhealthy,
{
    match outcome {
        ProbeOutcome::Response { status } => HealthResult::from_flag(is_success_status(*status)),
        ProbeOutcome::Transport { .. } => HealthResult::Unhealthy,
        ProbeOutcome::ClientInit { .. } => HealthResult::Unhealthy,
    }
}

/// Answers the front end's bridge command from a probe attempt.
///
/// The reply is the health flag whenever a client could be constructed:
/// `true` for a success status, `false` for any other status and for every
/// transport failure. Only a client that could not be constructed is an
/// error, and the error is the client's own reason, unchanged.
pub fn check_backend_health(outcome: ProbeOutcome) -> (reply: Result<bool, String>)
    ensures
        reply_view(reply) == bridge_reply(outcome@),
        reply is Err <==> outcome@ is ClientInit,
{
    match outcome {
        ProbeOutcome::Response { status } => Ok(is_success_status(status)),
        ProbeOutcome::Transport { .. } => Ok(false),
        ProbeOutcome::ClientInit { reason } => Err(reason),
    }
}

/// The bridge command and the health check agree: where the bridge replies
/// with a flag, the flag is the health; where it replies with an error, the
/// health is `Unhealthy`.
pub proof fn lemma_bridge_agrees_with_health(outcome: OutcomeView)
    ensures
        bridge_reply(outcome) matches Ok(healthy) ==> healthy == health_of(outcome).flag(),
        bridge_reply(outcome) is Err ==> health_of(outcome) is Unhealthy,
{
}

} // verus!
