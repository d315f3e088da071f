use vstd::prelude::*;

use crate::auth::Credential;
use crate::backoff::{spec_next_backoff, Backoff};
use crate::errors::ProxyError;
use crate::stats::spec_saturating_add;

verus! {

/// Deadline for every dial and for the handshake, in time units.
pub const CONNECTION_TIMEOUT_S: u64 = 10;

/// Interval of the statistics datapoint, in time units.
pub const METRICS_TICK_S: u64 = 1;

/// Interval of the identity/credential maintenance tick, in time units.
pub const MAINTENANCE_TICK_S: u64 = 600;

/// Everything one connection attempt is configured with. Immutable per
/// attempt and re-read fresh (with the signing identity) on every
/// reconnect, since the validator's identity key may rotate between
/// attempts.
pub struct RelayerConfig {
    /// Address of the external auth service that mints access tokens.
    pub auth_service_endpoint: String,
    /// Primary relayer endpoint.
    pub backend_endpoint: String,
    /// Interval at which heartbeats are expected, in time units.
    pub expected_heartbeat_interval_s: u64,
    /// The max tolerable age of the last heartbeat, in time units.
    pub oldest_allowed_heartbeat_s: u64,
    /// If set, the relayer is assumed to have verified the packets, and
    /// local signature verification is bypassed.
    pub trust_packets: bool,
}

/// Where the supervisor stands in the connection lifecycle. Terminal
/// only on the external shutdown signal.
#[derive(Debug, Clone, Copy, PartialEq, Eq, Structural)]
pub enum SupervisorState {
    /// Not yet started, or shut down.
    Idle,
    /// Dialing the auth and relayer endpoints.
    Connecting,
    /// Running the challenge/response handshake.
    Authenticating,
    /// Consuming the packet stream.
    Streaming,
    /// Sleeping out the retry backoff after a failure.
    Backoff,
}

/// What the supervisor's environment reports between states.
#[derive(Debug, Clone, Copy, PartialEq, Eq, Structural)]
pub enum SupervisorEvent {
    /// Begin a connection attempt.
    StartAttempt,
    /// Both endpoints answered and the channel stands.
    ConnectionEstablished,
    /// The handshake minted a credential pair.
    AuthenticationSucceeded,
    /// The attempt failed, in whichever phase; every failure is treated
    /// alike.
    AttemptFailed,
    /// The backoff sleep is over.
    BackoffElapsed,
    /// The external cancellation flag was observed.
    ShutdownRequested,
}

/// The supervisor's transition relation: attempts walk Idle, Connecting,
/// Authenticating and Streaming in order; any failure leads to Backoff,
/// whose sleep leads back to Connecting; shutdown is terminal from
/// every state. Events that do not apply to a state leave it unchanged.
pub open spec fn spec_supervisor_transition(
    state: SupervisorState,
    event: SupervisorEvent,
) -> SupervisorState {
    match event {
        SupervisorEvent::ShutdownRequested => SupervisorState::Idle,
        SupervisorEvent::StartAttempt => if state is Idle {
            SupervisorState::Connecting
        } else {
            state
        },
        SupervisorEvent::ConnectionEstablished => if state is Connecting {
            SupervisorState::Authenticating
        } else {
            state
        },
        SupervisorEvent::AuthenticationSucceeded => if state is Authenticating {
            SupervisorState::Streaming
        } else {
            state
        },
        SupervisorEvent::AttemptFailed => if state is Connecting || state is Authenticating
            || state is Streaming {
            SupervisorState::Backoff
        } else {
            state
        },
        SupervisorEvent::BackoffElapsed => if state is Backoff {
            SupervisorState::Connecting
        } else {
            state
        },
    }
}

/// Advances the supervisor's lifecycle state by one observed event.
pub fn supervisor_transition(state: SupervisorState, event: SupervisorEvent) -> (r: SupervisorState)
    ensures
        r == spec_supervisor_transition(state, event),
{
    match event {
        SupervisorEvent::ShutdownRequested => SupervisorState::Idle,
        SupervisorEvent::StartAttempt => match state {
            SupervisorState::Idle => SupervisorState::Connecting,
            _ => state,
        },
        SupervisorEvent::ConnectionEstablished => match state {
            SupervisorState::Connecting => SupervisorState::Authenticating,
            _ => state,
        },
        SupervisorEvent::AuthenticationSucceeded => match state {
            SupervisorState::Authenticating => SupervisorState::Streaming,
            _ => state,
        },
        SupervisorEvent::AttemptFailed => match state {
            SupervisorState::Connecting => SupervisorState::Backoff,
            SupervisorState::Authenticating => SupervisorState::Backoff,
            SupervisorState::Streaming => SupervisorState::Backoff,
            _ => state,
        },
        SupervisorEvent::BackoffElapsed => match state {
            SupervisorState::Backoff => SupervisorState::Connecting,
            _ => state,
        },
    }
}

/// One emitted connection-error datapoint: the telemetry event name and
/// the running error count.
pub struct ErrorReport {
    pub name: String,
    pub count: u64,
}

/// A connection attempt ended without error (only the shutdown signal
/// does that): the backoff resets, so the next failure sleeps one time
/// unit.
pub fn on_attempt_success(backoff: &mut Backoff)
    ensures
        final(backoff)@ == 0,
{
    backoff.on_success();
}

/// A connection attempt failed: the error is counted under the
/// contracted telemetry name, the backoff grows by one time unit up to
/// its cap, and the supervisor must sleep the returned number of time
/// units before redialing.
pub fn on_attempt_failure(backoff: &mut Backoff, error_count: &mut u64) -> (r: (u64, ErrorReport))
    ensures
        *final(error_count) == spec_saturating_add(*old(error_count), 1),
        final(backoff)@ == spec_next_backoff(old(backoff)@),
        r.0 == final(backoff)@,
        r.1.name@ == "relayer_stage-proxy_error"@,
        r.1.count == *final(error_count),
{
    *error_count = error_count.saturating_add(1);
    let sleep_s = backoff.on_failure();
    (
        sleep_s,
        ErrorReport { name: String::from_str("relayer_stage-proxy_error"), count: *error_count },
    )
}

/// How a dial attempt ended, as the transport reports it.
pub enum DialOutcome {
    /// The endpoint answered within the deadline.
    Connected,
    /// The deadline passed first.
    TimedOut,
    /// The dial failed outright, with the transport's message.
    Failed(String),
}

/// Sorts an auth-endpoint dial outcome into the error taxonomy: a
/// timeout is distinct from a hard connection failure.
pub fn classify_auth_dial(outcome: DialOutcome) -> (r: Result<(), ProxyError>)
    ensures
        outcome is Connected ==> r is Ok,
        outcome is TimedOut ==> r == Result::<(), ProxyError>::Err(
            ProxyError::AuthenticationConnectionTimeout,
        ),
        outcome matches DialOutcome::Failed(m) ==> (r matches Err(e)
            && e matches ProxyError::AuthenticationConnectionError(s) && s@ == m@),
{
    match outcome {
        DialOutcome::Connected => Ok(()),
        DialOutcome::TimedOut => Err(ProxyError::AuthenticationConnectionTimeout),
        DialOutcome::Failed(m) => Err(ProxyError::AuthenticationConnectionError(m)),
    }
}

/// Sorts a relayer-endpoint dial outcome into the error taxonomy,
/// distinguished from auth-endpoint failures.
pub fn classify_relayer_dial(outcome: DialOutcome) -> (r: Result<(), ProxyError>)
    ensures
        outcome is Connected ==> r is Ok,
        outcome is TimedOut ==> r == Result::<(), ProxyError>::Err(
            ProxyError::RelayerConnectionTimeout,
        ),
        outcome matches DialOutcome::Failed(m) ==> (r matches Err(e)
            && e matches ProxyError::RelayerConnectionError(s) && s@ == m@),
{
    match outcome {
        DialOutcome::Connected => Ok(()),
        DialOutcome::TimedOut => Err(ProxyError::RelayerConnectionTimeout),
        DialOutcome::Failed(m) => Err(ProxyError::RelayerConnectionError(m)),
    }
}

/// Wraps the handshake's own result in the connection deadline: a
/// handshake that did not finish in time fails with a timeout kind
/// distinct from handshake-internal errors, which pass through.
pub fn classify_handshake(outcome: Option<Result<(Credential, Credential), ProxyError>>) -> (r:
    Result<(Credential, Credential), ProxyError>)
    ensures
        outcome is None ==> (r matches Err(e) && e == ProxyError::AuthenticationTimeout),
        outcome matches Some(x) ==> r == x,
{
    match outcome {
        None => Err(ProxyError::AuthenticationTimeout),
        Some(x) => x,
    }
}

} // verus!
