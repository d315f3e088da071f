use relayer_proxy::backoff::{Backoff, MAX_BACKOFF_S};
use relayer_proxy::errors::ProxyError;
use relayer_proxy::supervisor::{
    classify_auth_dial, classify_handshake, classify_relayer_dial, on_attempt_failure,
    on_attempt_success, supervisor_transition, DialOutcome, SupervisorEvent, SupervisorState,
};
use relayer_proxy::auth::Credential;

#[test]
fn backoff_grows_one_unit_per_consecutive_failure() {
    let mut backoff = Backoff::new();
    let mut error_count: u64 = 0;
    for n in 1..=10u64 {
        let (sleep_s, report) = on_attempt_failure(&mut backoff, &mut error_count);
        assert_eq!(sleep_s, n);
        assert_eq!(report.name, "relayer_stage-proxy_error");
        assert_eq!(report.count, n);
    }
    // Capped from the eleventh consecutive failure on.
    for _ in 0..5 {
        let (sleep_s, _) = on_attempt_failure(&mut backoff, &mut error_count);
        assert_eq!(sleep_s, MAX_BACKOFF_S);
    }
}

#[test]
fn backoff_resets_after_a_success() {
    let mut backoff = Backoff::new();
    let mut error_count: u64 = 0;
    for _ in 0..7 {
        on_attempt_failure(&mut backoff, &mut error_count);
    }
    assert_eq!(backoff.current(), 7);
    on_attempt_success(&mut backoff);
    assert_eq!(backoff.current(), 0);
    let (sleep_s, _) = on_attempt_failure(&mut backoff, &mut error_count);
    assert_eq!(sleep_s, 1);
}

#[test]
fn backoff_never_exceeds_the_cap() {
    let mut backoff = Backoff::new();
    let mut error_count: u64 = 0;
    for _ in 0..100 {
        let (sleep_s, _) = on_attempt_failure(&mut backoff, &mut error_count);
        assert!(sleep_s <= MAX_BACKOFF_S);
    }
    assert_eq!(backoff.current(), MAX_BACKOFF_S);
}

#[test]
fn lifecycle_walks_the_states_in_order() {
    let s0 = SupervisorState::Idle;
    let s1 = supervisor_transition(s0, SupervisorEvent::StartAttempt);
    assert_eq!(s1, SupervisorState::Connecting);
    let s2 = supervisor_transition(s1, SupervisorEvent::ConnectionEstablished);
    assert_eq!(s2, SupervisorState::Authenticating);
    let s3 = supervisor_transition(s2, SupervisorEvent::AuthenticationSucceeded);
    assert_eq!(s3, SupervisorState::Streaming);
    let s4 = supervisor_transition(s3, SupervisorEvent::AttemptFailed);
    assert_eq!(s4, SupervisorState::Backoff);
    let s5 = supervisor_transition(s4, SupervisorEvent::BackoffElapsed);
    assert_eq!(s5, SupervisorState::Connecting);
}

#[test]
fn every_phase_fails_into_backoff_and_shutdown_is_terminal() {
    for state in [
        SupervisorState::Connecting,
        SupervisorState::Authenticating,
        SupervisorState::Streaming,
    ] {
        assert_eq!(
            supervisor_transition(state, SupervisorEvent::AttemptFailed),
            SupervisorState::Backoff
        );
    }
    for state in [
        SupervisorState::Idle,
        SupervisorState::Connecting,
        SupervisorState::Authenticating,
        SupervisorState::Streaming,
        SupervisorState::Backoff,
    ] {
        assert_eq!(
            supervisor_transition(state, SupervisorEvent::ShutdownRequested),
            SupervisorState::Idle
        );
    }
}

#[test]
fn dial_timeouts_are_distinct_from_dial_failures() {
    assert!(classify_auth_dial(DialOutcome::Connected).is_ok());
    assert_eq!(
        classify_auth_dial(DialOutcome::TimedOut).unwrap_err(),
        ProxyError::AuthenticationConnectionTimeout
    );
    assert_eq!(
        classify_auth_dial(DialOutcome::Failed("refused".to_string())).unwrap_err(),
        ProxyError::AuthenticationConnectionError("refused".to_string())
    );
    assert!(classify_relayer_dial(DialOutcome::Connected).is_ok());
    assert_eq!(
        classify_relayer_dial(DialOutcome::TimedOut).unwrap_err(),
        ProxyError::RelayerConnectionTimeout
    );
    assert_eq!(
        classify_relayer_dial(DialOutcome::Failed("refused".to_string())).unwrap_err(),
        ProxyError::RelayerConnectionError("refused".to_string())
    );
}

#[test]
fn handshake_timeout_is_distinct_from_handshake_errors() {
    assert_eq!(
        classify_handshake(None).unwrap_err(),
        ProxyError::AuthenticationTimeout
    );
    let pair = classify_handshake(Some(Ok((
        Credential {
            value: "a".to_string(),
            expires_at: 1,
        },
        Credential {
            value: "r".to_string(),
            expires_at: 2,
        },
    ))))
    .unwrap();
    assert_eq!(pair.0.value, "a");
    assert_eq!(pair.1.value, "r");
    assert_eq!(
        classify_handshake(Some(Err(ProxyError::AuthenticationError(
            "rejected".to_string()
        ))))
        .unwrap_err(),
        ProxyError::AuthenticationError("rejected".to_string())
    );
}
