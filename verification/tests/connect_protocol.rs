use ssh_exec::connect::AuthOutcome;
use ssh_exec::connect::ConnectEvent;
use ssh_exec::connect::ConnectMachine;
use ssh_exec::connect::ConnectPhase;
use ssh_exec::connect::DialOutcome;
use ssh_exec::connect::HandshakeOutcome;
use ssh_exec::connect::KeyCheck;
use ssh_exec::errors::ConnectError;
use ssh_exec::retry::ConnectAttempt;
use ssh_exec::retry::RetryPolicy;
use ssh_exec::retry::STANDARD_ATTEMPT_DEADLINE_MS;
use ssh_exec::retry::STANDARD_BUDGET_MS;

#[test]
fn first_dial_success_connects_without_retry() {
    let mut m = ConnectMachine::new(KeyCheck::Decoded, RetryPolicy::standard());
    assert_eq!(m.phase, ConnectPhase::Dialing);
    assert_eq!(m.dial_attempts, 0);
    m.on_event(ConnectEvent::Dial { outcome: DialOutcome::Connected, elapsed_ms: 250 });
    assert_eq!(m.phase, ConnectPhase::Handshaking);
    assert_eq!(m.dial_attempts, 1);
    m.on_event(ConnectEvent::Handshake { outcome: HandshakeOutcome::Established });
    assert_eq!(m.phase, ConnectPhase::Authenticating);
    m.on_event(ConnectEvent::Auth { outcome: AuthOutcome::Accepted });
    assert!(m.is_connected());
    assert_eq!(m.dial_attempts, 1);
    assert_eq!(m.failure(), None);
}

#[test]
fn always_failing_dials_time_out_at_budget_not_earlier() {
    let policy = RetryPolicy::standard();
    let mut m = ConnectMachine::new(KeyCheck::Decoded, policy);
    let mut elapsed: u64 = 0;
    // A simulated always-failing dial: every attempt burns its full deadline.
    while m.phase == ConnectPhase::Dialing {
        elapsed += STANDARD_ATTEMPT_DEADLINE_MS;
        m.on_event(ConnectEvent::Dial { outcome: DialOutcome::Failed, elapsed_ms: elapsed });
    }
    assert_eq!(m.phase, ConnectPhase::Failed(ConnectError::ConnectTimeoutExceeded));
    assert_eq!(m.failure(), Some(ConnectError::ConnectTimeoutExceeded));
    // The machine gave up shortly after the two-minute budget, not earlier
    // and not indefinitely.
    assert!(elapsed > STANDARD_BUDGET_MS);
    assert!(elapsed <= STANDARD_BUDGET_MS + STANDARD_ATTEMPT_DEADLINE_MS);
}

#[test]
fn failed_dial_at_exact_budget_still_retries() {
    let policy = RetryPolicy::new(3000, 120000);
    let mut m = ConnectMachine::new(KeyCheck::Decoded, policy);
    m.on_event(ConnectEvent::Dial { outcome: DialOutcome::Failed, elapsed_ms: 120000 });
    assert_eq!(m.phase, ConnectPhase::Dialing);
    m.on_event(ConnectEvent::Dial { outcome: DialOutcome::Failed, elapsed_ms: 120001 });
    assert_eq!(m.phase, ConnectPhase::Failed(ConnectError::ConnectTimeoutExceeded));
    assert_eq!(m.dial_attempts, 2);
}

#[test]
fn malformed_key_fails_immediately_without_dialing() {
    let mut m = ConnectMachine::new(KeyCheck::Malformed, RetryPolicy::standard());
    assert_eq!(m.phase, ConnectPhase::Failed(ConnectError::KeyDecode));
    assert_eq!(m.dial_attempts, 0);
    // Even if a dial outcome were reported, the failed machine ignores it.
    m.on_event(ConnectEvent::Dial { outcome: DialOutcome::Connected, elapsed_ms: 10 });
    assert_eq!(m.phase, ConnectPhase::Failed(ConnectError::KeyDecode));
    assert_eq!(m.dial_attempts, 0);
}

#[test]
fn key_outcome_fixed_for_whole_operation() {
    let mut m = ConnectMachine::new(KeyCheck::Decoded, RetryPolicy::standard());
    m.on_event(ConnectEvent::Dial { outcome: DialOutcome::Failed, elapsed_ms: 3000 });
    m.on_event(ConnectEvent::Dial { outcome: DialOutcome::Connected, elapsed_ms: 6000 });
    m.on_event(ConnectEvent::Handshake { outcome: HandshakeOutcome::Established });
    assert_eq!(m.key, KeyCheck::Decoded);
    m.on_event(ConnectEvent::Auth { outcome: AuthOutcome::Accepted });
    assert_eq!(m.key, KeyCheck::Decoded);
}

#[test]
fn handshake_failure_is_fatal() {
    let mut m = ConnectMachine::new(KeyCheck::Decoded, RetryPolicy::standard());
    m.on_event(ConnectEvent::Dial { outcome: DialOutcome::Connected, elapsed_ms: 40 });
    m.on_event(ConnectEvent::Handshake { outcome: HandshakeOutcome::Failed });
    assert_eq!(m.phase, ConnectPhase::Failed(ConnectError::HandshakeFailed));
    // Not retried at this layer: a later dial report changes nothing.
    m.on_event(ConnectEvent::Dial { outcome: DialOutcome::Connected, elapsed_ms: 80 });
    assert_eq!(m.phase, ConnectPhase::Failed(ConnectError::HandshakeFailed));
}

#[test]
fn authentication_failure_is_fatal() {
    let mut m = ConnectMachine::new(KeyCheck::Decoded, RetryPolicy::standard());
    m.on_event(ConnectEvent::Dial { outcome: DialOutcome::Connected, elapsed_ms: 40 });
    m.on_event(ConnectEvent::Handshake { outcome: HandshakeOutcome::Established });
    m.on_event(ConnectEvent::Auth { outcome: AuthOutcome::Rejected });
    assert_eq!(m.phase, ConnectPhase::Failed(ConnectError::AuthenticationFailed));
    assert!(!m.is_connected());
}

#[test]
fn connect_attempt_time_accounting() {
    let a = ConnectAttempt::begin(1000, RetryPolicy::standard());
    assert_eq!(a.elapsed_ms(1000), 0);
    assert_eq!(a.elapsed_ms(4500), 3500);
    assert_eq!(a.attempt_deadline(4500), 4500 + STANDARD_ATTEMPT_DEADLINE_MS);
}

#[test]
fn connect_error_messages() {
    assert_eq!(ConnectError::KeyDecode.describe(), "failed to decode private key");
    assert_eq!(ConnectError::ConnectTimeoutExceeded.describe(), "failed to connect to ssh port");
    assert_eq!(ConnectError::HandshakeFailed.describe(), "failed to establish ssh session");
    assert_eq!(
        ConnectError::AuthenticationFailed.describe(),
        "failed to authenticate ssh session"
    );
}
