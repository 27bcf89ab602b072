use vstd::prelude::*;

use crate::errors::ConnectError;
use crate::retry::RetryPolicy;

verus! {

/// Outcome of decoding the supplied private-key material, established once,
/// before any network activity.
#[derive(Clone, Copy, Debug, PartialEq, Eq, Structural)]
pub enum KeyCheck {
    /// The material decoded into a structured private key.
    Decoded,
    /// The material is malformed; it will never decode on retry.
    Malformed,
}

/// Outcome of one bounded dial attempt against the remote port.
///
/// A timeout of the per-attempt deadline and a connection error are treated
/// alike: the attempt failed and the retry decision is the same for both.
#[derive(Clone, Copy, Debug, PartialEq, Eq, Structural)]
pub enum DialOutcome {
    /// A socket to the remote port is open.
    Connected,
    /// The attempt timed out or the connection was refused.
    Failed,
}

/// Outcome of the transport handshake over the open socket.
#[derive(Clone, Copy, Debug, PartialEq, Eq, Structural)]
pub enum HandshakeOutcome {
    Established,
    Failed,
}

/// Outcome of authenticating with the username and decoded key.
#[derive(Clone, Copy, Debug, PartialEq, Eq, Structural)]
pub enum AuthOutcome {
    Accepted,
    Rejected,
}

/// What session establishment is waiting on, or how it ended.
///
/// The phase doubles as the instruction to the driver: in `Dialing` it must
/// attempt one bounded dial, in `Handshaking` perform the transport
/// handshake, in `Authenticating` present the username and decoded key.
/// `Connected` and `Failed` are terminal.
#[derive(Clone, Copy, Debug, PartialEq, Eq, Structural)]
pub enum ConnectPhase {
    Dialing,
    Handshaking,
    Authenticating,
    Connected,
    Failed(ConnectError),
}

/// One completed piece of outside work, reported back to the machine.
///
/// `elapsed_ms` of a dial event is the total time since the first attempt
/// started, measured by the driver when the attempt completed.
#[derive(Clone, Copy, Debug, PartialEq, Eq, Structural)]
#[allow(inconsistent_fields)]
pub enum ConnectEvent {
    Dial { outcome: DialOutcome, elapsed_ms: u64 },
    Handshake { outcome: HandshakeOutcome },
    Auth { outcome: AuthOutcome },
}

/// The session-establishment protocol: decode the key once, dial with
/// bounded retry, then handshake and authenticate, each failure after the
/// dial phase being fatal.
///
/// The machine holds no socket and performs no I/O itself; a driver performs
/// the work the current phase asks for and reports each outcome through
/// [`ConnectMachine::on_event`].
#[derive(Clone, Copy, Debug, PartialEq, Eq, Structural)]
pub struct ConnectMachine {
    pub phase: ConnectPhase,
    /// The result of decoding the key material, fixed at construction and
    /// carried unchanged to the authentication phase.
    pub key: KeyCheck,
    pub policy: RetryPolicy,
    /// How many dial attempts have completed.
    pub dial_attempts: u64,
}

/// The machine a connect operation starts from: a malformed key fails it
/// immediately, before any dial attempt; a decoded key starts the dial phase.
pub open spec fn initial(key: KeyCheck, policy: RetryPolicy) -> ConnectMachine {
    ConnectMachine {
        phase: if key is Decoded {
            ConnectPhase::Dialing
        } else {
            ConnectPhase::Failed(ConnectError::KeyDecode)
        },
        key: key,
        policy: policy,
        dial_attempts: 0,
    }
}

/// One more completed attempt, capped at the counter's width.
pub open spec fn count_attempt(n: u64) -> u64 {
    if n == u64::MAX {
        n
    } else {
        (n + 1) as u64
    }
}

/// The transition relation of session establishment. An event that does not
/// belong to the current phase changes nothing; in particular `Connected`
/// and `Failed` absorb every event.
pub open spec fn step(m: ConnectMachine, ev: ConnectEvent) -> ConnectMachine {
    match (m.phase, ev) {
        (ConnectPhase::Dialing, ConnectEvent::Dial { outcome, elapsed_ms }) => {
            let phase = match outcome {
                DialOutcome::Connected => ConnectPhase::Handshaking,
                DialOutcome::Failed => if elapsed_ms <= m.policy.budget_ms {
                    ConnectPhase::Dialing
                } else {
                    ConnectPhase::Failed(ConnectError::ConnectTimeoutExceeded)
                },
            };
            ConnectMachine {
                phase: phase,
                key: m.key,
                policy: m.policy,
                dial_attempts: count_attempt(m.dial_attempts),
            }
        },
        (ConnectPhase::Handshaking, ConnectEvent::Handshake { outcome }) => {
            let phase = match outcome {
                HandshakeOutcome::Established => ConnectPhase::Authenticating,
                HandshakeOutcome::Failed => ConnectPhase::Failed(ConnectError::HandshakeFailed),
            };
            ConnectMachine { phase: phase, key: m.key, policy: m.policy, dial_attempts: m.dial_attempts }
        },
        (ConnectPhase::Authenticating, ConnectEvent::Auth { outcome }) => {
            let phase = match outcome {
                AuthOutcome::Accepted => ConnectPhase::Connected,
                AuthOutcome::Rejected => ConnectPhase::Failed(ConnectError::AuthenticationFailed),
            };
            ConnectMachine { phase: phase, key: m.key, policy: m.policy, dial_attempts: m.dial_attempts }
        },
        _ => m,
    }
}

/// The machine after a whole sequence of events, first event first.
pub open spec fn run(m: ConnectMachine, evs: Seq<ConnectEvent>) -> ConnectMachine
    decreases evs.len(),
{
    if evs.len() == 0 {
        m
    } else {
        run(step(m, evs[0]), evs.drop_first())
    }
}

/// True of the phases in which the operation has ended.
pub open spec fn is_terminal(m: ConnectMachine) -> bool {
    m.phase is Connected || m.phase is Failed
}

impl ConnectMachine {
    /// Begin a connect operation from the outcome of decoding the key.
    pub fn new(key: KeyCheck, policy: RetryPolicy) -> (m: ConnectMachine)
        ensures
            m == initial(key, policy),
    {
        let phase = match key {
            KeyCheck::Decoded => ConnectPhase::Dialing,
            KeyCheck::Malformed => ConnectPhase::Failed(ConnectError::KeyDecode),
        };
        ConnectMachine { phase, key, policy, dial_attempts: 0 }
    }

    /// Report one completed piece of outside work.
    pub fn on_event(&mut self, ev: ConnectEvent)
        ensures
            *final(self) == step(*old(self), ev),
    {
        match (self.phase, ev) {
            (ConnectPhase::Dialing, ConnectEvent::Dial { outcome, elapsed_ms }) => {
                self.dial_attempts = if self.dial_attempts == u64::MAX {
                    self.dial_attempts
                } else {
                    self.dial_attempts + 1
                };
                self.phase = match outcome {
                    DialOutcome::Connected => ConnectPhase::Handshaking,
                    DialOutcome::Failed => if elapsed_ms <= self.policy.budget_ms {
                        ConnectPhase::Dialing
                    } else {
                        ConnectPhase::Failed(ConnectError::ConnectTimeoutExceeded)
                    },
                };
            },
            (ConnectPhase::Handshaking, ConnectEvent::Handshake { outcome }) => {
                self.phase = match outcome {
                    HandshakeOutcome::Established => ConnectPhase::Authenticating,
                    HandshakeOutcome::Failed => ConnectPhase::Failed(ConnectError::HandshakeFailed),
                };
            },
            (ConnectPhase::Authenticating, ConnectEvent::Auth { outcome }) => {
                self.phase = match outcome {
                    AuthOutcome::Accepted => ConnectPhase::Connected,
                    AuthOutcome::Rejected => ConnectPhase::Failed(ConnectError::AuthenticationFailed),
                };
            },
            _ => {},
        }
    }

    /// The established session may be used once this returns true.
    pub fn is_connected(&self) -> (b: bool)
        ensures
            b == (self.phase is Connected),
    {
        matches!(self.phase, ConnectPhase::Connected)
    }

    /// The error the operation ended with, if it has failed.
    pub fn failure(&self) -> (r: Option<ConnectError>)
        ensures
            match r {
                Some(e) => self.phase == ConnectPhase::Failed(e),
                None => !(self.phase is Failed),
            },
    {
        match self.phase {
            ConnectPhase::Failed(e) => Some(e),
            _ => None,
        }
    }
}

/// True of an event reporting a dial attempt that failed.
pub open spec fn is_failed_dial(ev: ConnectEvent) -> bool {
    ev matches ConnectEvent::Dial { outcome, .. } && outcome is Failed
}

/// The total elapsed time a dial event reports.
pub open spec fn dial_elapsed(ev: ConnectEvent) -> u64 {
    match ev {
        ConnectEvent::Dial { elapsed_ms, .. } => elapsed_ms,
        _ => 0,
    }
}

/// Terminal phases absorb every event: once establishment has ended, no
/// later report changes the machine in any way.
pub proof fn lemma_terminal_absorbs(m: ConnectMachine, evs: Seq<ConnectEvent>)
    requires
        is_terminal(m),
    ensures
        run(m, evs) == m,
    decreases evs.len(),
{
    if evs.len() > 0 {
        assert(step(m, evs[0]) == m);
        lemma_terminal_absorbs(m, evs.drop_first());
    }
}

/// The key material is decoded at most once per connect operation: the
/// outcome of decoding is fixed when the machine is created and carried
/// unchanged through every later event, so the authentication phase acts on
/// that one result. The policy is likewise fixed for the whole operation.
pub proof fn lemma_key_decoded_once(m: ConnectMachine, evs: Seq<ConnectEvent>)
    ensures
        run(m, evs).key == m.key,
        run(m, evs).policy == m.policy,
    decreases evs.len(),
{
    if evs.len() > 0 {
        let m1 = step(m, evs[0]);
        assert(m1.key == m.key && m1.policy == m.policy);
        lemma_key_decoded_once(m1, evs.drop_first());
    }
}

/// Establishment never returns to the dial phase once it has left it, and
/// no later event changes the number of dial attempts.
pub proof fn lemma_no_redial(m: ConnectMachine, evs: Seq<ConnectEvent>)
    requires
        !(m.phase is Dialing),
    ensures
        !(run(m, evs).phase is Dialing),
        run(m, evs).dial_attempts == m.dial_attempts,
    decreases evs.len(),
{
    if evs.len() > 0 {
        let m1 = step(m, evs[0]);
        assert(!(m1.phase is Dialing) && m1.dial_attempts == m.dial_attempts);
        lemma_no_redial(m1, evs.drop_first());
    }
}

/// If the first dial attempt succeeds, establishment moves straight to the
/// handshake after exactly one attempt, and however the operation goes on,
/// it never dials again.
pub proof fn lemma_first_dial_success(policy: RetryPolicy, elapsed_ms: u64, evs: Seq<ConnectEvent>)
    ensures
        ({
            let m0 = initial(KeyCheck::Decoded, policy);
            let m1 = step(m0, ConnectEvent::Dial { outcome: DialOutcome::Connected, elapsed_ms });
            &&& m1.phase is Handshaking
            &&& m1.dial_attempts == 1
            &&& run(m1, evs).dial_attempts == 1
        }),
{
    let m0 = initial(KeyCheck::Decoded, policy);
    let m1 = step(m0, ConnectEvent::Dial { outcome: DialOutcome::Connected, elapsed_ms });
    lemma_no_redial(m1, evs);
}

/// While every dial attempt fails with the elapsed time still within the
/// budget, establishment keeps retrying: it neither gives up early nor
/// leaves the dial phase.
pub proof fn lemma_no_early_timeout(m: ConnectMachine, evs: Seq<ConnectEvent>)
    requires
        m.phase is Dialing,
        forall|i: int|
            0 <= i < evs.len() ==> is_failed_dial(#[trigger] evs[i]) && dial_elapsed(evs[i])
                <= m.policy.budget_ms,
    ensures
        run(m, evs).phase is Dialing,
    decreases evs.len(),
{
    if evs.len() > 0 {
        let m1 = step(m, evs[0]);
        assert(is_failed_dial(evs[0]) && dial_elapsed(evs[0]) <= m.policy.budget_ms);
        assert(m1.phase is Dialing && m1.policy == m.policy);
        assert forall|i: int| 0 <= i < evs.drop_first().len() implies is_failed_dial(
            #[trigger] evs.drop_first()[i],
        ) && dial_elapsed(evs.drop_first()[i]) <= m1.policy.budget_ms by {
            assert(evs.drop_first()[i] == evs[i + 1]);
        }
        lemma_no_early_timeout(m1, evs.drop_first());
    }
}

/// If every dial attempt fails and some attempt completes with the elapsed
/// time over the budget, establishment fails with the timeout error — it
/// neither succeeds nor retries indefinitely.
pub proof fn lemma_timeout_once_budget_exceeded(m: ConnectMachine, evs: Seq<ConnectEvent>)
    requires
        m.phase is Dialing,
        forall|i: int| 0 <= i < evs.len() ==> is_failed_dial(#[trigger] evs[i]),
        exists|i: int| 0 <= i < evs.len() && dial_elapsed(#[trigger] evs[i]) > m.policy.budget_ms,
    ensures
        run(m, evs).phase == ConnectPhase::Failed(ConnectError::ConnectTimeoutExceeded),
    decreases evs.len(),
{
    let m1 = step(m, evs[0]);
    assert(is_failed_dial(evs[0]));
    if dial_elapsed(evs[0]) > m.policy.budget_ms {
        assert(m1.phase == ConnectPhase::Failed(ConnectError::ConnectTimeoutExceeded));
        lemma_terminal_absorbs(m1, evs.drop_first());
    } else {
        assert(m1.phase is Dialing && m1.policy == m.policy);
        let i = choose|i: int|
            0 <= i < evs.len() && dial_elapsed(#[trigger] evs[i]) > m.policy.budget_ms;
        assert(i >= 1);
        assert(evs.drop_first()[i - 1] == evs[i]);
        assert(dial_elapsed(evs.drop_first()[i - 1]) > m1.policy.budget_ms);
        assert forall|j: int| 0 <= j < evs.drop_first().len() implies is_failed_dial(
            #[trigger] evs.drop_first()[j],
        ) by {
            assert(evs.drop_first()[j] == evs[j + 1]);
        }
        lemma_timeout_once_budget_exceeded(m1, evs.drop_first());
    }
}

/// A malformed key fails the operation immediately, before any network
/// attempt: the machine starts in the key-decode failure, and no later
/// event dials or changes anything.
pub proof fn lemma_malformed_key_fails_immediately(policy: RetryPolicy, evs: Seq<ConnectEvent>)
    ensures
        ({
            let m = run(initial(KeyCheck::Malformed, policy), evs);
            m.phase == ConnectPhase::Failed(ConnectError::KeyDecode) && m.dial_attempts == 0
        }),
{
    lemma_terminal_absorbs(initial(KeyCheck::Malformed, policy), evs);
}

/// Establishment reaches the handshake, the authentication phase, or an
/// established session only when the key material decoded.
pub proof fn lemma_progress_needs_decoded_key(
    key: KeyCheck,
    policy: RetryPolicy,
    evs: Seq<ConnectEvent>,
)
    ensures
        ({
            let m = run(initial(key, policy), evs);
            (m.phase is Handshaking || m.phase is Authenticating || m.phase is Connected)
                ==> key is Decoded
        }),
{
    if key is Malformed {
        lemma_terminal_absorbs(initial(key, policy), evs);
    }
}

} // verus!

