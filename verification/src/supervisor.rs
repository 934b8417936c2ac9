use vstd::prelude::*;

verus! {

/// One configured peer: its node identity (a serialized public key) and the
/// network address to dial. Supplied once at startup and never changed.
#[derive(Clone, Debug)]
pub struct PeerDescriptor {
    pub identity: Vec<u8>,
    pub address: String,
}

/// The supervisor's tunable constants.
#[derive(Clone, Copy, Debug, PartialEq, Eq, Structural)]
pub struct SupervisorConfig {
    /// How long to wait after a disconnect before dialing the peer again,
    /// in seconds.
    pub reconnect_delay_seconds: u64,
    /// The minimum desired connected-peer count; purely informational.
    pub connected_peer_assertion_threshold: usize,
}

impl SupervisorConfig {
    /// The constants of the observed design: a 10-second reconnect delay.
    pub fn default_config(connected_peer_assertion_threshold: usize) -> (r: SupervisorConfig)
        ensures
            r.reconnect_delay_seconds == 10,
            r.connected_peer_assertion_threshold == connected_peer_assertion_threshold,
    {
        SupervisorConfig { reconnect_delay_seconds: 10, connected_peer_assertion_threshold }
    }
}

/// How many of the first-attempt outcomes in `results` were successes.
pub open spec fn success_count(results: Seq<bool>) -> int
    decreases results.len(),
{
    if results.len() == 0 {
        0
    } else {
        success_count(results.drop_last()) + if results.last() {
            1int
        } else {
            0int
        }
    }
}

/// The aggregate verdict over every peer's first connection attempt.
#[derive(Clone, Copy, Debug, PartialEq, Eq, Structural)]
pub enum ConnectAllOutcome {
    /// Not one peer answered its first attempt: a fatal startup condition,
    /// the process cannot make progress in a peerless state.
    NoPeersConnected,
    /// At least one peer answered; startup proceeds with this many links up.
    Proceeding { connected_peer_count: usize },
}

/// Aggregates the first-attempt outcomes that `connect_peer` reported for
/// every configured peer, in configuration order.
///
/// Zero successes is fatal; one success is enough to proceed. The count in
/// the verdict is exactly the number of successful first attempts.
pub fn connect_all_outcome(first_attempt_results: &Vec<bool>) -> (r: ConnectAllOutcome)
    ensures
        r is NoPeersConnected <==> success_count(first_attempt_results@) == 0,
        r matches ConnectAllOutcome::Proceeding { connected_peer_count } ==> connected_peer_count
            == success_count(first_attempt_results@) && connected_peer_count > 0,
{
    let mut connected: usize = 0;
    let mut i: usize = 0;
    while i < first_attempt_results.len()
        invariant
            i <= first_attempt_results.len(),
            connected == success_count(first_attempt_results@.take(i as int)),
            connected <= i,
        decreases first_attempt_results.len() - i,
    {
        proof {
            assert(first_attempt_results@.take(i + 1).drop_last() =~= first_attempt_results@.take(
                i as int,
            ));
        }
        if first_attempt_results[i] {
            connected = connected + 1;
        }
        i = i + 1;
    }
    proof {
        assert(first_attempt_results@.take(first_attempt_results@.len() as int)
            =~= first_attempt_results@);
    }
    if connected == 0 {
        ConnectAllOutcome::NoPeersConnected
    } else {
        ConnectAllOutcome::Proceeding { connected_peer_count: connected }
    }
}

/// Whether the supervisor should log the informational warning that the
/// configured peer list does not reach the assertion threshold. The warning
/// never blocks startup.
pub fn peer_count_warning_due(peer_count: usize, config: &SupervisorConfig) -> (r: bool)
    ensures
        r == (peer_count <= config.connected_peer_assertion_threshold),
{
    peer_count <= config.connected_peer_assertion_threshold
}

/// The per-peer connect-and-monitor loop's state: whether the outcome of
/// the first attempt has already been reported to the supervisor.
#[derive(Clone, Copy, Debug, PartialEq, Eq, Structural)]
pub struct PeerConnectionState {
    pub first_attempt_reported: bool,
}

impl PeerConnectionState {
    /// The state before any attempt has been made.
    pub fn new() -> (r: PeerConnectionState)
        ensures
            !r.first_attempt_reported,
    {
        PeerConnectionState { first_attempt_reported: false }
    }
}

/// What the connect-and-monitor loop does next after one dial attempt.
#[derive(Clone, Copy, Debug, PartialEq, Eq, Structural)]
pub enum ReconnectDirective {
    /// The dial succeeded: wait for the link to drop, then sleep the fixed
    /// reconnect delay and dial again.
    MonitorThenRetry,
    /// The dial failed outright: dial again immediately.
    RetryImmediately,
}

/// The decision taken after one dial attempt: what (if anything) to report
/// to the supervisor as the first-attempt outcome, and how to go on.
#[derive(Clone, Copy, Debug, PartialEq, Eq, Structural)]
pub struct AttemptDecision {
    pub first_attempt_report: Option<bool>,
    pub directive: ReconnectDirective,
}

/// Decides what the per-peer loop does after one dial attempt whose outcome
/// was `connected`.
///
/// The first attempt's outcome — and only the first — is reported back to
/// the supervisor; every later attempt reports nothing. The loop itself
/// never ends: a live link is monitored and redialed after the fixed delay,
/// a failed dial is retried at once.
pub fn on_attempt_outcome(state: &mut PeerConnectionState, connected: bool) -> (r: AttemptDecision)
    ensures
        final(state).first_attempt_reported,
        r.first_attempt_report == if old(state).first_attempt_reported {
            None::<bool>
        } else {
            Some(connected)
        },
        r.directive == if connected {
            ReconnectDirective::MonitorThenRetry
        } else {
            ReconnectDirective::RetryImmediately
        },
{
    let report: Option<bool> = if state.first_attempt_reported {
        None
    } else {
        Some(connected)
    };
    state.first_attempt_reported = true;
    let directive: ReconnectDirective = if connected {
        ReconnectDirective::MonitorThenRetry
    } else {
        ReconnectDirective::RetryImmediately
    };
    AttemptDecision { first_attempt_report: report, directive }
}

} // verus!
