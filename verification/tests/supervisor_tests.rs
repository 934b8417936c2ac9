use gossip_sync::supervisor::connect_all_outcome;
use gossip_sync::supervisor::on_attempt_outcome;
use gossip_sync::supervisor::peer_count_warning_due;
use gossip_sync::supervisor::AttemptDecision;
use gossip_sync::supervisor::ConnectAllOutcome;
use gossip_sync::supervisor::PeerConnectionState;
use gossip_sync::supervisor::PeerDescriptor;
use gossip_sync::supervisor::ReconnectDirective;
use gossip_sync::supervisor::SupervisorConfig;

#[test]
fn zero_first_attempt_successes_is_fatal() {
    let results = vec![false, false, false, false];
    assert_eq!(connect_all_outcome(&results), ConnectAllOutcome::NoPeersConnected);
}

#[test]
fn no_peers_configured_is_fatal() {
    let results: Vec<bool> = Vec::new();
    assert_eq!(connect_all_outcome(&results), ConnectAllOutcome::NoPeersConnected);
}

#[test]
fn one_success_is_enough_to_proceed() {
    let results = vec![false, true, false, false, false];
    assert_eq!(
        connect_all_outcome(&results),
        ConnectAllOutcome::Proceeding { connected_peer_count: 1 }
    );
}

#[test]
fn every_success_is_counted() {
    let results = vec![true, false, true, true];
    assert_eq!(
        connect_all_outcome(&results),
        ConnectAllOutcome::Proceeding { connected_peer_count: 3 }
    );
}

#[test]
fn peer_count_warning_fires_at_or_below_the_threshold() {
    let cfg = SupervisorConfig::default_config(5);
    assert_eq!(cfg.reconnect_delay_seconds, 10);
    assert!(peer_count_warning_due(4, &cfg));
    assert!(peer_count_warning_due(5, &cfg));
    assert!(!peer_count_warning_due(6, &cfg));
}

#[test]
fn only_the_first_attempt_is_reported() {
    let mut state = PeerConnectionState::new();
    assert!(!state.first_attempt_reported);

    let first = on_attempt_outcome(&mut state, false);
    assert_eq!(
        first,
        AttemptDecision {
            first_attempt_report: Some(false),
            directive: ReconnectDirective::RetryImmediately,
        }
    );
    assert!(state.first_attempt_reported);

    // A later attempt succeeds: monitored, but no further report.
    let second = on_attempt_outcome(&mut state, true);
    assert_eq!(
        second,
        AttemptDecision {
            first_attempt_report: None,
            directive: ReconnectDirective::MonitorThenRetry,
        }
    );
}

#[test]
fn successful_first_attempt_is_reported_and_monitored() {
    let mut state = PeerConnectionState::new();
    let decision = on_attempt_outcome(&mut state, true);
    assert_eq!(decision.first_attempt_report, Some(true));
    assert_eq!(decision.directive, ReconnectDirective::MonitorThenRetry);
}

#[test]
fn peer_descriptor_carries_identity_and_address() {
    let peer = PeerDescriptor {
        identity: vec![2u8; 33],
        address: String::from("127.0.0.1:9735"),
    };
    assert_eq!(peer.identity.len(), 33);
    assert_eq!(peer.address, "127.0.0.1:9735");
}
