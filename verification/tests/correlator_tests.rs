use bundle_relay::bundle::BundleIdentity;
use bundle_relay::correlator::{
    BundleOutcome, BundleResultEvent, Correlator, CorrelatorAction, CorrelatorEvent,
    PendingTransaction, PendingTxNotification, WaitState, DEFAULT_POLL_TIMEOUT_MS,
};
use bundle_relay::ledger::Signature;
use bundle_relay::status::{FinalStatus, WorkflowError};

fn identity(tag: u8) -> BundleIdentity {
    BundleIdentity { signatures: vec![Signature { bytes: [tag; 64] }, Signature { bytes: [0; 64] }] }
}

fn result(tag: u8, outcome: BundleOutcome) -> CorrelatorEvent {
    CorrelatorEvent::BundleResult(BundleResultEvent { identity: identity(tag), outcome })
}

fn waiting() -> Correlator {
    Correlator::new(identity(1), DEFAULT_POLL_TIMEOUT_MS, 60_000)
}

fn pending(tag: u8) -> PendingTransaction {
    PendingTransaction { signatures: vec![Signature { bytes: [tag; 64] }] }
}

#[test]
fn a_wait_begins_submitted_with_both_subscriptions() {
    let c = waiting();
    assert_eq!(*c.state(), WaitState::Submitted);
    assert_eq!(*c.identity(), identity(1));
    assert!(c.results_open());
    assert!(c.pending_open());
    assert!(!c.is_terminal());
    assert_eq!(c.end(), None);
    assert_eq!(DEFAULT_POLL_TIMEOUT_MS, 5_000);
}

#[test]
fn accepted_confirms_and_stops_waiting() {
    let mut c = waiting();
    let action = c.on_event(result(1, BundleOutcome::Accepted), 1_200);
    assert_eq!(action, CorrelatorAction::Finish(Ok(FinalStatus::Confirmed)));
    assert_eq!(*c.state(), WaitState::Confirmed);
    assert!(c.is_terminal());
    assert_eq!(c.end(), Some(Ok(FinalStatus::Confirmed)));
    assert_eq!(c.on_event(CorrelatorEvent::PollTimeout, 6_200), CorrelatorAction::Ignore);
}

#[test]
fn rejected_fails_with_the_reason() {
    let mut c = waiting();
    let action = c.on_event(result(1, BundleOutcome::Rejected("slot expired".to_string())), 10);
    assert_eq!(
        action,
        CorrelatorAction::Finish(Ok(FinalStatus::Rejected("slot expired".to_string())))
    );
    assert_eq!(*c.state(), WaitState::Failed("slot expired".to_string()));
    assert_eq!(c.end(), Some(Ok(FinalStatus::Rejected("slot expired".to_string()))));
}

#[test]
fn dropped_fails() {
    let mut c = waiting();
    let action = c.on_event(result(1, BundleOutcome::Dropped), 10);
    assert_eq!(action, CorrelatorAction::Finish(Ok(FinalStatus::Rejected("dropped".to_string()))));
    assert_eq!(*c.state(), WaitState::Failed("dropped".to_string()));
}

#[test]
fn silence_probes_once_per_timeout_and_stays_submitted() {
    let mut c = waiting();
    let mut probes = 0;
    for round in 1..=11u64 {
        let at = round * 5_000;
        let action = c.on_event(CorrelatorEvent::PollTimeout, at);
        assert_eq!(action, CorrelatorAction::Probe);
        probes += 1;
        assert_eq!(*c.state(), WaitState::Probing);
        let action = c.on_event(CorrelatorEvent::ProbeCompleted, at + 20);
        let left = 60_000 - (at + 20);
        assert_eq!(action, CorrelatorAction::Wait { timeout_ms: left.min(5_000) });
        assert_eq!(*c.state(), WaitState::Submitted);
        assert!(!c.is_terminal());
    }
    assert_eq!(probes, 11);
    let action = c.on_event(CorrelatorEvent::PollTimeout, 60_000);
    assert_eq!(action, CorrelatorAction::Finish(Ok(FinalStatus::DeadlineExceeded)));
    assert_eq!(*c.state(), WaitState::DeadlineExceeded);
}

#[test]
fn duplicate_accepted_changes_nothing() {
    let mut c = waiting();
    c.on_event(result(1, BundleOutcome::Accepted), 100);
    let action = c.on_event(result(1, BundleOutcome::Accepted), 200);
    assert_eq!(action, CorrelatorAction::Ignore);
    assert_eq!(*c.state(), WaitState::Confirmed);
    let action = c.on_event(result(1, BundleOutcome::Rejected("late".to_string())), 300);
    assert_eq!(action, CorrelatorAction::Ignore);
    assert_eq!(*c.state(), WaitState::Confirmed);
    assert!(!c.results_open());
    assert!(!c.pending_open());
}

#[test]
fn one_undecodable_and_one_decodable_packet_surface_one_transaction() {
    let mut c = waiting();
    let batch = PendingTxNotification { packets: vec![None, Some(pending(9))] };
    assert_eq!(batch.surface(), vec![pending(9)]);
    let action = c.on_event(CorrelatorEvent::PendingTransactions(batch), 1_000);
    assert_eq!(
        action,
        CorrelatorAction::Surface { transactions: vec![pending(9)], timeout_ms: 5_000 }
    );
    assert_eq!(*c.state(), WaitState::Submitted);
    assert_eq!(c.end(), None);
}

#[test]
fn surfacing_keeps_the_order_and_drops_every_malformed_packet() {
    let batch = PendingTxNotification {
        packets: vec![Some(pending(1)), None, None, Some(pending(2)), Some(pending(3)), None],
    };
    assert_eq!(batch.surface(), vec![pending(1), pending(2), pending(3)]);
    let empty = PendingTxNotification { packets: vec![None, None] };
    assert_eq!(empty.surface(), vec![]);
    assert_eq!(pending(4).primary_signature().bytes, [4u8; 64]);
}

#[test]
fn closing_the_result_stream_loses_the_connection() {
    let mut c = waiting();
    let action = c.on_event(CorrelatorEvent::ResultStreamEnded, 2_000);
    assert_eq!(action, CorrelatorAction::Finish(Ok(FinalStatus::ConnectionLost)));
    assert_eq!(*c.state(), WaitState::ConnectionLost);
    assert!(!c.results_open());
    assert!(!c.pending_open());
}

#[test]
fn closing_the_pending_stream_loses_the_connection() {
    let mut c = waiting();
    c.on_event(CorrelatorEvent::PollTimeout, 5_000);
    let action = c.on_event(CorrelatorEvent::PendingStreamEnded, 5_001);
    assert_eq!(action, CorrelatorAction::Finish(Ok(FinalStatus::ConnectionLost)));
    assert!(!c.results_open());
    assert!(!c.pending_open());
}

#[test]
fn a_result_for_another_bundle_is_passed_over() {
    let mut c = waiting();
    let action = c.on_event(result(2, BundleOutcome::Accepted), 58_000);
    assert_eq!(action, CorrelatorAction::Wait { timeout_ms: 2_000 });
    assert_eq!(*c.state(), WaitState::Submitted);
    let shorter = BundleIdentity { signatures: vec![Signature { bytes: [1; 64] }] };
    let event = CorrelatorEvent::BundleResult(BundleResultEvent {
        identity: shorter,
        outcome: BundleOutcome::Accepted,
    });
    assert_eq!(c.on_event(event, 58_500), CorrelatorAction::Wait { timeout_ms: 1_500 });
}

#[test]
fn a_failed_probe_aborts_with_a_transport_error() {
    let mut c = waiting();
    assert_eq!(c.on_event(CorrelatorEvent::PollTimeout, 5_000), CorrelatorAction::Probe);
    let action = c.on_event(CorrelatorEvent::ProbeFailed, 5_100);
    assert_eq!(action, CorrelatorAction::Finish(Err(WorkflowError::TransportError)));
    assert_eq!(*c.state(), WaitState::ProbeFailed);
    assert_eq!(c.end(), Some(Err(WorkflowError::TransportError)));
}

#[test]
fn the_deadline_ends_a_silent_wait() {
    let mut c = Correlator::new(identity(1), 5_000, 12_000);
    assert_eq!(c.wait_budget(0), 5_000);
    assert_eq!(c.wait_budget(7_000), 5_000);
    assert_eq!(c.wait_budget(8_000), 4_000);
    assert_eq!(c.wait_budget(12_000), 0);
    assert_eq!(c.wait_budget(13_000), 0);
    assert_eq!(c.on_event(CorrelatorEvent::PollTimeout, 5_000), CorrelatorAction::Probe);
    assert_eq!(
        c.on_event(CorrelatorEvent::ProbeCompleted, 5_000),
        CorrelatorAction::Wait { timeout_ms: 5_000 }
    );
    assert_eq!(c.on_event(CorrelatorEvent::PollTimeout, 10_000), CorrelatorAction::Probe);
    assert_eq!(
        c.on_event(CorrelatorEvent::ProbeCompleted, 10_000),
        CorrelatorAction::Wait { timeout_ms: 2_000 }
    );
    let batch = PendingTxNotification { packets: vec![Some(pending(9))] };
    assert_eq!(
        c.on_event(CorrelatorEvent::PendingTransactions(batch), 12_000),
        CorrelatorAction::Finish(Ok(FinalStatus::DeadlineExceeded))
    );
    assert!(!c.results_open());
    assert!(!c.pending_open());
}

#[test]
fn a_decision_at_the_deadline_still_counts() {
    let mut c = Correlator::new(identity(1), 5_000, 12_000);
    let action = c.on_event(result(1, BundleOutcome::Accepted), 12_000);
    assert_eq!(action, CorrelatorAction::Finish(Ok(FinalStatus::Confirmed)));
}

#[test]
fn identities_are_compared_signature_by_signature() {
    assert!(identity(1).same(&identity(1)));
    assert!(!identity(1).same(&identity(2)));
    let mut other = identity(1);
    other.signatures[1].bytes[63] = 1;
    assert!(!identity(1).same(&other));
    assert!(Signature { bytes: [3; 64] }.same(&Signature { bytes: [3; 64] }));
    assert!(!Signature { bytes: [3; 64] }.same(&other.signatures[1]));
}
