use eva01::bundle_sender::{BundleSender, BundleSenderState, RelayCommand, RelayEvent};
use eva01::direct_sender::{send_with_retry, LedgerObservation, RetryPolicy};
use eva01::types::{RejectReason, SubmissionOutcome};

#[test]
fn retry_returns_landed_on_the_nth_poll_below_the_ceiling() {
    let observations = vec![
        LedgerObservation::NotFound,
        LedgerObservation::NotFound,
        LedgerObservation::NotFound,
        LedgerObservation::Landed { slot: 7 },
    ];
    let outcome = send_with_retry(&observations, &RetryPolicy { attempt_ceiling: 5 });
    assert_eq!(outcome, SubmissionOutcome::Landed { slot: 7 });
}

#[test]
fn retry_expires_when_every_poll_up_to_the_ceiling_misses() {
    let observations = vec![LedgerObservation::NotFound; 5];
    let outcome = send_with_retry(&observations, &RetryPolicy { attempt_ceiling: 5 });
    assert_eq!(outcome, SubmissionOutcome::Expired);
}

#[test]
fn retry_expires_on_an_expired_blockhash() {
    let observations = vec![LedgerObservation::NotFound, LedgerObservation::BlockhashExpired];
    let outcome = send_with_retry(&observations, &RetryPolicy { attempt_ceiling: 10 });
    assert_eq!(outcome, SubmissionOutcome::Expired);
}

#[test]
fn retry_is_unknown_when_the_ledger_becomes_unobservable() {
    let observations = vec![LedgerObservation::NotFound, LedgerObservation::NotFound];
    let outcome = send_with_retry(&observations, &RetryPolicy { attempt_ceiling: 8 });
    assert_eq!(outcome, SubmissionOutcome::Unknown);
}

#[test]
fn retry_with_a_zero_ceiling_expires_immediately() {
    let observations = vec![LedgerObservation::Landed { slot: 3 }];
    let outcome = send_with_retry(&observations, &RetryPolicy { attempt_ceiling: 0 });
    assert_eq!(outcome, SubmissionOutcome::Expired);
}

#[test]
fn bundle_sender_waits_past_the_threshold_then_submits() {
    let mut sender = BundleSender::new(2);
    assert_eq!(sender.on_event(RelayEvent::DispatchRequested), RelayCommand::OpenResultStream);
    assert_eq!(sender.state, BundleSenderState::WaitingForLeader);
    // Distance 5 exceeds the threshold of 2: no submission, keep polling.
    assert_eq!(
        sender.on_event(RelayEvent::LeaderDistance { slots: 5 }),
        RelayCommand::PollLeader
    );
    assert_eq!(sender.state, BundleSenderState::WaitingForLeader);
    // Distance 1 is within the threshold: submit now.
    assert_eq!(
        sender.on_event(RelayEvent::LeaderDistance { slots: 1 }),
        RelayCommand::SubmitBundle
    );
    assert_eq!(sender.state, BundleSenderState::Submitted);
    assert_eq!(sender.outcome(), None);
}

#[test]
fn bundle_confirmation_reports_the_landing_slot() {
    let mut sender = BundleSender::new(2);
    sender.on_event(RelayEvent::DispatchRequested);
    sender.on_event(RelayEvent::LeaderDistance { slots: 2 });
    assert_eq!(sender.on_event(RelayEvent::BundleLanded { slot: 99 }), RelayCommand::Hold);
    assert_eq!(sender.outcome(), Some(SubmissionOutcome::Landed { slot: 99 }));
}

#[test]
fn bundle_rejection_is_terminal_with_its_reason() {
    let mut sender = BundleSender::new(2);
    sender.on_event(RelayEvent::DispatchRequested);
    sender.on_event(RelayEvent::LeaderDistance { slots: 0 });
    sender.on_event(RelayEvent::BundleRejected { reason: RejectReason::SimulationFailed });
    assert_eq!(
        sender.outcome(),
        Some(SubmissionOutcome::Rejected { reason: RejectReason::SimulationFailed })
    );
}

#[test]
fn bundle_timeout_is_unknown_not_failure() {
    let mut sender = BundleSender::new(2);
    sender.on_event(RelayEvent::DispatchRequested);
    sender.on_event(RelayEvent::LeaderDistance { slots: 1 });
    sender.on_event(RelayEvent::ResultTimeout);
    assert_eq!(sender.outcome(), Some(SubmissionOutcome::Unknown));
}

#[test]
fn landing_exactly_at_the_ceiling_still_counts() {
    let observations = vec![
        LedgerObservation::NotFound,
        LedgerObservation::NotFound,
        LedgerObservation::Landed { slot: 11 },
    ];
    let outcome = send_with_retry(&observations, &RetryPolicy { attempt_ceiling: 3 });
    assert_eq!(outcome, SubmissionOutcome::Landed { slot: 11 });
}

#[test]
fn terminal_sender_is_absorbing_and_never_resubmits() {
    let mut sender = BundleSender::new(2);
    sender.on_event(RelayEvent::DispatchRequested);
    sender.on_event(RelayEvent::LeaderDistance { slots: 1 });
    sender.on_event(RelayEvent::BundleLanded { slot: 5 });
    let settled = sender.state;
    // A late leader poll or stray result moves nothing and commands nothing.
    assert_eq!(sender.on_event(RelayEvent::LeaderDistance { slots: 0 }), RelayCommand::Hold);
    assert_eq!(sender.on_event(RelayEvent::DispatchRequested), RelayCommand::Hold);
    assert_eq!(sender.state, settled);
    assert_eq!(sender.outcome(), Some(SubmissionOutcome::Landed { slot: 5 }));
}

#[test]
fn idle_sender_ignores_stray_events() {
    let mut sender = BundleSender::new(2);
    assert_eq!(sender.on_event(RelayEvent::LeaderDistance { slots: 0 }), RelayCommand::Hold);
    assert_eq!(sender.state, BundleSenderState::Idle);
    assert_eq!(sender.outcome(), None);
}
