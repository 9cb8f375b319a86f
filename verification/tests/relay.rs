use polkaswap::contract_method::ContractMethod;
use polkaswap::relay::{
    build_command, build_commands, determine_range, fetch_range, ingested_events, BatchProgress,
    RawTransferEvent, RelayError, SubmissionStatus,
};
use polkaswap::sender_amount::SenderAmount;

fn event(sender: &str, amount: u64) -> RawTransferEvent {
    RawTransferEvent { sender: sender.to_string(), amount }
}

#[test]
fn fetch_range_rescans_three_blocks() {
    assert_eq!(fetch_range(1000), (997, 1000));
}

#[test]
fn fetch_range_saturates_near_genesis() {
    assert_eq!(fetch_range(0), (0, 0));
    assert_eq!(fetch_range(2), (0, 2));
    assert_eq!(fetch_range(3), (0, 3));
    assert_eq!(fetch_range(4), (1, 4));
}

#[test]
fn determine_range_reads_checkpoint() {
    assert_eq!(determine_range(Some(1000)), Ok((997, 1000)));
    assert_eq!(determine_range(None), Err(RelayError::CheckpointUnavailable));
}

#[test]
fn ingestion_failure_is_fatal() {
    assert_eq!(ingested_events(None), Err(RelayError::IngestionFailed));
    let events = vec![event("a", 1), event("b", 2)];
    assert_eq!(ingested_events(Some(events.clone())), Ok(events));
}

#[test]
fn one_event_one_command() {
    let cmd = build_command(&event("0xabc", 42));
    assert_eq!(
        cmd,
        ContractMethod::DepositToken(SenderAmount { sender: "0xabc".to_string(), amount: 42 })
    );
}

#[test]
fn batch_build_keeps_order() {
    let events = vec![event("a", 1), event("b", 2), event("c", 3)];
    let commands = build_commands(&events);
    assert_eq!(
        commands,
        vec![
            ContractMethod::DepositToken(SenderAmount { sender: "a".to_string(), amount: 1 }),
            ContractMethod::DepositToken(SenderAmount { sender: "b".to_string(), amount: 2 }),
            ContractMethod::DepositToken(SenderAmount { sender: "c".to_string(), amount: 3 }),
        ]
    );
}

#[test]
fn empty_batch_succeeds() {
    let (report, attempted) = polkaswap::relay::run_batch(&vec![]);
    assert_eq!(report, Ok(()));
    assert_eq!(attempted, 0);
}

#[test]
fn all_accepted_succeeds() {
    let outcomes = vec![SubmissionStatus::Accepted; 4];
    let (report, attempted) = polkaswap::relay::run_batch(&outcomes);
    assert_eq!(report, Ok(()));
    assert_eq!(attempted, 4);
}

#[test]
fn one_rejection_is_partial_failure_but_all_attempted() {
    let outcomes = vec![
        SubmissionStatus::Accepted,
        SubmissionStatus::Rejected,
        SubmissionStatus::Accepted,
        SubmissionStatus::Accepted,
    ];
    let (report, attempted) = polkaswap::relay::run_batch(&outcomes);
    assert_eq!(report, Err(RelayError::PartialDispatchFailure));
    assert_eq!(attempted, 4);
}

#[test]
fn every_rejection_still_attempts_all() {
    let outcomes = vec![SubmissionStatus::Rejected; 3];
    let (report, attempted) = polkaswap::relay::run_batch(&outcomes);
    assert_eq!(report, Err(RelayError::PartialDispatchFailure));
    assert_eq!(attempted, 3);
}

#[test]
fn missing_identity_aborts_at_once() {
    let outcomes = vec![
        SubmissionStatus::Accepted,
        SubmissionStatus::NoIdentity,
        SubmissionStatus::Accepted,
        SubmissionStatus::Rejected,
    ];
    let (report, attempted) = polkaswap::relay::run_batch(&outcomes);
    assert_eq!(report, Err(RelayError::NoSigningIdentity));
    assert_eq!(attempted, 2);
}

#[test]
fn earlier_rejection_does_not_soften_missing_identity() {
    let outcomes = vec![
        SubmissionStatus::Rejected,
        SubmissionStatus::NoIdentity,
        SubmissionStatus::Accepted,
    ];
    let (report, attempted) = polkaswap::relay::run_batch(&outcomes);
    assert_eq!(report, Err(RelayError::NoSigningIdentity));
    assert_eq!(attempted, 2);
}

#[test]
fn progress_records_rejections_only() {
    let mut progress = BatchProgress::new();
    assert!(!progress.failed);
    assert!(!progress.record(SubmissionStatus::Accepted));
    assert!(!progress.failed);
    assert!(!progress.record(SubmissionStatus::Rejected));
    assert!(progress.failed);
    assert!(progress.record(SubmissionStatus::NoIdentity));
    assert_eq!(progress.report(), Err(RelayError::PartialDispatchFailure));

    let fresh = BatchProgress::new();
    assert_eq!(fresh.report(), Ok(()));
}
