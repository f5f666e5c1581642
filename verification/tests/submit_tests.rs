use polkacli::error::PipelineError;
use polkacli::submit::{
    conclude, conclude_without_event, find_first_event, is_terminal, tx_step, ChainEvent,
    EventKind, TxPhase, WatchEvent,
};

#[test]
fn happy_path_reaches_finalized() {
    let p = tx_step(TxPhase::Built, WatchEvent::SignatureApplied);
    assert_eq!(p, TxPhase::Signed);
    let p = tx_step(p, WatchEvent::PoolAccepted);
    assert_eq!(p, TxPhase::Submitted);
    let p = tx_step(p, WatchEvent::BlockIncluded);
    assert_eq!(p, TxPhase::InBlock);
    let p = tx_step(p, WatchEvent::BlockFinalized);
    assert_eq!(p, TxPhase::Finalized);
    assert!(is_terminal(&p));
}

#[test]
fn refused_submission_is_terminal() {
    let p = tx_step(TxPhase::Signed, WatchEvent::PoolRefused("bad nonce".to_string()));
    assert_eq!(p, TxPhase::RejectedAtSubmit("bad nonce".to_string()));
    assert!(is_terminal(&p));
    let p = tx_step(p, WatchEvent::PoolAccepted);
    assert_eq!(p, TxPhase::RejectedAtSubmit("bad nonce".to_string()));
}

#[test]
fn execution_failure_in_block_is_distinct() {
    let p = tx_step(TxPhase::InBlock, WatchEvent::ExecutionFailed("module error".to_string()));
    assert_eq!(p, TxPhase::FailedInBlock("module error".to_string()));
}

#[test]
fn ended_stream_times_out() {
    let p = tx_step(TxPhase::Submitted, WatchEvent::StreamEnded);
    assert_eq!(p, TxPhase::FinalizationTimeout);
}

#[test]
fn unexpected_observations_change_nothing() {
    assert_eq!(tx_step(TxPhase::Built, WatchEvent::BlockFinalized), TxPhase::Built);
    assert_eq!(tx_step(TxPhase::Submitted, WatchEvent::SignatureApplied), TxPhase::Submitted);
}

#[test]
fn missing_expected_event_is_not_a_failure() {
    let events = vec![ChainEvent::Other, ChainEvent::Other];
    let r = conclude(TxPhase::Finalized, &events, EventKind::ItemIssued);
    assert_eq!(r, Err(PipelineError::ExpectedEventMissing));
    assert_ne!(r, Err(PipelineError::TransactionFailed(String::new())));
}

#[test]
fn finalized_success_yields_the_first_expected_event() {
    let events = vec![
        ChainEvent::Other,
        ChainEvent::Issued { collection: 5, item: 0 },
        ChainEvent::Issued { collection: 5, item: 1 },
    ];
    let r = conclude(TxPhase::Finalized, &events, EventKind::ItemIssued);
    assert_eq!(r, Ok(ChainEvent::Issued { collection: 5, item: 0 }));
}

#[test]
fn terminal_failures_map_to_their_errors() {
    let events: Vec<ChainEvent> = Vec::new();
    assert_eq!(
        conclude(TxPhase::RejectedAtSubmit("pool full".to_string()), &events, EventKind::ItemIssued),
        Err(PipelineError::TransactionRejected("pool full".to_string()))
    );
    assert_eq!(
        conclude(TxPhase::FailedInBlock("funds".to_string()), &events, EventKind::ItemIssued),
        Err(PipelineError::TransactionFailed("funds".to_string()))
    );
    assert_eq!(
        conclude(TxPhase::FinalizationTimeout, &events, EventKind::ItemIssued),
        Err(PipelineError::FinalizationTimeout)
    );
}

#[test]
fn event_scan_finds_the_first_match_only() {
    let events = vec![
        ChainEvent::Created { collection: 3 },
        ChainEvent::Created { collection: 4 },
    ];
    assert_eq!(
        find_first_event(&events, EventKind::CollectionCreated),
        Some(ChainEvent::Created { collection: 3 })
    );
    assert_eq!(find_first_event(&events, EventKind::ItemIssued), None);
}

#[test]
fn eventless_conclusion_tracks_the_phase() {
    assert_eq!(conclude_without_event(TxPhase::Finalized), Ok(()));
    assert_eq!(
        conclude_without_event(TxPhase::FinalizationTimeout),
        Err(PipelineError::FinalizationTimeout)
    );
}
