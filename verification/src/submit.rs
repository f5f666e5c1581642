use vstd::prelude::*;

use crate::error::PipelineError;

verus! {

/// Phase of one on-chain transaction, from construction through finalization.
/// `Finalized` means the transaction finalized and its execution succeeded; a
/// finalized-but-failed execution is the distinct terminal `FailedInBlock`.
#[derive(Debug, Clone, PartialEq, Eq)]
pub enum TxPhase {
    /// The call payload has been built and not yet signed.
    Built,
    /// The payload is signed and ready to submit.
    Signed,
    /// The signed transaction was accepted by the node's pool and is being
    /// watched.
    Submitted,
    /// The transaction was included in a block that is not yet finalized.
    InBlock,
    /// The transaction finalized and executed successfully.
    Finalized,
    /// Submission was refused before inclusion; carries the node's message.
    RejectedAtSubmit(String),
    /// The transaction was included but its execution failed; carries the
    /// reported dispatch message.
    FailedInBlock(String),
    /// The watch stream ended before a finalized inclusion was observed.
    FinalizationTimeout,
}

/// One observation handed back by the signer or the transaction watcher.
#[derive(Debug, Clone, PartialEq, Eq)]
pub enum WatchEvent {
    /// The signing collaborator produced a signature over the payload.
    SignatureApplied,
    /// The node's transaction pool accepted the submission.
    PoolAccepted,
    /// The node refused the submission; carries its message.
    PoolRefused(String),
    /// The transaction was seen inside a (not yet finalized) block.
    BlockIncluded,
    /// The transaction's execution failed; carries the dispatch message.
    ExecutionFailed(String),
    /// The block holding the transaction finalized with successful execution.
    BlockFinalized,
    /// The watch stream ended without a finalization report.
    StreamEnded,
}

/// Whether a phase is terminal: once reached, no observation changes it.
pub open spec fn spec_is_terminal(p: TxPhase) -> bool {
    ||| p is Finalized
    ||| p is RejectedAtSubmit
    ||| p is FailedInBlock
    ||| p is FinalizationTimeout
}

/// The transition relation of the submission state machine. Observations that
/// make no sense in the current phase leave the phase unchanged; terminal
/// phases absorb everything.
pub open spec fn spec_tx_step(p: TxPhase, ev: WatchEvent) -> TxPhase {
    if spec_is_terminal(p) {
        p
    } else {
        match (p, ev) {
            (TxPhase::Built, WatchEvent::SignatureApplied) => TxPhase::Signed,
            (TxPhase::Signed, WatchEvent::PoolAccepted) => TxPhase::Submitted,
            (TxPhase::Signed, WatchEvent::PoolRefused(m)) => TxPhase::RejectedAtSubmit(m),
            (TxPhase::Submitted, WatchEvent::BlockIncluded) => TxPhase::InBlock,
            (TxPhase::Submitted, WatchEvent::ExecutionFailed(m)) => TxPhase::FailedInBlock(m),
            (TxPhase::Submitted, WatchEvent::StreamEnded) => TxPhase::FinalizationTimeout,
            (TxPhase::InBlock, WatchEvent::BlockFinalized) => TxPhase::Finalized,
            (TxPhase::InBlock, WatchEvent::ExecutionFailed(m)) => TxPhase::FailedInBlock(m),
            (TxPhase::InBlock, WatchEvent::StreamEnded) => TxPhase::FinalizationTimeout,
            (q, _) => q,
        }
    }
}

/// Whether a phase is terminal.
pub fn is_terminal(p: &TxPhase) -> (r: bool)
    ensures
        r == spec_is_terminal(*p),
{
    match p {
        TxPhase::Finalized => true,
        TxPhase::RejectedAtSubmit(_) => true,
        TxPhase::FailedInBlock(_) => true,
        TxPhase::FinalizationTimeout => true,
        _ => false,
    }
}

/// Advances the submission state machine by one observation.
pub fn tx_step(p: TxPhase, ev: WatchEvent) -> (r: TxPhase)
    ensures
        r == spec_tx_step(p, ev),
{
    if is_terminal(&p) {
        return p;
    }
    match (p, ev) {
        (TxPhase::Built, WatchEvent::SignatureApplied) => TxPhase::Signed,
        (TxPhase::Signed, WatchEvent::PoolAccepted) => TxPhase::Submitted,
        (TxPhase::Signed, WatchEvent::PoolRefused(m)) => TxPhase::RejectedAtSubmit(m),
        (TxPhase::Submitted, WatchEvent::BlockIncluded) => TxPhase::InBlock,
        (TxPhase::Submitted, WatchEvent::ExecutionFailed(m)) => TxPhase::FailedInBlock(m),
        (TxPhase::Submitted, WatchEvent::StreamEnded) => TxPhase::FinalizationTimeout,
        (TxPhase::InBlock, WatchEvent::BlockFinalized) => TxPhase::Finalized,
        (TxPhase::InBlock, WatchEvent::ExecutionFailed(m)) => TxPhase::FailedInBlock(m),
        (TxPhase::InBlock, WatchEvent::StreamEnded) => TxPhase::FinalizationTimeout,
        (q, _) => q,
    }
}

/// The phase a run of observations leads to.
pub open spec fn spec_tx_run(p: TxPhase, evs: Seq<WatchEvent>) -> TxPhase
    decreases evs.len(),
{
    if evs.len() == 0 {
        p
    } else {
        spec_tx_run(spec_tx_step(p, evs[0]), evs.skip(1))
    }
}

/// How many submission attempts a run of observations performs: one for every
/// step in which the pool accepts the signed transaction.
pub open spec fn spec_submissions(p: TxPhase, evs: Seq<WatchEvent>) -> nat
    decreases evs.len(),
{
    if evs.len() == 0 {
        0
    } else {
        (if p is Signed && evs[0] is PoolAccepted {
            1nat
        } else {
            0nat
        }) + spec_submissions(spec_tx_step(p, evs[0]), evs.skip(1))
    }
}

/// How far along its life a transaction is; terminal phases rank last.
pub open spec fn spec_phase_rank(p: TxPhase) -> int {
    match p {
        TxPhase::Built => 0,
        TxPhase::Signed => 1,
        TxPhase::Submitted => 2,
        TxPhase::InBlock => 3,
        _ => 4,
    }
}

/// The machine only moves forward: no observation ever takes a transaction
/// back to an earlier phase of its life.
pub proof fn lemma_progress_is_monotone(p: TxPhase, ev: WatchEvent)
    ensures
        spec_phase_rank(spec_tx_step(p, ev)) >= spec_phase_rank(p),
{
}

/// Whether a phase lies before the submission point: only from these phases
/// can a submission attempt still happen.
pub open spec fn spec_before_submission(p: TxPhase) -> bool {
    p is Built || p is Signed
}

/// The machine never steps back to a pre-submission phase.
pub proof fn lemma_no_return_before_submission(p: TxPhase, ev: WatchEvent)
    requires
        !spec_before_submission(p),
    ensures
        !spec_before_submission(spec_tx_step(p, ev)),
{
}

/// Exactly-once submission: however the watched observations unfold, one
/// invocation of the submission state machine attempts the submission at most
/// once, and never again once the submission point is passed.
pub proof fn lemma_single_submission(p: TxPhase, evs: Seq<WatchEvent>)
    ensures
        spec_submissions(p, evs) <= 1,
        !spec_before_submission(p) ==> spec_submissions(p, evs) == 0,
    decreases evs.len(),
{
    if evs.len() == 0 {
    } else {
        let q = spec_tx_step(p, evs[0]);
        lemma_single_submission(q, evs.skip(1));
        if p is Signed && evs[0] is PoolAccepted {
            assert(!spec_before_submission(q));
        }
    }
}

/// One domain event read out of a finalized block.
#[derive(Debug, Clone, Copy, PartialEq, Eq, Structural)]
pub enum ChainEvent {
    /// A collection was created on chain.
    Created { collection: u32 },
    /// An item was issued into a collection.
    Issued { collection: u32, item: u32 },
    /// Any event of a kind the pipeline does not care about.
    Other,
}

/// The kinds of domain event the pipeline expects from its calls.
#[derive(Debug, Clone, Copy, PartialEq, Eq, Structural)]
pub enum EventKind {
    CollectionCreated,
    ItemIssued,
}

/// Whether an observed event is of the expected kind.
pub open spec fn spec_event_matches(e: ChainEvent, kind: EventKind) -> bool {
    match e {
        ChainEvent::Created { .. } => kind is CollectionCreated,
        ChainEvent::Issued { .. } => kind is ItemIssued,
        ChainEvent::Other => false,
    }
}

/// The first event of the expected kind in a finalized block's event list.
pub open spec fn spec_first_event(events: Seq<ChainEvent>, kind: EventKind) -> Option<ChainEvent>
    decreases events.len(),
{
    if events.len() == 0 {
        None
    } else if spec_event_matches(events[0], kind) {
        Some(events[0])
    } else {
        spec_first_event(events.skip(1), kind)
    }
}

/// Whether an observed event is of the expected kind.
pub fn event_matches(e: &ChainEvent, kind: EventKind) -> (r: bool)
    ensures
        r == spec_event_matches(*e, kind),
{
    match e {
        ChainEvent::Created { .. } => matches!(kind, EventKind::CollectionCreated),
        ChainEvent::Issued { .. } => matches!(kind, EventKind::ItemIssued),
        ChainEvent::Other => false,
    }
}

/// Scans a finalized block's emitted events for the first one of the expected
/// kind.
pub fn find_first_event(events: &Vec<ChainEvent>, kind: EventKind) -> (r: Option<ChainEvent>)
    ensures
        r == spec_first_event(events@, kind),
{
    let mut i: usize = 0;
    proof {
        assert(events@.skip(0) =~= events@);
    }
    while i < events.len()
        invariant
            i <= events@.len(),
            spec_first_event(events@, kind) == spec_first_event(events@.skip(i as int), kind),
        decreases events@.len() - i,
    {
        if event_matches(&events[i], kind) {
            proof {
                assert(events@.skip(i as int)[0] == events@[i as int]);
            }
            return Some(events[i].clone());
        }
        proof {
            assert(events@.skip(i as int).skip(1) =~= events@.skip(i as int + 1));
        }
        i = i + 1;
    }
    proof {
        assert(events@.skip(i as int).len() == 0);
    }
    None
}

/// Reads the outcome of one watched transaction. A finalized and successful
/// transaction yields the first emitted event of the expected kind; a
/// finalized transaction whose events lack that kind is the distinct
/// ambiguous outcome `ExpectedEventMissing`, never a submission failure. The
/// terminal failure phases map to their own errors.
pub fn conclude(phase: TxPhase, events: &Vec<ChainEvent>, expected: EventKind) -> (r: Result<
    ChainEvent,
    PipelineError,
>)
    requires
        spec_is_terminal(phase),
    ensures
        phase is Finalized ==> (spec_first_event(events@, expected) matches Some(e) ==> r == Ok::<
            ChainEvent,
            PipelineError,
        >(e)),
        phase is Finalized && spec_first_event(events@, expected) is None ==> r == Err::<
            ChainEvent,
            PipelineError,
        >(PipelineError::ExpectedEventMissing),
        phase matches TxPhase::RejectedAtSubmit(m) ==> r == Err::<ChainEvent, PipelineError>(
            PipelineError::TransactionRejected(m),
        ),
        phase matches TxPhase::FailedInBlock(m) ==> r == Err::<ChainEvent, PipelineError>(
            PipelineError::TransactionFailed(m),
        ),
        phase is FinalizationTimeout ==> r == Err::<ChainEvent, PipelineError>(
            PipelineError::FinalizationTimeout,
        ),
{
    match phase {
        TxPhase::Finalized => {
            match find_first_event(events, expected) {
                Some(e) => Ok(e),
                None => Err(PipelineError::ExpectedEventMissing),
            }
        },
        TxPhase::RejectedAtSubmit(m) => Err(PipelineError::TransactionRejected(m)),
        TxPhase::FailedInBlock(m) => Err(PipelineError::TransactionFailed(m)),
        TxPhase::FinalizationTimeout => Err(PipelineError::FinalizationTimeout),
        _ => Err(PipelineError::FinalizationTimeout),
    }
}

/// Reads the outcome of one watched transaction from which no domain event is
/// expected (such as a metadata update): finalized successful execution is
/// success; the terminal failure phases map to their own errors.
pub fn conclude_without_event(phase: TxPhase) -> (r: Result<(), PipelineError>)
    requires
        spec_is_terminal(phase),
    ensures
        phase is Finalized ==> r == Ok::<(), PipelineError>(()),
        phase matches TxPhase::RejectedAtSubmit(m) ==> r == Err::<(), PipelineError>(
            PipelineError::TransactionRejected(m),
        ),
        phase matches TxPhase::FailedInBlock(m) ==> r == Err::<(), PipelineError>(
            PipelineError::TransactionFailed(m),
        ),
        phase is FinalizationTimeout ==> r == Err::<(), PipelineError>(
            PipelineError::FinalizationTimeout,
        ),
{
    match phase {
        TxPhase::Finalized => Ok(()),
        TxPhase::RejectedAtSubmit(m) => Err(PipelineError::TransactionRejected(m)),
        TxPhase::FailedInBlock(m) => Err(PipelineError::TransactionFailed(m)),
        TxPhase::FinalizationTimeout => Err(PipelineError::FinalizationTimeout),
        _ => Err(PipelineError::FinalizationTimeout),
    }
}

} // verus!
