//! Pure decision logic of the offchain relay loop.
//!
//! One relay cycle reads the checkpoint (the last processed external block),
//! fetches the transfer events of a small trailing block range, maps each
//! event to a command, and submits each command as a signed transaction.
//! Everything here is the part of that loop that decides rather than
//! performs: the range computation, the event-to-command mapping, and the
//! aggregation of per-command submission outcomes.

use crate::contract_method::{CommandView, ContractMethod};
use crate::sender_amount::{SenderAmount, SenderAmountV};
use vstd::prelude::*;

verus! {

/// Number of already-processed blocks re-scanned on every cycle, so that a
/// reorganization of the external ledger cannot make the relay miss events.
pub const REORG_MARGIN: u64 = 3;

/// First block of the fetch range for a checkpoint: the checkpoint minus the
/// re-scan margin, saturating at the genesis block.
pub open spec fn spec_range_start(number: u64) -> u64 {
    if number >= REORG_MARGIN {
        (number - REORG_MARGIN) as u64
    } else {
        0
    }
}

/// Block range `[from, to]` that one relay cycle fetches, given the
/// checkpoint `number`: the checkpoint block and the `REORG_MARGIN` blocks
/// before it.
pub fn fetch_range(number: u64) -> (r: (u64, u64))
    ensures
        r.0 == spec_range_start(number),
        r.1 == number,
{
    if number >= REORG_MARGIN {
        (number - REORG_MARGIN, number)
    } else {
        (0, number)
    }
}

/// First stage of a cycle: turns what the checkpoint's owner handed back
/// into the block range to fetch. A checkpoint that could not be read is
/// fatal for the cycle, before anything is fetched or submitted.
pub fn determine_range(checkpoint: Option<u64>) -> (r: Result<(u64, u64), RelayError>)
    ensures
        checkpoint matches Some(n) ==> r == Ok::<(u64, u64), RelayError>(
            (spec_range_start(n), n),
        ),
        checkpoint is None ==> r == Err::<(u64, u64), RelayError>(
            RelayError::CheckpointUnavailable,
        ),
{
    match checkpoint {
        Some(n) => Ok(fetch_range(n)),
        None => Err(RelayError::CheckpointUnavailable),
    }
}

/// Second stage of a cycle: turns what the event fetch handed back into the
/// batch to process. A failed fetch is fatal for the cycle; nothing gets
/// submitted.
pub fn ingested_events(fetched: Option<Vec<RawTransferEvent>>) -> (r: Result<
    Vec<RawTransferEvent>,
    RelayError,
>)
    ensures
        fetched matches Some(events) ==> (r matches Ok(e) && e == events),
        fetched is None ==> r == Err::<Vec<RawTransferEvent>, RelayError>(
            RelayError::IngestionFailed,
        ),
{
    match fetched {
        Some(events) => Ok(events),
        None => Err(RelayError::IngestionFailed),
    }
}

/// Mathematical value of a [`RawTransferEvent`].
#[verifier::ext_equal]
pub ghost struct TransferEventV {
    pub sender: Seq<char>,
    pub amount: u64,
}

/// One transfer observed on the external ledger: who sent, and how much.
/// This is all the relay reads of an event.
#[derive(Clone, PartialEq, Eq, Debug)]
pub struct RawTransferEvent {
    pub sender: String,
    pub amount: u64,
}

impl View for RawTransferEvent {
    type V = TransferEventV;

    open spec fn view(&self) -> TransferEventV {
        TransferEventV { sender: self.sender@, amount: self.amount }
    }
}

/// Command built from one observed transfer event.
///
/// The fetched events are transfers of the bridged token into the bridge
/// account, so each one becomes a token deposit for its sender and amount.
/// The event-to-variant policy is its own component: widening it to other
/// variants changes only this mapping, never the codec or the dispatch loop.
pub open spec fn spec_build(e: TransferEventV) -> CommandView {
    CommandView { tag: 0, sa: SenderAmountV { sender: e.sender, amount: e.amount } }
}

/// Maps one transfer event to its command: total and deterministic — every
/// observed event yields exactly one command, none is dropped.
pub fn build_command(e: &RawTransferEvent) -> (r: ContractMethod)
    ensures
        r@ == spec_build(e@),
{
    let c = ContractMethod::DepositToken(
        SenderAmount { sender: e.sender.clone(), amount: e.amount },
    );
    proof {
        assert(c@ =~= spec_build(e@));
    }
    c
}

/// Maps a whole batch of events to commands, preserving their order.
pub fn build_commands(events: &Vec<RawTransferEvent>) -> (r: Vec<ContractMethod>)
    ensures
        r@.len() == events@.len(),
        forall|i: int| 0 <= i < events@.len() ==> r@[i]@ == spec_build(events@[i]@),
{
    let mut commands: Vec<ContractMethod> = Vec::new();
    let mut i: usize = 0;
    while i < events.len()
        invariant
            i <= events@.len(),
            commands@.len() == i,
            forall|j: int| 0 <= j < i ==> commands@[j]@ == spec_build(events@[j]@),
        decreases events@.len() - i,
    {
        commands.push(build_command(&events[i]));
        i += 1;
    }
    commands
}

/// What one signed submission of one command reported back.
#[derive(Clone, Copy, PartialEq, Eq, Debug)]
pub enum SubmissionStatus {
    /// An identity signed the transaction and it was accepted.
    Accepted,
    /// An identity signed the transaction but sending it failed.
    Rejected,
    /// No signing identity was available at all.
    NoIdentity,
}

/// Why a relay cycle failed.
#[derive(Clone, Copy, PartialEq, Eq, Debug)]
pub enum RelayError {
    /// The last-processed-block checkpoint could not be read; nothing was
    /// fetched or submitted.
    CheckpointUnavailable,
    /// The external event fetch failed; nothing was submitted.
    IngestionFailed,
    /// No signing identity exists; the rest of the batch was abandoned.
    NoSigningIdentity,
    /// At least one submission failed while the rest of the batch was still
    /// attempted.
    PartialDispatchFailure,
}

/// Whether some command of the batch found no signing identity.
pub open spec fn batch_hits_no_identity(s: Seq<SubmissionStatus>) -> bool {
    exists|i: int| 0 <= i < s.len() && s[i] == SubmissionStatus::NoIdentity
}

/// Whether some command of the batch was signed but failed to send.
pub open spec fn batch_has_rejection(s: Seq<SubmissionStatus>) -> bool {
    exists|i: int| 0 <= i < s.len() && s[i] == SubmissionStatus::Rejected
}

/// Number of submissions of the batch that failed to send.
pub open spec fn count_rejected(s: Seq<SubmissionStatus>) -> nat
    decreases s.len(),
{
    if s.len() == 0 {
        0
    } else {
        (if s[0] == SubmissionStatus::Rejected {
            1 as nat
        } else {
            0 as nat
        }) + count_rejected(s.skip(1))
    }
}

/// Aggregate verdict of a batch: a missing identity is fatal wherever it
/// strikes, any rejection makes the cycle a partial failure, and only a
/// batch of accepted submissions succeeds.
pub open spec fn spec_report(s: Seq<SubmissionStatus>) -> Result<(), RelayError> {
    if batch_hits_no_identity(s) {
        Err(RelayError::NoSigningIdentity)
    } else if batch_has_rejection(s) {
        Err(RelayError::PartialDispatchFailure)
    } else {
        Ok(())
    }
}

/// How many commands of the batch are attempted: all of them, unless an
/// identity goes missing, which stops the loop right there.
pub open spec fn spec_attempted(s: Seq<SubmissionStatus>) -> nat
    decreases s.len(),
{
    if s.len() == 0 {
        0
    } else if s[0] == SubmissionStatus::NoIdentity {
        1
    } else {
        1 + spec_attempted(s.skip(1))
    }
}

/// Running outcome of a dispatch loop: whether any submission so far was
/// signed but failed to send.
pub struct BatchProgress {
    pub failed: bool,
}

impl BatchProgress {
    /// Fresh progress: nothing attempted, nothing failed.
    pub fn new() -> (r: BatchProgress)
        ensures
            !r.failed,
    {
        BatchProgress { failed: false }
    }

    /// Folds one submission outcome in. A rejection is recorded and the
    /// batch goes on; a missing identity is not recorded, it aborts the
    /// whole batch, which is what the returned flag demands of the caller.
    pub fn record(&mut self, st: SubmissionStatus) -> (abort: bool)
        ensures
            final(self).failed == (old(self).failed || st == SubmissionStatus::Rejected),
            abort == (st == SubmissionStatus::NoIdentity),
    {
        match st {
            SubmissionStatus::Accepted => false,
            SubmissionStatus::Rejected => {
                self.failed = true;
                false
            },
            SubmissionStatus::NoIdentity => true,
        }
    }

    /// Verdict once every command was attempted: success only if no
    /// submission failed.
    pub fn report(&self) -> (r: Result<(), RelayError>)
        ensures
            self.failed ==> r == Err::<(), RelayError>(RelayError::PartialDispatchFailure),
            !self.failed ==> r == Ok::<(), RelayError>(()),
    {
        if self.failed {
            Err(RelayError::PartialDispatchFailure)
        } else {
            Ok(())
        }
    }
}

/// Runs the dispatch fold over the outcome each command's submission
/// reports, in batch order: rejections are recorded without stopping the
/// loop, a missing identity stops it at once, and the verdict is the
/// aggregate of what was attempted. Returns the verdict and how many
/// commands were attempted.
pub fn run_batch(outcomes: &Vec<SubmissionStatus>) -> (r: (Result<(), RelayError>, usize))
    ensures
        r.0 == spec_report(outcomes@),
        r.1 == spec_attempted(outcomes@),
{
    let mut progress = BatchProgress::new();
    let n = outcomes.len();
    let mut i: usize = 0;
    while i < n
        invariant
            i <= n,
            n == outcomes@.len(),
            forall|j: int| 0 <= j < i ==> outcomes@[j] != SubmissionStatus::NoIdentity,
            progress.failed == batch_has_rejection(outcomes@.take(i as int)),
        decreases n - i,
    {
        let st = outcomes[i];
        let abort = progress.record(st);
        if abort {
            proof {
                lemma_attempted_stops(outcomes@, i as int);
            }
            return (Err(RelayError::NoSigningIdentity), i + 1);
        }
        proof {
            lemma_rejection_grows(outcomes@, i as int);
        }
        i += 1;
    }
    proof {
        lemma_attempted_full(outcomes@);
        assert(outcomes@.take(n as int) =~= outcomes@);
    }
    (progress.report(), n)
}

/// Appending one more outcome to a prefix adds a rejection exactly when
/// that outcome is one.
proof fn lemma_rejection_grows(s: Seq<SubmissionStatus>, i: int)
    requires
        0 <= i < s.len(),
    ensures
        batch_has_rejection(s.take(i + 1)) == (batch_has_rejection(s.take(i)) || s[i]
            == SubmissionStatus::Rejected),
{
    let t1 = s.take(i);
    let t2 = s.take(i + 1);
    if batch_has_rejection(t1) {
        let j = choose|j: int| 0 <= j < t1.len() && t1[j] == SubmissionStatus::Rejected;
        assert(t2[j] == SubmissionStatus::Rejected);
    }
    if s[i] == SubmissionStatus::Rejected {
        assert(t2[i] == SubmissionStatus::Rejected);
    }
    if batch_has_rejection(t2) && s[i] != SubmissionStatus::Rejected {
        let j = choose|j: int| 0 <= j < t2.len() && t2[j] == SubmissionStatus::Rejected;
        assert(t1[j] == SubmissionStatus::Rejected);
    }
}

/// With no missing identity before position `i` and one at `i`, the loop
/// attempts exactly the commands up to and including `i`.
proof fn lemma_attempted_stops(s: Seq<SubmissionStatus>, i: int)
    requires
        0 <= i < s.len(),
        s[i] == SubmissionStatus::NoIdentity,
        forall|j: int| 0 <= j < i ==> s[j] != SubmissionStatus::NoIdentity,
    ensures
        spec_attempted(s) == i + 1,
    decreases i,
{
    if i > 0 {
        lemma_attempted_stops(s.skip(1), i - 1);
    }
}

/// With an identity available throughout, every command of the batch is
/// attempted.
proof fn lemma_attempted_full(s: Seq<SubmissionStatus>)
    requires
        forall|j: int| 0 <= j < s.len() ==> s[j] != SubmissionStatus::NoIdentity,
    ensures
        spec_attempted(s) == s.len(),
    decreases s.len(),
{
    if s.len() > 0 {
        lemma_attempted_full(s.skip(1));
    }
}

/// A batch has a rejected submission exactly when it has a positive number
/// of them.
proof fn lemma_count_rejected_iff(s: Seq<SubmissionStatus>)
    ensures
        (count_rejected(s) == 0) <==> !batch_has_rejection(s),
    decreases s.len(),
{
    if s.len() > 0 {
        lemma_count_rejected_iff(s.skip(1));
        if batch_has_rejection(s.skip(1)) {
            let j = choose|j: int|
                0 <= j < s.skip(1).len() && s.skip(1)[j] == SubmissionStatus::Rejected;
            assert(s[j + 1] == SubmissionStatus::Rejected);
        }
        if batch_has_rejection(s) && s[0] != SubmissionStatus::Rejected {
            let j = choose|j: int| 0 <= j < s.len() && s[j] == SubmissionStatus::Rejected;
            assert(s.skip(1)[j - 1] == SubmissionStatus::Rejected);
        }
    }
}

/// Batch semantics law: with an identity available throughout a batch in
/// which exactly `count_rejected` submissions fail to send, every command is
/// attempted — no early abort on an ordinary failure — and the batch reports
/// success exactly when none failed, a partial dispatch failure exactly when
/// at least one did.
pub proof fn lemma_batch_semantics(s: Seq<SubmissionStatus>)
    requires
        !batch_hits_no_identity(s),
    ensures
        spec_attempted(s) == s.len(),
        count_rejected(s) == 0 ==> spec_report(s) == Ok::<(), RelayError>(()),
        count_rejected(s) > 0 ==> spec_report(s) == Err::<(), RelayError>(
            RelayError::PartialDispatchFailure,
        ),
{
    assert forall|j: int| 0 <= j < s.len() implies s[j] != SubmissionStatus::NoIdentity by {
        if s[j] == SubmissionStatus::NoIdentity {
            assert(batch_hits_no_identity(s));
        }
    }
    lemma_attempted_full(s);
    lemma_count_rejected_iff(s);
}

/// Fatal short-circuit law: if the batch meets a missing signing identity,
/// with `i` the first command it strikes, the cycle reports that and nothing
/// else — earlier rejections do not soften it — and no command after `i` is
/// attempted.
pub proof fn lemma_no_identity_short_circuit(s: Seq<SubmissionStatus>, i: int)
    requires
        0 <= i < s.len(),
        s[i] == SubmissionStatus::NoIdentity,
        forall|j: int| 0 <= j < i ==> s[j] != SubmissionStatus::NoIdentity,
    ensures
        spec_report(s) == Err::<(), RelayError>(RelayError::NoSigningIdentity),
        spec_attempted(s) == i + 1,
{
    lemma_attempted_stops(s, i);
}

} // verus!
