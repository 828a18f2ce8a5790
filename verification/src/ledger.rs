use vstd::prelude::*;
use crate::model::PipelineError;

verus! {

/// Total submission attempts the ledger client may make for one hash.
/// Anchoring is externally metered, so the bound is tight.
pub const ANCHORING_MAX_ATTEMPTS: u8 = 3;

/// Time units to wait before every submission attempt but the first.
pub const ANCHORING_BACKOFF: u64 = 2;

/// How many of the newest channel messages a verification lookup reads.
pub const LOOKUP_MESSAGE_LIMIT: u64 = 1;

/// What one submission attempt came back with once its receipt arrived
/// (or failed to arrive).
#[derive(Debug, PartialEq, Eq)]
pub enum AnchorOutcome {
    /// The receipt reported success and carried this transaction
    /// reference.
    Finalized { tx_id: String },
    /// The receipt reported this non-success status.
    BadStatus { status: u32 },
    /// The submission or the receipt never arrived.
    Unreachable,
}

/// What the caller must do next after reporting one outcome.
#[derive(Debug, PartialEq, Eq)]
pub enum AnchorStep {
    /// Anchoring succeeded; stop submitting.
    Done { tx_id: String },
    /// Wait this many time units, submit in full once more, report
    /// again.
    RetryAfter(u64),
    /// The attempt budget is spent; surface this terminal error.
    Failed(PipelineError),
}

/// The status an outcome carries, if its receipt got that far.
pub open spec fn outcome_status(o: AnchorOutcome) -> Option<u32> {
    match o {
        AnchorOutcome::BadStatus { status } => Some(status),
        _ => None,
    }
}

/// The client's whole decision, as a function of how many attempts were
/// already made and what the newest attempt came back with. The
/// terminal error carries the last known receipt status.
pub open spec fn anchor_step_of(attempts_before: u8, outcome: AnchorOutcome) -> AnchorStep
    recommends
        attempts_before < ANCHORING_MAX_ATTEMPTS,
{
    match outcome {
        AnchorOutcome::Finalized { tx_id } => AnchorStep::Done { tx_id },
        _ => if attempts_before + 1 < ANCHORING_MAX_ATTEMPTS {
            AnchorStep::RetryAfter(ANCHORING_BACKOFF)
        } else {
            AnchorStep::Failed(
                PipelineError::AnchoringFailed {
                    attempts: ANCHORING_MAX_ATTEMPTS,
                    last_status: outcome_status(outcome),
                },
            )
        },
    }
}

/// Drives the bounded-retry policy for ledger submissions. The caller
/// performs each full submission (submit, then wait for the receipt)
/// and hands the outcome back; this state machine decides whether to
/// stop, wait and resubmit, or give up. Lookups are not retried at all:
/// a read failure surfaces at once as `LedgerUnavailable`.
pub struct LedgerClient {
    pub attempts: u8,
}

impl LedgerClient {
    pub fn new() -> (c: Self)
        ensures
            c.attempts == 0,
    {
        LedgerClient { attempts: 0 }
    }

    /// Records one submission attempt's outcome and says what to do
    /// next. The `requires` is the retry bound itself: once three
    /// attempts are recorded, no further attempt can be recorded.
    pub fn on_attempt(&mut self, outcome: AnchorOutcome) -> (step: AnchorStep)
        requires
            old(self).attempts < ANCHORING_MAX_ATTEMPTS,
        ensures
            final(self).attempts == old(self).attempts + 1,
            step == anchor_step_of(old(self).attempts, outcome),
    {
        self.attempts = self.attempts + 1;
        match outcome {
            AnchorOutcome::Finalized { tx_id } => AnchorStep::Done { tx_id },
            AnchorOutcome::BadStatus { status } => {
                if self.attempts < ANCHORING_MAX_ATTEMPTS {
                    AnchorStep::RetryAfter(ANCHORING_BACKOFF)
                } else {
                    AnchorStep::Failed(
                        PipelineError::AnchoringFailed {
                            attempts: ANCHORING_MAX_ATTEMPTS,
                            last_status: Some(status),
                        },
                    )
                }
            },
            AnchorOutcome::Unreachable => {
                if self.attempts < ANCHORING_MAX_ATTEMPTS {
                    AnchorStep::RetryAfter(ANCHORING_BACKOFF)
                } else {
                    AnchorStep::Failed(
                        PipelineError::AnchoringFailed {
                            attempts: ANCHORING_MAX_ATTEMPTS,
                            last_status: None,
                        },
                    )
                }
            },
        }
    }
}

/// Law: against submissions that always fail, the ledger client makes
/// exactly three attempts — the second and the third each only after
/// the fixed backoff — and then reports the terminal `AnchoringFailed`
/// carrying the last known status. A fourth attempt is impossible:
/// `on_attempt` requires an unspent budget.
pub proof fn lemma_anchoring_retry_bound(o1: AnchorOutcome, o2: AnchorOutcome, o3: AnchorOutcome)
    requires
        !(o1 is Finalized),
        !(o2 is Finalized),
        !(o3 is Finalized),
    ensures
        anchor_step_of(0, o1) == AnchorStep::RetryAfter(ANCHORING_BACKOFF),
        anchor_step_of(1, o2) == AnchorStep::RetryAfter(ANCHORING_BACKOFF),
        anchor_step_of(2, o3) == AnchorStep::Failed(
            PipelineError::AnchoringFailed {
                attempts: ANCHORING_MAX_ATTEMPTS,
                last_status: outcome_status(o3),
            },
        ),
{
}

/// Law: one finalized submission ends the run at once, whatever came
/// before.
pub proof fn lemma_anchoring_stops_on_success(attempts_before: u8, tx_id: String)
    requires
        attempts_before < ANCHORING_MAX_ATTEMPTS,
    ensures
        anchor_step_of(attempts_before, AnchorOutcome::Finalized { tx_id }) == (AnchorStep::Done {
            tx_id,
        }),
{
}

} // verus!
