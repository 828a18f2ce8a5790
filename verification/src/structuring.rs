use vstd::prelude::*;
use crate::model::{AiResponse, PipelineError};

verus! {

/// Total attempts the structuring client may make for one idea.
pub const STRUCTURING_MAX_ATTEMPTS: u8 = 3;

/// Time units to wait before every attempt but the first.
pub const STRUCTURING_BACKOFF: u64 = 1;

/// Time units each single attempt may take before it counts as failed.
pub const STRUCTURING_ATTEMPT_TIMEOUT: u64 = 30;

/// What one call to the structuring service came back with.
#[derive(Debug, PartialEq, Eq)]
pub enum StructuringOutcome {
    /// A well-formed response.
    Structured(AiResponse),
    /// A reply with a non-success status code.
    HttpError(u16),
    /// No reply at all: transport failure or timeout.
    TransportError,
}

/// What the caller must do next after reporting one outcome.
#[derive(Debug, PartialEq, Eq)]
pub enum StructuringStep {
    /// Structuring succeeded; stop calling.
    Done(AiResponse),
    /// Wait this many time units, call once more, report again.
    RetryAfter(u64),
    /// The attempt budget is spent; surface this terminal error.
    Failed(PipelineError),
}

/// The client's whole decision, as a function of how many attempts were
/// already made and what the newest attempt came back with.
pub open spec fn structuring_step_of(attempts_before: u8, outcome: StructuringOutcome) -> StructuringStep
    recommends
        attempts_before < STRUCTURING_MAX_ATTEMPTS,
{
    match outcome {
        StructuringOutcome::Structured(r) => StructuringStep::Done(r),
        _ => if attempts_before + 1 < STRUCTURING_MAX_ATTEMPTS {
            StructuringStep::RetryAfter(STRUCTURING_BACKOFF)
        } else {
            StructuringStep::Failed(
                PipelineError::ServiceUnavailable { attempts: STRUCTURING_MAX_ATTEMPTS },
            )
        },
    }
}

/// Drives the bounded-retry policy for the structuring service. The
/// caller performs each outbound call (with its own timeout) and hands
/// the outcome back; this state machine decides whether to stop, wait
/// and retry, or give up.
pub struct StructuringClient {
    pub attempts: u8,
}

impl StructuringClient {
    pub fn new() -> (c: Self)
        ensures
            c.attempts == 0,
    {
        StructuringClient { attempts: 0 }
    }

    /// Records one attempt's outcome and says what to do next. The
    /// `requires` is the retry bound itself: once three attempts are
    /// recorded, no further attempt can be recorded.
    pub fn on_attempt(&mut self, outcome: StructuringOutcome) -> (step: StructuringStep)
        requires
            old(self).attempts < STRUCTURING_MAX_ATTEMPTS,
        ensures
            final(self).attempts == old(self).attempts + 1,
            step == structuring_step_of(old(self).attempts, outcome),
    {
        self.attempts = self.attempts + 1;
        match outcome {
            StructuringOutcome::Structured(r) => StructuringStep::Done(r),
            _ => {
                if self.attempts < STRUCTURING_MAX_ATTEMPTS {
                    StructuringStep::RetryAfter(STRUCTURING_BACKOFF)
                } else {
                    StructuringStep::Failed(
                        PipelineError::ServiceUnavailable { attempts: STRUCTURING_MAX_ATTEMPTS },
                    )
                }
            },
        }
    }
}

/// Law: against underlying calls that always fail, the structuring
/// client makes exactly three attempts — the second and the third each
/// only after the fixed backoff — and then reports the terminal
/// `ServiceUnavailable`. A fourth attempt is impossible: `on_attempt`
/// requires an unspent budget.
pub proof fn lemma_structuring_retry_bound(
    o1: StructuringOutcome,
    o2: StructuringOutcome,
    o3: StructuringOutcome,
)
    requires
        !(o1 is Structured),
        !(o2 is Structured),
        !(o3 is Structured),
    ensures
        structuring_step_of(0, o1) == StructuringStep::RetryAfter(STRUCTURING_BACKOFF),
        structuring_step_of(1, o2) == StructuringStep::RetryAfter(STRUCTURING_BACKOFF),
        structuring_step_of(2, o3) == StructuringStep::Failed(
            PipelineError::ServiceUnavailable { attempts: STRUCTURING_MAX_ATTEMPTS },
        ),
{
}

/// Law: one successful call ends the run at once, whatever came before.
pub proof fn lemma_structuring_stops_on_success(attempts_before: u8, r: AiResponse)
    requires
        attempts_before < STRUCTURING_MAX_ATTEMPTS,
    ensures
        structuring_step_of(attempts_before, StructuringOutcome::Structured(r))
            == StructuringStep::Done(r),
{
}

} // verus!
