use brevetchain::ledger::{
    AnchorOutcome, AnchorStep, LedgerClient, ANCHORING_BACKOFF, ANCHORING_MAX_ATTEMPTS,
};
use brevetchain::model::{AiResponse, PipelineError};
use brevetchain::structuring::{
    StructuringClient, StructuringOutcome, StructuringStep, STRUCTURING_BACKOFF,
    STRUCTURING_MAX_ATTEMPTS,
};

fn response(novelty: u8) -> AiResponse {
    AiResponse {
        title: "t".to_string(),
        problem: "p".to_string(),
        solution: "s".to_string(),
        claims: vec!["c".to_string()],
        cpc_code: "A".to_string(),
        novelty_score: novelty,
    }
}

#[test]
fn structuring_failures_make_exactly_three_attempts() {
    let mut client = StructuringClient::new();
    assert_eq!(
        client.on_attempt(StructuringOutcome::HttpError(500)),
        StructuringStep::RetryAfter(STRUCTURING_BACKOFF)
    );
    assert_eq!(
        client.on_attempt(StructuringOutcome::TransportError),
        StructuringStep::RetryAfter(STRUCTURING_BACKOFF)
    );
    assert_eq!(
        client.on_attempt(StructuringOutcome::HttpError(500)),
        StructuringStep::Failed(PipelineError::ServiceUnavailable {
            attempts: STRUCTURING_MAX_ATTEMPTS
        })
    );
    assert_eq!(client.attempts, STRUCTURING_MAX_ATTEMPTS);
}

#[test]
fn structuring_success_stops_the_run() {
    let mut client = StructuringClient::new();
    assert_eq!(
        client.on_attempt(StructuringOutcome::HttpError(503)),
        StructuringStep::RetryAfter(STRUCTURING_BACKOFF)
    );
    let step = client.on_attempt(StructuringOutcome::Structured(response(80)));
    assert_eq!(step, StructuringStep::Done(response(80)));
    assert_eq!(client.attempts, 2);
}

#[test]
fn anchoring_failures_make_exactly_three_attempts() {
    let mut client = LedgerClient::new();
    assert_eq!(
        client.on_attempt(AnchorOutcome::BadStatus { status: 21 }),
        AnchorStep::RetryAfter(ANCHORING_BACKOFF)
    );
    assert_eq!(
        client.on_attempt(AnchorOutcome::Unreachable),
        AnchorStep::RetryAfter(ANCHORING_BACKOFF)
    );
    assert_eq!(
        client.on_attempt(AnchorOutcome::BadStatus { status: 21 }),
        AnchorStep::Failed(PipelineError::AnchoringFailed {
            attempts: ANCHORING_MAX_ATTEMPTS,
            last_status: Some(21)
        })
    );
    assert_eq!(client.attempts, ANCHORING_MAX_ATTEMPTS);
}

#[test]
fn anchoring_terminal_error_without_receipt_has_no_status() {
    let mut client = LedgerClient::new();
    client.on_attempt(AnchorOutcome::Unreachable);
    client.on_attempt(AnchorOutcome::Unreachable);
    assert_eq!(
        client.on_attempt(AnchorOutcome::Unreachable),
        AnchorStep::Failed(PipelineError::AnchoringFailed {
            attempts: ANCHORING_MAX_ATTEMPTS,
            last_status: None
        })
    );
}

#[test]
fn anchoring_success_carries_the_transaction_reference() {
    let mut client = LedgerClient::new();
    let step = client.on_attempt(AnchorOutcome::Finalized { tx_id: "0.0.77@42".to_string() });
    assert_eq!(step, AnchorStep::Done { tx_id: "0.0.77@42".to_string() });
}
