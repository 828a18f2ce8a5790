use brevetchain::hashing::digest;
use brevetchain::ledger::{AnchorOutcome, AnchorStep, LedgerClient};
use brevetchain::model::{AiResponse, Idea, PipelineError, User};
use brevetchain::pipeline::{
    new_run, passes_novelty_gate, resume, step, PipelineAction, PipelineEvent, PipelineState,
    RunContext,
};
use brevetchain::storage::Store;
use brevetchain::structuring::{StructuringClient, StructuringOutcome, StructuringStep};
use brevetchain::verification::{
    verify, LookupResult, MismatchReason, VerificationResult,
};

const NOW: i64 = 1_700_000_000;

fn owner() -> User {
    User {
        id: 1,
        full_name: "Ada Writer".to_string(),
        email: "ada@example.test".to_string(),
        phone: None,
        country: Some("FR".to_string()),
        wallet_address: "wallet-1".to_string(),
        created_at: NOW,
    }
}

fn umbrella_idea() -> Idea {
    Idea {
        id: 10,
        user_id: 1,
        raw_idea: "a solar-powered umbrella".to_string(),
        created_at: NOW,
    }
}

fn structured(novelty: u8) -> AiResponse {
    AiResponse {
        title: "Solar umbrella".to_string(),
        problem: "Sun exposure".to_string(),
        solution: "Panels on the canopy".to_string(),
        claims: vec!["A canopy with panels".to_string()],
        cpc_code: "A45B".to_string(),
        novelty_score: novelty,
    }
}

fn ctx(fresh_id: u64) -> RunContext {
    RunContext { fresh_id, now: NOW }
}

#[test]
fn gate_boundary_score_50_passes_49_fails() {
    assert!(passes_novelty_gate(50));
    assert!(!passes_novelty_gate(49));

    let state = new_run(umbrella_idea(), "wallet-1".to_string());
    let (state, _) = step(state, PipelineEvent::Begin, ctx(100));
    let (at_50, action_50) = step(
        state,
        PipelineEvent::StructuringFinished { result: Ok(structured(50)) },
        ctx(100),
    );
    assert!(matches!(at_50, PipelineState::Persisting { .. }));
    assert!(matches!(action_50, PipelineAction::PersistSummary { .. }));

    let state = new_run(umbrella_idea(), "wallet-1".to_string());
    let (state, _) = step(state, PipelineEvent::Begin, ctx(100));
    let (at_49, action_49) = step(
        state,
        PipelineEvent::StructuringFinished { result: Ok(structured(49)) },
        ctx(100),
    );
    assert_eq!(
        at_49,
        PipelineState::Failed {
            error: PipelineError::ValidationRejected { novelty_score: 49 }
        }
    );
    assert_eq!(action_49, PipelineAction::Halt);
}

#[test]
fn scenario_full_run_then_valid_verification() {
    let mut store = Store::new();
    assert!(store.insert_user(owner()).is_ok());
    assert!(store.insert_idea(umbrella_idea()).is_ok());

    let state = new_run(umbrella_idea(), "wallet-1".to_string());
    let (state, action) = step(state, PipelineEvent::Begin, ctx(100));
    let raw = match action {
        PipelineAction::RunStructuring { raw_idea } => raw_idea,
        other => panic!("expected a structuring request, got {:?}", other),
    };
    assert_eq!(raw, "a solar-powered umbrella");

    let mut structuring_client = StructuringClient::new();
    let client_step =
        structuring_client.on_attempt(StructuringOutcome::Structured(structured(80)));
    let response = match client_step {
        StructuringStep::Done(r) => r,
        other => panic!("expected a structured response, got {:?}", other),
    };

    let (state, action) = step(
        state,
        PipelineEvent::StructuringFinished { result: Ok(response) },
        ctx(100),
    );
    let summary = match action {
        PipelineAction::PersistSummary { summary } => summary,
        other => panic!("expected a persistence request, got {:?}", other),
    };
    assert_eq!(summary.id, 100);
    assert_eq!(summary.idea_id, 10);
    assert!(store.insert_summary(summary).is_ok());

    let (state, action) = step(
        state,
        PipelineEvent::SummaryPersisted { result: Ok(()) },
        ctx(100),
    );
    let message = match action {
        PipelineAction::RunAnchoring { message } => message,
        other => panic!("expected an anchoring request, got {:?}", other),
    };

    let mut ledger_client = LedgerClient::new();
    let anchor_step = ledger_client.on_attempt(AnchorOutcome::Finalized {
        tx_id: "0.0.4242@1700000001".to_string(),
    });
    let tx_id = match anchor_step {
        AnchorStep::Done { tx_id } => tx_id,
        other => panic!("expected a finalized submission, got {:?}", other),
    };

    let (state, action) = step(
        state,
        PipelineEvent::AnchorFinished { result: Ok(tx_id) },
        ctx(200),
    );
    let recorded = match action {
        PipelineAction::PersistProof { proof } => proof,
        other => panic!("expected a proof persistence request, got {:?}", other),
    };
    assert!(store.insert_proof(recorded).is_ok());

    let (state, action) = step(
        state,
        PipelineEvent::ProofPersisted { result: Ok(()) },
        ctx(200),
    );
    assert!(matches!(state, PipelineState::Anchored { .. }));
    assert_eq!(action, PipelineAction::Halt);

    let stored_summary = store.summary_for_idea(10).expect("summary row");
    let stored_proof = store.proof_for_summary(stored_summary.id).expect("proof row");
    assert_eq!(stored_proof.hash, digest(&stored_summary));

    let lookup = LookupResult::Messages(vec![message]);
    match verify(&stored_summary, Some(&stored_proof), &lookup) {
        VerificationResult::Verified { valid, computed_hash, mismatch_reason } => {
            assert!(valid);
            assert_eq!(computed_hash, stored_proof.hash);
            assert_eq!(mismatch_reason, None);
        }
        other => panic!("expected a checked verdict, got {:?}", other),
    }

    let status = store.status(10);
    assert!(status.idea_received);
    assert!(status.ia_summary_ready);
    assert!(status.hedera_proof_registered);
    assert!(!status.agent_validated);
    assert!(!status.office_submitted);
}

#[test]
fn scenario_structuring_down_leaves_no_summary() {
    let mut store = Store::new();
    assert!(store.insert_user(owner()).is_ok());
    assert!(store.insert_idea(umbrella_idea()).is_ok());

    let mut structuring_client = StructuringClient::new();
    let mut terminal = None;
    for _ in 0..3 {
        match structuring_client.on_attempt(StructuringOutcome::HttpError(500)) {
            StructuringStep::RetryAfter(_) => {}
            StructuringStep::Failed(e) => terminal = Some(e),
            StructuringStep::Done(_) => panic!("no success was scripted"),
        }
    }
    let error = terminal.expect("three failures must end the client");
    assert_eq!(error, PipelineError::ServiceUnavailable { attempts: 3 });

    let state = new_run(umbrella_idea(), "wallet-1".to_string());
    let (state, _) = step(state, PipelineEvent::Begin, ctx(100));
    let (state, action) = step(
        state,
        PipelineEvent::StructuringFinished { result: Err(error) },
        ctx(100),
    );
    assert_eq!(
        state,
        PipelineState::Failed {
            error: PipelineError::ServiceUnavailable { attempts: 3 }
        }
    );
    assert_eq!(action, PipelineAction::Halt);

    let status = store.status(10);
    assert!(status.idea_received);
    assert!(!status.ia_summary_ready);
    assert!(!status.hedera_proof_registered);
}

#[test]
fn scenario_anchoring_down_leaves_summary_without_proof() {
    let mut store = Store::new();
    assert!(store.insert_user(owner()).is_ok());
    assert!(store.insert_idea(umbrella_idea()).is_ok());

    let state = new_run(umbrella_idea(), "wallet-1".to_string());
    let (state, _) = step(state, PipelineEvent::Begin, ctx(100));
    let (state, action) = step(
        state,
        PipelineEvent::StructuringFinished { result: Ok(structured(80)) },
        ctx(100),
    );
    let summary = match action {
        PipelineAction::PersistSummary { summary } => summary,
        other => panic!("expected a persistence request, got {:?}", other),
    };
    assert!(store.insert_summary(summary).is_ok());
    let (state, _) = step(
        state,
        PipelineEvent::SummaryPersisted { result: Ok(()) },
        ctx(100),
    );

    let mut ledger_client = LedgerClient::new();
    let mut terminal = None;
    for _ in 0..3 {
        match ledger_client.on_attempt(AnchorOutcome::BadStatus { status: 21 }) {
            AnchorStep::RetryAfter(_) => {}
            AnchorStep::Failed(e) => terminal = Some(e),
            AnchorStep::Done { .. } => panic!("no success was scripted"),
        }
    }
    let error = terminal.expect("three failures must end the client");

    let (state, action) = step(
        state,
        PipelineEvent::AnchorFinished { result: Err(error) },
        ctx(200),
    );
    assert_eq!(
        state,
        PipelineState::Failed {
            error: PipelineError::AnchoringFailed { attempts: 3, last_status: Some(21) }
        }
    );
    assert_eq!(action, PipelineAction::Halt);

    let status = store.status(10);
    assert!(status.idea_received);
    assert!(status.ia_summary_ready);
    assert!(!status.hedera_proof_registered);
    let stored_summary = store.summary_for_idea(10).expect("summary row");
    assert!(store.proof_for_summary(stored_summary.id).is_none());
}

#[test]
fn resume_with_existing_proof_never_reanchors() {
    let mut store = Store::new();
    assert!(store.insert_user(owner()).is_ok());
    assert!(store.insert_idea(umbrella_idea()).is_ok());
    let state = new_run(umbrella_idea(), "wallet-1".to_string());
    let (state, _) = step(state, PipelineEvent::Begin, ctx(100));
    let (state, action) = step(
        state,
        PipelineEvent::StructuringFinished { result: Ok(structured(80)) },
        ctx(100),
    );
    let summary = match action {
        PipelineAction::PersistSummary { summary } => summary,
        other => panic!("expected a persistence request, got {:?}", other),
    };
    assert!(store.insert_summary(summary).is_ok());
    let (state, action) = step(
        state,
        PipelineEvent::SummaryPersisted { result: Ok(()) },
        ctx(100),
    );
    let first_message = match action {
        PipelineAction::RunAnchoring { message } => message,
        other => panic!("expected an anchoring request, got {:?}", other),
    };
    let (_, action) = step(
        state,
        PipelineEvent::AnchorFinished { result: Ok("0.0.9@1".to_string()) },
        ctx(200),
    );
    let recorded = match action {
        PipelineAction::PersistProof { proof } => proof,
        other => panic!("expected a proof persistence request, got {:?}", other),
    };
    assert!(store.insert_proof(recorded).is_ok());

    // A second anchoring request for the same summary: the stored proof
    // wins and nothing is submitted again.
    let stored_summary = store.summary_for_idea(10).expect("summary row");
    let stored_proof = store.proof_for_summary(stored_summary.id).expect("proof row");
    let (resumed, action) = resume(
        stored_summary,
        "wallet-1".to_string(),
        Some(stored_proof.clone()),
    );
    assert_eq!(resumed, PipelineState::Anchored { proof: stored_proof });
    assert_eq!(action, PipelineAction::Halt);

    // Without a stored proof, resume asks for the same anchoring again:
    // hashing is pure, so the message is reproduced byte for byte.
    let stored_summary = store.summary_for_idea(10).expect("summary row");
    let (_, action) = resume(stored_summary, "wallet-1".to_string(), None);
    match action {
        PipelineAction::RunAnchoring { message } => assert_eq!(message, first_message),
        other => panic!("expected an anchoring request, got {:?}", other),
    }
}

#[test]
fn terminal_states_ignore_further_events() {
    let failed = PipelineState::Failed {
        error: PipelineError::ValidationRejected { novelty_score: 10 },
    };
    let (state, action) = step(
        failed,
        PipelineEvent::SummaryPersisted { result: Ok(()) },
        ctx(1),
    );
    assert_eq!(
        state,
        PipelineState::Failed {
            error: PipelineError::ValidationRejected { novelty_score: 10 }
        }
    );
    assert_eq!(action, PipelineAction::Halt);
}

#[test]
fn events_for_another_stage_are_ignored() {
    let state = new_run(umbrella_idea(), "wallet-1".to_string());
    let (state, _) = step(state, PipelineEvent::Begin, ctx(100));
    let (same, action) = step(
        state,
        PipelineEvent::AnchorFinished { result: Ok("0.0.1@1".to_string()) },
        ctx(101),
    );
    assert!(matches!(same, PipelineState::Structuring { .. }));
    assert_eq!(action, PipelineAction::Halt);
}

#[test]
fn scenario_hash_absent_from_ledger_is_invalid() {
    let mut store = Store::new();
    assert!(store.insert_user(owner()).is_ok());
    assert!(store.insert_idea(umbrella_idea()).is_ok());
    let state = new_run(umbrella_idea(), "wallet-1".to_string());
    let (state, _) = step(state, PipelineEvent::Begin, ctx(100));
    let (state, action) = step(
        state,
        PipelineEvent::StructuringFinished { result: Ok(structured(80)) },
        ctx(100),
    );
    let summary = match action {
        PipelineAction::PersistSummary { summary } => summary,
        other => panic!("expected a persistence request, got {:?}", other),
    };
    assert!(store.insert_summary(summary).is_ok());
    let (state, _) = step(
        state,
        PipelineEvent::SummaryPersisted { result: Ok(()) },
        ctx(100),
    );
    let (_, action) = step(
        state,
        PipelineEvent::AnchorFinished { result: Ok("0.0.9@1".to_string()) },
        ctx(200),
    );
    let recorded = match action {
        PipelineAction::PersistProof { proof } => proof,
        other => panic!("expected a proof persistence request, got {:?}", other),
    };
    assert!(store.insert_proof(recorded).is_ok());

    // The ledger's newest message carries someone else's hash.
    let stored_summary = store.summary_for_idea(10).expect("summary row");
    let stored_proof = store.proof_for_summary(stored_summary.id).expect("proof row");
    let foreign = brevetchain::canon::anchor_message(
        "0000000000000000000000000000000000000000000000000000000000000000",
        "Z99",
        "other-wallet",
        "2020-01-01T00:00:00+00:00",
    );
    match verify(&stored_summary, Some(&stored_proof), &LookupResult::Messages(vec![foreign])) {
        VerificationResult::Verified { valid, computed_hash, mismatch_reason } => {
            assert!(!valid);
            assert_eq!(computed_hash, digest(&stored_summary));
            assert_eq!(mismatch_reason, Some(MismatchReason::HashNotOnLedger));
        }
        other => panic!("expected a checked verdict, got {:?}", other),
    }
}

#[test]
fn verification_is_idempotent_on_unchanged_inputs() {
    let summary = {
        let state = new_run(umbrella_idea(), "wallet-1".to_string());
        let (state, _) = step(state, PipelineEvent::Begin, ctx(100));
        let (_, action) = step(
            state,
            PipelineEvent::StructuringFinished { result: Ok(structured(80)) },
            ctx(100),
        );
        match action {
            PipelineAction::PersistSummary { summary } => summary,
            other => panic!("expected a persistence request, got {:?}", other),
        }
    };
    let proof = brevetchain::model::Proof {
        id: 200,
        summary_id: summary.id,
        hash: digest(&summary),
        hedera_tx_id: "0.0.9@1".to_string(),
        timestamp: NOW,
        created_at: NOW,
    };
    let message = brevetchain::canon::anchor_message(
        &digest(&summary),
        "A45B",
        "wallet-1",
        "2023-11-14T22:13:20+00:00",
    );
    let lookup = LookupResult::Messages(vec![message]);
    let first = verify(&summary, Some(&proof), &lookup);
    let second = verify(&summary, Some(&proof), &lookup);
    assert_eq!(first, second);
}

#[test]
fn verification_without_stored_reference_is_pending() {
    let state = new_run(umbrella_idea(), "wallet-1".to_string());
    let (state, _) = step(state, PipelineEvent::Begin, ctx(100));
    let (_, action) = step(
        state,
        PipelineEvent::StructuringFinished { result: Ok(structured(80)) },
        ctx(100),
    );
    let summary = match action {
        PipelineAction::PersistSummary { summary } => summary,
        other => panic!("expected a persistence request, got {:?}", other),
    };
    let lookup = LookupResult::Messages(Vec::new());
    assert_eq!(verify(&summary, None, &lookup), VerificationResult::Pending);
}

#[test]
fn verification_with_unreadable_ledger_is_invalid_not_fatal() {
    let state = new_run(umbrella_idea(), "wallet-1".to_string());
    let (state, _) = step(state, PipelineEvent::Begin, ctx(100));
    let (_, action) = step(
        state,
        PipelineEvent::StructuringFinished { result: Ok(structured(80)) },
        ctx(100),
    );
    let summary = match action {
        PipelineAction::PersistSummary { summary } => summary,
        other => panic!("expected a persistence request, got {:?}", other),
    };
    let proof = brevetchain::model::Proof {
        id: 200,
        summary_id: summary.id,
        hash: digest(&summary),
        hedera_tx_id: "0.0.9@1".to_string(),
        timestamp: NOW,
        created_at: NOW,
    };
    match verify(&summary, Some(&proof), &LookupResult::Unavailable) {
        VerificationResult::Verified { valid, computed_hash, mismatch_reason } => {
            assert!(!valid);
            assert_eq!(computed_hash, digest(&summary));
            assert_eq!(mismatch_reason, Some(MismatchReason::LedgerUnavailable));
        }
        other => panic!("expected a checked verdict, got {:?}", other),
    }
}
