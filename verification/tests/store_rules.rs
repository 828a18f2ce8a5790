use brevetchain::model::{Idea, PipelineError, Proof, Summary, User};
use brevetchain::storage::Store;

fn user(id: u64) -> User {
    User {
        id,
        full_name: "Ada Writer".to_string(),
        email: "ada@example.test".to_string(),
        phone: Some("+331234".to_string()),
        country: None,
        wallet_address: "wallet-1".to_string(),
        created_at: 0,
    }
}

fn idea(id: u64, user_id: u64) -> Idea {
    Idea { id, user_id, raw_idea: "an idea".to_string(), created_at: 0 }
}

fn summary(id: u64, idea_id: u64) -> Summary {
    Summary {
        id,
        idea_id,
        title: "t".to_string(),
        problem: "p".to_string(),
        solution: "s".to_string(),
        claims: vec!["c".to_string()],
        cpc_code: "A".to_string(),
        created_at: 0,
    }
}

fn proof_row(id: u64, summary_id: u64) -> Proof {
    Proof {
        id,
        summary_id,
        hash: "00".to_string(),
        hedera_tx_id: "0.0.1@1".to_string(),
        timestamp: 0,
        created_at: 0,
    }
}

#[test]
fn duplicate_user_id_is_refused() {
    let mut store = Store::new();
    assert!(store.insert_user(user(1)).is_ok());
    assert_eq!(store.insert_user(user(1)), Err(PipelineError::StorageFailure));
    assert_eq!(store.users.len(), 1);
}

#[test]
fn idea_needs_its_user_on_file() {
    let mut store = Store::new();
    assert_eq!(store.insert_idea(idea(10, 1)), Err(PipelineError::StorageFailure));
    assert!(store.insert_user(user(1)).is_ok());
    assert!(store.insert_idea(idea(10, 1)).is_ok());
    assert_eq!(store.insert_idea(idea(10, 1)), Err(PipelineError::StorageFailure));
}

#[test]
fn one_summary_per_idea() {
    let mut store = Store::new();
    assert!(store.insert_user(user(1)).is_ok());
    assert!(store.insert_idea(idea(10, 1)).is_ok());
    assert!(store.insert_summary(summary(100, 10)).is_ok());
    assert_eq!(
        store.insert_summary(summary(101, 10)),
        Err(PipelineError::StorageFailure)
    );
    assert_eq!(store.summaries.len(), 1);
}

#[test]
fn summary_needs_its_idea_on_file() {
    let mut store = Store::new();
    assert!(store.insert_user(user(1)).is_ok());
    assert_eq!(
        store.insert_summary(summary(100, 10)),
        Err(PipelineError::StorageFailure)
    );
}

#[test]
fn at_most_one_proof_per_summary() {
    let mut store = Store::new();
    assert!(store.insert_user(user(1)).is_ok());
    assert!(store.insert_idea(idea(10, 1)).is_ok());
    assert!(store.insert_summary(summary(100, 10)).is_ok());
    assert!(store.insert_proof(proof_row(200, 100)).is_ok());
    assert_eq!(
        store.insert_proof(proof_row(201, 100)),
        Err(PipelineError::StorageFailure)
    );
    assert_eq!(store.proofs.len(), 1);
}

#[test]
fn proof_needs_its_summary_on_file() {
    let mut store = Store::new();
    assert_eq!(
        store.insert_proof(proof_row(200, 100)),
        Err(PipelineError::StorageFailure)
    );
}

#[test]
fn lookups_find_what_was_inserted() {
    let mut store = Store::new();
    assert!(store.insert_user(user(1)).is_ok());
    assert!(store.insert_idea(idea(10, 1)).is_ok());
    assert!(store.insert_summary(summary(100, 10)).is_ok());
    assert!(store.insert_proof(proof_row(200, 100)).is_ok());

    assert_eq!(store.user_by_id(1).map(|u| u.id), Some(1));
    assert_eq!(store.idea_by_id(10).map(|i| i.raw_idea), Some("an idea".to_string()));
    assert_eq!(store.summary_by_id(100).map(|s| s.idea_id), Some(10));
    assert_eq!(store.summary_for_idea(10).map(|s| s.id), Some(100));
    assert_eq!(store.proof_for_summary(100).map(|p| p.id), Some(200));

    assert!(store.user_by_id(2).is_none());
    assert!(store.idea_by_id(11).is_none());
    assert!(store.summary_by_id(101).is_none());
    assert!(store.summary_for_idea(11).is_none());
    assert!(store.proof_for_summary(101).is_none());
}

#[test]
fn status_is_recomputed_from_rows() {
    let mut store = Store::new();
    let s0 = store.status(10);
    assert!(!s0.idea_received && !s0.ia_summary_ready && !s0.hedera_proof_registered);

    assert!(store.insert_user(user(1)).is_ok());
    assert!(store.insert_idea(idea(10, 1)).is_ok());
    let s1 = store.status(10);
    assert!(s1.idea_received && !s1.ia_summary_ready && !s1.hedera_proof_registered);

    assert!(store.insert_summary(summary(100, 10)).is_ok());
    let s2 = store.status(10);
    assert!(s2.idea_received && s2.ia_summary_ready && !s2.hedera_proof_registered);

    assert!(store.insert_proof(proof_row(200, 100)).is_ok());
    let s3 = store.status(10);
    assert!(s3.idea_received && s3.ia_summary_ready && s3.hedera_proof_registered);
    assert!(!s3.agent_validated && !s3.office_submitted);
}
