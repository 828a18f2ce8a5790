use brevetchain::canon::{anchor_message, canonical_payload, extract_hash};
use brevetchain::hashing::digest;
use brevetchain::model::Summary;
use sha2::Digest;

fn sample_summary() -> Summary {
    Summary {
        id: 1,
        idea_id: 2,
        title: "Solar umbrella".to_string(),
        problem: "Sun exposure".to_string(),
        solution: "Panels on the canopy".to_string(),
        claims: vec!["A canopy with panels".to_string(), "A battery in the shaft".to_string()],
        cpc_code: "A45B".to_string(),
        created_at: 1_700_000_000,
    }
}

fn sha256_hex(s: &str) -> String {
    let out = sha2::Sha256::digest(s.as_bytes());
    let mut hex = String::new();
    for b in out.as_slice() {
        hex.push_str(&format!("{:02x}", b));
    }
    hex
}

#[test]
fn canonical_payload_has_fixed_shape() {
    let s = sample_summary();
    let expected = "{\"title\":\"Solar umbrella\",\"problem\":\"Sun exposure\",\"solution\":\"Panels on the canopy\",\"claims\":[\"A canopy with panels\",\"A battery in the shaft\"],\"cpc_code\":\"A45B\"}";
    assert_eq!(canonical_payload(&s), expected);
}

#[test]
fn canonical_payload_escapes_quotes_and_backslashes() {
    let mut s = sample_summary();
    s.title = "a \"quoted\" name".to_string();
    s.problem = "a back\\slash".to_string();
    s.claims = vec!["claim \"one\"".to_string()];
    let expected = "{\"title\":\"a \\\"quoted\\\" name\",\"problem\":\"a back\\\\slash\",\"solution\":\"Panels on the canopy\",\"claims\":[\"claim \\\"one\\\"\"],\"cpc_code\":\"A45B\"}";
    assert_eq!(canonical_payload(&s), expected);
}

#[test]
fn canonical_payload_of_empty_fields() {
    let s = Summary {
        id: 0,
        idea_id: 0,
        title: String::new(),
        problem: String::new(),
        solution: String::new(),
        claims: Vec::new(),
        cpc_code: String::new(),
        created_at: 0,
    };
    assert_eq!(canonical_payload(&s), "{\"title\":\"\",\"problem\":\"\",\"solution\":\"\",\"claims\":[],\"cpc_code\":\"\"}");
}

#[test]
fn digest_matches_reference_sha256() {
    let s = sample_summary();
    let payload = canonical_payload(&s);
    assert_eq!(digest(&s), sha256_hex(&payload));
    assert_eq!(digest(&s).len(), 64);
}

#[test]
fn digest_ignores_identifiers_and_times() {
    let a = sample_summary();
    let mut b = sample_summary();
    b.id = 999;
    b.idea_id = 888;
    b.created_at = 1;
    assert_eq!(digest(&a), digest(&b));
}

#[test]
fn digest_differs_under_perturbations() {
    let base = sample_summary();
    let d0 = digest(&base);

    let mut t = sample_summary();
    t.title = "Solar umbrellas".to_string();
    assert_ne!(digest(&t), d0);

    let mut p = sample_summary();
    p.problem = "sun exposure".to_string();
    assert_ne!(digest(&p), d0);

    let mut s = sample_summary();
    s.solution = "Panels on the canopy ".to_string();
    assert_ne!(digest(&s), d0);

    let mut c = sample_summary();
    c.cpc_code = "A45C".to_string();
    assert_ne!(digest(&c), d0);

    let mut dropped = sample_summary();
    dropped.claims.pop();
    assert_ne!(digest(&dropped), d0);

    let mut reordered = sample_summary();
    reordered.claims.reverse();
    assert_ne!(digest(&reordered), d0);

    let mut edited = sample_summary();
    edited.claims[0] = "A canopy with panel".to_string();
    assert_ne!(digest(&edited), d0);
}

#[test]
fn digest_differs_when_claim_boundaries_move() {
    let mut a = sample_summary();
    a.claims = vec!["ab".to_string(), "c".to_string()];
    let mut b = sample_summary();
    b.claims = vec!["a".to_string(), "bc".to_string()];
    assert_ne!(digest(&a), digest(&b));
}

#[test]
fn anchor_message_roundtrips_its_hash() {
    let s = sample_summary();
    let h = digest(&s);
    let m = anchor_message(&h, "A45B", "wallet-1", "2023-11-14T22:13:20+00:00");
    assert_eq!(extract_hash(&m), Some(h));
}

#[test]
fn extract_hash_refuses_other_shapes() {
    assert_eq!(extract_hash(""), None);
    assert_eq!(extract_hash("{\"cpc_code\":\"A\",\"hash\":\"abc\"}"), None);
    assert_eq!(extract_hash("{\"hash\":\"unterminated"), None);
    assert_eq!(extract_hash("{\"hash\":\"abc\"}"), Some("abc".to_string()));
}
