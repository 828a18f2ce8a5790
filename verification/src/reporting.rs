use vstd::prelude::*;
use vstd::string::StringExecFns;
use crate::model::{
    CertificateResponse, HealthResponse, Proof, RegisterUserResponse, SubmitIdeaResponse,
};
use crate::timefmt::{rfc3339_of, rfc3339_utc, MAX_TIMESTAMP};

verus! {

/// Where a reader can inspect an anchoring transaction.
pub open spec fn explorer_url_of(tx_id: Seq<char>) -> Seq<char> {
    "https://hashscan.io/testnet/transaction/"@ + tx_id
}

/// The certificate for an anchored record: the stored hash and
/// transaction reference, the anchoring time rendered as RFC 3339, and
/// the explorer address of the transaction.
pub fn certificate(proof: &Proof) -> (r: CertificateResponse)
    requires
        0 <= proof.timestamp <= MAX_TIMESTAMP,
    ensures
        r.hash@ == proof.hash@,
        r.timestamp@ == rfc3339_of(proof.timestamp as int),
        r.hedera_tx_id@ == proof.hedera_tx_id@,
        r.explorer_url@ == explorer_url_of(proof.hedera_tx_id@),
{
    let mut explorer_url = String::new();
    explorer_url.append("https://hashscan.io/testnet/transaction/");
    explorer_url.append(proof.hedera_tx_id.as_str());
    CertificateResponse {
        hash: proof.hash.clone(),
        timestamp: rfc3339_utc(proof.timestamp),
        hedera_tx_id: proof.hedera_tx_id.clone(),
        explorer_url,
    }
}

/// The fixed health report: the service is up and speaks to its three
/// collaborators.
pub fn health() -> (r: HealthResponse)
    ensures
        r.status@ == "ok"@,
        r.services@.len() == 3,
        r.services@[0]@ == "database"@,
        r.services@[1]@ == "hedera"@,
        r.services@[2]@ == "ai"@,
{
    let mut services: Vec<String> = Vec::new();
    services.push("database".to_owned());
    services.push("hedera".to_owned());
    services.push("ai".to_owned());
    HealthResponse { status: "ok".to_owned(), services }
}

/// The reply to a successful registration.
pub fn register_user_response(user_id: u64) -> (r: RegisterUserResponse)
    ensures
        r.user_id == user_id,
        r.message@ == "Utilisateur enregistré avec succès"@,
{
    RegisterUserResponse { user_id, message: "Utilisateur enregistré avec succès".to_owned() }
}

/// The reply to a successful idea submission.
pub fn submit_idea_response(idea_id: u64) -> (r: SubmitIdeaResponse)
    ensures
        r.idea_id == idea_id,
        r.message@ == "Idée enregistrée avec succès"@,
{
    SubmitIdeaResponse { idea_id, message: "Idée enregistrée avec succès".to_owned() }
}

} // verus!
