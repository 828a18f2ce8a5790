use vstd::prelude::*;

verus! {

/// A registered author. Identifiers are plain integers; the surrounding
/// application maps them to whatever identifier scheme its storage uses.
/// Times are seconds since the Unix epoch, UTC.
#[derive(Debug, PartialEq, Eq)]
pub struct User {
    pub id: u64,
    pub full_name: String,
    pub email: String,
    pub phone: Option<String>,
    pub country: Option<String>,
    pub wallet_address: String,
    pub created_at: i64,
}

/// A free-text idea submission, immutable once captured.
#[derive(Debug, PartialEq, Eq)]
pub struct Idea {
    pub id: u64,
    pub user_id: u64,
    pub raw_idea: String,
    pub created_at: i64,
}

/// The structured form of an idea, produced once by the structuring
/// service and immutable thereafter. The claims keep their order.
#[derive(Debug, PartialEq, Eq)]
pub struct Summary {
    pub id: u64,
    pub idea_id: u64,
    pub title: String,
    pub problem: String,
    pub solution: String,
    pub claims: Vec<String>,
    pub cpc_code: String,
    pub created_at: i64,
}

/// What the structuring service returns for one idea. The novelty score
/// (0 to 100) only feeds the admission gate and is never hashed or stored.
#[derive(Debug, PartialEq, Eq)]
pub struct AiResponse {
    pub title: String,
    pub problem: String,
    pub solution: String,
    pub claims: Vec<String>,
    pub cpc_code: String,
    pub novelty_score: u8,
}

/// The anchoring outcome for one summary: the content hash that was
/// submitted and the ledger transaction that carries it. Created at most
/// once per summary and never mutated.
#[derive(Debug, PartialEq, Eq)]
pub struct Proof {
    pub id: u64,
    pub summary_id: u64,
    pub hash: String,
    pub hedera_tx_id: String,
    pub timestamp: i64,
    pub created_at: i64,
}

/// Payload of a registration request, before any identifier is assigned.
#[derive(Debug, PartialEq, Eq)]
pub struct RegisterUserRequest {
    pub full_name: String,
    pub email: String,
    pub phone: Option<String>,
    pub country: Option<String>,
    pub wallet_address: String,
}

#[derive(Debug, PartialEq, Eq)]
pub struct RegisterUserResponse {
    pub user_id: u64,
    pub message: String,
}

#[derive(Debug, PartialEq, Eq)]
pub struct SubmitIdeaRequest {
    pub user_id: u64,
    pub raw_idea: String,
}

#[derive(Debug, PartialEq, Eq)]
pub struct SubmitIdeaResponse {
    pub idea_id: u64,
    pub message: String,
}

/// The certificate a caller can fetch for an anchored summary.
#[derive(Debug, PartialEq, Eq)]
pub struct CertificateResponse {
    pub hash: String,
    pub timestamp: String,
    pub hedera_tx_id: String,
    pub explorer_url: String,
}

/// The pipeline status for one idea, recomputed on demand from the
/// presence or absence of its stored rows, never cached.
#[derive(Debug, PartialEq, Eq, Clone, Copy)]
pub struct StatusResponse {
    pub idea_received: bool,
    pub ia_summary_ready: bool,
    pub hedera_proof_registered: bool,
    pub agent_validated: bool,
    pub office_submitted: bool,
}

#[derive(Debug, PartialEq, Eq)]
pub struct HealthResponse {
    pub status: String,
    pub services: Vec<String>,
}

/// The error taxonomy. Every terminal failure keeps its own kind, so a
/// caller can tell "try again later" (`ServiceUnavailable`,
/// `AnchoringFailed`, `LedgerUnavailable`) from "this will never succeed"
/// (`ValidationRejected`, `NotFound`) from "contact an operator"
/// (`StorageFailure`).
#[derive(Debug, PartialEq, Eq, Clone, Copy)]
pub enum PipelineError {
    /// The novelty gate rejected the idea: a user-visible verdict, not a
    /// system error.
    ValidationRejected { novelty_score: u8 },
    /// The structuring service exhausted its retry budget.
    ServiceUnavailable { attempts: u8 },
    /// The ledger submission exhausted its retry budget; carries the last
    /// status the ledger reported, if any attempt got that far.
    AnchoringFailed { attempts: u8, last_status: Option<u32> },
    /// A ledger read failed during verification.
    LedgerUnavailable,
    /// Durable storage failed; never retried.
    StorageFailure,
    /// A referenced entity is absent.
    NotFound,
}

/// Turns an absent row into the `NotFound` error, the way every fetch
/// endpoint answers for a reference that is not on file.
pub fn require_found<T>(row: Option<T>) -> (r: Result<T, PipelineError>)
    ensures
        match row {
            Some(v) => r == Ok::<T, PipelineError>(v),
            None => r == Err::<T, PipelineError>(PipelineError::NotFound),
        },
{
    match row {
        Some(v) => Ok(v),
        None => Err(PipelineError::NotFound),
    }
}

impl Clone for User {
    /// Cloning keeps every field.
    fn clone(&self) -> (res: Self)
        ensures
            res == *self,
    {
        let res = User {
            id: self.id,
            full_name: self.full_name.clone(),
            email: self.email.clone(),
            phone: self.phone.clone(),
            country: self.country.clone(),
            wallet_address: self.wallet_address.clone(),
            created_at: self.created_at,
        };
        proof {
            assert(res.phone == self.phone);
            assert(res.country == self.country);
        }
        res
    }
}

impl Clone for Idea {
    /// Cloning keeps every field.
    fn clone(&self) -> (res: Self)
        ensures
            res == *self,
    {
        Idea {
            id: self.id,
            user_id: self.user_id,
            raw_idea: self.raw_idea.clone(),
            created_at: self.created_at,
        }
    }
}

impl Clone for Summary {
    /// Cloning keeps every field; the claims keep their order.
    fn clone(&self) -> (res: Self)
        ensures
            res.id == self.id,
            res.idea_id == self.idea_id,
            res.title == self.title,
            res.problem == self.problem,
            res.solution == self.solution,
            res.claims@ == self.claims@,
            res.cpc_code == self.cpc_code,
            res.created_at == self.created_at,
    {
        let claims = self.claims.clone();
        proof {
            assert(claims@ =~= self.claims@);
        }
        Summary {
            id: self.id,
            idea_id: self.idea_id,
            title: self.title.clone(),
            problem: self.problem.clone(),
            solution: self.solution.clone(),
            claims,
            cpc_code: self.cpc_code.clone(),
            created_at: self.created_at,
        }
    }
}

impl Clone for Proof {
    /// Cloning keeps every field.
    fn clone(&self) -> (res: Self)
        ensures
            res == *self,
    {
        Proof {
            id: self.id,
            summary_id: self.summary_id,
            hash: self.hash.clone(),
            hedera_tx_id: self.hedera_tx_id.clone(),
            timestamp: self.timestamp,
            created_at: self.created_at,
        }
    }
}

impl Clone for AiResponse {
    /// Cloning keeps every field; the claims keep their order.
    fn clone(&self) -> (res: Self)
        ensures
            res.title == self.title,
            res.problem == self.problem,
            res.solution == self.solution,
            res.claims@ == self.claims@,
            res.cpc_code == self.cpc_code,
            res.novelty_score == self.novelty_score,
    {
        let claims = self.claims.clone();
        proof {
            assert(claims@ =~= self.claims@);
        }
        AiResponse {
            title: self.title.clone(),
            problem: self.problem.clone(),
            solution: self.solution.clone(),
            claims,
            cpc_code: self.cpc_code.clone(),
            novelty_score: self.novelty_score,
        }
    }
}

} // verus!
