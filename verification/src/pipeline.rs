use vstd::prelude::*;
use crate::canon::{anchor_message, anchor_message_of, same_content};
use crate::hashing::{digest, digest_of};
use crate::model::{AiResponse, Idea, PipelineError, Proof, Summary};
use crate::timefmt::{rfc3339_of, rfc3339_utc, MAX_TIMESTAMP};

verus! {

/// Admission threshold on the novelty score: ideas scoring below this
/// are turned away as probably not patentable.
pub const NOVELTY_THRESHOLD: u8 = 50;

/// An idea passes the admission gate exactly when its novelty score
/// reaches the threshold.
pub fn passes_novelty_gate(score: u8) -> (pass: bool)
    ensures
        pass == (score >= NOVELTY_THRESHOLD),
{
    score >= NOVELTY_THRESHOLD
}

/// Where one idea's run stands. Steps are strictly sequential: the hash
/// is computed only over a persisted summary, and anchoring is
/// requested only after the hash is computed.
#[derive(Debug, PartialEq, Eq)]
pub enum PipelineState {
    /// The raw idea is captured; nothing has been asked of anyone yet.
    Captured { idea: Idea, owner_wallet: String },
    /// The structuring client is at work on the raw text.
    Structuring { idea: Idea, owner_wallet: String },
    /// The novelty check let the idea through; the summary is being
    /// written to storage.
    Persisting { owner_wallet: String, summary: Summary },
    /// The summary is durable and hashed; the ledger client is at work.
    Anchoring { summary: Summary, hash: String },
    /// The ledger accepted the message; the proof is being written.
    RecordingProof { proof: Proof },
    /// Terminal: the proof is durable. The run is complete.
    Anchored { proof: Proof },
    /// Terminal: the run stopped with this error. A summary persisted
    /// before an anchoring failure stays persisted; such a run may be
    /// taken up again with `resume`.
    Failed { error: PipelineError },
}

/// What the surrounding application reports back into the run.
#[derive(Debug, PartialEq, Eq)]
pub enum PipelineEvent {
    /// Start the run.
    Begin,
    /// The structuring client came to its terminal result.
    StructuringFinished { result: Result<AiResponse, PipelineError> },
    /// Storage accepted (or refused) the summary row.
    SummaryPersisted { result: Result<(), PipelineError> },
    /// The ledger client came to its terminal result: the transaction
    /// reference, or the terminal anchoring error.
    AnchorFinished { result: Result<String, PipelineError> },
    /// Storage accepted (or refused) the proof row.
    ProofPersisted { result: Result<(), PipelineError> },
}

/// What the surrounding application must do next.
#[derive(Debug, PartialEq, Eq)]
pub enum PipelineAction {
    /// Run the structuring client on this raw text and report its
    /// terminal result.
    RunStructuring { raw_idea: String },
    /// Write this summary row and report whether storage took it.
    PersistSummary { summary: Summary },
    /// Run the ledger client with this canonical message and report its
    /// terminal result.
    RunAnchoring { message: String },
    /// Write this proof row and report whether storage took it.
    PersistProof { proof: Proof },
    /// Nothing: the run is in a terminal state, or the event did not
    /// belong to the current state and was ignored.
    Halt,
}

/// Fresh inputs a transition may consume: an unused row identifier and
/// the current time, both supplied by the caller.
#[derive(Debug, PartialEq, Eq, Clone, Copy)]
pub struct RunContext {
    pub fresh_id: u64,
    pub now: i64,
}

/// Summaries carried by a run have timestamps the formatter accepts.
pub open spec fn wf_state(s: PipelineState) -> bool {
    match s {
        PipelineState::Persisting { summary, .. } => 0 <= summary.created_at <= MAX_TIMESTAMP,
        PipelineState::Anchoring { summary, .. } => 0 <= summary.created_at <= MAX_TIMESTAMP,
        _ => true,
    }
}

/// Two summary rows that carry the same record: same identifiers, same
/// creation time, same hashed content.
pub open spec fn same_summary(a: Summary, b: Summary) -> bool {
    a.id == b.id && a.idea_id == b.idea_id && a.created_at == b.created_at && same_content(
        a.content(),
        b.content(),
    )
}

/// The whole transition relation of a run: what the next state and the
/// requested action are for every state and event. Events that do not
/// belong to the current state change nothing, and the two terminal
/// states absorb every event — in particular, an anchored record is
/// never anchored again.
pub open spec fn step_relation(
    state: PipelineState,
    event: PipelineEvent,
    ctx: RunContext,
    next: PipelineState,
    action: PipelineAction,
) -> bool {
    match (state, event) {
        (PipelineState::Captured { idea, owner_wallet }, PipelineEvent::Begin) => {
            &&& next == PipelineState::Structuring { idea, owner_wallet }
            &&& action matches PipelineAction::RunStructuring { raw_idea }
            &&& raw_idea@ == idea.raw_idea@
        },
        (
            PipelineState::Structuring { idea, owner_wallet },
            PipelineEvent::StructuringFinished { result },
        ) => match result {
            Ok(resp) => if resp.novelty_score < NOVELTY_THRESHOLD {
                &&& next == PipelineState::Failed {
                    error: PipelineError::ValidationRejected { novelty_score: resp.novelty_score },
                }
                &&& action is Halt
            } else {
                &&& next matches PipelineState::Persisting { owner_wallet: w, summary }
                &&& w@ == owner_wallet@
                &&& summary.id == ctx.fresh_id
                &&& summary.idea_id == idea.id
                &&& summary.created_at == ctx.now
                &&& same_content(summary.content(), resp.content())
                &&& action matches PipelineAction::PersistSummary { summary: s2 }
                &&& same_summary(s2, summary)
            },
            Err(e) => next == (PipelineState::Failed { error: e }) && action is Halt,
        },
        (
            PipelineState::Persisting { owner_wallet, summary },
            PipelineEvent::SummaryPersisted { result },
        ) => match result {
            Ok(_) => {
                &&& next matches PipelineState::Anchoring { summary: s2, hash }
                &&& same_summary(s2, summary)
                &&& hash@ == digest_of(summary.content())
                &&& action matches PipelineAction::RunAnchoring { message }
                &&& message@ == anchor_message_of(
                    digest_of(summary.content()),
                    summary.cpc_code@,
                    owner_wallet@,
                    rfc3339_of(summary.created_at as int),
                )
            },
            Err(e) => next == (PipelineState::Failed { error: e }) && action is Halt,
        },
        (PipelineState::Anchoring { summary, hash }, PipelineEvent::AnchorFinished { result }) => match result {
            Ok(tx_id) => {
                &&& next matches PipelineState::RecordingProof { proof }
                &&& proof.id == ctx.fresh_id
                &&& proof.summary_id == summary.id
                &&& proof.hash@ == hash@
                &&& proof.hedera_tx_id@ == tx_id@
                &&& proof.timestamp == summary.created_at
                &&& proof.created_at == ctx.now
                &&& action matches PipelineAction::PersistProof { proof: p2 }
                &&& p2 == proof
            },
            Err(e) => next == (PipelineState::Failed { error: e }) && action is Halt,
        },
        (PipelineState::RecordingProof { proof }, PipelineEvent::ProofPersisted { result }) => match result {
            Ok(_) => next == (PipelineState::Anchored { proof }) && action is Halt,
            Err(e) => next == (PipelineState::Failed { error: e }) && action is Halt,
        },
        _ => next == state && action is Halt,
    }
}

/// A fresh run for a captured idea, owned by the wallet that will stand
/// in the anchor message.
pub fn new_run(idea: Idea, owner_wallet: String) -> (s: PipelineState)
    ensures
        s == (PipelineState::Captured { idea, owner_wallet }),
{
    PipelineState::Captured { idea, owner_wallet }
}

/// One transition of the run. The caller performs the returned action,
/// reports its outcome as the next event, and calls again until the
/// action is `Halt`.
pub fn step(state: PipelineState, event: PipelineEvent, ctx: RunContext) -> (r: (
    PipelineState,
    PipelineAction,
))
    requires
        wf_state(state),
        0 <= ctx.now <= MAX_TIMESTAMP,
    ensures
        wf_state(r.0),
        step_relation(state, event, ctx, r.0, r.1),
{
    match (state, event) {
        (PipelineState::Captured { idea, owner_wallet }, PipelineEvent::Begin) => {
            let raw_idea = idea.raw_idea.clone();
            (
                PipelineState::Structuring { idea, owner_wallet },
                PipelineAction::RunStructuring { raw_idea },
            )
        },
        (
            PipelineState::Structuring { idea, owner_wallet },
            PipelineEvent::StructuringFinished { result },
        ) => {
            match result {
                Ok(resp) => {
                    if !passes_novelty_gate(resp.novelty_score) {
                        (
                            PipelineState::Failed {
                                error: PipelineError::ValidationRejected {
                                    novelty_score: resp.novelty_score,
                                },
                            },
                            PipelineAction::Halt,
                        )
                    } else {
                        let summary = Summary {
                            id: ctx.fresh_id,
                            idea_id: idea.id,
                            title: resp.title,
                            problem: resp.problem,
                            solution: resp.solution,
                            claims: resp.claims,
                            cpc_code: resp.cpc_code,
                            created_at: ctx.now,
                        };
                        let s2 = summary.clone();
                        proof {
                            assert(same_content(summary.content(), resp.content()));
                            assert(same_content(s2.content(), summary.content()));
                        }
                        (
                            PipelineState::Persisting { owner_wallet, summary },
                            PipelineAction::PersistSummary { summary: s2 },
                        )
                    }
                },
                Err(e) => (PipelineState::Failed { error: e }, PipelineAction::Halt),
            }
        },
        (
            PipelineState::Persisting { owner_wallet, summary },
            PipelineEvent::SummaryPersisted { result },
        ) => {
            match result {
                Ok(_) => {
                    let hash = digest(&summary);
                    let stamp = rfc3339_utc(summary.created_at);
                    let message = anchor_message(
                        hash.as_str(),
                        summary.cpc_code.as_str(),
                        owner_wallet.as_str(),
                        stamp.as_str(),
                    );
                    (
                        PipelineState::Anchoring { summary, hash },
                        PipelineAction::RunAnchoring { message },
                    )
                },
                Err(e) => (PipelineState::Failed { error: e }, PipelineAction::Halt),
            }
        },
        (PipelineState::Anchoring { summary, hash }, PipelineEvent::AnchorFinished { result }) => {
            match result {
                Ok(tx_id) => {
                    let proof = Proof {
                        id: ctx.fresh_id,
                        summary_id: summary.id,
                        hash,
                        hedera_tx_id: tx_id,
                        timestamp: summary.created_at,
                        created_at: ctx.now,
                    };
                    let p2 = proof.clone();
                    (
                        PipelineState::RecordingProof { proof },
                        PipelineAction::PersistProof { proof: p2 },
                    )
                },
                Err(e) => (PipelineState::Failed { error: e }, PipelineAction::Halt),
            }
        },
        (PipelineState::RecordingProof { proof }, PipelineEvent::ProofPersisted { result }) => {
            match result {
                Ok(_) => (PipelineState::Anchored { proof }, PipelineAction::Halt),
                Err(e) => (PipelineState::Failed { error: e }, PipelineAction::Halt),
            }
        },
        (s, _) => (s, PipelineAction::Halt),
    }
}

/// Takes up a run again for a summary that is already durable. An
/// existing proof is authoritative: the run lands in `Anchored` and
/// nothing is submitted again. Without one, hashing is repeated — it is
/// pure — and anchoring is requested, which is safe because no proof
/// was ever recorded for this summary.
pub fn resume(summary: Summary, owner_wallet: String, existing_proof: Option<Proof>) -> (r: (
    PipelineState,
    PipelineAction,
))
    requires
        0 <= summary.created_at <= MAX_TIMESTAMP,
    ensures
        wf_state(r.0),
        existing_proof matches Some(p) ==> r.0 == (PipelineState::Anchored { proof: p })
            && r.1 is Halt,
        existing_proof is None ==> {
            &&& r.0 matches PipelineState::Anchoring { summary: s2, hash }
            &&& same_summary(s2, summary)
            &&& hash@ == digest_of(summary.content())
            &&& r.1 matches PipelineAction::RunAnchoring { message }
            &&& message@ == anchor_message_of(
                digest_of(summary.content()),
                summary.cpc_code@,
                owner_wallet@,
                rfc3339_of(summary.created_at as int),
            )
        },
{
    match existing_proof {
        Some(p) => (PipelineState::Anchored { proof: p }, PipelineAction::Halt),
        None => {
            let hash = digest(&summary);
            let stamp = rfc3339_utc(summary.created_at);
            let message = anchor_message(
                hash.as_str(),
                summary.cpc_code.as_str(),
                owner_wallet.as_str(),
                stamp.as_str(),
            );
            (PipelineState::Anchoring { summary, hash }, PipelineAction::RunAnchoring { message })
        },
    }
}

/// Law: a finished run is finished. Terminal states absorb every event
/// and ask for nothing — in particular a run that anchored once never
/// asks for another submission, and a failed run retries nothing by
/// itself.
pub proof fn lemma_terminal_absorbing(
    state: PipelineState,
    event: PipelineEvent,
    ctx: RunContext,
    next: PipelineState,
    action: PipelineAction,
)
    requires
        step_relation(state, event, ctx, next, action),
        state is Anchored || state is Failed,
    ensures
        next == state,
        action is Halt,
{
}

/// Law: an anchoring submission is requested only by the transition out
/// of `Persisting`, right after storage took the summary — so each run
/// asks for at most one anchoring, and only over a durable record.
pub proof fn lemma_anchoring_needs_persisted_summary(
    state: PipelineState,
    event: PipelineEvent,
    ctx: RunContext,
    next: PipelineState,
    action: PipelineAction,
)
    requires
        step_relation(state, event, ctx, next, action),
        action is RunAnchoring,
    ensures
        state is Persisting,
        event matches PipelineEvent::SummaryPersisted { result } && result is Ok,
        next is Anchoring,
{
}

/// Law: the admission gate decides alone. A structuring result at or
/// above the threshold moves the run to persistence; one below it ends
/// the run as `ValidationRejected` — a verdict, not a system error —
/// and nothing is ever persisted for it.
pub proof fn lemma_gate_decides(
    idea: Idea,
    owner_wallet: String,
    resp: AiResponse,
    ctx: RunContext,
    next: PipelineState,
    action: PipelineAction,
)
    requires
        step_relation(
            PipelineState::Structuring { idea, owner_wallet },
            PipelineEvent::StructuringFinished { result: Ok(resp) },
            ctx,
            next,
            action,
        ),
    ensures
        resp.novelty_score >= NOVELTY_THRESHOLD <==> (next is Persisting
            && action is PersistSummary),
        resp.novelty_score < NOVELTY_THRESHOLD ==> next == (PipelineState::Failed {
            error: PipelineError::ValidationRejected { novelty_score: resp.novelty_score },
        }) && action is Halt,
{
}

/// Law: a terminal structuring failure ends the run with that same
/// error and asks for nothing: no summary row is ever written for it.
pub proof fn lemma_structuring_failure_persists_nothing(
    idea: Idea,
    owner_wallet: String,
    e: PipelineError,
    ctx: RunContext,
    next: PipelineState,
    action: PipelineAction,
)
    requires
        step_relation(
            PipelineState::Structuring { idea, owner_wallet },
            PipelineEvent::StructuringFinished { result: Err(e) },
            ctx,
            next,
            action,
        ),
    ensures
        next == (PipelineState::Failed { error: e }),
        action is Halt,
{
}

} // verus!
