use vstd::prelude::*;
use crate::canon::{
    anchor_message_of, extract_hash, extracted_hash, same_content, RecordContent,
};
use crate::hashing::{digest, digest_of, lemma_anchor_carries_digest};
use crate::model::{Proof, Summary};

verus! {

/// What the ledger lookup came back with: the newest messages of the
/// anchoring channel, or nothing because the read itself failed. Reads
/// are never retried.
#[derive(Debug, PartialEq, Eq)]
pub enum LookupResult {
    Messages(Vec<String>),
    Unavailable,
}

/// Why a verification fell short.
#[derive(Debug, PartialEq, Eq, Clone, Copy)]
pub enum MismatchReason {
    /// The ledger could not be read; best effort ends here.
    LedgerUnavailable,
    /// The ledger was read, but no returned message carries the
    /// recomputed hash.
    HashNotOnLedger,
}

/// The verdict on one stored record.
#[derive(Debug, PartialEq, Eq)]
pub enum VerificationResult {
    /// No transaction reference is on file yet: not an error, the
    /// record is simply not anchored.
    Pending,
    /// The record was checked against the ledger. `computed_hash` is
    /// the freshly recomputed content hash, shown in either case.
    Verified { valid: bool, computed_hash: String, mismatch_reason: Option<MismatchReason> },
}

/// Some returned message carries exactly this hash.
pub open spec fn some_message_carries(msgs: Seq<Seq<char>>, h: Seq<char>) -> bool {
    exists|i: int| 0 <= i < msgs.len() && extracted_hash(msgs[i]) == Some(h)
}

/// The verdict as a mathematical value.
#[verifier::ext_equal]
pub struct VerdictView {
    pub pending: bool,
    pub valid: bool,
    pub computed_hash: Seq<char>,
    pub mismatch_reason: Option<MismatchReason>,
}

pub open spec fn view_of(r: VerificationResult) -> VerdictView {
    match r {
        VerificationResult::Pending => VerdictView {
            pending: true,
            valid: false,
            computed_hash: Seq::empty(),
            mismatch_reason: None,
        },
        VerificationResult::Verified { valid, computed_hash, mismatch_reason } => VerdictView {
            pending: false,
            valid,
            computed_hash: computed_hash@,
            mismatch_reason,
        },
    }
}

pub open spec fn lookup_view(l: LookupResult) -> Option<Seq<Seq<char>>> {
    match l {
        LookupResult::Messages(msgs) => Some(msgs@.map_values(|m: String| m@)),
        LookupResult::Unavailable => None,
    }
}

/// The whole verification decision: a pure function of the record's
/// content, whether a proof is on file, and what the lookup returned.
/// Validity needs both a proof on file and a returned message carrying
/// the recomputed hash; a failed read downgrades to invalid with the
/// failure as the reason, never to an error.
pub open spec fn verdict_of(
    content: RecordContent,
    anchored: bool,
    lookup: Option<Seq<Seq<char>>>,
) -> VerdictView {
    if !anchored {
        VerdictView { pending: true, valid: false, computed_hash: Seq::empty(), mismatch_reason: None }
    } else {
        match lookup {
            None => VerdictView {
                pending: false,
                valid: false,
                computed_hash: digest_of(content),
                mismatch_reason: Some(MismatchReason::LedgerUnavailable),
            },
            Some(msgs) => {
                if some_message_carries(msgs, digest_of(content)) {
                    VerdictView {
                        pending: false,
                        valid: true,
                        computed_hash: digest_of(content),
                        mismatch_reason: None,
                    }
                } else {
                    VerdictView {
                        pending: false,
                        valid: false,
                        computed_hash: digest_of(content),
                        mismatch_reason: Some(MismatchReason::HashNotOnLedger),
                    }
                }
            },
        }
    }
}

/// Checks a stored record against the ledger: recomputes the canonical
/// hash and scans the looked-up messages for it. Never anchors
/// anything; it only reads.
pub fn verify(summary: &Summary, stored_proof: Option<&Proof>, lookup: &LookupResult) -> (r:
    VerificationResult)
    ensures
        view_of(r) == verdict_of(summary.content(), stored_proof is Some, lookup_view(*lookup)),
{
    match stored_proof {
        None => {
            proof {
                assert(view_of(VerificationResult::Pending) =~= verdict_of(
                    summary.content(),
                    false,
                    lookup_view(*lookup),
                ));
            }
            VerificationResult::Pending
        },
        Some(_) => {
            let computed = digest(summary);
            match lookup {
                LookupResult::Unavailable => {
                    let r = VerificationResult::Verified {
                        valid: false,
                        computed_hash: computed,
                        mismatch_reason: Some(MismatchReason::LedgerUnavailable),
                    };
                    proof {
                        assert(view_of(r) =~= verdict_of(
                            summary.content(),
                            true,
                            lookup_view(*lookup),
                        ));
                    }
                    r
                },
                LookupResult::Messages(msgs) => {
                    let ghost mviews: Seq<Seq<char>> = msgs@.map_values(|m: String| m@);
                    let mut found = false;
                    let mut i: usize = 0;
                    while i < msgs.len()
                        invariant
                            i <= msgs@.len(),
                            mviews == msgs@.map_values(|m: String| m@),
                            computed@ == digest_of(summary.content()),
                            found == exists|k: int|
                                0 <= k < i && extracted_hash(mviews[k]) == Some(computed@),
                        decreases msgs@.len() - i,
                    {
                        match extract_hash(msgs[i].as_str()) {
                            Some(h) => {
                                if h == computed {
                                    proof {
                                        assert(mviews[i as int] == msgs@[i as int]@);
                                        assert(extracted_hash(mviews[i as int]) == Some(
                                            computed@,
                                        ));
                                    }
                                    found = true;
                                }
                            },
                            None => {},
                        }
                        proof {
                            assert(mviews[i as int] == msgs@[i as int]@);
                        }
                        i += 1;
                    }
                    let r = VerificationResult::Verified {
                        valid: found,
                        computed_hash: computed,
                        mismatch_reason: if found {
                            None
                        } else {
                            Some(MismatchReason::HashNotOnLedger)
                        },
                    };
                    proof {
                        assert(found == some_message_carries(mviews, digest_of(summary.content())));
                        assert(view_of(r) =~= verdict_of(
                            summary.content(),
                            true,
                            lookup_view(*lookup),
                        ));
                    }
                    r
                },
            }
        },
    }
}

/// Law: what a run anchors, verification finds. When the lookup returns
/// the very message a run submitted for a record — whatever else it
/// returns with it — the verdict on that record is valid and shows the
/// recomputed hash.
pub proof fn lemma_own_anchor_message_verifies(
    content: RecordContent,
    cpc: Seq<char>,
    wallet: Seq<char>,
    created_at: Seq<char>,
    msgs: Seq<Seq<char>>,
    i: int,
)
    requires
        0 <= i < msgs.len(),
        msgs[i] == anchor_message_of(digest_of(content), cpc, wallet, created_at),
    ensures
        verdict_of(content, true, Some(msgs)) == (VerdictView {
            pending: false,
            valid: true,
            computed_hash: digest_of(content),
            mismatch_reason: None,
        }),
{
    lemma_anchor_carries_digest(content, cpc, wallet, created_at);
    assert(extracted_hash(msgs[i]) == Some(digest_of(content)));
    assert(some_message_carries(msgs, digest_of(content)));
}

/// Law: verification is idempotent. Two runs over an unchanged record —
/// any two stored copies with the same content — the same anchoring
/// status and an unchanged ledger lookup come to the same verdict.
pub proof fn lemma_verification_idempotent(
    a: Summary,
    b: Summary,
    anchored: bool,
    lookup: Option<Seq<Seq<char>>>,
)
    requires
        same_content(a.content(), b.content()),
    ensures
        verdict_of(a.content(), anchored, lookup) == verdict_of(b.content(), anchored, lookup),
{
    assert(a.content() =~= b.content());
}

} // verus!
