//! A provenance pipeline for free-text ideas: structure an idea through
//! an external service behind a bounded-retry client, gate it on its
//! novelty score, hash the structured record canonically, anchor the
//! hash on an append-only ledger behind a second bounded-retry client,
//! and later verify a stored record against what the ledger holds.

pub mod canon;
pub mod hashing;
pub mod ledger;
pub mod model;
pub mod pipeline;
pub mod reporting;
pub mod storage;
pub mod structuring;
pub mod timefmt;
pub mod verification;
