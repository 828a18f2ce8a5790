use vstd::prelude::*;
use crate::model::{Idea, PipelineError, Proof, StatusResponse, Summary, User};
use crate::pipeline::same_summary;

verus! {

/// The in-memory model of the durable rows the pipeline touches. It
/// keeps the relational rules the schema enforced: identifiers are
/// unique, a summary refers to a stored idea and is the only one for
/// it, and a proof refers to a stored summary and is the only one for
/// it — anchoring outcomes are recorded at most once per summary.
pub struct Store {
    pub users: Vec<User>,
    pub ideas: Vec<Idea>,
    pub summaries: Vec<Summary>,
    pub proofs: Vec<Proof>,
}

impl Store {
    pub open spec fn wf(self) -> bool {
        &&& forall|i: int, j: int|
            0 <= i < j < self.users@.len() ==> self.users@[i].id != self.users@[j].id
        &&& forall|i: int, j: int|
            0 <= i < j < self.ideas@.len() ==> self.ideas@[i].id != self.ideas@[j].id
        &&& forall|i: int, j: int|
            0 <= i < j < self.summaries@.len() ==> self.summaries@[i].id != self.summaries@[j].id
        &&& forall|i: int, j: int|
            0 <= i < j < self.summaries@.len() ==> self.summaries@[i].idea_id
                != self.summaries@[j].idea_id
        &&& forall|i: int, j: int|
            0 <= i < j < self.proofs@.len() ==> self.proofs@[i].id != self.proofs@[j].id
        &&& forall|i: int, j: int|
            0 <= i < j < self.proofs@.len() ==> self.proofs@[i].summary_id
                != self.proofs@[j].summary_id
    }

    pub open spec fn has_user(self, id: u64) -> bool {
        exists|i: int| 0 <= i < self.users@.len() && self.users@[i].id == id
    }

    pub open spec fn has_idea(self, id: u64) -> bool {
        exists|i: int| 0 <= i < self.ideas@.len() && self.ideas@[i].id == id
    }

    pub open spec fn has_summary(self, id: u64) -> bool {
        exists|i: int| 0 <= i < self.summaries@.len() && self.summaries@[i].id == id
    }

    pub open spec fn has_summary_for_idea(self, idea_id: u64) -> bool {
        exists|i: int| 0 <= i < self.summaries@.len() && self.summaries@[i].idea_id == idea_id
    }

    pub open spec fn has_proof_for_summary(self, summary_id: u64) -> bool {
        exists|i: int| 0 <= i < self.proofs@.len() && self.proofs@[i].summary_id == summary_id
    }

    /// An idea that has a summary whose anchoring proof is on file.
    pub open spec fn proof_registered_for_idea(self, idea_id: u64) -> bool {
        exists|i: int|
            0 <= i < self.summaries@.len() && self.summaries@[i].idea_id == idea_id
                && self.has_proof_for_summary(self.summaries@[i].id)
    }

    pub fn new() -> (s: Store)
        ensures
            s.wf(),
            s.users@.len() == 0,
            s.ideas@.len() == 0,
            s.summaries@.len() == 0,
            s.proofs@.len() == 0,
    {
        Store { users: Vec::new(), ideas: Vec::new(), summaries: Vec::new(), proofs: Vec::new() }
    }

    /// Writes a new user row. Refused — and nothing changes — exactly
    /// when the identifier is already taken.
    pub fn insert_user(&mut self, u: User) -> (r: Result<(), PipelineError>)
        requires
            old(self).wf(),
        ensures
            final(self).wf(),
            r is Ok <==> !old(self).has_user(u.id),
            r is Ok ==> final(self).users@ == old(self).users@.push(u),
            r is Err ==> final(self).users@ == old(self).users@ && r == Err::<(), PipelineError>(
                PipelineError::StorageFailure,
            ),
            final(self).ideas@ == old(self).ideas@,
            final(self).summaries@ == old(self).summaries@,
            final(self).proofs@ == old(self).proofs@,
    {
        let mut i: usize = 0;
        while i < self.users.len()
            invariant
                self.wf(),
                self.users@ == old(self).users@,
                self.ideas@ == old(self).ideas@,
                self.summaries@ == old(self).summaries@,
                self.proofs@ == old(self).proofs@,
                i <= self.users@.len(),
                forall|k: int| 0 <= k < i ==> self.users@[k].id != u.id,
            decreases self.users@.len() - i,
        {
            if self.users[i].id == u.id {
                return Err(PipelineError::StorageFailure);
            }
            i += 1;
        }
        self.users.push(u);
        Ok(())
    }

    /// Writes a new idea row. Refused — and nothing changes — when the
    /// identifier is taken or the owning user is not on file.
    pub fn insert_idea(&mut self, idea: Idea) -> (r: Result<(), PipelineError>)
        requires
            old(self).wf(),
        ensures
            final(self).wf(),
            r is Ok <==> (!old(self).has_idea(idea.id) && old(self).has_user(idea.user_id)),
            r is Ok ==> final(self).ideas@ == old(self).ideas@.push(idea),
            r is Err ==> final(self).ideas@ == old(self).ideas@ && r == Err::<(), PipelineError>(
                PipelineError::StorageFailure,
            ),
            final(self).users@ == old(self).users@,
            final(self).summaries@ == old(self).summaries@,
            final(self).proofs@ == old(self).proofs@,
    {
        let mut i: usize = 0;
        while i < self.ideas.len()
            invariant
                self.wf(),
                self.users@ == old(self).users@,
                self.ideas@ == old(self).ideas@,
                self.summaries@ == old(self).summaries@,
                self.proofs@ == old(self).proofs@,
                i <= self.ideas@.len(),
                forall|k: int| 0 <= k < i ==> self.ideas@[k].id != idea.id,
            decreases self.ideas@.len() - i,
        {
            if self.ideas[i].id == idea.id {
                return Err(PipelineError::StorageFailure);
            }
            i += 1;
        }
        let mut j: usize = 0;
        let mut user_found = false;
        while j < self.users.len()
            invariant
                self.wf(),
                self.users@ == old(self).users@,
                self.ideas@ == old(self).ideas@,
                self.summaries@ == old(self).summaries@,
                self.proofs@ == old(self).proofs@,
                j <= self.users@.len(),
                user_found == exists|k: int| 0 <= k < j && self.users@[k].id == idea.user_id,
            decreases self.users@.len() - j,
        {
            if self.users[j].id == idea.user_id {
                user_found = true;
            }
            j += 1;
        }
        if !user_found {
            return Err(PipelineError::StorageFailure);
        }
        self.ideas.push(idea);
        Ok(())
    }

    /// Writes a new summary row. Refused — and nothing changes — when
    /// the identifier is taken, the parent idea is not on file, or the
    /// idea already has its summary: a record is structured exactly
    /// once per idea.
    pub fn insert_summary(&mut self, summary: Summary) -> (r: Result<(), PipelineError>)
        requires
            old(self).wf(),
        ensures
            final(self).wf(),
            r is Ok <==> (!old(self).has_summary(summary.id) && old(self).has_idea(summary.idea_id)
                && !old(self).has_summary_for_idea(summary.idea_id)),
            r is Ok ==> final(self).summaries@ == old(self).summaries@.push(summary),
            r is Err ==> final(self).summaries@ == old(self).summaries@ && r == Err::<(),
                PipelineError,
            >(PipelineError::StorageFailure),
            final(self).users@ == old(self).users@,
            final(self).ideas@ == old(self).ideas@,
            final(self).proofs@ == old(self).proofs@,
    {
        let mut i: usize = 0;
        while i < self.summaries.len()
            invariant
                self.wf(),
                self.users@ == old(self).users@,
                self.ideas@ == old(self).ideas@,
                self.summaries@ == old(self).summaries@,
                self.proofs@ == old(self).proofs@,
                i <= self.summaries@.len(),
                forall|k: int|
                    0 <= k < i ==> self.summaries@[k].id != summary.id && self.summaries@[k].idea_id
                        != summary.idea_id,
            decreases self.summaries@.len() - i,
        {
            let row = &self.summaries[i];
            if row.id == summary.id || row.idea_id == summary.idea_id {
                return Err(PipelineError::StorageFailure);
            }
            i += 1;
        }
        let mut j: usize = 0;
        let mut idea_found = false;
        while j < self.ideas.len()
            invariant
                self.wf(),
                self.users@ == old(self).users@,
                self.ideas@ == old(self).ideas@,
                self.summaries@ == old(self).summaries@,
                self.proofs@ == old(self).proofs@,
                j <= self.ideas@.len(),
                idea_found == exists|k: int| 0 <= k < j && self.ideas@[k].id == summary.idea_id,
            decreases self.ideas@.len() - j,
        {
            if self.ideas[j].id == summary.idea_id {
                idea_found = true;
            }
            j += 1;
        }
        if !idea_found {
            return Err(PipelineError::StorageFailure);
        }
        self.summaries.push(summary);
        Ok(())
    }

    /// Records an anchoring outcome. Refused — and nothing changes —
    /// when the identifier is taken, the parent summary is not on file,
    /// or the summary already has its proof: at most one proof ever
    /// exists per summary, so an anchoring is never recorded twice.
    pub fn insert_proof(&mut self, proof: Proof) -> (r: Result<(), PipelineError>)
        requires
            old(self).wf(),
        ensures
            final(self).wf(),
            r is Ok <==> (!old(self).has_proof_for_summary(proof.summary_id) && old(
                self,
            ).has_summary(proof.summary_id) && !exists|i: int|
                0 <= i < old(self).proofs@.len() && old(self).proofs@[i].id == proof.id),
            r is Ok ==> final(self).proofs@ == old(self).proofs@.push(proof),
            r is Err ==> final(self).proofs@ == old(self).proofs@ && r == Err::<(), PipelineError>(
                PipelineError::StorageFailure,
            ),
            final(self).users@ == old(self).users@,
            final(self).ideas@ == old(self).ideas@,
            final(self).summaries@ == old(self).summaries@,
    {
        let mut i: usize = 0;
        while i < self.proofs.len()
            invariant
                self.wf(),
                self.users@ == old(self).users@,
                self.ideas@ == old(self).ideas@,
                self.summaries@ == old(self).summaries@,
                self.proofs@ == old(self).proofs@,
                i <= self.proofs@.len(),
                forall|k: int|
                    0 <= k < i ==> self.proofs@[k].id != proof.id && self.proofs@[k].summary_id
                        != proof.summary_id,
            decreases self.proofs@.len() - i,
        {
            let row = &self.proofs[i];
            if row.id == proof.id || row.summary_id == proof.summary_id {
                return Err(PipelineError::StorageFailure);
            }
            i += 1;
        }
        let mut j: usize = 0;
        let mut summary_found = false;
        while j < self.summaries.len()
            invariant
                self.wf(),
                self.users@ == old(self).users@,
                self.ideas@ == old(self).ideas@,
                self.summaries@ == old(self).summaries@,
                self.proofs@ == old(self).proofs@,
                j <= self.summaries@.len(),
                summary_found == exists|k: int|
                    0 <= k < j && self.summaries@[k].id == proof.summary_id,
            decreases self.summaries@.len() - j,
        {
            if self.summaries[j].id == proof.summary_id {
                summary_found = true;
            }
            j += 1;
        }
        if !summary_found {
            return Err(PipelineError::StorageFailure);
        }
        self.proofs.push(proof);
        Ok(())
    }

    /// Fetches an idea row by identifier.
    pub fn idea_by_id(&self, id: u64) -> (r: Option<Idea>)
        ensures
            match r {
                Some(idea) => idea.id == id && exists|i: int|
                    0 <= i < self.ideas@.len() && self.ideas@[i] == idea,
                None => !self.has_idea(id),
            },
    {
        let mut i: usize = 0;
        while i < self.ideas.len()
            invariant
                i <= self.ideas@.len(),
                forall|k: int| 0 <= k < i ==> self.ideas@[k].id != id,
            decreases self.ideas@.len() - i,
        {
            if self.ideas[i].id == id {
                return Some(self.ideas[i].clone());
            }
            i += 1;
        }
        None
    }

    /// Fetches a user row by identifier.
    pub fn user_by_id(&self, id: u64) -> (r: Option<User>)
        ensures
            match r {
                Some(u) => u.id == id && exists|i: int|
                    0 <= i < self.users@.len() && self.users@[i] == u,
                None => !self.has_user(id),
            },
    {
        let mut i: usize = 0;
        while i < self.users.len()
            invariant
                i <= self.users@.len(),
                forall|k: int| 0 <= k < i ==> self.users@[k].id != id,
            decreases self.users@.len() - i,
        {
            if self.users[i].id == id {
                return Some(self.users[i].clone());
            }
            i += 1;
        }
        None
    }

    /// Fetches a summary row by identifier.
    pub fn summary_by_id(&self, id: u64) -> (r: Option<Summary>)
        ensures
            match r {
                Some(s) => s.id == id && exists|i: int|
                    0 <= i < self.summaries@.len() && same_summary(s, self.summaries@[i]),
                None => !self.has_summary(id),
            },
    {
        let mut i: usize = 0;
        while i < self.summaries.len()
            invariant
                i <= self.summaries@.len(),
                forall|k: int| 0 <= k < i ==> self.summaries@[k].id != id,
            decreases self.summaries@.len() - i,
        {
            if self.summaries[i].id == id {
                let s = self.summaries[i].clone();
                proof {
                    assert(same_summary(s, self.summaries@[i as int]));
                }
                return Some(s);
            }
            i += 1;
        }
        None
    }

    /// Fetches the summary of an idea, if the idea has one.
    pub fn summary_for_idea(&self, idea_id: u64) -> (r: Option<Summary>)
        ensures
            match r {
                Some(s) => s.idea_id == idea_id && exists|i: int|
                    0 <= i < self.summaries@.len() && same_summary(s, self.summaries@[i]),
                None => !self.has_summary_for_idea(idea_id),
            },
    {
        let mut i: usize = 0;
        while i < self.summaries.len()
            invariant
                i <= self.summaries@.len(),
                forall|k: int| 0 <= k < i ==> self.summaries@[k].idea_id != idea_id,
            decreases self.summaries@.len() - i,
        {
            if self.summaries[i].idea_id == idea_id {
                let s = self.summaries[i].clone();
                proof {
                    assert(same_summary(s, self.summaries@[i as int]));
                }
                return Some(s);
            }
            i += 1;
        }
        None
    }

    /// Fetches the proof of a summary, if one was ever recorded.
    pub fn proof_for_summary(&self, summary_id: u64) -> (r: Option<Proof>)
        ensures
            match r {
                Some(p) => p.summary_id == summary_id && exists|i: int|
                    0 <= i < self.proofs@.len() && self.proofs@[i] == p,
                None => !self.has_proof_for_summary(summary_id),
            },
    {
        let mut i: usize = 0;
        while i < self.proofs.len()
            invariant
                i <= self.proofs@.len(),
                forall|k: int| 0 <= k < i ==> self.proofs@[k].summary_id != summary_id,
            decreases self.proofs@.len() - i,
        {
            if self.proofs[i].summary_id == summary_id {
                return Some(self.proofs[i].clone());
            }
            i += 1;
        }
        None
    }

    /// Law: a well-formed store never holds two proofs for one
    /// summary: any two proof rows that name the same summary are the
    /// same row.
    pub proof fn lemma_at_most_one_proof_per_summary(self, i: int, j: int)
        requires
            self.wf(),
            0 <= i < self.proofs@.len(),
            0 <= j < self.proofs@.len(),
            self.proofs@[i].summary_id == self.proofs@[j].summary_id,
        ensures
            i == j,
    {
    }

    /// Law: a well-formed store never holds two summaries for one
    /// idea: a record is structured at most once per idea.
    pub proof fn lemma_at_most_one_summary_per_idea(self, i: int, j: int)
        requires
            self.wf(),
            0 <= i < self.summaries@.len(),
            0 <= j < self.summaries@.len(),
            self.summaries@[i].idea_id == self.summaries@[j].idea_id,
        ensures
            i == j,
    {
    }

    /// The pipeline status of one idea, recomputed from what is on
    /// file right now. The two placeholder flags are always false.
    pub fn status(&self, idea_id: u64) -> (r: StatusResponse)
        requires
            self.wf(),
        ensures
            r.idea_received == self.has_idea(idea_id),
            r.ia_summary_ready == self.has_summary_for_idea(idea_id),
            r.hedera_proof_registered == self.proof_registered_for_idea(idea_id),
            r.agent_validated == false,
            r.office_submitted == false,
    {
        let idea_received = match self.idea_by_id(idea_id) {
            Some(_) => true,
            None => false,
        };
        let mut ia_summary_ready = false;
        let mut hedera_proof_registered = false;
        let mut i: usize = 0;
        while i < self.summaries.len()
            invariant
                self.wf(),
                i <= self.summaries@.len(),
                !ia_summary_ready ==> forall|k: int|
                    0 <= k < i ==> self.summaries@[k].idea_id != idea_id,
                ia_summary_ready ==> self.has_summary_for_idea(idea_id),
                hedera_proof_registered ==> self.proof_registered_for_idea(idea_id),
                !hedera_proof_registered ==> forall|k: int|
                    0 <= k < i ==> !(self.summaries@[k].idea_id == idea_id
                        && self.has_proof_for_summary(self.summaries@[k].id)),
            decreases self.summaries@.len() - i,
        {
            if self.summaries[i].idea_id == idea_id {
                ia_summary_ready = true;
                match self.proof_for_summary(self.summaries[i].id) {
                    Some(_) => {
                        hedera_proof_registered = true;
                    },
                    None => {},
                }
            }
            i += 1;
        }
        StatusResponse {
            idea_received,
            ia_summary_ready,
            hedera_proof_registered,
            agent_validated: false,
            office_submitted: false,
        }
    }
}

} // verus!
