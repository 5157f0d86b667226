use crate::account::AccountId;
use crate::call::{BlockNumber, Call, CallView, Proposal, ProposalView};
use crate::error::Error;
use crate::model::{lemma_listed_push, listed, stored_in, DaoState};
use crate::seq_util::{copied, vec_without};
use crate::tally::{ayes, cast_vote, count_ayes, Vote};
use crate::traits::{proposal_views, SuperDao, SuperDaoQuery};
use std::collections::HashMap;
use vstd::prelude::*;

verus! {

broadcast use vstd::std_specs::hash::group_hash_axioms;

/// The governance engine: members, pending proposals and their votes, and
/// the two settings fixed at construction.
pub struct Superdao {
    members: Vec<AccountId>,
    proposals: HashMap<u32, Proposal>,
    active_proposals: Vec<u32>,
    votes: HashMap<u32, Vec<(AccountId, Vote)>>,
    next_id: u32,
    vote_threshold: u8,
    voting_period: BlockNumber,
}

spec fn stored_proposals(stored: Map<u32, Proposal>) -> Map<u32, ProposalView> {
    stored.map_values(|p: Proposal| p@)
}

spec fn stored_tallies(stored: Map<u32, Vec<(AccountId, Vote)>>) -> Map<
    u32,
    Seq<(AccountId, Vote)>,
> {
    stored.map_values(|t: Vec<(AccountId, Vote)>| t@)
}

impl View for Superdao {
    type V = DaoState;

    closed spec fn view(&self) -> DaoState {
        DaoState {
            members: self.members@,
            proposals: stored_proposals(self.proposals@),
            active: self.active_proposals@,
            votes: stored_tallies(self.votes@),
            next_id: self.next_id,
            vote_threshold: self.vote_threshold,
            voting_period: self.voting_period,
        }
    }
}

/// What a resolution hands back, with the call taken by its view.
pub open spec fn verdict_view(r: Result<Option<Call>, Error>) -> Result<Option<CallView>, Error> {
    match r {
        Ok(Some(call)) => Ok(Some(call@)),
        Ok(None) => Ok(None),
        Err(e) => Err(e),
    }
}

impl Superdao {
    /// An engine with no members and no proposals.
    pub fn new(vote_threshold: u8, voting_period: BlockNumber) -> (r: Self)
        ensures
            r@ == DaoState::fresh(vote_threshold, voting_period),
            r@.wf(),
    {
        let r = Superdao {
            members: Vec::new(),
            proposals: HashMap::new(),
            active_proposals: Vec::new(),
            votes: HashMap::new(),
            next_id: 0,
            vote_threshold,
            voting_period,
        };
        proof {
            assert(r@.proposals =~= Map::<u32, ProposalView>::empty());
            assert(r@.votes =~= Map::<u32, Seq<(AccountId, Vote)>>::empty());
            assert(r@ =~= DaoState::fresh(vote_threshold, voting_period));
        }
        r
    }

    /// An engine with no members, threshold zero and a voting period of
    /// zero blocks.
    pub fn default() -> (r: Self)
        ensures
            r@ == DaoState::fresh(0, 0),
            r@.wf(),
    {
        Superdao::new(0, 0)
    }

    /// The identifier that the next proposal gets.
    pub fn next_id(&self) -> (r: u32)
        ensures
            r == self@.next_id,
    {
        self.next_id
    }

    /// The number of `Aye` votes recorded for a proposal.
    pub fn count_ayes(&self, proposal_id: u32) -> (n: usize)
        ensures
            n == ayes(self@.tally(proposal_id)),
    {
        match self.votes.get(&proposal_id) {
            Some(votes) => count_ayes(votes),
            None => {
                proof {
                    assert(Seq::<(AccountId, Vote)>::empty().filter(
                        |e: (AccountId, Vote)| e.1 == Vote::Aye,
                    ) =~= Seq::<(AccountId, Vote)>::empty());
                }
                0
            },
        }
    }

    /// Passes for a member and for nobody else.
    pub fn ensure_member(&self, caller: AccountId) -> (r: Result<(), Error>)
        ensures
            r == if self@.is_member(caller) {
                Ok::<(), Error>(())
            } else {
                Err::<(), Error>(Error::NotMember)
            },
    {
        if !self.is_member(caller) {
            return Err(Error::NotMember);
        }
        Ok(())
    }

    /// Passes for the identifier of a pending proposal and for no other.
    pub fn ensure_proposal_exists(&self, prop_id: u32) -> (r: Result<(), Error>)
        ensures
            r == if self@.proposals.contains_key(prop_id) {
                Ok::<(), Error>(())
            } else {
                Err::<(), Error>(Error::ProposalNotFound)
            },
    {
        if !self.proposals.contains_key(&prop_id) {
            return Err(Error::ProposalNotFound);
        }
        Ok(())
    }

    /// Closes a pending proposal once its voting window is over, that is at
    /// a height that has reached the deadline, never earlier. The proposal
    /// and its votes are removed for good. `Ok(Some(call))` hands back the
    /// call to carry out, when the `Aye` votes reached the threshold;
    /// `Ok(None)` says that the proposal was dropped.
    pub fn resolve_proposal(&mut self, prop_id: u32, height: BlockNumber) -> (r: Result<
        Option<Call>,
        Error,
    >)
        ensures
            (final(self)@, verdict_view(r)) == old(self)@.resolve(prop_id, height),
            old(self)@.wf() ==> final(self)@.wf(),
    {
        proof {
            if old(self)@.wf() {
                old(self)@.lemma_resolve_wf(prop_id, height);
            }
        }
        let end: BlockNumber = match self.proposals.get(&prop_id) {
            Some(proposal) => proposal.voting_period_end,
            None => {
                return Err(Error::ProposalNotFound);
            },
        };
        if height < end {
            return Err(Error::NotYetExpired);
        }
        let proposal = match self.proposals.remove(&prop_id) {
            Some(proposal) => proposal,
            None => {
                return Err(Error::ProposalNotFound);
            },
        };
        self.active_proposals = vec_without(&self.active_proposals, prop_id);
        let ayes: usize = match self.votes.remove(&prop_id) {
            Some(votes) => count_ayes(&votes),
            None => 0,
        };
        proof {
            assert(self@.proposals =~= old(self)@.proposals.remove(prop_id));
            assert(self@.votes =~= old(self)@.votes.remove(prop_id));
            assert(self@ =~= old(self)@.close(prop_id));
        }
        if ayes >= self.vote_threshold as usize {
            Ok(Some(proposal.call))
        } else {
            Ok(None)
        }
    }
}

impl Default for Superdao {
    fn default() -> (r: Self)
        ensures
            r@ == DaoState::fresh(0, 0),
            r@.wf(),
    {
        Superdao::new(0, 0)
    }
}

impl SuperDao for Superdao {
    fn register_member(&mut self, caller: AccountId) -> (r: Result<(), Error>) {
        proof {
            if old(self)@.wf() {
                old(self)@.lemma_register_wf(caller);
            }
        }
        if self.is_member(caller) {
            return Err(Error::AlreadyMember);
        }
        self.members.push(caller);
        proof {
            assert(self@ =~= old(self)@.register(caller).0);
        }
        Ok(())
    }

    fn deregister_member(&mut self, caller: AccountId) {
        proof {
            if old(self)@.wf() {
                old(self)@.lemma_deregister_wf(caller);
            }
        }
        self.members = vec_without(&self.members, caller);
        proof {
            assert(self@ =~= old(self)@.deregister(caller));
        }
    }

    fn create_proposal(&mut self, caller: AccountId, call: Call, height: BlockNumber) -> (r:
        Result<u32, Error>) {
        proof {
            if old(self)@.wf() {
                old(self)@.lemma_create_wf(caller, call@, height);
            }
        }
        match self.ensure_member(caller) {
            Ok(()) => {},
            Err(e) => {
                return Err(e);
            },
        }
        let id: u32 = self.next_id;
        let proposal = Proposal {
            call,
            voting_period_end: height.saturating_add(self.voting_period),
        };
        let known = self.proposals.contains_key(&id);
        self.proposals.insert(id, proposal);
        if !known {
            self.active_proposals.push(id);
        }
        self.votes.remove(&id);
        self.next_id = self.next_id.saturating_add(1);
        proof {
            let model = old(self)@.create(caller, call@, height).0;
            assert(self@.proposals =~= model.proposals);
            assert(self@.votes =~= model.votes);
            assert(self@ =~= model);
        }
        Ok(id)
    }

    fn vote(&mut self, caller: AccountId, proposal_id: u32, vote: Vote) -> (r: Result<(), Error>) {
        proof {
            if old(self)@.wf() {
                old(self)@.lemma_vote_wf(caller, proposal_id, vote);
            }
        }
        match self.ensure_member(caller) {
            Ok(()) => {},
            Err(e) => {
                return Err(e);
            },
        }
        match self.ensure_proposal_exists(proposal_id) {
            Ok(()) => {},
            Err(e) => {
                return Err(e);
            },
        }
        let mut votes = match self.votes.remove(&proposal_id) {
            Some(votes) => votes,
            None => Vec::new(),
        };
        cast_vote(&mut votes, caller, vote);
        self.votes.insert(proposal_id, votes);
        proof {
            let model = old(self)@.vote(caller, proposal_id, vote).0;
            assert(self@.votes =~= model.votes);
            assert(self@ =~= model);
        }
        Ok(())
    }
}

impl SuperDaoQuery for Superdao {
    fn get_members(&self) -> (r: Vec<AccountId>) {
        copied(&self.members)
    }

    fn is_member(&self, caller: AccountId) -> (r: bool) {
        let mut i: usize = 0;
        while i < self.members.len()
            invariant
                i <= self.members.len(),
                forall|j: int| 0 <= j < i ==> self.members@[j] != caller,
            decreases self.members.len() - i,
        {
            if self.members[i] == caller {
                return true;
            }
            i += 1;
        }
        false
    }

    fn get_proposal(&self, index: u32) -> (r: Option<Proposal>) {
        match self.proposals.get(&index) {
            Some(proposal) => Some(proposal.clone()),
            None => None,
        }
    }

    fn get_proposals(&self) -> (r: Vec<Proposal>) {
        let mut r: Vec<Proposal> = Vec::new();
        let mut i: usize = 0;
        proof {
            assert(self@.active.take(0).filter(stored_in(self@.proposals)) =~= Seq::<u32>::empty());
            assert(proposal_views(r@) =~= listed(self@.active.take(0), self@.proposals));
        }
        while i < self.active_proposals.len()
            invariant
                i <= self.active_proposals.len(),
                proposal_views(r@) == listed(self@.active.take(i as int), self@.proposals),
            decreases self.active_proposals.len() - i,
        {
            let id: u32 = self.active_proposals[i];
            proof {
                self@.active.lemma_take_succ_push(i as int);
                lemma_listed_push(self@.active.take(i as int), id, self@.proposals);
            }
            match self.proposals.get(&id) {
                Some(proposal) => {
                    let ghost before = r@;
                    r.push(proposal.clone());
                    proof {
                        assert(proposal_views(r@) =~= proposal_views(before).push(
                            self@.proposals[id],
                        ));
                    }
                },
                None => {},
            }
            i += 1;
        }
        proof {
            assert(self@.active.take(self@.active.len() as int) =~= self@.active);
            if self@.wf() {
                self@.lemma_pending_wf();
                assert(proposal_views(r@).len() == r@.len());
                assert forall|i: int| 0 <= i < r@.len() implies (#[trigger] r@[i])@
                    == self@.proposals[self@.active[i]] by {
                    assert(proposal_views(r@)[i] == r@[i]@);
                }
            }
        }
        r
    }

    fn get_vote_threshold(&self) -> (r: u8) {
        self.vote_threshold
    }

    fn get_voting_period(&self) -> (r: BlockNumber) {
        self.voting_period
    }

    fn get_active_proposals(&self) -> (r: Vec<u32>) {
        copied(&self.active_proposals)
    }

    fn get_votes(&self, proposal_id: u32) -> (r: Vec<(AccountId, Vote)>) {
        match self.votes.get(&proposal_id) {
            Some(votes) => copied(votes),
            None => Vec::new(),
        }
    }
}

} // verus!
