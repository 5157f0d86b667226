use crate::account::AccountId;
use crate::seq_util::copied;
use crate::tally::{ayes, cast_vote, count_ayes, record};
pub use crate::tally::Vote;
use std::collections::HashMap;
use vstd::prelude::*;

verus! {

broadcast use vstd::std_specs::hash::group_hash_axioms;

/// The threshold that the pool gives to the governance engine it sets up.
pub const GOVERNANCE_VOTE_THRESHOLD: u8 = 2;

/// The voting period that the pool gives to the governance engine it sets up.
pub const GOVERNANCE_VOTING_PERIOD: u32 = 0;

/// Why an operation of the pool was refused.
#[derive(Clone, Copy, Debug, PartialEq, Eq, Structural)]
pub enum Error {
    /// No suggestion has this identifier.
    ValidatorsProposalNonExistent,
    /// The caller is no member of the governance engine.
    NotMember,
}

/// A suggested nomination: the encoded call for the relay chain and the
/// weight it may use there.
#[derive(Debug, PartialEq, Eq)]
pub struct ValidatorsProposal {
    pub encoded_extrinsic: Vec<u8>,
    pub ref_time: u64,
    pub proof_size: u64,
}

/// What a `ValidatorsProposal` is in contracts.
pub struct ValidatorsProposalView {
    pub encoded_extrinsic: Seq<u8>,
    pub ref_time: u64,
    pub proof_size: u64,
}

impl View for ValidatorsProposal {
    type V = ValidatorsProposalView;

    open spec fn view(&self) -> ValidatorsProposalView {
        ValidatorsProposalView {
            encoded_extrinsic: self.encoded_extrinsic@,
            ref_time: self.ref_time,
            proof_size: self.proof_size,
        }
    }
}

impl Clone for ValidatorsProposal {
    fn clone(&self) -> (r: Self)
        ensures
            r@ == self@,
    {
        let encoded_extrinsic = self.encoded_extrinsic.clone();
        proof {
            assert(encoded_extrinsic@ =~= self.encoded_extrinsic@);
        }
        ValidatorsProposal {
            encoded_extrinsic,
            ref_time: self.ref_time,
            proof_size: self.proof_size,
        }
    }
}

/// Told to the outside when a nomination has been suggested.
#[derive(Clone, Copy, Debug, PartialEq, Eq)]
pub struct ValidatorsSuggested {
    pub who: AccountId,
    pub proposal_id: u32,
}

/// Told to the outside when a vote on a suggestion has been recorded.
#[derive(Clone, Copy, Debug, PartialEq, Eq)]
pub struct VoteCast {
    pub who: AccountId,
    pub proposal_id: u32,
    pub vote: Vote,
}

/// Told to the outside when a suggestion has been carried out.
#[derive(Clone, Copy, Debug, PartialEq, Eq)]
pub struct ValidatorsChanged {
    pub proposal_id: u32,
}

/// What the host has to do after a vote: announce the vote, and, where the
/// vote carried the suggestion, send it and announce the change.
#[derive(Debug, PartialEq, Eq)]
pub struct VoteOutcome {
    pub vote_cast: VoteCast,
    pub carried: Option<(ValidatorsProposal, ValidatorsChanged)>,
}

/// What a `VoteOutcome` is in contracts.
pub struct VoteOutcomeView {
    pub vote_cast: VoteCast,
    pub carried: Option<(ValidatorsProposalView, ValidatorsChanged)>,
}

impl View for VoteOutcome {
    type V = VoteOutcomeView;

    open spec fn view(&self) -> VoteOutcomeView {
        VoteOutcomeView {
            vote_cast: self.vote_cast,
            carried: match self.carried {
                Some((proposal, changed)) => Some((proposal@, changed)),
                None => None,
            },
        }
    }
}

/// The state of the pool as a mathematical value.
#[verifier::ext_equal]
pub struct PoolState {
    /// The suggestions that have not been carried out, by identifier.
    pub proposals: Map<u32, ValidatorsProposalView>,
    /// The votes recorded so far, by suggestion.
    pub votes: Map<u32, Seq<(AccountId, Vote)>>,
    /// The identifier that the next suggestion gets.
    pub next_id: u32,
}

impl PoolState {
    /// The state of a pool that was just made.
    pub open spec fn fresh() -> PoolState {
        PoolState { proposals: Map::empty(), votes: Map::empty(), next_id: 0 }
    }

    /// The votes recorded for a suggestion; none where nobody has voted.
    pub open spec fn tally(self, id: u32) -> Seq<(AccountId, Vote)> {
        if self.votes.contains_key(id) {
            self.votes[id]
        } else {
            Seq::empty()
        }
    }

    /// The identifier after `next_id`; the counter stops at the largest one.
    pub open spec fn following_id(self) -> u32 {
        if self.next_id == u32::MAX {
            u32::MAX
        } else {
            (self.next_id + 1) as u32
        }
    }

    /// A member suggests a nomination. It is stored under the next
    /// identifier and starts without votes. A caller that is no member is
    /// refused.
    pub open spec fn suggest(
        self,
        is_member: bool,
        who: AccountId,
        proposal: ValidatorsProposalView,
    ) -> (PoolState, Result<ValidatorsSuggested, Error>) {
        if !is_member {
            (self, Err(Error::NotMember))
        } else {
            (
                PoolState {
                    proposals: self.proposals.insert(self.next_id, proposal),
                    votes: self.votes.remove(self.next_id),
                    next_id: self.following_id(),
                },
                Ok(ValidatorsSuggested { who, proposal_id: self.next_id }),
            )
        }
    }

    /// A member votes on a suggestion. The vote is recorded, a later vote
    /// of a caller replacing an earlier one. If the `Aye` votes then reach
    /// the threshold, the suggestion is handed out to be sent and leaves the
    /// pool with its votes. A caller that is no member is refused before the
    /// suggestion is looked up.
    pub open spec fn vote(
        self,
        is_member: bool,
        who: AccountId,
        id: u32,
        vote: Vote,
        vote_threshold: u8,
    ) -> (PoolState, Result<VoteOutcomeView, Error>) {
        if !is_member {
            (self, Err(Error::NotMember))
        } else if !self.proposals.contains_key(id) {
            (self, Err(Error::ValidatorsProposalNonExistent))
        } else {
            let tally = record(self.tally(id), who, vote);
            let vote_cast = VoteCast { who, proposal_id: id, vote };
            if ayes(tally) >= vote_threshold {
                (
                    PoolState {
                        proposals: self.proposals.remove(id),
                        votes: self.votes.remove(id),
                        ..self
                    },
                    Ok(
                        VoteOutcomeView {
                            vote_cast,
                            carried: Some(
                                (self.proposals[id], ValidatorsChanged { proposal_id: id }),
                            ),
                        },
                    ),
                )
            } else {
                (
                    PoolState { votes: self.votes.insert(id, tally), ..self },
                    Ok(VoteOutcomeView { vote_cast, carried: None }),
                )
            }
        }
    }
}

/// A pool of validator nominations that the members of a governance engine
/// suggest and vote on. A suggestion is sent as soon as a vote carries it.
pub struct NominationPools {
    validators_proposal: HashMap<u32, ValidatorsProposal>,
    votes: HashMap<u32, Vec<(AccountId, Vote)>>,
    next_id: u32,
}

spec fn proposal_views(stored: Map<u32, ValidatorsProposal>) -> Map<u32, ValidatorsProposalView> {
    stored.map_values(|p: ValidatorsProposal| p@)
}

spec fn tally_views(stored: Map<u32, Vec<(AccountId, Vote)>>) -> Map<
    u32,
    Seq<(AccountId, Vote)>,
> {
    stored.map_values(|t: Vec<(AccountId, Vote)>| t@)
}

impl View for NominationPools {
    type V = PoolState;

    closed spec fn view(&self) -> PoolState {
        PoolState {
            proposals: proposal_views(self.validators_proposal@),
            votes: tally_views(self.votes@),
            next_id: self.next_id,
        }
    }
}

/// What `vote_validators` hands back, with the outcome taken by its view.
pub open spec fn outcome_view(r: Result<VoteOutcome, Error>) -> Result<VoteOutcomeView, Error> {
    match r {
        Ok(outcome) => Ok(outcome@),
        Err(e) => Err(e),
    }
}

/// What `get_votes` hands back, as a sequence.
pub open spec fn votes_view(r: Option<Vec<(AccountId, Vote)>>) -> Option<Seq<(AccountId, Vote)>> {
    match r {
        Some(votes) => Some(votes@),
        None => None,
    }
}

impl NominationPools {
    /// A pool with no suggestions.
    pub fn new() -> (r: Self)
        ensures
            r@ == PoolState::fresh(),
    {
        let r = NominationPools {
            validators_proposal: HashMap::new(),
            votes: HashMap::new(),
            next_id: 0,
        };
        proof {
            assert(r@.proposals =~= Map::<u32, ValidatorsProposalView>::empty());
            assert(r@.votes =~= Map::<u32, Seq<(AccountId, Vote)>>::empty());
            assert(r@ =~= PoolState::fresh());
        }
        r
    }

    /// Stores the suggestion of a member and hands back the announcement of
    /// it. `is_member` is the governance engine's answer for the caller.
    pub fn suggest_validators(
        &mut self,
        is_member: bool,
        caller: AccountId,
        encoded_extrinsic: Vec<u8>,
        ref_time: u64,
        proof_size: u64,
    ) -> (r: Result<ValidatorsSuggested, Error>)
        ensures
            !is_member ==> r == Err::<ValidatorsSuggested, Error>(Error::NotMember) && final(self)@
                == old(self)@,
            (final(self)@, r) == old(self)@.suggest(
                is_member,
                caller,
                ValidatorsProposalView { encoded_extrinsic: encoded_extrinsic@, ref_time, proof_size },
            ),
    {
        if !is_member {
            return Err(Error::NotMember);
        }
        let proposal = ValidatorsProposal { encoded_extrinsic, ref_time, proof_size };
        let id: u32 = self.next_id;
        self.validators_proposal.insert(id, proposal);
        self.votes.remove(&id);
        self.next_id = self.next_id.saturating_add(1);
        proof {
            let model = old(self)@.suggest(is_member, caller, proposal@).0;
            assert(self@.proposals =~= model.proposals);
            assert(self@.votes =~= model.votes);
            assert(self@ =~= model);
        }
        Ok(ValidatorsSuggested { who: caller, proposal_id: id })
    }

    /// Records the vote of a member on a suggestion and, if the `Aye` votes
    /// now reach the threshold of the governance engine, hands the
    /// suggestion out to be sent. `is_member` is the governance engine's
    /// answer for the caller.
    pub fn vote_validators(
        &mut self,
        is_member: bool,
        caller: AccountId,
        id: u32,
        vote: Vote,
        vote_threshold: u8,
    ) -> (r: Result<VoteOutcome, Error>)
        ensures
            !is_member ==> outcome_view(r) == Err::<VoteOutcomeView, Error>(Error::NotMember)
                && final(self)@ == old(self)@,
            (final(self)@, outcome_view(r)) == old(self)@.vote(
                is_member,
                caller,
                id,
                vote,
                vote_threshold,
            ),
    {
        if !is_member {
            return Err(Error::NotMember);
        }
        if !self.validators_proposal.contains_key(&id) {
            return Err(Error::ValidatorsProposalNonExistent);
        }
        let mut votes = match self.votes.remove(&id) {
            Some(votes) => votes,
            None => Vec::new(),
        };
        cast_vote(&mut votes, caller, vote);
        let vote_cast = VoteCast { who: caller, proposal_id: id, vote };
        let total_ayes: usize = count_ayes(&votes);
        if total_ayes >= vote_threshold as usize {
            match self.validators_proposal.remove(&id) {
                Some(proposal) => {
                    proof {
                        let model = old(self)@.vote(is_member, caller, id, vote, vote_threshold).0;
                        assert(self@.proposals =~= model.proposals);
                        assert(self@.votes =~= model.votes);
                        assert(self@ =~= model);
                    }
                    Ok(
                        VoteOutcome {
                            vote_cast,
                            carried: Some((proposal, ValidatorsChanged { proposal_id: id })),
                        },
                    )
                },
                None => {
                    proof {
                        assert(false);
                    }
                    Err(Error::ValidatorsProposalNonExistent)
                },
            }
        } else {
            self.votes.insert(id, votes);
            proof {
                let model = old(self)@.vote(is_member, caller, id, vote, vote_threshold).0;
                assert(self@.votes =~= model.votes);
                assert(self@ =~= model);
            }
            Ok(VoteOutcome { vote_cast, carried: None })
        }
    }

    /// The votes recorded for a suggestion, if any were.
    pub fn get_votes(&self, proposal_id: u32) -> (r: Option<Vec<(AccountId, Vote)>>)
        ensures
            votes_view(r) == if self@.votes.contains_key(proposal_id) {
                Some(self@.votes[proposal_id])
            } else {
                None
            },
    {
        match self.votes.get(&proposal_id) {
            Some(votes) => Some(copied(votes)),
            None => None,
        }
    }

    /// The suggestion with this identifier, if it has not been carried out.
    pub fn get_new_validators_proposals(&self, proposal_id: u32) -> (r: Option<ValidatorsProposal>)
        ensures
            match r {
                Some(proposal) => self@.proposals.contains_key(proposal_id) && proposal@
                    == self@.proposals[proposal_id],
                None => !self@.proposals.contains_key(proposal_id),
            },
    {
        match self.validators_proposal.get(&proposal_id) {
            Some(proposal) => Some(proposal.clone()),
            None => None,
        }
    }
}

} // verus!
