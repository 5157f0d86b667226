use crate::account::AccountId;
use crate::call::{BlockNumber, Call, Proposal, ProposalView};
use crate::error::Error;
use crate::model::DaoState;
use crate::tally::Vote;
use vstd::prelude::*;

verus! {

/// A sequence of proposals, each taken by its view.
pub open spec fn proposal_views(proposals: Seq<Proposal>) -> Seq<ProposalView> {
    proposals.map_values(|p: Proposal| p@)
}

/// The operations that change a governance engine. The caller's identity and
/// the current height come from the host and are passed in.
pub trait SuperDao: View<V = DaoState> {
    /// Adds the caller to the members; refused if it is one already.
    fn register_member(&mut self, caller: AccountId) -> (r: Result<(), Error>)
        ensures
            (final(self)@, r) == old(self)@.register(caller),
            old(self)@.wf() ==> final(self)@.wf(),
    ;

    /// Removes the caller from the members; nothing happens if it is none.
    fn deregister_member(&mut self, caller: AccountId)
        ensures
            final(self)@ == old(self)@.deregister(caller),
            old(self)@.wf() ==> final(self)@.wf(),
    ;

    /// Submits an action on behalf of a member and returns the identifier
    /// of the new proposal.
    fn create_proposal(&mut self, caller: AccountId, call: Call, height: BlockNumber) -> (r:
        Result<u32, Error>)
        ensures
            (final(self)@, r) == old(self)@.create(caller, call@, height),
            old(self)@.wf() ==> final(self)@.wf(),
    ;

    /// Records a member's vote on a pending proposal.
    fn vote(&mut self, caller: AccountId, proposal_id: u32, vote: Vote) -> (r: Result<(), Error>)
        ensures
            (final(self)@, r) == old(self)@.vote(caller, proposal_id, vote),
            old(self)@.wf() ==> final(self)@.wf(),
    ;
}

/// The questions that a governance engine answers without changing.
pub trait SuperDaoQuery: View<V = DaoState> {
    /// The members, in the order in which they registered.
    fn get_members(&self) -> (r: Vec<AccountId>)
        ensures
            r@ == self@.members,
    ;

    /// Whether the caller is a member.
    fn is_member(&self, caller: AccountId) -> (r: bool)
        ensures
            r == self@.is_member(caller),
    ;

    /// The pending proposal with this identifier, if there is one.
    fn get_proposal(&self, index: u32) -> (r: Option<Proposal>)
        ensures
            match r {
                Some(proposal) => self@.proposals.contains_key(index) && proposal@
                    == self@.proposals[index],
                None => !self@.proposals.contains_key(index),
            },
    ;

    /// The pending proposals, in the order of creation.
    fn get_proposals(&self) -> (r: Vec<Proposal>)
        ensures
            proposal_views(r@) == self@.pending(),
            self@.wf() ==> r@.len() == self@.active.len() && forall|i: int|
                0 <= i < r@.len() ==> (#[trigger] r@[i])@ == self@.proposals[self@.active[i]],
    ;

    /// The number of `Aye` votes from which a proposal is approved.
    fn get_vote_threshold(&self) -> (r: u8)
        ensures
            r == self@.vote_threshold,
    ;

    /// The length of the voting window, in blocks.
    fn get_voting_period(&self) -> (r: BlockNumber)
        ensures
            r == self@.voting_period,
    ;

    /// The identifiers of the pending proposals, in the order of creation.
    fn get_active_proposals(&self) -> (r: Vec<u32>)
        ensures
            r@ == self@.active,
    ;

    /// The votes recorded for a proposal; none where nobody has voted.
    fn get_votes(&self, proposal_id: u32) -> (r: Vec<(AccountId, Vote)>)
        ensures
            r@ == self@.tally(proposal_id),
    ;
}

} // verus!
