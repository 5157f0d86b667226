use crate::account::AccountId;
use crate::call::{BlockNumber, CallView, ProposalView};
use crate::error::Error;
use crate::seq_util::{
    lemma_without_contains, lemma_without_no_duplicates, without,
};
use crate::tally::{ayes, lemma_record, one_vote_each, record, Vote};
use vstd::prelude::*;

verus! {

/// The state of the governance engine as a mathematical value. Every
/// operation of the engine is a function on this state.
#[verifier::ext_equal]
pub struct DaoState {
    /// The members, in the order in which they registered.
    pub members: Seq<AccountId>,
    /// The pending proposals by identifier.
    pub proposals: Map<u32, ProposalView>,
    /// The identifiers of the pending proposals, in the order of creation.
    pub active: Seq<u32>,
    /// The votes recorded so far, by proposal.
    pub votes: Map<u32, Seq<(AccountId, Vote)>>,
    /// The identifier that the next proposal gets.
    pub next_id: u32,
    /// The number of `Aye` votes from which a proposal is approved.
    pub vote_threshold: u8,
    /// The length of the voting window, in blocks.
    pub voting_period: BlockNumber,
}

/// The predicate "has a proposal in `proposals`".
pub open spec fn stored_in(proposals: Map<u32, ProposalView>) -> spec_fn(u32) -> bool {
    |id: u32| proposals.contains_key(id)
}

/// The function from an identifier to its proposal in `proposals`.
pub open spec fn proposal_of(proposals: Map<u32, ProposalView>) -> spec_fn(u32) -> ProposalView {
    |id: u32| proposals[id]
}

/// The proposals of the identifiers in `ids`, in that order; an identifier
/// without a proposal gives none.
pub open spec fn listed(ids: Seq<u32>, proposals: Map<u32, ProposalView>) -> Seq<ProposalView> {
    ids.filter(stored_in(proposals)).map_values(proposal_of(proposals))
}

/// Listing one more identifier adds its proposal, if it has one.
pub proof fn lemma_listed_push(ids: Seq<u32>, id: u32, proposals: Map<u32, ProposalView>)
    ensures
        listed(ids.push(id), proposals) == if proposals.contains_key(id) {
            listed(ids, proposals).push(proposals[id])
        } else {
            listed(ids, proposals)
        },
{
    ids.lemma_filter_push(id, stored_in(proposals));
    if proposals.contains_key(id) {
        ids.filter(stored_in(proposals)).lemma_push_map_commute(proposal_of(proposals), id);
    }
}

/// Where every identifier has a proposal, the list holds one proposal for
/// each, at the same position.
pub proof fn lemma_listed_all(ids: Seq<u32>, proposals: Map<u32, ProposalView>)
    requires
        forall|i: int| 0 <= i < ids.len() ==> proposals.contains_key(#[trigger] ids[i]),
    ensures
        listed(ids, proposals).len() == ids.len(),
        forall|i: int|
            0 <= i < ids.len() ==> #[trigger] listed(ids, proposals)[i] == proposals[ids[i]],
    decreases ids.len(),
{
    if ids.len() == 0 {
        assert(ids.filter(stored_in(proposals)) =~= Seq::<u32>::empty());
    } else {
        let init = ids.drop_last();
        let last = ids.last();
        assert(ids =~= init.push(last));
        assert forall|i: int| 0 <= i < init.len() implies proposals.contains_key(
            #[trigger] init[i],
        ) by {
            assert(init[i] == ids[i]);
        }
        lemma_listed_all(init, proposals);
        lemma_listed_push(init, last, proposals);
        assert(proposals.contains_key(ids[ids.len() - 1]));
        assert forall|i: int| 0 <= i < ids.len() implies #[trigger] listed(ids, proposals)[i]
            == proposals[ids[i]] by {
            if i < init.len() {
                assert(listed(init, proposals)[i] == proposals[init[i]]);
            }
        }
    }
}

impl DaoState {
    /// What holds of the state between any two operations.
    pub open spec fn wf(self) -> bool {
        &&& self.members.no_duplicates()
        &&& self.active.no_duplicates()
        &&& forall|id: u32| self.active.contains(id) <==> self.proposals.contains_key(id)
        &&& forall|id: u32| #[trigger]
            self.votes.contains_key(id) ==> self.proposals.contains_key(id) && one_vote_each(
                self.votes[id],
            )
        &&& forall|id: u32| #[trigger]
            self.proposals.contains_key(id) ==> id < self.next_id || self.next_id == u32::MAX
    }

    /// The state of an engine that was just made.
    pub open spec fn fresh(vote_threshold: u8, voting_period: BlockNumber) -> DaoState {
        DaoState {
            members: Seq::empty(),
            proposals: Map::empty(),
            active: Seq::empty(),
            votes: Map::empty(),
            next_id: 0,
            vote_threshold,
            voting_period,
        }
    }

    /// Whether `who` is one of the members.
    pub open spec fn is_member(self, who: AccountId) -> bool {
        self.members.contains(who)
    }

    /// The votes recorded for a proposal; none where nobody has voted.
    pub open spec fn tally(self, id: u32) -> Seq<(AccountId, Vote)> {
        if self.votes.contains_key(id) {
            self.votes[id]
        } else {
            Seq::empty()
        }
    }

    /// The pending proposals, in the order of creation.
    pub open spec fn pending(self) -> Seq<ProposalView> {
        listed(self.active, self.proposals)
    }

    /// The height at which voting closes on a proposal created at `height`:
    /// the sum with the voting period, held at the largest height.
    pub open spec fn deadline(self, height: BlockNumber) -> BlockNumber {
        if height + self.voting_period > u32::MAX {
            u32::MAX
        } else {
            (height + self.voting_period) as u32
        }
    }

    /// The identifier after `next_id`; the counter stops at the largest one.
    pub open spec fn following_id(self) -> u32 {
        if self.next_id == u32::MAX {
            u32::MAX
        } else {
            (self.next_id + 1) as u32
        }
    }

    /// Whether the proposal has enough `Aye` votes to be carried out.
    pub open spec fn approved(self, id: u32) -> bool {
        ayes(self.tally(id)) >= self.vote_threshold
    }

    /// A caller asks to join: refused if already a member, else appended.
    pub open spec fn register(self, who: AccountId) -> (DaoState, Result<(), Error>) {
        if self.is_member(who) {
            (self, Err(Error::AlreadyMember))
        } else {
            (DaoState { members: self.members.push(who), ..self }, Ok(()))
        }
    }

    /// A caller leaves; nothing changes if it was no member.
    pub open spec fn deregister(self, who: AccountId) -> DaoState {
        DaoState { members: without(self.members, who), ..self }
    }

    /// A member submits an action at `height`. The proposal gets the next
    /// identifier, joins the active ones and starts without votes. Once the
    /// counter has stopped at the largest identifier, a new proposal takes
    /// the place of the pending one that holds it, whose votes are dropped.
    pub open spec fn create(self, who: AccountId, call: CallView, height: BlockNumber) -> (
        DaoState,
        Result<u32, Error>,
    ) {
        if !self.is_member(who) {
            (self, Err(Error::NotMember))
        } else {
            let id = self.next_id;
            let proposal = ProposalView { call, voting_period_end: self.deadline(height) };
            (
                DaoState {
                    proposals: self.proposals.insert(id, proposal),
                    active: if self.proposals.contains_key(id) {
                        self.active
                    } else {
                        self.active.push(id)
                    },
                    votes: self.votes.remove(id),
                    next_id: self.following_id(),
                    ..self
                },
                Ok(id),
            )
        }
    }

    /// A member votes on a pending proposal; a later vote replaces an
    /// earlier one of the same member.
    pub open spec fn vote(self, who: AccountId, id: u32, vote: Vote) -> (
        DaoState,
        Result<(), Error>,
    ) {
        if !self.is_member(who) {
            (self, Err(Error::NotMember))
        } else if !self.proposals.contains_key(id) {
            (self, Err(Error::ProposalNotFound))
        } else {
            (
                DaoState { votes: self.votes.insert(id, record(self.tally(id), who, vote)), ..self },
                Ok(()),
            )
        }
    }

    /// The state with a proposal and its votes gone.
    pub open spec fn close(self, id: u32) -> DaoState {
        DaoState {
            proposals: self.proposals.remove(id),
            active: without(self.active, id),
            votes: self.votes.remove(id),
            ..self
        }
    }

    /// A proposal is resolved at `height`. It must be pending and its voting
    /// window must have closed: the height has reached the deadline. Then it
    /// is removed with its votes, whatever the count, and the result holds
    /// the call to carry out if the `Aye` votes reached the threshold.
    pub open spec fn resolve(self, id: u32, height: BlockNumber) -> (
        DaoState,
        Result<Option<CallView>, Error>,
    ) {
        if !self.proposals.contains_key(id) {
            (self, Err(Error::ProposalNotFound))
        } else if height < self.proposals[id].voting_period_end {
            (self, Err(Error::NotYetExpired))
        } else if self.approved(id) {
            (self.close(id), Ok(Some(self.proposals[id].call)))
        } else {
            (self.close(id), Ok(None))
        }
    }

    /// In a well-formed state every active identifier has its proposal in
    /// the list of the pending ones, at its own position.
    pub proof fn lemma_pending_wf(self)
        requires
            self.wf(),
        ensures
            self.pending().len() == self.active.len(),
            forall|i: int|
                0 <= i < self.active.len() ==> #[trigger] self.pending()[i]
                    == self.proposals[self.active[i]],
    {
        assert forall|i: int| 0 <= i < self.active.len() implies self.proposals.contains_key(
            #[trigger] self.active[i],
        ) by {
            assert(self.active.contains(self.active[i]));
        }
        lemma_listed_all(self.active, self.proposals);
    }

    /// A fresh engine is well-formed.
    pub proof fn lemma_fresh_wf(vote_threshold: u8, voting_period: BlockNumber)
        ensures
            Self::fresh(vote_threshold, voting_period).wf(),
    {
    }

    /// Registering keeps the state well-formed.
    pub proof fn lemma_register_wf(self, who: AccountId)
        requires
            self.wf(),
        ensures
            self.register(who).0.wf(),
    {
        if !self.is_member(who) {
            let after = self.members.push(who);
            assert forall|i: int, j: int| 0 <= i < after.len() && 0 <= j < after.len() && i
                != j implies after[i] != after[j] by {
                if i < self.members.len() && j < self.members.len() {
                } else if i < self.members.len() {
                    assert(self.members.contains(self.members[i]));
                } else {
                    assert(self.members.contains(self.members[j]));
                }
            }
        }
    }

    /// Deregistering keeps the state well-formed.
    pub proof fn lemma_deregister_wf(self, who: AccountId)
        requires
            self.wf(),
        ensures
            self.deregister(who).wf(),
    {
        lemma_without_no_duplicates(self.members, who);
    }

    /// Creating a proposal keeps the state well-formed.
    pub proof fn lemma_create_wf(self, who: AccountId, call: CallView, height: BlockNumber)
        requires
            self.wf(),
        ensures
            self.create(who, call, height).0.wf(),
    {
        if self.is_member(who) {
            let id = self.next_id;
            let next = self.create(who, call, height).0;
            if !self.proposals.contains_key(id) {
                let after = self.active.push(id);
                assert(after[self.active.len() as int] == id);
                assert forall|i: int, j: int| 0 <= i < after.len() && 0 <= j < after.len() && i
                    != j implies after[i] != after[j] by {
                    if i < self.active.len() && j < self.active.len() {
                    } else if i < self.active.len() {
                        assert(self.active.contains(self.active[i]));
                    } else {
                        assert(self.active.contains(self.active[j]));
                    }
                }
                assert forall|x: u32| after.contains(x) <==> next.proposals.contains_key(
                    x,
                ) by {
                    if after.contains(x) {
                        let i = choose|i: int| 0 <= i < after.len() && after[i] == x;
                        if i < self.active.len() {
                            assert(self.active.contains(x));
                        }
                    }
                    if self.active.contains(x) {
                        let i = choose|i: int| 0 <= i < self.active.len() && self.active[i] == x;
                        assert(after[i] == x);
                    }
                }
            }
            assert forall|x: u32| #[trigger]
                next.proposals.contains_key(x) implies x < next.next_id || next.next_id
                == u32::MAX by {
                if x != id {
                    assert(self.proposals.contains_key(x));
                }
            }
            assert forall|x: u32| #[trigger]
                next.votes.contains_key(x) implies next.proposals.contains_key(x) && one_vote_each(
                next.votes[x],
            ) by {
                assert(self.votes.contains_key(x));
            }
        }
    }

    /// Voting keeps the state well-formed.
    pub proof fn lemma_vote_wf(self, who: AccountId, id: u32, vote: Vote)
        requires
            self.wf(),
        ensures
            self.vote(who, id, vote).0.wf(),
    {
        if self.is_member(who) && self.proposals.contains_key(id) {
            if self.votes.contains_key(id) {
                assert(one_vote_each(self.votes[id]));
            }
            lemma_record(self.tally(id), who, vote);
            let next = self.vote(who, id, vote).0;
            assert forall|x: u32| #[trigger]
                next.votes.contains_key(x) implies next.proposals.contains_key(x) && one_vote_each(
                next.votes[x],
            ) by {
                if x != id {
                    assert(self.votes.contains_key(x));
                }
            }
        }
    }

    /// Closing a proposal keeps the state well-formed.
    pub proof fn lemma_close_wf(self, id: u32)
        requires
            self.wf(),
        ensures
            self.close(id).wf(),
    {
        let next = self.close(id);
        lemma_without_no_duplicates(self.active, id);
        assert forall|x: u32| next.active.contains(x) <==> next.proposals.contains_key(x) by {
            lemma_without_contains(self.active, id, x);
        }
        assert forall|x: u32| #[trigger]
            next.votes.contains_key(x) implies next.proposals.contains_key(x) && one_vote_each(
            next.votes[x],
        ) by {
            assert(self.votes.contains_key(x));
        }
        assert forall|x: u32| #[trigger]
            next.proposals.contains_key(x) implies x < next.next_id || next.next_id
            == u32::MAX by {
            assert(self.proposals.contains_key(x));
        }
    }

    /// Resolving keeps the state well-formed.
    pub proof fn lemma_resolve_wf(self, id: u32, height: BlockNumber)
        requires
            self.wf(),
        ensures
            self.resolve(id, height).0.wf(),
    {
        self.lemma_close_wf(id);
    }
}

} // verus!
