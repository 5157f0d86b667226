use crate::account::AccountId;
use crate::call::{BlockNumber, CallView, ChainCallView};
use crate::codec::{
    location_decoding, location_encoding, message_decoding_within, message_encoding,
    MESSAGE_DEPTH_LIMIT,
};
use crate::error::Error;
use crate::model::DaoState;
use crate::seq_util::{lemma_without_absent, lemma_without_contains};
use crate::tally::{ayes, lemma_record, one_vote_each, record, Vote};
use ink::xcm::v4::{Location, Xcm};
use vstd::prelude::*;

verus! {

/// A second registration of the same caller is refused with `AlreadyMember`
/// and changes nothing, whatever became of the first.
pub proof fn law_register_twice(s: DaoState, who: AccountId)
    ensures
        s.register(who).0.register(who) == (
            s.register(who).0,
            Err::<(), Error>(Error::AlreadyMember),
        ),
{
    let once = s.register(who).0;
    if !s.is_member(who) {
        assert(once.members[s.members.len() as int] == who);
    }
}

/// Deregistering a caller that is no member changes nothing.
pub proof fn law_deregister_absent(s: DaoState, who: AccountId)
    requires
        !s.is_member(who),
    ensures
        s.deregister(who) == s,
{
    lemma_without_absent(s.members, who);
}

/// After deregistering, the caller is no member, every other member still
/// is one, and the caller can register again.
pub proof fn law_deregister_removes(s: DaoState, who: AccountId, other: AccountId)
    ensures
        !s.deregister(who).is_member(who),
        other != who ==> s.deregister(who).is_member(other) == s.is_member(other),
        s.deregister(who).register(who).1.is_ok(),
{
    lemma_without_contains(s.members, who, who);
    lemma_without_contains(s.members, who, other);
}

/// A member who votes twice on a proposal has one entry in its tally, and
/// the entry holds the second vote.
pub proof fn law_last_vote_wins(s: DaoState, m: AccountId, p: u32, first: Vote, second: Vote)
    requires
        s.wf(),
        s.is_member(m),
        s.proposals.contains_key(p),
    ensures
        ({
            let tally = s.vote(m, p, first).0.vote(m, p, second).0.tally(p);
            exists|i: int|
                {
                    &&& 0 <= i < tally.len()
                    &&& #[trigger] tally[i] == (m, second)
                    &&& forall|j: int| 0 <= j < tally.len() && (#[trigger] tally[j]).0 == m ==> j == i
                }
        }),
{
    let t0 = s.tally(p);
    if s.votes.contains_key(p) {
        assert(one_vote_each(s.votes[p]));
    }
    lemma_record(t0, m, first);
    let t1 = record(t0, m, first);
    let s1 = s.vote(m, p, first).0;
    assert(s1.tally(p) == t1);
    lemma_record(t1, m, second);
    let t2 = record(t1, m, second);
    let s2 = s1.vote(m, p, second).0;
    assert(s2.tally(p) == t2);
    let i = choose|i: int| 0 <= i < t2.len() && (#[trigger] t2[i]).0 == m;
    assert(t2[i].1 == second);
    assert(t2[i] == (m, second));
    assert forall|j: int| 0 <= j < t2.len() && (#[trigger] t2[j]).0 == m implies j == i by {
        if j < i {
            assert(t2[j].0 != t2[i].0);
        }
        if i < j {
            assert(t2[i].0 != t2[j].0);
        }
    }
}

/// A vote changes the tally of its proposal only: the proposals, the other
/// tallies and the members stay as they were.
pub proof fn law_vote_leaves_rest(s: DaoState, m: AccountId, p: u32, vote: Vote, other: u32)
    ensures
        s.vote(m, p, vote).0.proposals == s.proposals,
        s.vote(m, p, vote).0.active == s.active,
        s.vote(m, p, vote).0.members == s.members,
        other != p ==> s.vote(m, p, vote).0.tally(other) == s.tally(other),
{
}

/// A call that holds the encodings of a destination and of a message hands
/// each back unchanged, wherever the codec reads its own encoding back. For
/// the destination `ChainCall::new` states that it does.
pub proof fn law_round_trip(call: ChainCallView, dest: Location, msg: Xcm<()>)
    requires
        call.dest == location_encoding(dest),
        call.msg == message_encoding(msg),
    ensures
        location_decoding(location_encoding(dest)) == Some(dest) ==> call.destination() == Ok::<
            Location,
            Error,
        >(dest),
        message_decoding_within(MESSAGE_DEPTH_LIMIT, message_encoding(msg)) == Some(msg)
            ==> call.message() == Ok::<Xcm<()>, Error>(msg),
{
}

/// Once a proposal has been resolved, resolving it again is refused with
/// `ProposalNotFound` at any height, and changes nothing.
pub proof fn law_resolve_once(s: DaoState, id: u32, height: BlockNumber, later: BlockNumber)
    requires
        s.resolve(id, height).1.is_ok(),
    ensures
        s.resolve(id, height).0.resolve(id, later) == (
            s.resolve(id, height).0,
            Err::<Option<CallView>, Error>(Error::ProposalNotFound),
        ),
        !s.resolve(id, height).0.proposals.contains_key(id),
        s.resolve(id, height).0.tally(id) == Seq::<(AccountId, Vote)>::empty(),
{
}

/// A pending proposal whose window has closed is carried out exactly when
/// its `Aye` votes reach the threshold: one vote short of it the proposal
/// is dropped without a call, at the threshold its call is handed out.
pub proof fn law_threshold(s: DaoState, id: u32, height: BlockNumber)
    requires
        s.proposals.contains_key(id),
        height >= s.proposals[id].voting_period_end,
    ensures
        ayes(s.tally(id)) >= s.vote_threshold ==> s.resolve(id, height).1 == Ok::<
            Option<CallView>,
            Error,
        >(Some(s.proposals[id].call)),
        ayes(s.tally(id)) < s.vote_threshold ==> s.resolve(id, height).1 == Ok::<
            Option<CallView>,
            Error,
        >(None),
        s.resolve(id, height).0 == s.close(id),
{
}

/// Before the deadline of a pending proposal a resolution is refused with
/// `NotYetExpired` and changes nothing; at the deadline or later it
/// succeeds.
pub proof fn law_deadline(s: DaoState, id: u32, height: BlockNumber)
    requires
        s.proposals.contains_key(id),
    ensures
        height < s.proposals[id].voting_period_end ==> s.resolve(id, height) == (
            s,
            Err::<Option<CallView>, Error>(Error::NotYetExpired),
        ),
        height >= s.proposals[id].voting_period_end ==> s.resolve(id, height).1.is_ok(),
{
}

/// The deadline of a new proposal is never before the height of its
/// creation, and is the largest height where the sum would pass it.
pub proof fn law_deadline_not_before(s: DaoState, who: AccountId, call: CallView, height: BlockNumber)
    requires
        s.is_member(who),
    ensures
        ({
            let (after, id) = s.create(who, call, height);
            &&& id == Ok::<u32, Error>(s.next_id)
            &&& after.proposals.contains_key(s.next_id)
            &&& after.proposals[s.next_id].call == call
            &&& after.proposals[s.next_id].voting_period_end >= height
            &&& after.proposals[s.next_id].voting_period_end == if height + s.voting_period
                <= u32::MAX {
                height + s.voting_period
            } else {
                u32::MAX as int
            }
        }),
{
}

/// A new proposal starts without votes, and its creation leaves the votes
/// on every other proposal as they were.
pub proof fn law_new_proposal_has_no_votes(
    s: DaoState,
    who: AccountId,
    call: CallView,
    height: BlockNumber,
    other: u32,
)
    requires
        s.is_member(who),
    ensures
        s.create(who, call, height).0.tally(s.next_id) == Seq::<(AccountId, Vote)>::empty(),
        other != s.next_id ==> s.create(who, call, height).0.tally(other) == s.tally(other),
{
}

/// While the counter has not reached the largest identifier, a new
/// proposal gets an identifier that no pending proposal holds, every
/// pending proposal stays as it was, and the counter moves on by one.
pub proof fn law_fresh_identifier(
    s: DaoState,
    who: AccountId,
    call: CallView,
    height: BlockNumber,
    other: u32,
)
    requires
        s.wf(),
        s.is_member(who),
        s.next_id < u32::MAX,
    ensures
        !s.proposals.contains_key(s.next_id),
        s.create(who, call, height).0.next_id == s.next_id + 1,
        s.create(who, call, height).0.active == s.active.push(s.next_id),
        s.proposals.contains_key(other) ==> s.create(who, call, height).0.proposals.contains_key(
            other,
        ) && s.create(who, call, height).0.proposals[other] == s.proposals[other],
{
    if s.proposals.contains_key(s.next_id) {
        assert(s.next_id < s.next_id || s.next_id == u32::MAX);
    }
}

/// The identifiers of the pending proposals are exactly the keys of the
/// proposal store, in every state that the operations reach from a fresh
/// engine: each operation keeps what holds between them.
pub proof fn law_invariant_kept(
    s: DaoState,
    who: AccountId,
    call: CallView,
    height: BlockNumber,
    id: u32,
    vote: Vote,
)
    requires
        s.wf(),
    ensures
        s.register(who).0.wf(),
        s.deregister(who).wf(),
        s.create(who, call, height).0.wf(),
        s.vote(who, id, vote).0.wf(),
        s.resolve(id, height).0.wf(),
{
    s.lemma_register_wf(who);
    s.lemma_deregister_wf(who);
    s.lemma_create_wf(who, call, height);
    s.lemma_vote_wf(who, id, vote);
    s.lemma_resolve_wf(id, height);
}

/// A refused operation changes nothing.
pub proof fn law_refusal_changes_nothing(
    s: DaoState,
    who: AccountId,
    call: CallView,
    height: BlockNumber,
    id: u32,
    vote: Vote,
)
    ensures
        s.register(who).1.is_err() ==> s.register(who).0 == s,
        s.create(who, call, height).1.is_err() ==> s.create(who, call, height).0 == s,
        s.vote(who, id, vote).1.is_err() ==> s.vote(who, id, vote).0 == s,
        s.resolve(id, height).1.is_err() ==> s.resolve(id, height).0 == s,
{
}

} // verus!
