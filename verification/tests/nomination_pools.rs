use superdao::nomination_pools::{
    Error, NominationPools, ValidatorsChanged, ValidatorsProposal, ValidatorsSuggested, VoteCast,
    VoteOutcome, GOVERNANCE_VOTE_THRESHOLD, GOVERNANCE_VOTING_PERIOD,
};
use superdao::{AccountId, Vote};

fn member(n: u8) -> AccountId {
    AccountId([n; 32])
}

fn proposal() -> ValidatorsProposal {
    ValidatorsProposal {
        encoded_extrinsic: vec![1, 2, 3],
        ref_time: 10,
        proof_size: 20,
    }
}

fn pool_with_one_suggestion() -> NominationPools {
    let mut pool = NominationPools::new();
    pool.suggest_validators(true, member(1), vec![1, 2, 3], 10, 20)
        .unwrap();
    pool
}

#[test]
fn a_new_pool_is_empty() {
    let pool = NominationPools::new();
    assert_eq!(pool.get_new_validators_proposals(0), None);
    assert_eq!(pool.get_votes(0), None);
}

#[test]
fn the_governance_settings_are_fixed() {
    assert_eq!(GOVERNANCE_VOTE_THRESHOLD, 2);
    assert_eq!(GOVERNANCE_VOTING_PERIOD, 0);
}

#[test]
fn suggestions_get_rising_identifiers() {
    let mut pool = NominationPools::new();
    assert_eq!(
        pool.suggest_validators(true, member(1), vec![1, 2, 3], 10, 20),
        Ok(ValidatorsSuggested {
            who: member(1),
            proposal_id: 0
        })
    );
    assert_eq!(
        pool.suggest_validators(true, member(2), vec![], 0, 0),
        Ok(ValidatorsSuggested {
            who: member(2),
            proposal_id: 1
        })
    );
    assert_eq!(pool.get_new_validators_proposals(0), Some(proposal()));
    assert_eq!(
        pool.get_new_validators_proposals(1),
        Some(ValidatorsProposal {
            encoded_extrinsic: vec![],
            ref_time: 0,
            proof_size: 0
        })
    );
    assert_eq!(pool.get_new_validators_proposals(2), None);
    assert_eq!(pool.get_votes(0), None);
}

#[test]
fn a_suggestion_of_a_stranger_is_refused() {
    let mut pool = NominationPools::new();
    assert_eq!(
        pool.suggest_validators(false, member(1), vec![1, 2, 3], 10, 20),
        Err(Error::NotMember)
    );
    assert_eq!(pool.get_new_validators_proposals(0), None);
    assert_eq!(
        pool.suggest_validators(true, member(1), vec![1, 2, 3], 10, 20),
        Ok(ValidatorsSuggested {
            who: member(1),
            proposal_id: 0
        })
    );
}

#[test]
fn a_vote_of_a_stranger_is_refused() {
    let mut pool = pool_with_one_suggestion();
    assert_eq!(
        pool.vote_validators(false, member(7), 0, Vote::Aye, 2),
        Err(Error::NotMember)
    );
    assert_eq!(pool.get_votes(0), None);
    assert_eq!(pool.get_new_validators_proposals(0), Some(proposal()));
}

#[test]
fn a_stranger_cannot_carry_a_suggestion() {
    let mut pool = pool_with_one_suggestion();
    pool.vote_validators(true, member(1), 0, Vote::Aye, 2).unwrap();
    assert_eq!(
        pool.vote_validators(false, member(7), 0, Vote::Aye, 2),
        Err(Error::NotMember)
    );
    assert_eq!(pool.get_votes(0), Some(vec![(member(1), Vote::Aye)]));
    assert_eq!(pool.get_new_validators_proposals(0), Some(proposal()));
    let outcome = pool.vote_validators(true, member(2), 0, Vote::Aye, 2).unwrap();
    assert_eq!(
        outcome.carried,
        Some((proposal(), ValidatorsChanged { proposal_id: 0 }))
    );
}

#[test]
fn membership_is_tested_before_the_suggestion() {
    let mut pool = NominationPools::new();
    assert_eq!(
        pool.vote_validators(false, member(1), 0, Vote::Aye, 2),
        Err(Error::NotMember)
    );
}

#[test]
fn a_vote_on_a_missing_suggestion_is_refused() {
    let mut pool = NominationPools::new();
    assert_eq!(
        pool.vote_validators(true, member(1), 0, Vote::Aye, 2),
        Err(Error::ValidatorsProposalNonExistent)
    );
    assert_eq!(pool.get_votes(0), None);
}

#[test]
fn a_vote_below_the_threshold_is_recorded() {
    let mut pool = pool_with_one_suggestion();
    assert_eq!(
        pool.vote_validators(true, member(1), 0, Vote::Aye, 2),
        Ok(VoteOutcome {
            vote_cast: VoteCast {
                who: member(1),
                proposal_id: 0,
                vote: Vote::Aye
            },
            carried: None
        })
    );
    assert_eq!(pool.get_votes(0), Some(vec![(member(1), Vote::Aye)]));
    assert_eq!(pool.get_new_validators_proposals(0), Some(proposal()));
}

#[test]
fn a_repeated_vote_does_not_count_twice() {
    let mut pool = pool_with_one_suggestion();
    pool.vote_validators(true, member(1), 0, Vote::Aye, 2).unwrap();
    let outcome = pool.vote_validators(true, member(1), 0, Vote::Aye, 2).unwrap();
    assert_eq!(outcome.carried, None);
    assert_eq!(pool.get_votes(0), Some(vec![(member(1), Vote::Aye)]));
    pool.vote_validators(true, member(1), 0, Vote::Nay, 2).unwrap();
    assert_eq!(pool.get_votes(0), Some(vec![(member(1), Vote::Nay)]));
}

#[test]
fn the_vote_that_reaches_the_threshold_carries_the_suggestion() {
    let mut pool = pool_with_one_suggestion();
    pool.vote_validators(true, member(1), 0, Vote::Aye, 2).unwrap();
    pool.vote_validators(true, member(2), 0, Vote::Nay, 2).unwrap();
    assert_eq!(
        pool.vote_validators(true, member(3), 0, Vote::Aye, 2),
        Ok(VoteOutcome {
            vote_cast: VoteCast {
                who: member(3),
                proposal_id: 0,
                vote: Vote::Aye
            },
            carried: Some((proposal(), ValidatorsChanged { proposal_id: 0 }))
        })
    );
    assert_eq!(pool.get_new_validators_proposals(0), None);
    assert_eq!(pool.get_votes(0), None);
    assert_eq!(
        pool.vote_validators(true, member(1), 0, Vote::Aye, 2),
        Err(Error::ValidatorsProposalNonExistent)
    );
}

#[test]
fn a_threshold_of_zero_carries_on_any_vote() {
    let mut pool = pool_with_one_suggestion();
    let outcome = pool.vote_validators(true, member(1), 0, Vote::Nay, 0).unwrap();
    assert_eq!(
        outcome.carried,
        Some((proposal(), ValidatorsChanged { proposal_id: 0 }))
    );
}

#[test]
fn votes_on_one_suggestion_leave_the_other() {
    let mut pool = pool_with_one_suggestion();
    pool.suggest_validators(true, member(1), vec![4], 1, 2).unwrap();
    pool.vote_validators(true, member(1), 1, Vote::Aye, 1).unwrap();
    assert_eq!(pool.get_new_validators_proposals(1), None);
    assert_eq!(pool.get_new_validators_proposals(0), Some(proposal()));
    assert_eq!(pool.get_votes(0), None);
}
