use crate::account::AccountId;
use vstd::prelude::*;

verus! {

/// A member's choice on a proposal. There is no abstention: a member who has
/// not voted has no entry in the tally.
#[derive(Clone, Copy, Debug, PartialEq, Eq, Structural)]
pub enum Vote {
    Aye,
    Nay,
}

/// Whether some entry of `tally` belongs to `who`.
pub open spec fn has_voted(tally: Seq<(AccountId, Vote)>, who: AccountId) -> bool {
    exists|i: int| 0 <= i < tally.len() && (#[trigger] tally[i]).0 == who
}

/// Whether `i` is the position of the first entry of `who` in `tally`.
pub open spec fn is_first_entry(tally: Seq<(AccountId, Vote)>, who: AccountId, i: int) -> bool {
    &&& 0 <= i < tally.len()
    &&& tally[i].0 == who
    &&& forall|j: int| 0 <= j < i ==> (#[trigger] tally[j]).0 != who
}

/// The position of the first entry of `who`, if there is one.
pub open spec fn entry_index(tally: Seq<(AccountId, Vote)>, who: AccountId) -> Option<int> {
    if has_voted(tally, who) {
        Some(choose|i: int| is_first_entry(tally, who, i))
    } else {
        None
    }
}

/// The tally after `who` votes `vote`: an earlier entry of `who` is
/// overwritten where it stands, otherwise the vote is appended.
pub open spec fn record(tally: Seq<(AccountId, Vote)>, who: AccountId, vote: Vote) -> Seq<
    (AccountId, Vote),
> {
    match entry_index(tally, who) {
        Some(i) => tally.update(i, (who, vote)),
        None => tally.push((who, vote)),
    }
}

/// The number of `Aye` entries.
pub open spec fn ayes(tally: Seq<(AccountId, Vote)>) -> nat {
    tally.filter(|e: (AccountId, Vote)| e.1 == Vote::Aye).len()
}

/// No member has more than one entry.
pub open spec fn one_vote_each(tally: Seq<(AccountId, Vote)>) -> bool {
    forall|i: int, j: int|
        0 <= i < j < tally.len() ==> (#[trigger] tally[i]).0 != (#[trigger] tally[j]).0
}

/// The first entry of a member is unique, so `entry_index` is the position
/// that a scan from the front finds.
pub proof fn lemma_first_entry_unique(tally: Seq<(AccountId, Vote)>, who: AccountId, i: int)
    requires
        is_first_entry(tally, who, i),
    ensures
        entry_index(tally, who) == Some(i),
{
    assert(tally[i].0 == who);
    let k = choose|k: int| is_first_entry(tally, who, k);
    assert(is_first_entry(tally, who, k));
    if k < i {
        assert(tally[k].0 != who);
    }
    if i < k {
        assert(tally[i].0 != who);
    }
}

/// A member with an entry has a first entry.
pub proof fn lemma_entry_exists(tally: Seq<(AccountId, Vote)>, who: AccountId) -> (i: int)
    requires
        has_voted(tally, who),
    ensures
        is_first_entry(tally, who, i),
        entry_index(tally, who) == Some(i),
{
    let w = choose|w: int| 0 <= w < tally.len() && (#[trigger] tally[w]).0 == who;
    let i = lemma_first_before(tally, who, w);
    lemma_first_entry_unique(tally, who, i);
    i
}

proof fn lemma_first_before(tally: Seq<(AccountId, Vote)>, who: AccountId, w: int) -> (i: int)
    requires
        0 <= w < tally.len(),
        tally[w].0 == who,
    ensures
        is_first_entry(tally, who, i),
        i <= w,
    decreases w,
{
    if exists|j: int| 0 <= j < w && (#[trigger] tally[j]).0 == who {
        let j = choose|j: int| 0 <= j < w && (#[trigger] tally[j]).0 == who;
        lemma_first_before(tally, who, j)
    } else {
        w
    }
}

/// Recording a vote keeps the tally unique by member, leaves every other
/// member's entry as it was, and leaves `who` with the vote just cast.
pub proof fn lemma_record(tally: Seq<(AccountId, Vote)>, who: AccountId, vote: Vote)
    requires
        one_vote_each(tally),
    ensures
        one_vote_each(record(tally, who, vote)),
        has_voted(record(tally, who, vote), who),
        record(tally, who, vote).len() == tally.len() + (if has_voted(tally, who) {
            0int
        } else {
            1int
        }),
        forall|i: int|
            0 <= i < record(tally, who, vote).len() && (#[trigger] record(tally, who, vote)[i]).0
                == who ==> record(tally, who, vote)[i].1 == vote,
        forall|i: int|
            0 <= i < tally.len() && (#[trigger] tally[i]).0 != who ==> record(tally, who, vote)[i]
                == tally[i],
{
    let after = record(tally, who, vote);
    if has_voted(tally, who) {
        let k = lemma_entry_exists(tally, who);
        assert(after == tally.update(k, (who, vote)));
        assert forall|i: int, j: int| 0 <= i < j < after.len() implies (#[trigger] after[i]).0 != (
        #[trigger] after[j]).0 by {
            assert(tally[i].0 != tally[j].0);
        }
        assert(after[k].0 == who);
        assert forall|i: int| 0 <= i < after.len() && (#[trigger] after[i]).0 == who implies after[i].1
            == vote by {
            if i != k {
                assert(tally[i].0 == who);
                if i < k {
                    assert(tally[i].0 != tally[k].0);
                } else {
                    assert(tally[k].0 != tally[i].0);
                }
            }
        }
    } else {
        assert(after == tally.push((who, vote)));
        assert forall|i: int, j: int| 0 <= i < j < after.len() implies (#[trigger] after[i]).0 != (
        #[trigger] after[j]).0 by {
            if j < tally.len() {
                assert(tally[i].0 != tally[j].0);
            } else {
                assert(tally[i].0 != who);
            }
        }
        assert(after[tally.len() as int].0 == who);
        assert forall|i: int| 0 <= i < after.len() && (#[trigger] after[i]).0 == who implies after[i].1
            == vote by {
            if i < tally.len() {
                assert(tally[i].0 == who);
            }
        }
    }
}

/// The position of the caller's entry in a tally, scanning from the front.
pub fn find_vote(votes: &Vec<(AccountId, Vote)>, caller: AccountId) -> (r: Option<usize>)
    ensures
        match r {
            Some(i) => entry_index(votes@, caller) == Some(i as int) && is_first_entry(
                votes@,
                caller,
                i as int,
            ),
            None => entry_index(votes@, caller).is_none() && !has_voted(votes@, caller),
        },
{
    let mut i: usize = 0;
    while i < votes.len()
        invariant
            i <= votes.len(),
            forall|j: int| 0 <= j < i ==> (#[trigger] votes@[j]).0 != caller,
        decreases votes.len() - i,
    {
        if votes[i].0 == caller {
            proof {
                lemma_first_entry_unique(votes@, caller, i as int);
            }
            return Some(i);
        }
        i += 1;
    }
    None
}

/// Records the caller's vote: last vote wins, and a member never holds two
/// entries through this function.
pub fn cast_vote(votes: &mut Vec<(AccountId, Vote)>, caller: AccountId, vote: Vote)
    ensures
        final(votes)@ == record(old(votes)@, caller, vote),
{
    match find_vote(votes, caller) {
        Some(index) => {
            votes[index] = (caller, vote);
        },
        None => {
            votes.push((caller, vote));
        },
    }
}

/// Counts the `Aye` entries of a tally.
pub fn count_ayes(votes: &Vec<(AccountId, Vote)>) -> (n: usize)
    ensures
        n == ayes(votes@),
{
    let ghost is_aye = |e: (AccountId, Vote)| e.1 == Vote::Aye;
    let mut n: usize = 0;
    let mut i: usize = 0;
    while i < votes.len()
        invariant
            i <= votes.len(),
            n <= i,
            n == votes@.take(i as int).filter(is_aye).len(),
            is_aye == |e: (AccountId, Vote)| e.1 == Vote::Aye,
        decreases votes.len() - i,
    {
        proof {
            votes@.lemma_take_succ_push(i as int);
            votes@.take(i as int).lemma_filter_push(votes@[i as int], is_aye);
        }
        if votes[i].1 == Vote::Aye {
            n += 1;
        }
        i += 1;
    }
    proof {
        assert(votes@.take(votes@.len() as int) =~= votes@);
    }
    n
}

} // verus!
