use vstd::prelude::*;
use crate::errors::ErrorCode;
use crate::league::League;
use crate::transaction::{State, Transaction, window_open};

verus! {

/// How many slots of the vote ledger hold the vote `v` (`true` approvals,
/// `false` rejections). Unset slots count for neither.
pub open spec fn count_votes(s: Seq<Option<bool>>, v: bool) -> int
    decreases s.len(),
{
    if s.len() == 0 {
        0
    } else {
        count_votes(s.drop_last(), v) + (if s.last() == Some(v) {
            1int
        } else {
            0int
        })
    }
}

/// The outcome the tally recomputation settles on for a vote ledger under a
/// quorum `threshold` out of `member_count` members. Acceptance is checked
/// first, so a ledger meeting both bounds at once resolves to `Accepted`;
/// rejection fires as soon as acceptance has become unreachable, that is,
/// when the rejections already exceed the votes the quorum could spare.
pub open spec fn tally_outcome(s: Seq<Option<bool>>, threshold: int, member_count: int) -> State {
    if count_votes(s, true) >= threshold {
        State::Accepted
    } else if count_votes(s, false) >= member_count - threshold {
        State::Rejected
    } else {
        State::Pending
    }
}

/// Quorum correctness: the recomputed outcome is `Accepted` exactly when the
/// approvals reach the threshold, `Rejected` exactly when they do not but the
/// rejections reach `member_count - threshold`, and `Pending` otherwise — so
/// a ledger meeting both bounds resolves to `Accepted`.
pub proof fn lemma_quorum_correctness(s: Seq<Option<bool>>, threshold: int, member_count: int)
    ensures
        tally_outcome(s, threshold, member_count) == State::Accepted <==> count_votes(s, true)
            >= threshold,
        tally_outcome(s, threshold, member_count) == State::Rejected <==> count_votes(s, true)
            < threshold && count_votes(s, false) >= member_count - threshold,
        tally_outcome(s, threshold, member_count) == State::Pending <==> count_votes(s, true)
            < threshold && count_votes(s, false) < member_count - threshold,
{
}

/// Over a whole vote sequence, quorum correctness reduces to single steps:
/// filling one unset slot with `v` raises the tally of `v` by exactly one
/// and leaves the opposite tally unchanged. So the tallies the engine
/// recomputes after each vote walk upward one step at a time, and an outcome
/// settles exactly at the first step whose tally crosses its bound.
pub proof fn lemma_vote_moves_one_tally(s: Seq<Option<bool>>, i: int, v: bool)
    requires
        0 <= i < s.len(),
        s[i] is None,
    ensures
        count_votes(s.update(i, Some(v)), v) == count_votes(s, v) + 1,
        count_votes(s.update(i, Some(v)), !v) == count_votes(s, !v),
    decreases s.len(),
{
    let t = s.update(i, Some(v));
    if i == s.len() - 1 {
        assert(t.drop_last() =~= s.drop_last());
    } else {
        assert(t.drop_last() =~= s.drop_last().update(i, Some(v)));
        lemma_vote_moves_one_tally(s.drop_last(), i, v);
        assert(t.last() == s.last());
    }
}

/// The position of the first occurrence of `x` in `s`, or `-1` when `x` does
/// not occur. Vote slots are located by this position.
pub open spec fn first_index_of(s: Seq<u64>, x: u64) -> int
    decreases s.len(),
{
    if s.len() == 0 {
        -1
    } else if s[0] == x {
        0
    } else if first_index_of(s.drop_first(), x) == -1 {
        -1
    } else {
        1 + first_index_of(s.drop_first(), x)
    }
}

/// `first_index_of` finds an occurrence exactly when one exists, and what it
/// finds is the first one.
pub proof fn lemma_first_index_of(s: Seq<u64>, x: u64)
    ensures
        s.contains(x) <==> 0 <= first_index_of(s, x) < s.len(),
        !s.contains(x) ==> first_index_of(s, x) == -1,
        s.contains(x) ==> s[first_index_of(s, x)] == x,
        forall|j: int| 0 <= j < first_index_of(s, x) ==> s[j] != x,
    decreases s.len(),
{
    if s.len() > 0 && s[0] != x {
        lemma_first_index_of(s.drop_first(), x);
        assert(s.contains(x) ==> s.drop_first().contains(x)) by {
            if s.contains(x) {
                let w = choose|w: int| 0 <= w < s.len() && s[w] == x;
                assert(s.drop_first()[w - 1] == x);
            }
        }
        assert(s.drop_first().contains(x) ==> s.contains(x)) by {
            if s.drop_first().contains(x) {
                let w = choose|w: int| 0 <= w < s.drop_first().len() && s.drop_first()[w] == x;
                assert(s[w + 1] == x);
            }
        }
        assert forall|j: int| 0 <= j < first_index_of(s, x) implies s[j] != x by {
            if j >= 1 {
                assert(s.drop_first()[j - 1] == s[j]);
                assert(s.drop_first()[j - 1] != x);
            }
        }
    }
}

/// Records `member`'s single vote on `tx` and recomputes the tally.
///
/// The checks run in order: the window must still be open at `time_stamp`,
/// the outcome must still be `Pending`, the voter must be a league member
/// (located by first position in the member list), and the voter's slot must
/// still be unset. Every failing check leaves the transaction untouched.
///
/// On success exactly the voter's slot changes, from unset to the vote cast,
/// and the outcome becomes `tally_outcome` of the new ledger — so the
/// outcome settles the moment it becomes mathematically certain.
///
/// Single-vote: a slot already holding a vote is never written again, by any
/// call, successful or not. Terminal immutability: once the outcome has left
/// `Pending`, every call fails and changes nothing.
pub fn approve_transaction(
    league: &League,
    tx: &mut Transaction,
    member: u64,
    approval: bool,
    time_stamp: u64,
) -> (r: Result<(), ErrorCode>)
    requires
        league.threshold <= league.members@.len(),
        old(tx).approval@.len() == league.members@.len(),
    ensures
        !window_open(old(tx).end_time, time_stamp) ==> r == Err::<(), ErrorCode>(
            ErrorCode::TransactionHasFinished,
        ) && *final(tx) == *old(tx),
        window_open(old(tx).end_time, time_stamp) && old(tx).state != State::Pending ==> r
            == Err::<(), ErrorCode>(ErrorCode::TransactionDetermined) && *final(tx) == *old(tx),
        window_open(old(tx).end_time, time_stamp) && old(tx).state == State::Pending
            && !league.members@.contains(member) ==> r == Err::<(), ErrorCode>(
            ErrorCode::InvalidMember,
        ) && *final(tx) == *old(tx),
        window_open(old(tx).end_time, time_stamp) && old(tx).state == State::Pending
            && league.members@.contains(member) && old(tx).approval@[first_index_of(
            league.members@,
            member,
        )] is Some ==> r == Err::<(), ErrorCode>(ErrorCode::AlreadyVoted) && *final(tx)
            == *old(tx),
        r is Ok <==> window_open(old(tx).end_time, time_stamp) && old(tx).state == State::Pending
            && league.members@.contains(member) && old(tx).approval@[first_index_of(
            league.members@,
            member,
        )] is None,
        r is Ok ==> {
            &&& final(tx).approval@ == old(tx).approval@.update(
                first_index_of(league.members@, member),
                Some(approval),
            )
            &&& final(tx).state == tally_outcome(
                final(tx).approval@,
                league.threshold as int,
                league.members@.len() as int,
            )
            &&& final(tx).league == old(tx).league
            &&& final(tx).program == old(tx).program
            &&& final(tx).accounts@ == old(tx).accounts@
            &&& final(tx).data@ == old(tx).data@
            &&& final(tx).start_time == old(tx).start_time
            &&& final(tx).end_time == old(tx).end_time
        },
        forall|i: int|
            0 <= i < old(tx).approval@.len() && old(tx).approval@[i] is Some ==> final(tx).approval@[i]
                == old(tx).approval@[i],
        old(tx).state != State::Pending ==> *final(tx) == *old(tx),
{
    let n = league.members.len();
    if !(tx.end_time == 0 || time_stamp <= tx.end_time) {
        return Err(ErrorCode::TransactionHasFinished);
    }
    if !(tx.state == State::Pending) {
        return Err(ErrorCode::TransactionDetermined);
    }
    proof {
        lemma_first_index_of(league.members@, member);
    }
    let mut pos: usize = 0;
    let mut found = false;
    let mut i: usize = 0;
    while i < n
        invariant
            i <= n,
            n == league.members@.len(),
            !found ==> forall|j: int| 0 <= j < i ==> league.members@[j] != member,
            !found ==> pos == 0,
            found ==> pos < i && league.members@[pos as int] == member && forall|j: int|
                0 <= j < pos ==> league.members@[j] != member,
        decreases n - i,
    {
        if !found && league.members[i] == member {
            pos = i;
            found = true;
        }
        i += 1;
    }
    if !found {
        return Err(ErrorCode::InvalidMember);
    }
    proof {
        assert(league.members@.contains(member)) by {
            assert(league.members@[pos as int] == member);
        }
        assert(pos as int == first_index_of(league.members@, member));
    }
    if tx.approval[pos].is_some() {
        return Err(ErrorCode::AlreadyVoted);
    }
    tx.approval.set(pos, Some(approval));
    let mut agree: u64 = 0;
    let mut disagree: u64 = 0;
    let mut k: usize = 0;
    while k < n
        invariant
            k <= n,
            n == tx.approval@.len(),
            agree <= k,
            disagree <= k,
            agree == count_votes(tx.approval@.take(k as int), true),
            disagree == count_votes(tx.approval@.take(k as int), false),
        decreases n - k,
    {
        let slot = tx.approval[k];
        proof {
            assert(tx.approval@.take(k + 1).drop_last() =~= tx.approval@.take(k as int));
            assert(tx.approval@.take(k + 1).last() == tx.approval@[k as int]);
        }
        if slot.is_some() {
            if slot.unwrap() {
                agree += 1;
            } else {
                disagree += 1;
            }
        }
        k += 1;
    }
    proof {
        assert(tx.approval@.take(n as int) =~= tx.approval@);
    }
    if agree >= league.threshold {
        tx.state = State::Accepted;
    } else if disagree >= (n as u64 - league.threshold) {
        tx.state = State::Rejected;
    }
    Ok(())
}

} // verus!
