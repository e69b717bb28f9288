use vstd::prelude::*;
use crate::errors::ErrorCode;

verus! {

/// A league: the root of trust for all transactions proposed under it.
///
/// `members` is the ordered list of participant identifiers; its order is
/// fixed at creation and defines the vote-slot indexing of every transaction
/// created under the league. `threshold` is the quorum size. `bump` is the
/// numeric salt from which the surrounding system derives the league's
/// delegated-signer capability; the engine only carries it through.
pub struct League {
    pub members: Vec<u64>,
    pub threshold: u64,
    pub bump: u8,
}

/// No identifier occurs twice in the sequence.
pub open spec fn no_duplicates(s: Seq<u64>) -> bool {
    forall|i: int, j: int| 0 <= i < j < s.len() ==> s[i] != s[j]
}

/// Well-formedness of a league: unique members and a threshold between one
/// and the member count. `create_league` establishes it; `set_league` is an
/// administrative overwrite that does not re-check it.
pub open spec fn league_wf(l: League) -> bool {
    &&& no_duplicates(l.members@)
    &&& 1 <= l.threshold <= l.members@.len()
}

/// Creates a league from an ordered member list, a quorum threshold and the
/// capability salt. Rejects an empty member list, a threshold outside
/// `[1, |members|]`, and any repeated member identifier; on success the
/// returned league is well formed and holds the inputs unchanged.
pub fn create_league(members: Vec<u64>, threshold: u64, bump: u8) -> (r: Result<
    League,
    ErrorCode,
>)
    ensures
        members@.len() == 0 ==> r == Err::<League, ErrorCode>(ErrorCode::EmptyGroup),
        members@.len() > 0 && !(1 <= threshold <= members@.len()) ==> r == Err::<
            League,
            ErrorCode,
        >(ErrorCode::InvalidThreshold),
        members@.len() > 0 && 1 <= threshold <= members@.len() && !no_duplicates(members@) ==> r
            == Err::<League, ErrorCode>(ErrorCode::DuplicateMember),
        r is Ok <==> members@.len() > 0 && 1 <= threshold <= members@.len() && no_duplicates(
            members@,
        ),
        r is Ok ==> {
            &&& r->Ok_0.members@ == members@
            &&& r->Ok_0.threshold == threshold
            &&& r->Ok_0.bump == bump
            &&& league_wf(r->Ok_0)
        },
{
    let count = members.len();
    if count == 0 {
        return Err(ErrorCode::EmptyGroup);
    }
    if threshold == 0 || threshold > count as u64 {
        return Err(ErrorCode::InvalidThreshold);
    }
    let mut i: usize = 0;
    while i < count
        invariant
            i <= count,
            count == members@.len(),
            0 < count,
            1 <= threshold <= count as u64,
            forall|p: int, q: int| 0 <= p < q < count && p < i ==> members@[p] != members@[q],
        decreases count - i,
    {
        let mut j: usize = i + 1;
        while j < count
            invariant
                i < j <= count,
                count == members@.len(),
                0 < count,
                1 <= threshold <= count as u64,
                forall|q: int| i < q < j ==> members@[i as int] != members@[q],
            decreases count - j,
        {
            if members[i] == members[j] {
                return Err(ErrorCode::DuplicateMember);
            }
            j += 1;
        }
        i += 1;
    }
    Ok(League { members, threshold, bump })
}

/// Administrative reset: overwrites the member list and the threshold
/// atomically, keeping the capability salt. By design it performs no
/// validation; only the league's own delegated identity may reach it in the
/// surrounding system.
pub fn set_league(league: &mut League, members: Vec<u64>, threshold: u64)
    ensures
        final(league).members@ == members@,
        final(league).threshold == threshold,
        final(league).bump == old(league).bump,
{
    league.members = members;
    league.threshold = threshold;
}

} // verus!
