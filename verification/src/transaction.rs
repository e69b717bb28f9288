use vstd::prelude::*;
use crate::errors::ErrorCode;
use crate::league::League;

verus! {

/// Outcome of a transaction. `Pending` accepts further votes; `Accepted` and
/// `Rejected` are terminal for voting; `Executed` is reached from `Accepted`
/// exactly once, by the execution handoff.
#[derive(Clone, Copy, Debug, PartialEq, Eq, Structural)]
pub enum State {
    Pending,
    Accepted,
    Executed,
    Rejected,
}

impl Default for State {
    /// A freshly deserialized transaction starts out pending.
    fn default() -> (r: Self)
        ensures
            r == State::Pending,
    {
        State::Pending
    }
}

/// One account reference of the action descriptor: the account's identifier
/// and how the action touches it. Opaque to the engine; handed through to the
/// execution delegate unchanged.
#[derive(Clone, Copy, Debug, PartialEq, Eq, Structural)]
pub struct AccountMetaInfo {
    pub pubkey: u64,
    pub is_signer: bool,
    pub is_writable: bool,
}

/// A transaction: an action proposal scoped to one league.
///
/// `approval` holds one vote slot per league member, in member order as of
/// creation time: `None` is an unset slot, `Some(true)` an approval,
/// `Some(false)` a rejection. `end_time == 0` means an unbounded window.
/// `program`, `accounts` and `data` describe the action and are opaque to
/// the engine.
pub struct Transaction {
    pub league: u64,
    pub program: u64,
    pub accounts: Vec<AccountMetaInfo>,
    pub data: Vec<u8>,
    pub approval: Vec<Option<bool>>,
    pub start_time: u64,
    pub end_time: u64,
    pub state: State,
}

/// The transaction's vote window is open at `time_stamp`: either the window
/// is unbounded (`end_time == 0`) or the end has not passed.
pub open spec fn window_open(end_time: u64, time_stamp: u64) -> bool {
    end_time == 0 || time_stamp <= end_time
}

/// The vote ledger a transaction starts with: one slot per member, all unset
/// except the proposer's own slots, which are pre-set to approve.
pub open spec fn initial_approval(members: Seq<u64>, proposer: u64) -> Seq<Option<bool>> {
    members.map_values(|m: u64| if m == proposer { Some(true) } else { None })
}

/// Creates a transaction under `league` (stored as the reference
/// `league_key`). Fails with `InvalidEndTime` when the window is already
/// closed at `time_stamp`, then with `InvalidMember` when the proposer is not
/// a league member. On success the transaction starts `Pending` with the
/// proposer's slots pre-approved and every other slot unset.
pub fn create_transaction(
    league: &League,
    league_key: u64,
    member: u64,
    program: u64,
    account_metainfos: Vec<AccountMetaInfo>,
    data: Vec<u8>,
    end_time: u64,
    time_stamp: u64,
) -> (r: Result<Transaction, ErrorCode>)
    ensures
        !window_open(end_time, time_stamp) ==> r == Err::<Transaction, ErrorCode>(
            ErrorCode::InvalidEndTime,
        ),
        window_open(end_time, time_stamp) && !league.members@.contains(member) ==> r == Err::<
            Transaction,
            ErrorCode,
        >(ErrorCode::InvalidMember),
        r is Ok <==> window_open(end_time, time_stamp) && league.members@.contains(member),
        r is Ok ==> {
            &&& r->Ok_0.league == league_key
            &&& r->Ok_0.program == program
            &&& r->Ok_0.accounts@ == account_metainfos@
            &&& r->Ok_0.data@ == data@
            &&& r->Ok_0.approval@ == initial_approval(league.members@, member)
            &&& r->Ok_0.start_time == time_stamp
            &&& r->Ok_0.end_time == end_time
            &&& r->Ok_0.state == State::Pending
        },
{
    if !(end_time == 0 || time_stamp <= end_time) {
        return Err(ErrorCode::InvalidEndTime);
    }
    let n = league.members.len();
    let mut approval: Vec<Option<bool>> = Vec::new();
    let mut found = false;
    let mut i: usize = 0;
    while i < n
        invariant
            i <= n,
            n == league.members@.len(),
            approval@.len() == i,
            forall|k: int|
                0 <= k < i ==> approval@[k] == (if league.members@[k] == member {
                    Some(true)
                } else {
                    None::<bool>
                }),
            found <==> exists|k: int| 0 <= k < i && league.members@[k] == member,
        decreases n - i,
    {
        if league.members[i] == member {
            approval.push(Some(true));
            found = true;
        } else {
            approval.push(None);
        }
        i += 1;
    }
    if !found {
        return Err(ErrorCode::InvalidMember);
    }
    proof {
        assert(approval@ =~= initial_approval(league.members@, member));
    }
    Ok(
        Transaction {
            league: league_key,
            program,
            accounts: account_metainfos,
            data,
            approval,
            start_time: time_stamp,
            end_time,
            state: State::Pending,
        },
    )
}

} // verus!
