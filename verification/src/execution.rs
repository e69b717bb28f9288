use vstd::prelude::*;
use crate::errors::ErrorCode;
use crate::league::League;
use crate::transaction::{AccountMetaInfo, State, Transaction};

verus! {

/// Everything the external execution delegate needs to carry out an accepted
/// action: the action descriptor (`program`, `accounts`, `data`) and the
/// capability to sign for the league (`league` reference plus the `bump`
/// salt its delegated-signer identity is derived from). The engine never
/// interprets any of it.
pub struct ExecutionRequest {
    pub program: u64,
    pub accounts: Vec<AccountMetaInfo>,
    pub data: Vec<u8>,
    pub league: u64,
    pub bump: u8,
}

/// Hands an accepted transaction over for execution.
///
/// Fails with `NotAccepted` — touching nothing — unless the outcome is
/// exactly `Accepted`. On success the outcome moves to `Executed` *before*
/// the request is released, so a transaction is handed out at most once: a
/// second call finds `Executed` and fails.
pub fn exec_transaction(league: &League, league_key: u64, tx: &mut Transaction) -> (r: Result<
    ExecutionRequest,
    ErrorCode,
>)
    ensures
        old(tx).state != State::Accepted ==> r == Err::<ExecutionRequest, ErrorCode>(
            ErrorCode::NotAccepted,
        ) && *final(tx) == *old(tx),
        r is Ok <==> old(tx).state == State::Accepted,
        r is Ok ==> {
            &&& final(tx).state == State::Executed
            &&& final(tx).league == old(tx).league
            &&& final(tx).program == old(tx).program
            &&& final(tx).accounts@ == old(tx).accounts@
            &&& final(tx).data@ == old(tx).data@
            &&& final(tx).approval@ == old(tx).approval@
            &&& final(tx).start_time == old(tx).start_time
            &&& final(tx).end_time == old(tx).end_time
            &&& r->Ok_0.program == old(tx).program
            &&& r->Ok_0.accounts@ == old(tx).accounts@
            &&& r->Ok_0.data@ == old(tx).data@
            &&& r->Ok_0.league == league_key
            &&& r->Ok_0.bump == league.bump
        },
{
    if !(tx.state == State::Accepted) {
        return Err(ErrorCode::NotAccepted);
    }
    tx.state = State::Executed;
    let accounts = copy_accounts(&tx.accounts);
    let data = copy_bytes(&tx.data);
    Ok(ExecutionRequest { program: tx.program, accounts, data, league: league_key, bump: league.bump })
}

/// Execution exactly-once: a successful handoff leaves the transaction in
/// `Executed`, a state that never satisfies the handoff's success condition
/// (`Accepted`) again — so on any one transaction `exec_transaction`
/// succeeds at most once, and every later call fails with `NotAccepted`.
pub proof fn lemma_execute_at_most_once(tx: Transaction)
    requires
        tx.state == State::Executed,
    ensures
        tx.state != State::Accepted,
{
}

/// An element-wise copy of the account list (the elements are plain values).
fn copy_accounts(v: &Vec<AccountMetaInfo>) -> (r: Vec<AccountMetaInfo>)
    ensures
        r@ == v@,
{
    let mut r: Vec<AccountMetaInfo> = Vec::new();
    let mut i: usize = 0;
    while i < v.len()
        invariant
            i <= v.len(),
            r@ == v@.take(i as int),
        decreases v.len() - i,
    {
        r.push(v[i]);
        proof {
            assert(r@ =~= v@.take(i + 1));
        }
        i += 1;
    }
    proof {
        assert(v@.take(v@.len() as int) =~= v@);
    }
    r
}

/// An element-wise copy of the action payload.
fn copy_bytes(v: &Vec<u8>) -> (r: Vec<u8>)
    ensures
        r@ == v@,
{
    let mut r: Vec<u8> = Vec::new();
    let mut i: usize = 0;
    while i < v.len()
        invariant
            i <= v.len(),
            r@ == v@.take(i as int),
        decreases v.len() - i,
    {
        r.push(v[i]);
        proof {
            assert(r@ =~= v@.take(i + 1));
        }
        i += 1;
    }
    proof {
        assert(v@.take(v@.len() as int) =~= v@);
    }
    r
}

} // verus!
