use sleague_mutilsig::errors::ErrorCode;
use sleague_mutilsig::execution::exec_transaction;
use sleague_mutilsig::league::{create_league, set_league, League};
use sleague_mutilsig::transaction::{create_transaction, AccountMetaInfo, State, Transaction};
use sleague_mutilsig::voting::approve_transaction;

fn league_of_three() -> League {
    create_league(vec![1, 2, 3], 2, 7).unwrap()
}

fn proposal(league: &League, proposer: u64, end_time: u64, now: u64) -> Transaction {
    create_transaction(league, 9, proposer, 100, Vec::new(), Vec::new(), end_time, now).unwrap()
}

#[test]
fn create_league_keeps_inputs() {
    let league = league_of_three();
    assert_eq!(league.members, vec![1, 2, 3]);
    assert_eq!(league.threshold, 2);
    assert_eq!(league.bump, 7);
}

#[test]
fn create_league_rejects_empty() {
    assert!(matches!(create_league(Vec::new(), 1, 0), Err(ErrorCode::EmptyGroup)));
}

#[test]
fn create_league_rejects_zero_threshold() {
    assert!(matches!(create_league(vec![1, 2], 0, 0), Err(ErrorCode::InvalidThreshold)));
}

#[test]
fn create_league_rejects_threshold_over_count() {
    assert!(matches!(create_league(vec![1, 2, 3], 4, 0), Err(ErrorCode::InvalidThreshold)));
}

#[test]
fn create_league_rejects_duplicates() {
    assert!(matches!(create_league(vec![1, 2, 1], 2, 0), Err(ErrorCode::DuplicateMember)));
}

#[test]
fn proposer_slot_is_preapproved() {
    let league = league_of_three();
    let tx = proposal(&league, 2, 0, 50);
    assert_eq!(tx.approval, vec![None, Some(true), None]);
    assert_eq!(tx.state, State::Pending);
    assert_eq!(tx.start_time, 50);
    assert_eq!(tx.end_time, 0);
    assert_eq!(tx.league, 9);
}

#[test]
fn create_transaction_rejects_non_member() {
    let league = league_of_three();
    let r = create_transaction(&league, 9, 42, 100, Vec::new(), Vec::new(), 0, 50);
    assert!(matches!(r, Err(ErrorCode::InvalidMember)));
}

#[test]
fn scenario_a_second_approval_reaches_quorum() {
    let league = league_of_three();
    let mut tx = proposal(&league, 1, 0, 50);
    assert_eq!(tx.approval[0], Some(true));
    approve_transaction(&league, &mut tx, 2, true, 60).unwrap();
    assert_eq!(tx.state, State::Accepted);
}

#[test]
fn scenario_b_single_rejection_settles_rejected() {
    let league = league_of_three();
    let mut tx = proposal(&league, 1, 0, 50);
    approve_transaction(&league, &mut tx, 2, false, 60).unwrap();
    // |members| - threshold == 1, so one rejection already settles it.
    assert_eq!(tx.state, State::Rejected);
    // Participant 3 never needs to vote; a late attempt fails.
    let r = approve_transaction(&league, &mut tx, 3, false, 61);
    assert!(matches!(r, Err(ErrorCode::TransactionDetermined)));
}

#[test]
fn scenario_c_past_end_time_rejected_at_creation() {
    let league = league_of_three();
    let t0 = 100;
    let r = create_transaction(&league, 9, 1, 100, Vec::new(), Vec::new(), t0 - 1, t0);
    assert!(matches!(r, Err(ErrorCode::InvalidEndTime)));
}

#[test]
fn scenario_d_second_vote_on_filled_slot_fails() {
    let league = league_of_three();
    let mut tx = proposal(&league, 1, 0, 50);
    // The proposer's own slot is already Approve from creation.
    let r = approve_transaction(&league, &mut tx, 1, true, 60);
    assert!(matches!(r, Err(ErrorCode::AlreadyVoted)));
    assert_eq!(tx.approval, vec![Some(true), None, None]);
}

#[test]
fn scenario_e_exec_on_pending_fails() {
    let league = league_of_three();
    let mut tx = proposal(&league, 1, 0, 50);
    let r = exec_transaction(&league, 9, &mut tx);
    assert!(matches!(r, Err(ErrorCode::NotAccepted)));
    assert_eq!(tx.state, State::Pending);
}

#[test]
fn terminal_outcome_freezes_all_slots() {
    let league = league_of_three();
    let mut tx = proposal(&league, 1, 0, 50);
    approve_transaction(&league, &mut tx, 2, true, 60).unwrap();
    assert_eq!(tx.state, State::Accepted);
    let before = tx.approval.clone();
    let r = approve_transaction(&league, &mut tx, 3, false, 61);
    assert!(matches!(r, Err(ErrorCode::TransactionDetermined)));
    assert_eq!(tx.approval, before);
    assert_eq!(tx.state, State::Accepted);
}

#[test]
fn execution_succeeds_at_most_once() {
    let league = league_of_three();
    let mut tx = proposal(&league, 1, 0, 50);
    approve_transaction(&league, &mut tx, 2, true, 60).unwrap();
    let first = exec_transaction(&league, 9, &mut tx);
    assert!(first.is_ok());
    assert_eq!(tx.state, State::Executed);
    let second = exec_transaction(&league, 9, &mut tx);
    assert!(matches!(second, Err(ErrorCode::NotAccepted)));
    assert_eq!(tx.state, State::Executed);
}

#[test]
fn tie_resolves_to_accepted() {
    // Two members, threshold 1: after the second vote both quorum bounds
    // hold at once (agree == 1 >= 1 and disagree == 1 >= 2 - 1), and
    // acceptance wins the tie.
    let league = create_league(vec![1, 2], 1, 0).unwrap();
    let mut tx = proposal(&league, 1, 0, 50);
    // Creation does not tally: the proposer's pre-approval alone leaves it
    // pending even though it already meets the threshold.
    assert_eq!(tx.state, State::Pending);
    approve_transaction(&league, &mut tx, 2, false, 60).unwrap();
    assert_eq!(tx.state, State::Accepted);
}

#[test]
fn rejection_needs_quorum_impossibility() {
    // Four members, threshold 2: acceptance stays reachable until three
    // rejections are in (|members| - threshold == 2).
    let league = create_league(vec![1, 2, 3, 4], 2, 0).unwrap();
    let mut tx = proposal(&league, 1, 0, 50);
    approve_transaction(&league, &mut tx, 2, false, 60).unwrap();
    assert_eq!(tx.state, State::Pending);
    approve_transaction(&league, &mut tx, 3, false, 61).unwrap();
    assert_eq!(tx.state, State::Rejected);
}

#[test]
fn vote_after_window_fails() {
    let league = league_of_three();
    let mut tx = proposal(&league, 1, 100, 50);
    let r = approve_transaction(&league, &mut tx, 2, true, 101);
    assert!(matches!(r, Err(ErrorCode::TransactionHasFinished)));
    assert_eq!(tx.state, State::Pending);
}

#[test]
fn unbounded_window_accepts_late_votes() {
    let league = league_of_three();
    let mut tx = proposal(&league, 1, 0, 50);
    approve_transaction(&league, &mut tx, 2, true, u64::MAX).unwrap();
    assert_eq!(tx.state, State::Accepted);
}

#[test]
fn vote_by_non_member_fails() {
    let league = league_of_three();
    let mut tx = proposal(&league, 1, 0, 50);
    let r = approve_transaction(&league, &mut tx, 42, true, 60);
    assert!(matches!(r, Err(ErrorCode::InvalidMember)));
    assert_eq!(tx.approval, vec![Some(true), None, None]);
}

#[test]
fn exec_request_carries_action_and_capability() {
    let league = league_of_three();
    let accounts = vec![AccountMetaInfo { pubkey: 11, is_signer: true, is_writable: false }];
    let data = vec![0xde, 0xad];
    let mut tx =
        create_transaction(&league, 9, 1, 100, accounts.clone(), data.clone(), 0, 50).unwrap();
    approve_transaction(&league, &mut tx, 2, true, 60).unwrap();
    let req = exec_transaction(&league, 9, &mut tx).unwrap();
    assert_eq!(req.program, 100);
    assert_eq!(req.accounts, accounts);
    assert_eq!(req.data, data);
    assert_eq!(req.league, 9);
    assert_eq!(req.bump, 7);
}

#[test]
fn full_threshold_accepts_only_on_completing_vote() {
    // threshold == |members| makes the rejection bound zero, so the first
    // vote settles the outcome either way: acceptance exactly when that
    // vote completes the quorum, rejection otherwise.
    let league = create_league(vec![1, 2], 2, 0).unwrap();
    let mut tx = proposal(&league, 1, 0, 50);
    approve_transaction(&league, &mut tx, 2, true, 60).unwrap();
    assert_eq!(tx.state, State::Accepted);

    let league3 = create_league(vec![1, 2, 3], 3, 0).unwrap();
    let mut tx3 = create_transaction(&league3, 9, 1, 100, Vec::new(), Vec::new(), 0, 50).unwrap();
    approve_transaction(&league3, &mut tx3, 2, true, 60).unwrap();
    // agree == 2 < 3 while disagree == 0 already meets |members| - threshold.
    assert_eq!(tx3.state, State::Rejected);
}

#[test]
fn exec_on_rejected_fails() {
    let league = league_of_three();
    let mut tx = proposal(&league, 1, 0, 50);
    approve_transaction(&league, &mut tx, 2, false, 60).unwrap();
    assert_eq!(tx.state, State::Rejected);
    let r = exec_transaction(&league, 9, &mut tx);
    assert!(matches!(r, Err(ErrorCode::NotAccepted)));
    assert_eq!(tx.state, State::Rejected);
}

#[test]
fn set_league_overwrites_members_and_threshold() {
    let mut league = league_of_three();
    set_league(&mut league, vec![4, 5], 1);
    assert_eq!(league.members, vec![4, 5]);
    assert_eq!(league.threshold, 1);
    assert_eq!(league.bump, 7);
}

#[test]
fn default_state_is_pending() {
    assert_eq!(State::default(), State::Pending);
}
