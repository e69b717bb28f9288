use vstd::prelude::*;

verus! {

/// Every failing operation of the engine returns exactly one of these kinds
/// and leaves all state unchanged.
#[derive(Clone, Copy, Debug, PartialEq, Eq, Structural)]
pub enum ErrorCode {
    /// Group construction: no participants were given.
    EmptyGroup,
    /// Group construction: the threshold is zero or exceeds the member count.
    InvalidThreshold,
    /// Group construction: a participant identifier repeats.
    DuplicateMember,
    /// The acting participant is not a member of the group.
    InvalidMember,
    /// Proposal creation: the proposal window is already closed.
    InvalidEndTime,
    /// Vote: the transaction's time window has closed.
    TransactionHasFinished,
    /// Vote: the transaction's outcome is already settled.
    TransactionDetermined,
    /// Vote: the participant's vote slot is already filled.
    AlreadyVoted,
    /// Execution: the transaction has not been accepted.
    NotAccepted,
}

} // verus!
