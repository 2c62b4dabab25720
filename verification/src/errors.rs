use vstd::prelude::*;

verus! {

/// Every way an operation on a lottery record can fail. Errors are reported
/// synchronously and never leave a record or the ledger half-changed.
#[derive(Clone, Copy, Debug, PartialEq, Eq, Structural)]
pub enum CustomError {
    /// The operation is not permitted in the record's current state.
    InvalidState,
    /// The requested reveal deadline is not strictly in the future.
    InvalidTimeoutProvided,
    /// A reveal was attempted after its window closed.
    TimeoutReached,
    /// A redemption was attempted before the counterparty's silence is provable.
    TimeoutNotReached,
    /// The supplied secret's digest does not equal the stored commitment.
    InvalidSecret,
    /// The two commitments handed to `join` are equal.
    TwoEqualHashes,
    /// A participant lacks the balance needed to lock the stake.
    InsufficientFunds,
    /// A transfer would push the recipient's balance past `u64::MAX`.
    BalanceOverflow,
}

} // verus!
