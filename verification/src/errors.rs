use vstd::prelude::*;

verus! {

/// Errors surfaced by the ledger model while the settlement sequence runs.
/// A real ledger aborts the whole transaction on any of these; the model
/// mirrors that by never committing a partial result.
#[derive(Clone, Copy, Debug, PartialEq, Eq, Structural)]
pub enum LedgerError {
    /// A transfer asked for more than the source balance holds.
    InsufficientFunds,
    /// A balance or the deal record was already closed when the attempt
    /// touched it (also the fate of a racing second cancellation).
    AccountClosed,
    /// A destination balance would exceed the representable maximum.
    BalanceOverflow,
    /// The escrow balance still held tokens when its closure was attempted.
    BalanceMismatch,
}

/// Why a cancellation attempt was refused.
#[derive(Clone, Copy, Debug, PartialEq, Eq, Structural)]
pub enum CancelError {
    /// The caller is none of client, executor, checker or the service
    /// identity.
    Unauthorized,
    /// The deal was never started.
    NotStarted,
    /// The deal posted no bond; the bond-free cancellation variant applies
    /// instead.
    NeedCancelWithoutBond,
    /// A deadline is set and lies in the future.
    DeadlineNotCome,
    /// A fund movement failed; the ledger error propagates unmodified.
    Ledger(LedgerError),
}

} // verus!
