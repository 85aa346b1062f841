use vstd::prelude::*;

verus! {

/// Every way an operation on the wallet ledger can fail. Each failure is
/// reported to the caller with no partial mutation: a failed operation leaves
/// balances, points and counters exactly as they were before the call.
#[derive(Clone, Copy, Debug, PartialEq, Eq, Structural)]
pub enum ClawWalletError {
    /// A wallet already exists for the submitted agent identifier.
    DuplicateIdentity,
    /// The agent identifier exceeds the bound the derivation scheme accepts.
    IdentifierTooLong,
    /// The caller does not control the wallet it tried to move value from.
    Unauthorized,
    /// The source balance cannot cover the amount plus the retained-balance
    /// floor (or, for a token transfer, the amount itself).
    InsufficientFunds,
    /// The funding party cannot cover the storage cost of a new wallet record.
    AllocationFailure,
}

} // verus!
