//! The failures that the ledger core reports.

use vstd::prelude::*;

use crate::id::Id;

verus! {

/// Why an operation of the ledger core did not succeed.
#[derive(Clone, Copy, Debug, PartialEq, Eq)]
pub enum Error {
    /// A kind, a payer, a payee, an amount or a field name that the
    /// operation does not admit.
    InvalidArgument,
    /// The row asked for is not in the store.
    NotFound,
    /// The wallet's stored checksum is not the keyed tag of its contents.
    ChecksumMismatch,
    /// The payer has no credits and the transaction is not a spend.
    CreditsRequired,
    /// The payer's quota for this kind of transaction is below the amount.
    InsufficientBalance,
    /// A conditional status write did not apply and the row's status does
    /// not allow the operation to count as done.
    StatusConflict,
    /// The transaction row could not be inserted, or the payer's
    /// conditional write lost its race.
    PrepareFailed,
    /// The transaction was moved to cancelling but the payer's rollback did
    /// not go through within the retries.
    CancelStuck,
    /// The transaction was moved to committing but some wallet's write did
    /// not go through within the retries; each flag names one that failed.
    CommitPartial { payee: bool, system: bool, sub_payee: bool },
    /// The store reported a failure or a timeout.
    StoreUnavailable,
    /// A conditional write to a wallet lost its race on every retry.
    Contention,
    /// A number would leave the range of a signed 64-bit integer.
    Overflow,
}

} // verus!
