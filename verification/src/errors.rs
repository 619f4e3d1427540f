use vstd::prelude::*;

verus! {

/// Why an operation was rejected. Every check is a hard precondition: any
/// failure aborts the whole operation with no partial state change.
#[derive(Clone, Copy, PartialEq, Eq, Structural, Debug)]
pub enum ErrorCode {
    /// The buyer's identity is absent from the allow-list.
    NotWhitelisted,
    /// The purchase would push the buyer's holdings over the per-buyer cap.
    ExceedsMaxTokens,
    /// The unit price times the amount does not fit in the numeric range.
    ArithmeticOverflow,
    /// The allow-list is larger than the storage reserved at creation.
    CapacityExceeded,
    /// The caller is not the seller at creation, or the vault's owner is not
    /// the derived authority at purchase.
    AuthorizationFailure,
    /// The underlying ledger rejected one of the transfer legs.
    TransferFailure,
}

} // verus!
