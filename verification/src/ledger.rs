use vstd::prelude::*;
use crate::identity::Identity;

verus! {

/// The slice of the external ledger that one purchase reads and writes,
/// as plain values: the owner recorded on the custodial vault and the four
/// balances the two transfer legs touch.
///
/// The ledger substrate itself (persistence, signature checking, isolation
/// of concurrent transactions) is a collaborator; the settlement logic is
/// verified over this view of it.
#[derive(Clone, Copy, PartialEq, Eq, Structural, Debug)]
pub struct LedgerView {
    /// The identity recorded as the owner of the custodial vault.
    pub vault_owner: Identity,
    /// The buyer's balance of the payment asset.
    pub buyer_payment_balance: u64,
    /// The seller's balance of the payment asset.
    pub seller_payment_balance: u64,
    /// The vault's balance of the asset being sold.
    pub vault_token_balance: u64,
    /// The buyer's balance of the asset being sold.
    pub buyer_token_balance: u64,
}

} // verus!
