use vstd::prelude::*;
use crate::errors::ErrorCode;
use crate::identity::Identity;

verus! {

/// The most allow-list entries the sale record reserves storage for.
/// A longer allow-list is rejected at creation, never truncated.
pub const MAX_ALLOW_LIST: usize = 100;

/// The persistent record of one sale. Created exactly once; no field
/// changes after creation succeeds, and there is no delete operation.
#[derive(Debug)]
pub struct Sale {
    /// The seller's identity, entitled to receive payment.
    pub authority: Identity,
    /// The identity of the fungible asset being sold.
    pub token_mint: Identity,
    /// The identity of the custodial vault holding unsold units.
    pub token_vault: Identity,
    /// Price per unit, in the payment asset.
    pub price: u64,
    /// Ceiling on cumulative units any single buyer may ever hold.
    pub max_tokens_per_wallet: u64,
    /// The identities permitted to purchase; fixed at creation.
    pub whitelist: Vec<Identity>,
}

impl Sale {
    /// The record's invariant: the allow-list fits the reserved storage.
    pub open spec fn wf(self) -> bool {
        self.whitelist@.len() <= MAX_ALLOW_LIST
    }
}

/// Creates the sale record: seller-only, one-time per sale instance.
///
/// The caller must be the seller, authenticated as the transaction's signer
/// (`authority_is_signer` is the signer check the platform performed), and
/// the allow-list must fit the reserved storage. Creation is all-or-nothing:
/// on any failure no record exists.
pub fn initialize(
    authority: &Identity,
    authority_is_signer: bool,
    token_mint: &Identity,
    token_vault: &Identity,
    price: u64,
    max_tokens_per_wallet: u64,
    whitelist: Vec<Identity>,
) -> (r: Result<Sale, ErrorCode>)
    ensures
        !authority_is_signer ==> (r matches Err(e) && e == ErrorCode::AuthorizationFailure),
        authority_is_signer && whitelist@.len() > MAX_ALLOW_LIST ==> (r matches Err(e)
            && e == ErrorCode::CapacityExceeded),
        authority_is_signer && whitelist@.len() <= MAX_ALLOW_LIST ==> (r matches Ok(sale)
            && sale.authority == *authority
            && sale.token_mint == *token_mint
            && sale.token_vault == *token_vault
            && sale.price == price
            && sale.max_tokens_per_wallet == max_tokens_per_wallet
            && sale.whitelist@ == whitelist@
            && sale.wf()),
{
    if !authority_is_signer {
        return Err(ErrorCode::AuthorizationFailure);
    }
    if whitelist.len() > MAX_ALLOW_LIST {
        return Err(ErrorCode::CapacityExceeded);
    }
    Ok(Sale {
        authority: *authority,
        token_mint: *token_mint,
        token_vault: *token_vault,
        price,
        max_tokens_per_wallet,
        whitelist,
    })
}

} // verus!
