use vstd::prelude::*;
use crate::authority::derive_sale_authority;
use crate::authority::derived_authority;
use crate::authority::sale_label;
use crate::errors::ErrorCode;
use crate::identity::Identity;
use crate::ledger::LedgerView;
use crate::sale::Sale;

verus! {

/// What one purchase settles to: the validation chain and, when every check
/// passes, the atomic two-leg transfer, as a single transition on the ledger
/// view. `derived` is the authority that the derivation primitive yields for
/// this sale; the vault's recorded owner must equal it, or the settlement
/// cannot sign the delivery leg.
///
/// The quota reads the buyer's held balance of the asset as the running
/// total of units acquired, not a sale-local counter; a buyer who acquired
/// the asset through another channel is charged against the cap for it.
pub open spec fn settle_outcome(
    sale: Sale,
    buyer: Identity,
    amount: u64,
    ledger: LedgerView,
    derived: Identity,
) -> Result<LedgerView, ErrorCode> {
    let total_price = sale.price * amount;
    if !sale.whitelist@.contains(buyer) {
        Err(ErrorCode::NotWhitelisted)
    } else if ledger.buyer_token_balance + amount > sale.max_tokens_per_wallet {
        Err(ErrorCode::ExceedsMaxTokens)
    } else if total_price > u64::MAX {
        Err(ErrorCode::ArithmeticOverflow)
    } else if ledger.vault_owner != derived {
        Err(ErrorCode::AuthorizationFailure)
    } else if ledger.buyer_payment_balance < total_price
        || ledger.seller_payment_balance + total_price > u64::MAX
        || ledger.vault_token_balance < amount {
        Err(ErrorCode::TransferFailure)
    } else {
        Ok(LedgerView {
            vault_owner: ledger.vault_owner,
            buyer_payment_balance: (ledger.buyer_payment_balance - total_price) as u64,
            seller_payment_balance: (ledger.seller_payment_balance + total_price) as u64,
            vault_token_balance: (ledger.vault_token_balance - amount) as u64,
            buyer_token_balance: (ledger.buyer_token_balance + amount) as u64,
        })
    }
}

/// Whether the buyer's identity stands in the allow-list.
pub fn is_whitelisted(whitelist: &Vec<Identity>, buyer: &Identity) -> (r: bool)
    ensures
        r == whitelist@.contains(*buyer),
{
    let n = whitelist.len();
    for i in 0..n
        invariant
            n == whitelist@.len(),
            forall|j: int| 0 <= j < i ==> whitelist@[j] != *buyer,
    {
        if whitelist[i] == *buyer {
            return true;
        }
    }
    false
}

/// Settles one purchase against the given derived authority: validates
/// eligibility, quota, and the total price, then either applies both
/// transfer legs to the ledger view as one indivisible unit or, on any
/// failure, returns the error and leaves the ledger exactly as it was.
pub fn settle(
    sale: &Sale,
    buyer: &Identity,
    amount: u64,
    derived: &Identity,
    ledger: &mut LedgerView,
) -> (r: Result<(), ErrorCode>)
    ensures
        match settle_outcome(*sale, *buyer, amount, *old(ledger), *derived) {
            Ok(l) => r is Ok && *final(ledger) == l,
            Err(e) => (r matches Err(a) && a == e) && *final(ledger) == *old(ledger),
        },
{
    if !is_whitelisted(&sale.whitelist, buyer) {
        return Err(ErrorCode::NotWhitelisted);
    }
    if amount > sale.max_tokens_per_wallet
        || ledger.buyer_token_balance > sale.max_tokens_per_wallet - amount {
        return Err(ErrorCode::ExceedsMaxTokens);
    }
    let total_price = match sale.price.checked_mul(amount) {
        Some(p) => p,
        None => {
            return Err(ErrorCode::ArithmeticOverflow);
        },
    };
    if ledger.vault_owner != *derived {
        return Err(ErrorCode::AuthorizationFailure);
    }
    if ledger.buyer_payment_balance < total_price
        || ledger.seller_payment_balance > u64::MAX - total_price
        || ledger.vault_token_balance < amount {
        return Err(ErrorCode::TransferFailure);
    }
    ledger.buyer_payment_balance = ledger.buyer_payment_balance - total_price;
    ledger.seller_payment_balance = ledger.seller_payment_balance + total_price;
    ledger.vault_token_balance = ledger.vault_token_balance - amount;
    ledger.buyer_token_balance = ledger.buyer_token_balance + amount;
    Ok(())
}

/// Processes one buy request: re-derives the vault-owning authority from the
/// program's identity and the fixed sale label, then settles against it.
///
/// The sale record is writable to the transaction, and the contract says the
/// purchase never changes any of its fields: only ledger balances move, and
/// only when every check passes.
pub fn buy_tokens(
    sale: &mut Sale,
    program_id: &Identity,
    buyer: &Identity,
    amount: u64,
    ledger: &mut LedgerView,
) -> (r: Result<(), ErrorCode>)
    ensures
        final(sale).authority == old(sale).authority,
        final(sale).token_mint == old(sale).token_mint,
        final(sale).token_vault == old(sale).token_vault,
        final(sale).price == old(sale).price,
        final(sale).max_tokens_per_wallet == old(sale).max_tokens_per_wallet,
        final(sale).whitelist@ == old(sale).whitelist@,
        match derived_authority(*program_id, sale_label()) {
            None => (r matches Err(e) && e == ErrorCode::AuthorizationFailure)
                && *final(ledger) == *old(ledger),
            Some(d) => match settle_outcome(*old(sale), *buyer, amount, *old(ledger), d.0) {
                Ok(l) => r is Ok && *final(ledger) == l,
                Err(e) => (r matches Err(a) && a == e) && *final(ledger) == *old(ledger),
            },
        },
{
    let derived = match derive_sale_authority(program_id) {
        Some((d, _bump)) => d,
        None => {
            return Err(ErrorCode::AuthorizationFailure);
        },
    };
    settle(&*sale, buyer, amount, &derived, ledger)
}

/// Eligibility gate: a buyer whose identity is absent from the allow-list is
/// rejected as not whitelisted, whatever the amount, the ledger, and the
/// derived authority — and a rejected purchase changes no balance, by the
/// contracts of `settle` and `buy_tokens`.
pub proof fn lemma_eligibility_gate(
    sale: Sale,
    buyer: Identity,
    amount: u64,
    ledger: LedgerView,
    derived: Identity,
)
    requires
        !sale.whitelist@.contains(buyer),
    ensures
        settle_outcome(sale, buyer, amount, ledger, derived)
            == Err::<LedgerView, ErrorCode>(ErrorCode::NotWhitelisted),
{
}

/// Quota enforcement: an eligible buyer already holding `k` units under a
/// cap of `max_tokens_per_wallet`, in a ledger that could otherwise settle
/// the purchase, succeeds exactly when `k + amount` stays within the cap,
/// and one unit over the cap is rejected as exceeding it.
pub proof fn lemma_quota_enforcement(
    sale: Sale,
    buyer: Identity,
    amount: u64,
    ledger: LedgerView,
    derived: Identity,
)
    requires
        sale.whitelist@.contains(buyer),
        sale.price * amount <= u64::MAX,
        ledger.vault_owner == derived,
        ledger.buyer_payment_balance >= sale.price * amount,
        ledger.seller_payment_balance + sale.price * amount <= u64::MAX,
        ledger.vault_token_balance >= amount,
    ensures
        settle_outcome(sale, buyer, amount, ledger, derived) is Ok
            <==> ledger.buyer_token_balance + amount <= sale.max_tokens_per_wallet,
        ledger.buyer_token_balance + amount > sale.max_tokens_per_wallet
            ==> settle_outcome(sale, buyer, amount, ledger, derived)
                == Err::<LedgerView, ErrorCode>(ErrorCode::ExceedsMaxTokens),
{
}

/// Overflow safety: when the unit price times the amount exceeds the numeric
/// range, an eligible, within-quota purchase fails as an arithmetic
/// overflow; and no purchase ever settles with an out-of-range total price —
/// the product never wraps to a smaller value and proceeds.
pub proof fn lemma_overflow_safety(
    sale: Sale,
    buyer: Identity,
    amount: u64,
    ledger: LedgerView,
    derived: Identity,
)
    ensures
        sale.whitelist@.contains(buyer)
            && ledger.buyer_token_balance + amount <= sale.max_tokens_per_wallet
            && sale.price * amount > u64::MAX
            ==> settle_outcome(sale, buyer, amount, ledger, derived)
                == Err::<LedgerView, ErrorCode>(ErrorCode::ArithmeticOverflow),
        settle_outcome(sale, buyer, amount, ledger, derived) is Ok
            ==> sale.price * amount <= u64::MAX,
{
}

/// Atomicity: when the token-delivery leg cannot settle because the vault
/// holds fewer than `amount` units, the whole purchase fails — so, by the
/// contracts of `settle` and `buy_tokens`, the payment leg has not taken
/// effect either and every balance is unchanged.
pub proof fn lemma_atomicity(
    sale: Sale,
    buyer: Identity,
    amount: u64,
    ledger: LedgerView,
    derived: Identity,
)
    requires
        ledger.vault_token_balance < amount,
    ensures
        settle_outcome(sale, buyer, amount, ledger, derived) is Err,
{
}

} // verus!
