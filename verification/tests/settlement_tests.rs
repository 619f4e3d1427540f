use whitelist_token_sale::initialize;
use whitelist_token_sale::settle;
use whitelist_token_sale::ErrorCode;
use whitelist_token_sale::Identity;
use whitelist_token_sale::LedgerView;
use whitelist_token_sale::Sale;

fn id(n: u64) -> Identity {
    Identity { w0: n, w1: 0, w2: 0, w3: 0 }
}

fn sale_with(price: u64, max: u64, whitelist: Vec<Identity>) -> Sale {
    initialize(&id(1), true, &id(2), &id(3), price, max, whitelist).unwrap()
}

fn ledger_with(derived: Identity, pay: u64, vault: u64, held: u64) -> LedgerView {
    LedgerView {
        vault_owner: derived,
        buyer_payment_balance: pay,
        seller_payment_balance: 0,
        vault_token_balance: vault,
        buyer_token_balance: held,
    }
}

#[test]
fn settle_moves_both_legs_at_once() {
    let buyer = id(10);
    let derived = id(20);
    let sale = sale_with(7, 40, vec![buyer]);
    let mut ledger = ledger_with(derived, 100, 50, 0);
    assert_eq!(settle(&sale, &buyer, 3, &derived, &mut ledger), Ok(()));
    assert_eq!(ledger.buyer_payment_balance, 79);
    assert_eq!(ledger.seller_payment_balance, 21);
    assert_eq!(ledger.vault_token_balance, 47);
    assert_eq!(ledger.buyer_token_balance, 3);
}

#[test]
fn outsider_is_rejected_and_nothing_moves() {
    let derived = id(20);
    let sale = sale_with(7, 40, vec![id(10)]);
    let before = ledger_with(derived, 100, 50, 0);
    let mut ledger = before;
    let r = settle(&sale, &id(99), 1, &derived, &mut ledger);
    assert_eq!(r, Err(ErrorCode::NotWhitelisted));
    assert_eq!(ledger, before);
}

#[test]
fn quota_boundary_is_exact() {
    let buyer = id(10);
    let derived = id(20);
    let sale = sale_with(1, 50, vec![buyer]);
    let mut ledger = ledger_with(derived, 1000, 1000, 5);
    assert_eq!(settle(&sale, &buyer, 45, &derived, &mut ledger), Ok(()));
    assert_eq!(ledger.buyer_token_balance, 50);
    let before = ledger;
    let r = settle(&sale, &buyer, 1, &derived, &mut ledger);
    assert_eq!(r, Err(ErrorCode::ExceedsMaxTokens));
    assert_eq!(ledger, before);
}

#[test]
fn price_overflow_is_fatal_and_nothing_moves() {
    let buyer = id(10);
    let derived = id(20);
    let sale = sale_with(u64::MAX, u64::MAX, vec![buyer]);
    let before = ledger_with(derived, u64::MAX, u64::MAX, 0);
    let mut ledger = before;
    let r = settle(&sale, &buyer, 2, &derived, &mut ledger);
    assert_eq!(r, Err(ErrorCode::ArithmeticOverflow));
    assert_eq!(ledger, before);
}

#[test]
fn wrong_vault_owner_cannot_sign_the_delivery() {
    let buyer = id(10);
    let derived = id(20);
    let sale = sale_with(7, 40, vec![buyer]);
    let before = ledger_with(id(21), 100, 50, 0);
    let mut ledger = before;
    let r = settle(&sale, &buyer, 1, &derived, &mut ledger);
    assert_eq!(r, Err(ErrorCode::AuthorizationFailure));
    assert_eq!(ledger, before);
}

#[test]
fn short_vault_fails_and_payment_is_untouched() {
    let buyer = id(10);
    let derived = id(20);
    let sale = sale_with(7, 40, vec![buyer]);
    let before = ledger_with(derived, 100, 4, 0);
    let mut ledger = before;
    let r = settle(&sale, &buyer, 5, &derived, &mut ledger);
    assert_eq!(r, Err(ErrorCode::TransferFailure));
    assert_eq!(ledger, before);
    assert_eq!(ledger.buyer_payment_balance, 100);
}

#[test]
fn short_payment_balance_fails_and_nothing_moves() {
    let buyer = id(10);
    let derived = id(20);
    let sale = sale_with(7, 40, vec![buyer]);
    let before = ledger_with(derived, 20, 50, 0);
    let mut ledger = before;
    let r = settle(&sale, &buyer, 3, &derived, &mut ledger);
    assert_eq!(r, Err(ErrorCode::TransferFailure));
    assert_eq!(ledger, before);
}

#[test]
fn empty_allow_list_rejects_every_buyer() {
    let derived = id(20);
    let sale = sale_with(7, 40, Vec::new());
    let before = ledger_with(derived, 100, 50, 0);
    for buyer in [id(0), id(10), id(u64::MAX)] {
        let mut ledger = before;
        let r = settle(&sale, &buyer, 1, &derived, &mut ledger);
        assert_eq!(r, Err(ErrorCode::NotWhitelisted));
        assert_eq!(ledger, before);
    }
}

#[test]
fn amount_alone_over_the_cap_is_rejected() {
    let buyer = id(10);
    let derived = id(20);
    let sale = sale_with(1, 50, vec![buyer]);
    let before = ledger_with(derived, 1000, 1000, 0);
    let mut ledger = before;
    let r = settle(&sale, &buyer, 51, &derived, &mut ledger);
    assert_eq!(r, Err(ErrorCode::ExceedsMaxTokens));
    assert_eq!(ledger, before);
}

#[test]
fn zero_amount_settles_and_moves_nothing() {
    let buyer = id(10);
    let derived = id(20);
    let sale = sale_with(7, 40, vec![buyer]);
    let before = ledger_with(derived, 100, 50, 0);
    let mut ledger = before;
    assert_eq!(settle(&sale, &buyer, 0, &derived, &mut ledger), Ok(()));
    assert_eq!(ledger, before);
}
