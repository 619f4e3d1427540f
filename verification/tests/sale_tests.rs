use whitelist_token_sale::initialize;
use whitelist_token_sale::ErrorCode;
use whitelist_token_sale::Identity;

fn id(n: u64) -> Identity {
    Identity { w0: n, w1: 0, w2: 0, w3: 0 }
}

#[test]
fn initialize_populates_the_record() {
    let seller = id(1);
    let mint = id(2);
    let vault = id(3);
    let whitelist = vec![id(10), id(11)];
    let sale = initialize(&seller, true, &mint, &vault, 7, 40, whitelist).unwrap();
    assert_eq!(sale.authority, seller);
    assert_eq!(sale.token_mint, mint);
    assert_eq!(sale.token_vault, vault);
    assert_eq!(sale.price, 7);
    assert_eq!(sale.max_tokens_per_wallet, 40);
    assert_eq!(sale.whitelist, vec![id(10), id(11)]);
}

#[test]
fn initialize_requires_the_seller_signature() {
    let r = initialize(&id(1), false, &id(2), &id(3), 7, 40, vec![id(10)]);
    assert_eq!(r.unwrap_err(), ErrorCode::AuthorizationFailure);
}

#[test]
fn initialize_accepts_a_full_allow_list() {
    let whitelist: Vec<Identity> = (0..100).map(id).collect();
    let sale = initialize(&id(1), true, &id(2), &id(3), 7, 40, whitelist).unwrap();
    assert_eq!(sale.whitelist.len(), 100);
}

#[test]
fn initialize_rejects_an_overlong_allow_list() {
    let whitelist: Vec<Identity> = (0..101).map(id).collect();
    let r = initialize(&id(1), true, &id(2), &id(3), 7, 40, whitelist);
    assert_eq!(r.unwrap_err(), ErrorCode::CapacityExceeded);
}

#[test]
fn initialize_accepts_an_empty_allow_list() {
    let sale = initialize(&id(1), true, &id(2), &id(3), 0, 0, Vec::new()).unwrap();
    assert_eq!(sale.whitelist.len(), 0);
}
