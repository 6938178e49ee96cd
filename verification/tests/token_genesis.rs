use terraswap_token::InitError;
use terraswap_token::LedgerStore;
use terraswap_token::MintDescriptor;
use terraswap_token::TokenMetadata;
use terraswap_token::instantiate;

fn metadata(balances: Vec<(&str, u128)>, mint: Option<MintDescriptor>) -> TokenMetadata {
    TokenMetadata {
        name: "Test Token".to_owned(),
        symbol: "TTK".to_owned(),
        decimals: 6,
        initial_balances: balances
            .into_iter()
            .map(|(addr, amount)| (addr.to_owned(), amount))
            .collect(),
        mint,
    }
}

fn capped_mint(cap: Option<u128>) -> Option<MintDescriptor> {
    Some(MintDescriptor { minter: "minter".to_owned(), cap })
}

#[test]
fn initialize_totals_the_initial_balances() {
    let mut store = LedgerStore::new();
    let meta = metadata(vec![("addr_a", 1000), ("addr_b", 500)], capped_mint(Some(2000)));

    let result = instantiate(&mut store, meta, Some("minter".to_owned()));

    assert_eq!(result, Ok(()));
    let token = store.token.as_ref().expect("token state must be persisted");
    assert_eq!(token.name, "Test Token");
    assert_eq!(token.symbol, "TTK");
    assert_eq!(token.decimals, 6);
    assert_eq!(token.total_supply, 1500);
    let mint = token.mint.as_ref().expect("mint authorization must be persisted");
    assert_eq!(mint.minter, "minter");
    assert_eq!(mint.cap, Some(2000));
    assert_eq!(store.balance_of(&"addr_a".to_owned()), 1000);
    assert_eq!(store.balance_of(&"addr_b".to_owned()), 500);
}

#[test]
fn initialize_fails_when_supply_exceeds_cap() {
    let mut store = LedgerStore::new();
    let before = store.clone();
    let meta = metadata(vec![("addr_a", 1000), ("addr_b", 500)], capped_mint(Some(1000)));

    let result = instantiate(&mut store, meta, Some("minter".to_owned()));

    assert_eq!(result, Err(InitError::SupplyExceedsCap));
    assert_eq!(store, before);
    assert!(store.token.is_none());
    assert_eq!(store.balance_of(&"addr_a".to_owned()), 0);
    assert_eq!(store.balance_of(&"addr_b".to_owned()), 0);
}

#[test]
fn initialize_keeps_a_cap_equal_to_the_supply() {
    let mut store = LedgerStore::new();
    let meta = metadata(vec![("addr_a", 1000), ("addr_b", 500)], capped_mint(Some(1500)));

    let result = instantiate(&mut store, meta, Some("minter".to_owned()));

    assert_eq!(result, Ok(()));
    let token = store.token.as_ref().unwrap();
    assert_eq!(token.total_supply, 1500);
    assert_eq!(token.mint.as_ref().unwrap().cap, Some(1500));
}

#[test]
fn initialize_without_mint_persists_no_authorization() {
    let mut store = LedgerStore::new();
    let meta = metadata(vec![("addr_a", 42)], None);

    let result = instantiate(&mut store, meta, None);

    assert_eq!(result, Ok(()));
    let token = store.token.as_ref().unwrap();
    assert_eq!(token.total_supply, 42);
    assert!(token.mint.is_none());
}

#[test]
fn initialize_fails_on_an_unresolvable_minter() {
    let mut store = LedgerStore::new();
    let before = store.clone();
    let meta = metadata(vec![("addr_a", 10)], capped_mint(None));

    let result = instantiate(&mut store, meta, None);

    assert_eq!(result, Err(InitError::InvalidMinterAddress));
    assert_eq!(store, before);
}

#[test]
fn initialize_twice_fails_and_keeps_the_first_state() {
    let mut store = LedgerStore::new();
    let first = metadata(vec![("addr_a", 1000), ("addr_b", 500)], capped_mint(Some(2000)));
    assert_eq!(instantiate(&mut store, first, Some("minter".to_owned())), Ok(()));
    let after_first = store.clone();

    let second = metadata(vec![("addr_c", 7)], None);
    let result = instantiate(&mut store, second, None);

    assert_eq!(result, Err(InitError::AlreadyInitialized));
    assert_eq!(store, after_first);
    assert_eq!(store.token.as_ref().unwrap().total_supply, 1500);
    assert_eq!(store.balance_of(&"addr_c".to_owned()), 0);
    assert_eq!(store.balance_of(&"addr_a".to_owned()), 1000);
}

#[test]
fn initialize_with_no_balances_gives_zero_supply() {
    let mut store = LedgerStore::new();
    let meta = metadata(vec![], None);

    let result = instantiate(&mut store, meta, None);

    assert_eq!(result, Ok(()));
    assert_eq!(store.token.as_ref().unwrap().total_supply, 0);
    assert_eq!(store.balance_of(&"addr_a".to_owned()), 0);
}

#[test]
fn initialize_credits_a_duplicated_address_with_its_last_amount() {
    let mut store = LedgerStore::new();
    let meta = metadata(vec![("addr_a", 1000), ("addr_a", 500)], None);

    let result = instantiate(&mut store, meta, None);

    assert_eq!(result, Ok(()));
    assert_eq!(store.token.as_ref().unwrap().total_supply, 1500);
    assert_eq!(store.balance_of(&"addr_a".to_owned()), 500);
}

#[test]
fn initialize_carries_the_largest_representable_supply() {
    let mut store = LedgerStore::new();
    let meta = metadata(vec![("addr_a", u128::MAX - 1), ("addr_b", 1)], None);

    let result = instantiate(&mut store, meta, None);

    assert_eq!(result, Ok(()));
    assert_eq!(store.token.as_ref().unwrap().total_supply, u128::MAX);
}

#[test]
fn a_cap_error_outranks_a_bad_minter_and_a_second_genesis() {
    let mut store = LedgerStore::new();
    assert_eq!(instantiate(&mut store, metadata(vec![], None), None), Ok(()));
    let after_first = store.clone();

    let meta = metadata(vec![("addr_a", 2)], capped_mint(Some(1)));
    let result = instantiate(&mut store, meta, None);

    assert_eq!(result, Err(InitError::SupplyExceedsCap));
    assert_eq!(store, after_first);
}
