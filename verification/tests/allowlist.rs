use nft_marketplace::allowlist::CONTRACT_ID_BYTES;
use nft_marketplace::market::Contract;
use nft_marketplace::types::MarketError;

const BYTE_COST: u128 = 10_000_000_000_000_000_000;
const STORAGE_PRICE_CONTRACT_ID: u128 = 100_000_000_000_000_000_000;

fn allow_s(text: &str) -> String {
    text.to_string()
}

fn allow_market() -> Contract {
    Contract::new(allow_s("market"), allow_s("treasury"), 10)
}

fn allow_trust(market: &mut Contract, account: &str, contract: &str) {
    assert_eq!(
        market.add_contract_for_account(
            allow_s(contract),
            &allow_s(account),
            STORAGE_PRICE_CONTRACT_ID,
            BYTE_COST
        ),
        Ok(())
    );
}

#[test]
fn deposit_for_a_contract_is_ten_bytes() {
    assert_eq!(CONTRACT_ID_BYTES, 10);
    let mut market = allow_market();
    assert_eq!(
        market.add_contract_for_account(allow_s("svc1"), &allow_s("alice"), 29, 3),
        Err(MarketError::ContractDepositTooLow)
    );
    assert_eq!(market.add_contract_for_account(allow_s("svc1"), &allow_s("alice"), 30, 3), Ok(()));
    assert_eq!(market.add_contract_for_account(allow_s("svc2"), &allow_s("alice"), 0, 0), Ok(()));
}

#[test]
fn deposit_that_cannot_be_counted_is_too_low() {
    let mut market = allow_market();
    assert_eq!(
        market.add_contract_for_account(allow_s("svc1"), &allow_s("alice"), u128::MAX, u128::MAX),
        Err(MarketError::ContractDepositTooLow)
    );
    assert!(market.get_contract_ids_for_account(&allow_s("alice")).is_empty());
}

#[test]
fn unknown_account_trusts_nothing() {
    let market = allow_market();
    assert!(market.get_contract_ids_for_account(&allow_s("alice")).is_empty());
}

#[test]
fn trusted_contracts_are_listed_in_order() {
    let mut market = allow_market();
    allow_trust(&mut market, "alice", "svc1");
    allow_trust(&mut market, "alice", "svc2");
    allow_trust(&mut market, "bob", "svc3");
    allow_trust(&mut market, "alice", "svc1");
    assert_eq!(
        market.get_contract_ids_for_account(&allow_s("alice")),
        vec![allow_s("svc1"), allow_s("svc2")]
    );
    assert_eq!(market.get_contract_ids_for_account(&allow_s("bob")), vec![allow_s("svc3")]);
}

#[test]
fn trusting_needs_the_storage_deposit() {
    let mut market = allow_market();
    assert_eq!(
        market.add_contract_for_account(
            allow_s("svc1"),
            &allow_s("alice"),
            STORAGE_PRICE_CONTRACT_ID - 1,
            BYTE_COST
        ),
        Err(MarketError::ContractDepositTooLow)
    );
    assert!(market.get_contract_ids_for_account(&allow_s("alice")).is_empty());
    assert_eq!(
        market.add_contract_for_account(
            allow_s("svc1"),
            &allow_s("alice"),
            STORAGE_PRICE_CONTRACT_ID + 1,
            BYTE_COST
        ),
        Ok(())
    );
}

#[test]
fn removing_a_contract_moves_the_last_into_its_place() {
    let mut market = allow_market();
    allow_trust(&mut market, "alice", "svc1");
    allow_trust(&mut market, "alice", "svc2");
    allow_trust(&mut market, "alice", "svc3");
    assert_eq!(
        market.remove_contract_for_account(&allow_s("svc1"), &allow_s("alice"), 1),
        Ok(())
    );
    assert_eq!(
        market.get_contract_ids_for_account(&allow_s("alice")),
        vec![allow_s("svc3"), allow_s("svc2")]
    );
}

#[test]
fn removing_the_last_contract_forgets_the_account() {
    let mut market = allow_market();
    allow_trust(&mut market, "alice", "svc1");
    assert_eq!(
        market.remove_contract_for_account(&allow_s("svc1"), &allow_s("alice"), 1),
        Ok(())
    );
    assert!(market.get_contract_ids_for_account(&allow_s("alice")).is_empty());
    assert_eq!(
        market.remove_contract_for_account(&allow_s("svc1"), &allow_s("alice"), 1),
        Err(MarketError::UnknownAccount)
    );
}

#[test]
fn removing_for_an_unknown_account_is_refused() {
    let mut market = allow_market();
    allow_trust(&mut market, "alice", "svc1");
    assert_eq!(
        market.remove_contract_for_account(&allow_s("svc1"), &allow_s("bob"), 1),
        Err(MarketError::UnknownAccount)
    );
}

#[test]
fn removing_an_unknown_contract_is_refused() {
    let mut market = allow_market();
    allow_trust(&mut market, "alice", "svc1");
    assert_eq!(
        market.remove_contract_for_account(&allow_s("svc2"), &allow_s("alice"), 1),
        Err(MarketError::UnknownContract)
    );
    assert_eq!(market.get_contract_ids_for_account(&allow_s("alice")), vec![allow_s("svc1")]);
}

#[test]
fn removing_a_contract_needs_exactly_one_unit_attached() {
    let mut market = allow_market();
    allow_trust(&mut market, "alice", "svc1");
    assert_eq!(
        market.remove_contract_for_account(&allow_s("svc1"), &allow_s("alice"), 0),
        Err(MarketError::RequiresOneYocto)
    );
    assert_eq!(
        market.remove_contract_for_account(&allow_s("svc1"), &allow_s("alice"), 2),
        Err(MarketError::RequiresOneYocto)
    );
    assert_eq!(
        market.remove_contract_for_account(&allow_s("svc1"), &allow_s("nobody"), 2),
        Err(MarketError::RequiresOneYocto)
    );
}

#[test]
fn trusted_contracts_do_not_touch_the_sales() {
    let mut market = allow_market();
    allow_trust(&mut market, "alice", "svc1");
    assert!(market.list_by_owner(&allow_s("alice")).is_empty());
    assert!(market.list_by_nft_contract(&allow_s("svc1")).is_empty());
}

#[test]
fn trusting_accounts_are_enumerated_each_once() {
    let mut market = allow_market();
    assert!(market.trusting_accounts().is_empty());
    allow_trust(&mut market, "alice", "svc1");
    allow_trust(&mut market, "bob", "svc1");
    allow_trust(&mut market, "alice", "svc2");
    let mut accounts = market.trusting_accounts();
    accounts.sort();
    assert_eq!(accounts, vec![allow_s("alice"), allow_s("bob")]);
}

#[test]
fn trust_is_recorded_without_a_deposit() {
    let mut market = allow_market();
    market.trust(&allow_s("alice"), allow_s("svc1"));
    market.trust(&allow_s("alice"), allow_s("svc1"));
    assert_eq!(market.get_contract_ids_for_account(&allow_s("alice")), vec![allow_s("svc1")]);
}
