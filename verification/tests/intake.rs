use nft_marketplace::intake::SaleArgs;
use nft_marketplace::market::Contract;
use nft_marketplace::types::{MarketError, SaleKey, Transfer};

const PER_SALE: u128 = 10_000_000_000_000_000_000_000;

fn intake_s(text: &str) -> String {
    text.to_string()
}

fn intake_fixed(price: u128) -> SaleArgs {
    SaleArgs { price, is_auction: false, start_time: None, end_time: None }
}

fn intake_approve(
    market: &mut Contract,
    token: &str,
    args: SaleArgs,
    paid: u128,
) -> Result<Option<Transfer>, MarketError> {
    market.nft_on_approve(
        intake_s(token),
        intake_s("alice"),
        5,
        args,
        intake_s("svc1"),
        &intake_s("alice"),
        100,
        PER_SALE,
        paid,
    )
}

#[test]
fn approval_lists_the_asset_of_the_calling_custody_service() {
    let mut market = Contract::new(intake_s("market"), intake_s("treasury"), 10);
    assert_eq!(intake_approve(&mut market, "tok1", intake_fixed(1000), PER_SALE), Ok(None));
    let sale = market.get_sale(&intake_s("svc1"), &intake_s("tok1")).unwrap();
    assert_eq!(sale.owner_id, "alice");
    assert_eq!(sale.approval_id, 5);
    assert_eq!(sale.nft_contract_id, "svc1");
    assert_eq!(sale.token_id, "tok1");
    assert_eq!(sale.price, 1000);
    assert!(!sale.is_auction);
    assert_eq!(
        market.list_by_owner(&intake_s("alice")),
        vec![SaleKey { nft_contract_id: intake_s("svc1"), token_id: intake_s("tok1") }]
    );
}

#[test]
fn approval_of_an_auction_keeps_its_window() {
    let mut market = Contract::new(intake_s("market"), intake_s("treasury"), 10);
    let args = SaleArgs { price: 500, is_auction: true, start_time: Some(100), end_time: Some(200) };
    assert_eq!(intake_approve(&mut market, "tok2", args, PER_SALE), Ok(None));
    let sale = market.get_sale(&intake_s("svc1"), &intake_s("tok2")).unwrap();
    assert!(sale.is_auction);
    assert_eq!(sale.start_time, Some(100));
    assert_eq!(sale.end_time, Some(200));
    assert_eq!(sale.bids, Some(vec![]));
}

#[test]
fn approval_signed_by_the_caller_is_untrusted() {
    let mut market = Contract::new(intake_s("market"), intake_s("treasury"), 10);
    let res = market.nft_on_approve(
        intake_s("tok1"),
        intake_s("alice"),
        5,
        intake_fixed(1000),
        intake_s("alice"),
        &intake_s("alice"),
        100,
        PER_SALE,
        PER_SALE,
    );
    assert_eq!(res, Err(MarketError::Untrusted));
    assert!(market.get_sale(&intake_s("alice"), &intake_s("tok1")).is_none());
}

#[test]
fn approval_for_an_owner_who_did_not_sign_is_untrusted() {
    let mut market = Contract::new(intake_s("market"), intake_s("treasury"), 10);
    let res = market.nft_on_approve(
        intake_s("tok1"),
        intake_s("alice"),
        5,
        intake_fixed(1000),
        intake_s("svc1"),
        &intake_s("mallory"),
        100,
        PER_SALE,
        PER_SALE,
    );
    assert_eq!(res, Err(MarketError::Untrusted));
    assert!(market.get_sale(&intake_s("svc1"), &intake_s("tok1")).is_none());
}

#[test]
fn approval_needs_storage_for_one_more_listing() {
    let mut market = Contract::new(intake_s("market"), intake_s("treasury"), 10);
    assert_eq!(
        intake_approve(&mut market, "tok1", intake_fixed(1000), PER_SALE - 1),
        Err(MarketError::InsufficientStorage)
    );
    assert_eq!(intake_approve(&mut market, "tok1", intake_fixed(1000), PER_SALE), Ok(None));
    assert_eq!(
        intake_approve(&mut market, "tok2", intake_fixed(1000), 2 * PER_SALE - 1),
        Err(MarketError::InsufficientStorage)
    );
    assert_eq!(intake_approve(&mut market, "tok2", intake_fixed(1000), 2 * PER_SALE), Ok(None));
    assert_eq!(market.get_supply_by_owner_id(&intake_s("alice")), 2);
}

#[test]
fn storage_that_cannot_be_counted_is_not_covered() {
    let mut market = Contract::new(intake_s("market"), intake_s("treasury"), 10);
    intake_approve(&mut market, "tok1", intake_fixed(1000), PER_SALE).unwrap();
    let res = market.nft_on_approve(
        intake_s("tok2"),
        intake_s("alice"),
        5,
        intake_fixed(1000),
        intake_s("svc1"),
        &intake_s("alice"),
        100,
        u128::MAX,
        u128::MAX,
    );
    assert_eq!(res, Err(MarketError::InsufficientStorage));
}

#[test]
fn free_storage_is_always_covered() {
    let mut market = Contract::new(intake_s("market"), intake_s("treasury"), 10);
    let res = market.nft_on_approve(
        intake_s("tok1"),
        intake_s("alice"),
        5,
        intake_fixed(1000),
        intake_s("svc1"),
        &intake_s("alice"),
        100,
        0,
        0,
    );
    assert_eq!(res, Ok(None));
}

#[test]
fn approval_with_a_bad_window_is_refused() {
    let mut market = Contract::new(intake_s("market"), intake_s("treasury"), 10);
    let late = SaleArgs { price: 500, is_auction: true, start_time: Some(99), end_time: Some(200) };
    assert_eq!(
        intake_approve(&mut market, "tok2", late, PER_SALE),
        Err(MarketError::InvalidAuctionWindow)
    );
    let open_ended = SaleArgs { price: 500, is_auction: true, start_time: Some(100), end_time: None };
    assert_eq!(
        intake_approve(&mut market, "tok2", open_ended, PER_SALE),
        Err(MarketError::InvalidAuctionWindow)
    );
    assert!(market.get_sale(&intake_s("svc1"), &intake_s("tok2")).is_none());
}

#[test]
fn storage_is_checked_before_the_window() {
    let mut market = Contract::new(intake_s("market"), intake_s("treasury"), 10);
    let late = SaleArgs { price: 500, is_auction: true, start_time: Some(99), end_time: Some(200) };
    assert_eq!(
        intake_approve(&mut market, "tok2", late, 0),
        Err(MarketError::InsufficientStorage)
    );
}

#[test]
fn sale_args_are_plain_data() {
    let args = SaleArgs { price: 1, is_auction: true, start_time: Some(2), end_time: Some(3) };
    let copy = args;
    assert_eq!(copy, args);
    assert_eq!(copy.clone(), args);
}

#[test]
fn sender_is_checked_apart_from_the_terms() {
    let mut market = Contract::new(intake_s("market"), intake_s("treasury"), 10);
    let alice = intake_s("alice");
    let svc = intake_s("svc1");
    assert_eq!(market.check_approval_sender(&alice, &svc, &alice, PER_SALE, PER_SALE), Ok(()));
    assert_eq!(
        market.check_approval_sender(&alice, &alice, &alice, PER_SALE, PER_SALE),
        Err(MarketError::Untrusted)
    );
    assert_eq!(
        market.check_approval_sender(&alice, &svc, &intake_s("bob"), PER_SALE, PER_SALE),
        Err(MarketError::Untrusted)
    );
    assert_eq!(
        market.check_approval_sender(&alice, &svc, &alice, PER_SALE, PER_SALE - 1),
        Err(MarketError::InsufficientStorage)
    );
    intake_approve(&mut market, "tok1", intake_fixed(1000), PER_SALE).unwrap();
    assert_eq!(
        market.check_approval_sender(&alice, &svc, &alice, PER_SALE, PER_SALE),
        Err(MarketError::InsufficientStorage)
    );
    assert_eq!(market.check_approval_sender(&alice, &svc, &alice, PER_SALE, 2 * PER_SALE), Ok(()));
}

#[test]
fn approval_at_a_fixed_price_over_an_auction_refunds_the_bidder() {
    let mut market = Contract::new(intake_s("market"), intake_s("treasury"), 10);
    let auction = SaleArgs { price: 500, is_auction: true, start_time: Some(100), end_time: Some(200) };
    assert_eq!(intake_approve(&mut market, "tok2", auction, PER_SALE), Ok(None));
    market.add_bid(&intake_s("svc1"), &intake_s("tok2"), intake_s("bob"), 550, 150).unwrap();
    assert_eq!(
        intake_approve(&mut market, "tok2", intake_fixed(900), 2 * PER_SALE),
        Ok(Some(Transfer { receiver_id: intake_s("bob"), amount: 550 }))
    );
    let sale = market.get_sale(&intake_s("svc1"), &intake_s("tok2")).unwrap();
    assert_eq!(sale.bids, None);
    assert_eq!(sale.price, 900);
}
