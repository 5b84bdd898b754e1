use nft_marketplace::market::Contract;
use nft_marketplace::types::{Bid, MarketError, Sale, SaleKey, Transfer};

fn reg_s(text: &str) -> String {
    text.to_string()
}

fn reg_market() -> Contract {
    Contract::new(reg_s("market"), reg_s("treasury"), 10)
}

fn reg_key(contract: &str, token: &str) -> SaleKey {
    SaleKey { nft_contract_id: reg_s(contract), token_id: reg_s(token) }
}

fn reg_list_fixed(market: &mut Contract, owner: &str, contract: &str, token: &str, price: u128) {
    let res = market.internal_add_market_data(
        100,
        reg_s(owner),
        7,
        reg_s(contract),
        reg_s(token),
        price,
        None,
        None,
        false,
    );
    assert_eq!(res, Ok(None));
}

#[test]
fn new_market_lists_nothing() {
    let market = reg_market();
    assert!(market.get_sale(&reg_s("svc1"), &reg_s("tok1")).is_none());
    assert_eq!(market.get_supply_by_owner_id(&reg_s("alice")), 0);
    assert!(market.list_by_owner(&reg_s("alice")).is_empty());
    assert!(market.list_by_nft_contract(&reg_s("svc1")).is_empty());
    assert_eq!(market.owner_id(), "market");
    assert_eq!(market.treasury_id(), "treasury");
}

#[test]
fn listing_adds_sale_and_index_entries() {
    let mut market = reg_market();
    reg_list_fixed(&mut market, "alice", "svc1", "tok1", 1000);
    let expected = Sale {
        owner_id: reg_s("alice"),
        approval_id: 7,
        nft_contract_id: reg_s("svc1"),
        token_id: reg_s("tok1"),
        price: 1000,
        bids: None,
        is_auction: false,
        start_time: None,
        end_time: None,
    };
    assert_eq!(market.get_sale(&reg_s("svc1"), &reg_s("tok1")), Some(&expected));
    assert_eq!(market.list_by_owner(&reg_s("alice")), vec![reg_key("svc1", "tok1")]);
    assert_eq!(market.list_by_nft_contract(&reg_s("svc1")), vec![reg_s("tok1")]);
    assert_eq!(market.get_supply_by_owner_id(&reg_s("alice")), 1);
}

#[test]
fn listing_an_auction_starts_with_an_empty_list_of_bids() {
    let mut market = reg_market();
    let res = market.internal_add_market_data(
        100,
        reg_s("alice"),
        3,
        reg_s("svc1"),
        reg_s("tok2"),
        500,
        Some(100),
        Some(200),
        true,
    );
    assert_eq!(res, Ok(None));
    let sale = market.get_sale(&reg_s("svc1"), &reg_s("tok2")).unwrap();
    assert_eq!(sale.bids, Some(vec![]));
    assert!(sale.is_auction);
    assert_eq!(sale.start_time, Some(100));
    assert_eq!(sale.end_time, Some(200));
    assert_eq!(sale.price, 500);
}

#[test]
fn listing_the_same_key_twice_keeps_one_sale() {
    let mut market = reg_market();
    reg_list_fixed(&mut market, "alice", "svc1", "tok1", 1000);
    reg_list_fixed(&mut market, "alice", "svc1", "tok1", 2000);
    assert_eq!(market.get_supply_by_owner_id(&reg_s("alice")), 1);
    assert_eq!(market.list_by_owner(&reg_s("alice")), vec![reg_key("svc1", "tok1")]);
    assert_eq!(market.list_by_nft_contract(&reg_s("svc1")), vec![reg_s("tok1")]);
    assert_eq!(market.get_sale(&reg_s("svc1"), &reg_s("tok1")).unwrap().price, 2000);
}

#[test]
fn keys_that_read_alike_are_kept_apart() {
    let mut market = reg_market();
    reg_list_fixed(&mut market, "alice", "a", "b.c", 1);
    reg_list_fixed(&mut market, "bob", "a.b", "c", 2);
    assert_eq!(
        reg_key("a", "b.c").contract_and_token_id(),
        reg_key("a.b", "c").contract_and_token_id()
    );
    assert_eq!(market.get_sale(&reg_s("a"), &reg_s("b.c")).unwrap().owner_id, "alice");
    assert_eq!(market.get_sale(&reg_s("a.b"), &reg_s("c")).unwrap().owner_id, "bob");
}

#[test]
fn written_key_joins_with_the_delimiter() {
    assert_eq!(reg_key("svc1", "tok1").contract_and_token_id(), "svc1.tok1");
    assert_eq!(reg_key("", "").contract_and_token_id(), ".");
}

#[test]
fn relisting_as_auction_keeps_price_bids_and_window() {
    let mut market = reg_market();
    market
        .internal_add_market_data(
            100,
            reg_s("alice"),
            1,
            reg_s("svc1"),
            reg_s("tok2"),
            500,
            Some(100),
            Some(200),
            true,
        )
        .unwrap();
    market.add_bid(&reg_s("svc1"), &reg_s("tok2"), reg_s("bob"), 520, 150).unwrap();
    let res = market.internal_add_market_data(
        160,
        reg_s("alice"),
        2,
        reg_s("svc1"),
        reg_s("tok2"),
        900,
        Some(300),
        Some(400),
        true,
    );
    assert_eq!(res, Ok(None));
    let sale = market.get_sale(&reg_s("svc1"), &reg_s("tok2")).unwrap();
    assert_eq!(sale.approval_id, 2);
    assert_eq!(sale.price, 500);
    assert_eq!(sale.start_time, Some(100));
    assert_eq!(sale.end_time, Some(200));
    let bids = sale.bids.as_ref().unwrap();
    assert_eq!(bids.len(), 1);
    assert_eq!(bids[0].bidder_id, "bob");
    assert_eq!(bids[0].price, 520);
}

#[test]
fn relisting_as_fixed_price_starts_afresh() {
    let mut market = reg_market();
    market
        .internal_add_market_data(
            100,
            reg_s("alice"),
            1,
            reg_s("svc1"),
            reg_s("tok2"),
            500,
            Some(100),
            Some(200),
            true,
        )
        .unwrap();
    reg_list_fixed(&mut market, "alice", "svc1", "tok2", 900);
    let sale = market.get_sale(&reg_s("svc1"), &reg_s("tok2")).unwrap();
    assert_eq!(sale.price, 900);
    assert_eq!(sale.bids, None);
    assert!(!sale.is_auction);
    assert_eq!(sale.start_time, None);
    assert_eq!(sale.end_time, None);
    assert_eq!(sale.approval_id, 7);
}

#[test]
fn relisting_a_fixed_price_sale_as_auction_keeps_what_the_sale_had() {
    let mut market = reg_market();
    reg_list_fixed(&mut market, "alice", "svc1", "tok1", 1000);
    let res = market.internal_add_market_data(
        100,
        reg_s("alice"),
        8,
        reg_s("svc1"),
        reg_s("tok1"),
        5,
        Some(150),
        Some(250),
        true,
    );
    assert_eq!(res, Ok(None));
    let sale = market.get_sale(&reg_s("svc1"), &reg_s("tok1")).unwrap();
    assert!(sale.is_auction);
    assert_eq!(sale.approval_id, 8);
    assert_eq!(sale.price, 1000);
    assert_eq!(sale.bids, None);
    assert_eq!(sale.start_time, None);
    assert_eq!(sale.end_time, None);
}

#[test]
fn relisting_by_another_owner_moves_the_index_entry() {
    let mut market = reg_market();
    reg_list_fixed(&mut market, "alice", "svc1", "tok1", 1000);
    reg_list_fixed(&mut market, "bob", "svc1", "tok1", 1500);
    assert!(market.list_by_owner(&reg_s("alice")).is_empty());
    assert_eq!(market.get_supply_by_owner_id(&reg_s("alice")), 0);
    assert_eq!(market.list_by_owner(&reg_s("bob")), vec![reg_key("svc1", "tok1")]);
    assert_eq!(market.list_by_nft_contract(&reg_s("svc1")), vec![reg_s("tok1")]);
    assert_eq!(market.get_sale(&reg_s("svc1"), &reg_s("tok1")).unwrap().owner_id, "bob");
}

#[test]
fn start_time_in_the_past_is_refused() {
    let mut market = reg_market();
    let res = market.internal_add_market_data(
        100,
        reg_s("alice"),
        1,
        reg_s("svc1"),
        reg_s("tok1"),
        5,
        Some(99),
        Some(200),
        true,
    );
    assert_eq!(res, Err(MarketError::InvalidAuctionWindow));
    assert!(market.get_sale(&reg_s("svc1"), &reg_s("tok1")).is_none());
    assert!(market.list_by_owner(&reg_s("alice")).is_empty());
}

#[test]
fn start_time_must_come_before_end_time() {
    let mut market = reg_market();
    let res = market.internal_add_market_data(
        100,
        reg_s("alice"),
        1,
        reg_s("svc1"),
        reg_s("tok1"),
        5,
        Some(200),
        Some(200),
        true,
    );
    assert_eq!(res, Err(MarketError::InvalidAuctionWindow));
}

#[test]
fn end_time_in_the_past_is_refused_even_for_a_fixed_price() {
    let mut market = reg_market();
    let res = market.internal_add_market_data(
        100,
        reg_s("alice"),
        1,
        reg_s("svc1"),
        reg_s("tok1"),
        5,
        None,
        Some(99),
        false,
    );
    assert_eq!(res, Err(MarketError::InvalidAuctionWindow));
}

#[test]
fn auction_needs_both_times() {
    let mut market = reg_market();
    let no_start = market.internal_add_market_data(
        100,
        reg_s("alice"),
        1,
        reg_s("svc1"),
        reg_s("tok1"),
        5,
        None,
        Some(200),
        true,
    );
    assert_eq!(no_start, Err(MarketError::InvalidAuctionWindow));
    let no_end = market.internal_add_market_data(
        100,
        reg_s("alice"),
        1,
        reg_s("svc1"),
        reg_s("tok1"),
        5,
        Some(100),
        None,
        true,
    );
    assert_eq!(no_end, Err(MarketError::InvalidAuctionWindow));
}

#[test]
fn window_that_starts_now_is_accepted() {
    let mut market = reg_market();
    let res = market.internal_add_market_data(
        100,
        reg_s("alice"),
        1,
        reg_s("svc1"),
        reg_s("tok1"),
        5,
        Some(100),
        Some(101),
        true,
    );
    assert_eq!(res, Ok(None));
}

#[test]
fn fixed_price_listing_may_carry_times() {
    let mut market = reg_market();
    let res = market.internal_add_market_data(
        100,
        reg_s("alice"),
        1,
        reg_s("svc1"),
        reg_s("tok1"),
        5,
        Some(120),
        None,
        false,
    );
    assert_eq!(res, Ok(None));
    let sale = market.get_sale(&reg_s("svc1"), &reg_s("tok1")).unwrap();
    assert_eq!(sale.start_time, Some(120));
    assert_eq!(sale.bids, None);
}

#[test]
fn removing_an_unknown_sale_fails_with_not_found() {
    let mut market = reg_market();
    reg_list_fixed(&mut market, "alice", "svc1", "tok1", 1000);
    assert_eq!(
        market.internal_remove_sale(&reg_s("svc1"), &reg_s("tok9")),
        Err(MarketError::NotFound)
    );
    assert_eq!(
        market.internal_remove_sale(&reg_s("svc9"), &reg_s("tok1")),
        Err(MarketError::NotFound)
    );
    assert_eq!(market.get_supply_by_owner_id(&reg_s("alice")), 1);
}

#[test]
fn removing_returns_the_sale_and_clears_the_indices() {
    let mut market = reg_market();
    reg_list_fixed(&mut market, "alice", "svc1", "tok1", 1000);
    let sale = market.internal_remove_sale(&reg_s("svc1"), &reg_s("tok1")).unwrap();
    assert_eq!(sale.owner_id, "alice");
    assert_eq!(sale.price, 1000);
    assert_eq!(sale.approval_id, 7);
    assert!(market.get_sale(&reg_s("svc1"), &reg_s("tok1")).is_none());
    assert!(market.list_by_owner(&reg_s("alice")).is_empty());
    assert!(market.list_by_nft_contract(&reg_s("svc1")).is_empty());
    assert_eq!(
        market.internal_remove_sale(&reg_s("svc1"), &reg_s("tok1")),
        Err(MarketError::NotFound)
    );
}

#[test]
fn index_entry_stays_while_the_owner_has_another_sale() {
    let mut market = reg_market();
    reg_list_fixed(&mut market, "alice", "svc1", "tok1", 1);
    reg_list_fixed(&mut market, "alice", "svc2", "tok1", 2);
    reg_list_fixed(&mut market, "bob", "svc1", "tok2", 3);
    market.internal_remove_sale(&reg_s("svc1"), &reg_s("tok1")).unwrap();
    assert_eq!(market.list_by_owner(&reg_s("alice")), vec![reg_key("svc2", "tok1")]);
    assert_eq!(market.list_by_owner(&reg_s("bob")), vec![reg_key("svc1", "tok2")]);
    assert_eq!(market.list_by_nft_contract(&reg_s("svc1")), vec![reg_s("tok2")]);
    assert_eq!(market.list_by_nft_contract(&reg_s("svc2")), vec![reg_s("tok1")]);
    market.internal_remove_sale(&reg_s("svc2"), &reg_s("tok1")).unwrap();
    assert!(market.list_by_owner(&reg_s("alice")).is_empty());
    assert_eq!(market.get_supply_by_owner_id(&reg_s("alice")), 0);
    assert!(market.list_by_nft_contract(&reg_s("svc2")).is_empty());
}

#[test]
fn removing_moves_the_last_key_into_the_gap() {
    let mut market = reg_market();
    reg_list_fixed(&mut market, "alice", "svc1", "tok1", 1);
    reg_list_fixed(&mut market, "alice", "svc1", "tok2", 2);
    reg_list_fixed(&mut market, "alice", "svc1", "tok3", 3);
    market.internal_remove_sale(&reg_s("svc1"), &reg_s("tok1")).unwrap();
    assert_eq!(
        market.list_by_owner(&reg_s("alice")),
        vec![reg_key("svc1", "tok3"), reg_key("svc1", "tok2")]
    );
    assert_eq!(market.list_by_nft_contract(&reg_s("svc1")), vec![reg_s("tok3"), reg_s("tok2")]);
    assert_eq!(market.get_sale(&reg_s("svc1"), &reg_s("tok2")).unwrap().price, 2);
    assert_eq!(market.get_sale(&reg_s("svc1"), &reg_s("tok3")).unwrap().price, 3);
}

#[test]
fn index_lists_exactly_the_sales_of_each_owner() {
    let mut market = reg_market();
    reg_list_fixed(&mut market, "alice", "svc1", "tok1", 1);
    reg_list_fixed(&mut market, "bob", "svc1", "tok2", 2);
    reg_list_fixed(&mut market, "alice", "svc2", "tok1", 3);
    for owner in ["alice", "bob", "carol"] {
        let keys = market.list_by_owner(&reg_s(owner));
        assert_eq!(keys.len(), market.get_supply_by_owner_id(&reg_s(owner)));
        for key in keys.iter() {
            let sale = market.get_sale(&key.nft_contract_id, &key.token_id).unwrap();
            assert_eq!(sale.owner_id, owner);
        }
    }
    assert_eq!(market.get_supply_by_owner_id(&reg_s("alice")), 2);
    assert_eq!(market.get_supply_by_owner_id(&reg_s("bob")), 1);
    assert_eq!(market.get_supply_by_owner_id(&reg_s("carol")), 0);
}

#[test]
fn sale_clone_is_equal() {
    let mut market = reg_market();
    market
        .internal_add_market_data(
            100,
            reg_s("alice"),
            1,
            reg_s("svc1"),
            reg_s("tok2"),
            500,
            Some(100),
            Some(200),
            true,
        )
        .unwrap();
    let sale = market.get_sale(&reg_s("svc1"), &reg_s("tok2")).unwrap();
    let copy = sale.clone();
    assert_eq!(&copy, sale);
    assert_eq!(copy.key(), reg_key("svc1", "tok2"));
}

#[test]
fn sales_are_enumerated_each_once() {
    let mut market = reg_market();
    reg_list_fixed(&mut market, "alice", "svc1", "tok1", 1);
    reg_list_fixed(&mut market, "bob", "svc1", "tok2", 2);
    reg_list_fixed(&mut market, "alice", "svc2", "tok1", 3);
    reg_list_fixed(&mut market, "alice", "svc1", "tok1", 4);
    let sales = market.sales();
    assert_eq!(sales.len(), 3);
    let mut prices: Vec<u128> = sales.iter().map(|sale| sale.price).collect();
    prices.sort();
    assert_eq!(prices, vec![2, 3, 4]);
    for sale in sales.iter() {
        assert_eq!(market.get_sale(&sale.nft_contract_id, &sale.token_id), Some(sale));
    }
}

#[test]
fn market_can_be_rebuilt_from_its_sales() {
    let mut market = reg_market();
    reg_list_fixed(&mut market, "alice", "svc1", "tok1", 1);
    reg_list_fixed(&mut market, "bob", "svc1", "tok2", 2);
    let mut rebuilt = reg_market();
    for sale in market.sales() {
        assert_eq!(rebuilt.insert_sale(sale), Ok(()));
    }
    assert_eq!(rebuilt.sales(), market.sales());
    assert_eq!(rebuilt.list_by_owner(&reg_s("alice")), market.list_by_owner(&reg_s("alice")));
    assert_eq!(rebuilt.list_by_owner(&reg_s("bob")), market.list_by_owner(&reg_s("bob")));
    assert_eq!(
        rebuilt.list_by_nft_contract(&reg_s("svc1")),
        market.list_by_nft_contract(&reg_s("svc1"))
    );
}

#[test]
fn malformed_sale_is_not_inserted() {
    let mut market = reg_market();
    let bid = |name: &str, price: u128| Bid { bidder_id: reg_s(name), price };
    let base = |bids: Option<Vec<Bid>>, is_auction: bool, start: Option<u64>, end: Option<u64>| Sale {
        owner_id: reg_s("alice"),
        approval_id: 1,
        nft_contract_id: reg_s("svc1"),
        token_id: reg_s("tok1"),
        price: 10,
        bids,
        is_auction,
        start_time: start,
        end_time: end,
    };
    let two_bids = base(Some(vec![bid("bob", 1), bid("carol", 2)]), true, Some(1), Some(2));
    assert!(!two_bids.well_formed());
    assert_eq!(market.insert_sale(two_bids), Err(MarketError::MalformedSale));
    let bid_on_fixed = base(Some(vec![bid("bob", 1)]), false, Some(1), Some(2));
    assert!(!bid_on_fixed.well_formed());
    assert_eq!(market.insert_sale(bid_on_fixed), Err(MarketError::MalformedSale));
    let bid_without_end = base(Some(vec![bid("bob", 1)]), true, Some(1), None);
    assert!(!bid_without_end.well_formed());
    assert_eq!(market.insert_sale(bid_without_end), Err(MarketError::MalformedSale));
    assert!(market.sales().is_empty());
    let one_bid = base(Some(vec![bid("bob", 1)]), true, Some(1), Some(2));
    assert!(one_bid.well_formed());
    assert_eq!(market.insert_sale(one_bid), Ok(()));
    assert!(base(None, false, None, None).well_formed());
    assert!(base(Some(vec![]), false, None, None).well_formed());
    assert_eq!(market.sales().len(), 1);
    assert_eq!(market.list_by_owner(&reg_s("alice")), vec![reg_key("svc1", "tok1")]);
}

#[test]
fn relisting_at_a_fixed_price_refunds_the_bid_in_escrow() {
    let mut market = reg_market();
    market
        .internal_add_market_data(
            100,
            reg_s("alice"),
            1,
            reg_s("svc1"),
            reg_s("tok2"),
            500,
            Some(100),
            Some(200),
            true,
        )
        .unwrap();
    market.add_bid(&reg_s("svc1"), &reg_s("tok2"), reg_s("bob"), 550, 150).unwrap();
    let refund = market.internal_add_market_data(
        160,
        reg_s("alice"),
        2,
        reg_s("svc1"),
        reg_s("tok2"),
        900,
        None,
        None,
        false,
    );
    assert_eq!(refund, Ok(Some(Transfer { receiver_id: reg_s("bob"), amount: 550 })));
    let sale = market.get_sale(&reg_s("svc1"), &reg_s("tok2")).unwrap();
    assert_eq!(sale.bids, None);
    assert!(!sale.is_auction);
    assert_eq!(sale.price, 900);
}

#[test]
fn relisting_as_an_auction_refunds_nothing() {
    let mut market = reg_market();
    market
        .internal_add_market_data(
            100,
            reg_s("alice"),
            1,
            reg_s("svc1"),
            reg_s("tok2"),
            500,
            Some(100),
            Some(200),
            true,
        )
        .unwrap();
    market.add_bid(&reg_s("svc1"), &reg_s("tok2"), reg_s("bob"), 550, 150).unwrap();
    let refund = market.internal_add_market_data(
        160,
        reg_s("carol"),
        2,
        reg_s("svc1"),
        reg_s("tok2"),
        900,
        Some(300),
        Some(400),
        true,
    );
    assert_eq!(refund, Ok(None));
    let sale = market.get_sale(&reg_s("svc1"), &reg_s("tok2")).unwrap();
    assert_eq!(sale.bids, Some(vec![Bid { bidder_id: reg_s("bob"), price: 550 }]));
    assert_eq!(sale.owner_id, "carol");
}

#[test]
fn inserting_over_a_listed_sale_is_refused() {
    let mut market = reg_market();
    reg_list_fixed(&mut market, "alice", "svc1", "tok1", 1000);
    let again = market.get_sale(&reg_s("svc1"), &reg_s("tok1")).unwrap().clone();
    assert_eq!(market.insert_sale(again), Err(MarketError::AlreadyListed));
    assert_eq!(market.sales().len(), 1);
    assert_eq!(market.get_supply_by_owner_id(&reg_s("alice")), 1);
}

#[test]
fn current_refund_is_the_last_bid() {
    let mut sale = Sale {
        owner_id: reg_s("alice"),
        approval_id: 1,
        nft_contract_id: reg_s("svc1"),
        token_id: reg_s("tok1"),
        price: 10,
        bids: None,
        is_auction: true,
        start_time: Some(1),
        end_time: Some(2),
    };
    assert_eq!(sale.current_refund(), None);
    sale.bids = Some(vec![]);
    assert_eq!(sale.current_refund(), None);
    sale.bids = Some(vec![Bid { bidder_id: reg_s("bob"), price: 20 }]);
    assert_eq!(sale.current_refund(), Some(Transfer { receiver_id: reg_s("bob"), amount: 20 }));
}
