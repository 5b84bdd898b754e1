//! The registry of sales with its two indices, and the operations that list
//! and unlist a sale.

use crate::collections::{Key, VecMap};
use crate::index::{index_group, GroupIndex};
use crate::model::{
    enumerates, lemma_amend_wf, lemma_list_wf, lemma_trusted_wf, lemma_unlist_wf, MarketState,
};
use crate::types::{
    key_of, refund_of, transfer_view, Bid, MarketError, Sale, SaleKey, SaleKeyView, SaleView,
    Transfer, TransferView,
};
use vstd::prelude::*;

verus! {

/// Whether a listing with these times is acceptable at `now`.
///
/// A start time must not lie in the past and must come before the end time; an
/// end time must not lie in the past; an auction needs both.
pub open spec fn valid_window(
    now: u64,
    start_time: Option<u64>,
    end_time: Option<u64>,
    is_auction: bool,
) -> bool {
    &&& start_time matches Some(start) ==> start >= now && (end_time matches Some(end) ==> start
        < end)
    &&& end_time matches Some(end) ==> end >= now
    &&& is_auction ==> start_time is Some && end_time is Some
}

/// The sale that a listing puts into the registry of `s`.
///
/// Where a sale already stands under the key and the listing declares an
/// auction, the price, the bids and the times of that sale stay; everything
/// else comes from the listing.
pub open spec fn listing(
    s: MarketState,
    owner_id: Seq<char>,
    approval_id: u64,
    nft_contract_id: Seq<char>,
    token_id: Seq<char>,
    price: u128,
    start_time: Option<u64>,
    end_time: Option<u64>,
    is_auction: bool,
) -> SaleView {
    let key = key_of(nft_contract_id, token_id);
    if s.sales.contains_key(key) && is_auction {
        SaleView {
            owner_id,
            approval_id,
            nft_contract_id,
            token_id,
            price: s.sales[key].price,
            bids: s.sales[key].bids,
            is_auction,
            start_time: s.sales[key].start_time,
            end_time: s.sales[key].end_time,
        }
    } else {
        SaleView {
            owner_id,
            approval_id,
            nft_contract_id,
            token_id,
            price,
            bids: if is_auction {
                Some(Seq::empty())
            } else {
                None
            },
            is_auction,
            start_time,
            end_time,
        }
    }
}

/// What a listing under `key` pays back: the bid in escrow of the sale that
/// stood there, where the listing is at a fixed price and so does not keep it.
pub open spec fn listing_refund(s: MarketState, key: SaleKeyView, is_auction: bool) -> Option<
    TransferView,
> {
    if s.sales.contains_key(key) && !is_auction {
        refund_of(s.sales[key])
    } else {
        None
    }
}

/// Why `sale` cannot be inserted into the registry of `s`, if it cannot.
pub open spec fn insert_refusal(s: MarketState, sale: SaleView) -> Option<MarketError> {
    if !sale.wf() {
        Some(MarketError::MalformedSale)
    } else if s.sales.contains_key(sale.key()) {
        Some(MarketError::AlreadyListed)
    } else {
        None
    }
}

/// The marketplace: its operator, its treasury, the registry of sales and the
/// indices.
pub struct Contract {
    owner_id: String,
    treasury_id: String,
    min_bid_increment: u128,
    sales: VecMap<SaleKey, Sale>,
    by_owner_id: GroupIndex<SaleKey>,
    by_nft_contract_id: GroupIndex<String>,
    contract_ids_by_account_id: GroupIndex<String>,
}

impl View for Contract {
    type V = MarketState;

    closed spec fn view(&self) -> MarketState {
        MarketState {
            owner_id: self.owner_id@,
            treasury_id: self.treasury_id@,
            min_bid_increment: self.min_bid_increment,
            sales: self.sales@.map_values(|sale: Sale| sale@),
            by_owner_id: self.by_owner_id@,
            by_nft_contract_id: self.by_nft_contract_id@,
            contract_ids_by_account_id: self.contract_ids_by_account_id@,
        }
    }
}

/// Whether `now` is acceptable for a listing with these times.
fn check_window(now: u64, start_time: Option<u64>, end_time: Option<u64>, is_auction: bool) -> (ok:
    bool)
    ensures
        ok == valid_window(now, start_time, end_time, is_auction),
{
    let start_ok = match start_time {
        Some(start) => start >= now && match end_time {
            Some(end) => start < end,
            None => true,
        },
        None => true,
    };
    let end_ok = match end_time {
        Some(end) => end >= now,
        None => true,
    };
    let both = !is_auction || (start_time.is_some() && end_time.is_some());
    start_ok && end_ok && both
}

impl Contract {
    /// The parts are well formed, and the state satisfies the market's condition:
    /// no two sales share a key, and the indices list exactly the sales.
    pub closed spec fn wf(&self) -> bool {
        &&& self.sales.wf()
        &&& self.by_owner_id.wf()
        &&& self.by_nft_contract_id.wf()
        &&& self.contract_ids_by_account_id.wf()
        &&& self@.wf()
    }

    /// A well-formed marketplace has a well-formed state.
    pub proof fn lemma_wf_view(&self)
        requires
            self.wf(),
        ensures
            self@.wf(),
    {
    }

    /// A marketplace with nothing listed, run by `owner_id`, whose fees go to
    /// `treasury_id` and whose bids must rise by `min_bid_increment`.
    pub fn new(owner_id: String, treasury_id: String, min_bid_increment: u128) -> (market: Self)
        ensures
            market.wf(),
            market@ == MarketState::empty(owner_id@, treasury_id@, min_bid_increment),
    {
        let market = Contract {
            owner_id,
            treasury_id,
            min_bid_increment,
            sales: VecMap::new(),
            by_owner_id: GroupIndex::new(),
            by_nft_contract_id: GroupIndex::new(),
            contract_ids_by_account_id: GroupIndex::new(),
        };
        assert(market@.sales =~= Map::<SaleKeyView, SaleView>::empty());
        market
    }

    /// The operator of the market.
    pub fn owner_id(&self) -> (id: &String)
        ensures
            id@ == self@.owner_id,
    {
        &self.owner_id
    }

    /// The account that receives the fees.
    pub fn treasury_id(&self) -> (id: &String)
        ensures
            id@ == self@.treasury_id,
    {
        &self.treasury_id
    }

    /// The smallest amount by which a bid must exceed the reserve or the bid
    /// before it.
    pub fn min_bid_increment(&self) -> (increment: u128)
        ensures
            increment == self@.min_bid_increment,
    {
        self.min_bid_increment
    }

    /// The sale listed under the given custody service and asset, if there is one.
    pub fn get_sale(&self, nft_contract_id: &String, token_id: &String) -> (found: Option<&Sale>)
        requires
            self.wf(),
        ensures
            match found {
                Some(sale) => {
                    &&& self@.sales.contains_key(key_of(nft_contract_id@, token_id@))
                    &&& sale@ == self@.sales[key_of(nft_contract_id@, token_id@)]
                },
                None => !self@.sales.contains_key(key_of(nft_contract_id@, token_id@)),
            },
    {
        let key = SaleKey::new(nft_contract_id, token_id);
        self.sales.get(&key)
    }

    /// The number of sales that `account_id` has listed.
    pub fn get_supply_by_owner_id(&self, account_id: &String) -> (n: usize)
        requires
            self.wf(),
        ensures
            n == index_group(self@.by_owner_id, account_id@).len(),
    {
        self.by_owner_id.count(account_id)
    }

    /// The keys of the sales that `owner` has listed, in the order of the index.
    pub fn list_by_owner(&self, owner: &String) -> (keys: Vec<SaleKey>)
        requires
            self.wf(),
        ensures
            keys@.map_values(|k: SaleKey| k@) == index_group(self@.by_owner_id, owner@),
    {
        self.by_owner_id.members(owner)
    }

    /// The assets of `nft_contract_id` that are on sale, in the order of the index.
    pub fn list_by_nft_contract(&self, nft_contract_id: &String) -> (tokens: Vec<String>)
        requires
            self.wf(),
        ensures
            tokens@.map_values(|t: String| t@) == index_group(
                self@.by_nft_contract_id,
                nft_contract_id@,
            ),
    {
        self.by_nft_contract_id.members(nft_contract_id)
    }

    /// Takes the sale under the given custody service and asset out of the
    /// registry and out of both indices, and returns it.
    ///
    /// Fails with `NotFound`, changing nothing, where no such sale is listed.
    pub fn internal_remove_sale(&mut self, nft_contract_id: &String, token_id: &String) -> (res:
        Result<Sale, MarketError>)
        requires
            old(self).wf(),
        ensures
            final(self).wf(),
            match res {
                Ok(sale) => {
                    let key = key_of(nft_contract_id@, token_id@);
                    &&& old(self)@.sales.contains_key(key)
                    &&& sale@ == old(self)@.sales[key]
                    &&& final(self)@ == old(self)@.unlist(key)
                },
                Err(e) => {
                    &&& e == MarketError::NotFound
                    &&& !old(self)@.sales.contains_key(key_of(nft_contract_id@, token_id@))
                    &&& final(self)@ == old(self)@
                },
            },
    {
        let key = SaleKey::new(nft_contract_id, token_id);
        proof {
            lemma_unlist_wf(self@, key@);
        }
        match self.sales.remove(&key) {
            Some(sale) => {
                self.by_owner_id.remove(&sale.owner_id, &key);
                self.by_nft_contract_id.remove(nft_contract_id, token_id);
                assert(self@.sales =~= old(self)@.sales.remove(key@));
                Ok(sale)
            },
            None => {
                assert(self@.sales =~= old(self)@.sales);
                Err(MarketError::NotFound)
            },
        }
    }

    /// Lists an asset, or refreshes the sale that is listed under its key.
    ///
    /// Fails with `InvalidAuctionWindow`, changing nothing, where the times are
    /// not acceptable at `current_time`. Otherwise the sale described by
    /// [`listing`] stands under the key afterwards, and both indices list it.
    /// Where that sale does not keep a bid that was in escrow, the result is the
    /// refund to make to its bidder.
    pub fn internal_add_market_data(
        &mut self,
        current_time: u64,
        owner_id: String,
        approval_id: u64,
        nft_contract_id: String,
        token_id: String,
        price: u128,
        start_time: Option<u64>,
        end_time: Option<u64>,
        is_auction: bool,
    ) -> (res: Result<Option<Transfer>, MarketError>)
        requires
            old(self).wf(),
        ensures
            final(self).wf(),
            match res {
                Ok(refund) => {
                    &&& valid_window(current_time, start_time, end_time, is_auction)
                    &&& transfer_view(refund) == listing_refund(
                        old(self)@,
                        key_of(nft_contract_id@, token_id@),
                        is_auction,
                    )
                    &&& final(self)@ == old(self)@.list(
                        listing(
                            old(self)@,
                            owner_id@,
                            approval_id,
                            nft_contract_id@,
                            token_id@,
                            price,
                            start_time,
                            end_time,
                            is_auction,
                        ),
                    )
                },
                Err(e) => {
                    &&& e == MarketError::InvalidAuctionWindow
                    &&& !valid_window(current_time, start_time, end_time, is_auction)
                    &&& final(self)@ == old(self)@
                },
            },
    {
        if !check_window(current_time, start_time, end_time, is_auction) {
            return Err(MarketError::InvalidAuctionWindow);
        }
        let key = SaleKey::new(&nft_contract_id, &token_id);
        let ghost listed = listing(
            self@,
            owner_id@,
            approval_id,
            nft_contract_id@,
            token_id@,
            price,
            start_time,
            end_time,
            is_auction,
        );
        let fresh_bids: Option<Vec<Bid>> = if is_auction {
            Some(Vec::new())
        } else {
            None
        };
        let mut refund: Option<Transfer> = None;
        let kept = match self.sales.get(&key) {
            Some(previous) => {
                if is_auction {
                    let previous = previous.clone();
                    Some((previous.price, previous.bids, previous.start_time, previous.end_time))
                } else {
                    refund = previous.current_refund();
                    None
                }
            },
            None => None,
        };
        let sale = match kept {
            Some((kept_price, kept_bids, kept_start, kept_end)) => Sale {
                owner_id,
                approval_id,
                nft_contract_id,
                token_id,
                price: kept_price,
                bids: kept_bids,
                is_auction,
                start_time: kept_start,
                end_time: kept_end,
            },
            None => Sale {
                owner_id,
                approval_id,
                nft_contract_id,
                token_id,
                price,
                bids: fresh_bids,
                is_auction,
                start_time,
                end_time,
            },
        };
        assert(sale@ == listed) by {
            assert(Seq::<Bid>::empty().map_values(|b: Bid| b@) =~= Seq::empty());
        }
        self.put_sale(sale);
        Ok(refund)
    }

    /// The sales of the registry, each once.
    pub fn sales(&self) -> (sales: Vec<Sale>)
        requires
            self.wf(),
        ensures
            enumerates(self@, sales@.map_values(|sale: Sale| sale@)),
    {
        let mut sales: Vec<Sale> = Vec::new();
        let mut i: usize = 0;
        let n = self.sales.len();
        let ghost keys = self.sales.key_seq();
        while i < n
            invariant
                self.wf(),
                keys == self.sales.key_seq(),
                n == keys.len(),
                i <= n,
                sales@.len() == i,
                forall|j: int|
                    0 <= j < i ==> (#[trigger] sales@[j])@.key() == keys[j] && sales@[j]@
                        == self@.sales[keys[j]],
            decreases n - i,
        {
            let sale = self.sales.value_at(i).clone();
            assert(self@.sales.contains_key(keys[i as int]));
            sales.push(sale);
            i += 1;
        }
        proof {
            self.sales.lemma_key_seq();
            let views = sales@.map_values(|sale: Sale| sale@);
            assert(views.map_values(|sale: SaleView| sale.key()) =~= keys);
        }
        sales
    }

    /// Puts `sale` under its key, where no sale stands yet, with no question
    /// asked about times: what a market is rebuilt with.
    ///
    /// Fails with `MalformedSale` where the sale is not well formed, and with
    /// `AlreadyListed` where a sale stands under the key; either way nothing
    /// changes.
    pub fn insert_sale(&mut self, sale: Sale) -> (res: Result<(), MarketError>)
        requires
            old(self).wf(),
        ensures
            final(self).wf(),
            match res {
                Ok(()) => {
                    &&& insert_refusal(old(self)@, sale@) is None
                    &&& final(self)@ == old(self)@.list(sale@)
                },
                Err(e) => {
                    &&& insert_refusal(old(self)@, sale@) == Some(e)
                    &&& final(self)@ == old(self)@
                },
            },
    {
        if !sale.well_formed() {
            return Err(MarketError::MalformedSale);
        }
        if self.get_sale(&sale.nft_contract_id, &sale.token_id).is_some() {
            return Err(MarketError::AlreadyListed);
        }
        self.put_sale(sale);
        Ok(())
    }

    /// Puts the well-formed `sale` under its key.
    fn put_sale(&mut self, sale: Sale)
        requires
            old(self).wf(),
            sale@.wf(),
        ensures
            final(self).wf(),
            final(self)@ == old(self)@.list(sale@),
    {
        proof {
            lemma_list_wf(self@, sale@);
        }
        let key = sale.key();
        match self.sales.get(&key) {
            Some(previous) => {
                if !previous.owner_id.same(&sale.owner_id) {
                    let seller = previous.owner_id.clone();
                    self.by_owner_id.remove(&seller, &key);
                }
            },
            None => {},
        }
        self.by_owner_id.insert(&sale.owner_id, key.duplicate());
        self.by_nft_contract_id.insert(&sale.nft_contract_id, sale.token_id.clone());
        self.sales.insert(key, sale);
        assert(self@.sales =~= old(self)@.sales.insert(sale@.key(), sale@));
    }

    /// The accounts that trust at least one custody service, each once.
    pub fn trusting_accounts(&self) -> (accounts: Vec<String>)
        requires
            self.wf(),
        ensures
            accounts@.map_values(|a: String| a@).no_duplicates(),
            forall|a: Seq<char>|
                self@.contract_ids_by_account_id.contains_key(a) <==> accounts@.map_values(
                    |a: String| a@,
                ).contains(a),
    {
        self.contract_ids_by_account_id.groups()
    }

    /// The custody services that each account trusts.
    pub(crate) fn trusted(&self) -> (idx: &GroupIndex<String>)
        requires
            self.wf(),
        ensures
            idx.wf(),
            idx@ == self@.contract_ids_by_account_id,
    {
        &self.contract_ids_by_account_id
    }

    /// Adds `nft_contract_id` to the custody services that `account_id` trusts,
    /// with no question asked about a deposit.
    pub fn trust(&mut self, account_id: &String, nft_contract_id: String)
        requires
            old(self).wf(),
        ensures
            final(self).wf(),
            final(self)@ == old(self)@.trust(account_id@, nft_contract_id@),
    {
        self.contract_ids_by_account_id.insert(account_id, nft_contract_id);
        proof {
            self.contract_ids_by_account_id.lemma_wf_view();
            lemma_trusted_wf(old(self)@, self.contract_ids_by_account_id@);
        }
    }

    /// Takes `nft_contract_id` out of the custody services that `account_id` trusts.
    pub(crate) fn distrust(&mut self, account_id: &String, nft_contract_id: &String)
        requires
            old(self).wf(),
        ensures
            final(self).wf(),
            final(self)@ == old(self)@.distrust(account_id@, nft_contract_id@),
    {
        self.contract_ids_by_account_id.remove(account_id, nft_contract_id);
        proof {
            self.contract_ids_by_account_id.lemma_wf_view();
            lemma_trusted_wf(old(self)@, self.contract_ids_by_account_id@);
        }
    }

    /// Puts `sale` in place of the sale under its key, which has the same seller.
    pub(crate) fn amend_sale(&mut self, sale: Sale)
        requires
            old(self).wf(),
            sale@.wf(),
            old(self)@.owns(sale@.owner_id, sale@.key()),
        ensures
            final(self).wf(),
            final(self)@ == old(self)@.amend(sale@),
    {
        proof {
            lemma_amend_wf(self@, sale@);
        }
        let key = sale.key();
        self.sales.insert(key, sale);
        assert(self@.sales =~= old(self)@.sales.insert(sale@.key(), sale@));
    }
}

} // verus!
