//! The market as a mathematical state: the registry of sales, the indices
//! beside it, the condition that ties them together, and the changes that every
//! operation is made of.

use crate::index::{
    index_lists, index_wf, index_with, index_without, lemma_index_with, lemma_index_without, Index,
};
use crate::types::{key_of, SaleKeyView, SaleView};
use vstd::prelude::*;

verus! {

/// The state of the market.
pub struct MarketState {
    /// The operator of the market.
    pub owner_id: Seq<char>,
    /// The account that receives the fees.
    pub treasury_id: Seq<char>,
    /// The smallest amount by which a bid must exceed the reserve or the bid
    /// before it.
    pub min_bid_increment: u128,
    /// The registry: each listed sale under its key.
    pub sales: Map<SaleKeyView, SaleView>,
    /// For each seller, the keys of their sales.
    pub by_owner_id: Index<SaleKeyView>,
    /// For each custody service, its assets on sale.
    pub by_nft_contract_id: Index<Seq<char>>,
    /// For each account, the custody services it trusts.
    pub contract_ids_by_account_id: Index<Seq<char>>,
}

impl MarketState {
    /// Whether `owner` is the seller of a sale listed under `key`.
    pub open spec fn owns(self, owner: Seq<char>, key: SaleKeyView) -> bool {
        self.sales.contains_key(key) && self.sales[key].owner_id == owner
    }

    /// Whether `token_id` of `nft_contract_id` is on sale.
    pub open spec fn holds(self, nft_contract_id: Seq<char>, token_id: Seq<char>) -> bool {
        self.sales.contains_key(key_of(nft_contract_id, token_id))
    }

    /// Every sale stands under its own key and is well formed; the two
    /// indices list exactly the sales of the registry; no index has an entry
    /// without members.
    pub open spec fn wf(self) -> bool {
        &&& forall|k: SaleKeyView| #[trigger]
            self.sales.contains_key(k) ==> self.sales[k].key() == k
                && self.sales[k].wf()
        &&& index_wf(self.by_owner_id)
        &&& index_wf(self.by_nft_contract_id)
        &&& index_wf(self.contract_ids_by_account_id)
        &&& forall|o: Seq<char>, k: SaleKeyView|
            #![trigger index_lists(self.by_owner_id, o, k)]
            #![trigger self.owns(o, k)]
            index_lists(self.by_owner_id, o, k) == self.owns(o, k)
        &&& forall|c: Seq<char>, t: Seq<char>|
            #![trigger index_lists(self.by_nft_contract_id, c, t)]
            #![trigger self.holds(c, t)]
            index_lists(self.by_nft_contract_id, c, t) == self.holds(c, t)
    }

    /// The market with nothing listed and nothing trusted.
    pub open spec fn empty(
        owner_id: Seq<char>,
        treasury_id: Seq<char>,
        min_bid_increment: u128,
    ) -> MarketState {
        MarketState {
            owner_id,
            treasury_id,
            min_bid_increment,
            sales: Map::empty(),
            by_owner_id: Map::empty(),
            by_nft_contract_id: Map::empty(),
            contract_ids_by_account_id: Map::empty(),
        }
    }

    /// The market without the sale under `key`, and without its index entries.
    pub open spec fn unlist(self, key: SaleKeyView) -> MarketState {
        if self.sales.contains_key(key) {
            MarketState {
                sales: self.sales.remove(key),
                by_owner_id: index_without(self.by_owner_id, self.sales[key].owner_id, key),
                by_nft_contract_id: index_without(
                    self.by_nft_contract_id,
                    key.nft_contract_id,
                    key.token_id,
                ),
                ..self
            }
        } else {
            self
        }
    }

    /// The market with `sale` under its key, in place of the sale that stood
    /// there. The key moves from the index entry of the seller before to that
    /// of the new seller where the two differ.
    pub open spec fn list(self, sale: SaleView) -> MarketState {
        let key = sale.key();
        let by_owner_id = if self.sales.contains_key(key) && self.sales[key].owner_id
            != sale.owner_id {
            index_without(self.by_owner_id, self.sales[key].owner_id, key)
        } else {
            self.by_owner_id
        };
        MarketState {
            sales: self.sales.insert(key, sale),
            by_owner_id: index_with(by_owner_id, sale.owner_id, key),
            by_nft_contract_id: index_with(
                self.by_nft_contract_id,
                key.nft_contract_id,
                key.token_id,
            ),
            ..self
        }
    }

    /// The market with `sale` in place of the sale under the same key; the
    /// indices stay as they are.
    pub open spec fn amend(self, sale: SaleView) -> MarketState {
        MarketState { sales: self.sales.insert(sale.key(), sale), ..self }
    }

    /// The market in which `account_id` trusts the custody service `nft_contract_id`.
    pub open spec fn trust(self, account_id: Seq<char>, nft_contract_id: Seq<char>) -> MarketState {
        MarketState {
            contract_ids_by_account_id: index_with(
                self.contract_ids_by_account_id,
                account_id,
                nft_contract_id,
            ),
            ..self
        }
    }

    /// The market in which `account_id` no longer trusts `nft_contract_id`.
    pub open spec fn distrust(self, account_id: Seq<char>, nft_contract_id: Seq<char>)
        -> MarketState {
        MarketState {
            contract_ids_by_account_id: index_without(
                self.contract_ids_by_account_id,
                account_id,
                nft_contract_id,
            ),
            ..self
        }
    }
}

/// Whether `sales` are the sales of the registry of `s`, each once.
pub open spec fn enumerates(s: MarketState, sales: Seq<SaleView>) -> bool {
    let keys = sales.map_values(|sale: SaleView| sale.key());
    &&& keys.no_duplicates()
    &&& forall|k: SaleKeyView| s.sales.contains_key(k) <==> keys.contains(k)
    &&& forall|i: int| 0 <= i < sales.len() ==> s.sales[#[trigger] sales[i].key()] == sales[i]
}

/// The empty market is well formed.
pub proof fn lemma_empty_wf(owner_id: Seq<char>, treasury_id: Seq<char>, min_bid_increment: u128)
    ensures
        MarketState::empty(owner_id, treasury_id, min_bid_increment).wf(),
{
}

/// Unlisting a sale keeps the market well formed.
pub proof fn lemma_unlist_wf(s: MarketState, key: SaleKeyView)
    requires
        s.wf(),
    ensures
        s.unlist(key).wf(),
{
    if s.sales.contains_key(key) {
        lemma_index_without(s.by_owner_id, s.sales[key].owner_id, key);
        lemma_index_without(s.by_nft_contract_id, key.nft_contract_id, key.token_id);
    }
}

/// Listing a well-formed sale keeps the market well formed.
pub proof fn lemma_list_wf(s: MarketState, sale: SaleView)
    requires
        s.wf(),
        sale.wf(),
    ensures
        s.list(sale).wf(),
{
    let key = sale.key();
    let moved = s.sales.contains_key(key) && s.sales[key].owner_id != sale.owner_id;
    let by_owner_id = if moved {
        index_without(s.by_owner_id, s.sales[key].owner_id, key)
    } else {
        s.by_owner_id
    };
    if moved {
        lemma_index_without(s.by_owner_id, s.sales[key].owner_id, key);
    }
    lemma_index_with(by_owner_id, sale.owner_id, key);
    lemma_index_with(s.by_nft_contract_id, key.nft_contract_id, key.token_id);
}

/// Putting a sale in place of one with the same key and seller keeps the market
/// well formed.
pub proof fn lemma_amend_wf(s: MarketState, sale: SaleView)
    requires
        s.wf(),
        sale.wf(),
        s.sales.contains_key(sale.key()),
        s.sales[sale.key()].owner_id == sale.owner_id,
    ensures
        s.amend(sale).wf(),
{
}

/// A change of the trusted custody services alone keeps the market well formed.
pub proof fn lemma_trusted_wf(s: MarketState, trusted: Index<Seq<char>>)
    requires
        s.wf(),
        index_wf(trusted),
    ensures
        (MarketState { contract_ids_by_account_id: trusted, ..s }).wf(),
{
}

} // verus!
