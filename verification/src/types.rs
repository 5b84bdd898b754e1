//! The records of the marketplace and their mathematical views.
//!
//! Accounts, custody services and assets are named by strings; a view holds the
//! same data with every string as a `Seq<char>`.

use crate::collections::Key;
use vstd::prelude::*;
use vstd::string::StringExecFns;

verus! {

/// What stands between the custody service and the asset in the written form
/// of a key.
pub const DELIMITER: &'static str = ".";

/// Why an operation was refused. A refused operation leaves the market as it was.
#[derive(Clone, Copy, Debug, PartialEq, Eq, Structural)]
pub enum MarketError {
    /// No sale is listed under the given custody service and asset.
    NotFound,
    /// The caller is neither the seller nor the operator of the market.
    Unauthorized,
    /// The signer did not go through the custody service, or is not the owner.
    Untrusted,
    /// The prepaid deposit does not cover one more listing.
    InsufficientStorage,
    /// The auction window is missing, inverted or in the past.
    InvalidAuctionWindow,
    /// The sale is at a fixed price.
    NotAuction,
    /// The sale is an auction.
    IsAuction,
    /// The seller bids on or buys their own sale.
    SelfBid,
    /// The auction has not started yet.
    AuctionNotStarted,
    /// The auction is past its end time.
    AuctionEnded,
    /// The auction has not reached its end time.
    TooEarly,
    /// The bid does not exceed the reserve or the bid before it by the increment.
    BidTooLow,
    /// Nothing was attached to a bid or an offer.
    ZeroDeposit,
    /// The offer is below the price.
    InsufficientDeposit,
    /// The call needs exactly one unit attached.
    RequiresOneYocto,
    /// The deposit does not pay for storing one more trusted custody service.
    ContractDepositTooLow,
    /// The account trusts no custody service.
    UnknownAccount,
    /// The account does not trust this custody service.
    UnknownContract,
    /// The seller's share of a payout is smaller than the fee taken from it.
    FeeExceedsShare,
    /// The sale holds more than one bid, or a bid without being an auction
    /// with its two times.
    MalformedSale,
    /// A sale already stands under the key.
    AlreadyListed,
}

/// The pair that identifies a sale: the custody service and the asset.
#[derive(Debug, PartialEq, Eq)]
pub struct SaleKey {
    pub nft_contract_id: String,
    pub token_id: String,
}

/// The view of a [`SaleKey`].
pub struct SaleKeyView {
    pub nft_contract_id: Seq<char>,
    pub token_id: Seq<char>,
}

/// The key for a custody service and an asset.
pub open spec fn key_of(nft_contract_id: Seq<char>, token_id: Seq<char>) -> SaleKeyView {
    SaleKeyView { nft_contract_id, token_id }
}

/// The written form of a key: the custody service, the delimiter, the asset.
pub open spec fn written(key: SaleKeyView) -> Seq<char> {
    key.nft_contract_id + DELIMITER@ + key.token_id
}

impl View for SaleKey {
    type V = SaleKeyView;

    open spec fn view(&self) -> SaleKeyView {
        SaleKeyView { nft_contract_id: self.nft_contract_id@, token_id: self.token_id@ }
    }
}

impl Key for SaleKey {
    fn same(&self, other: &Self) -> (b: bool) {
        self.nft_contract_id == other.nft_contract_id && self.token_id == other.token_id
    }

    fn duplicate(&self) -> (c: Self) {
        SaleKey { nft_contract_id: self.nft_contract_id.clone(), token_id: self.token_id.clone() }
    }
}

impl SaleKey {
    /// The key of the asset `token_id` held by the custody service `nft_contract_id`.
    pub fn new(nft_contract_id: &String, token_id: &String) -> (key: Self)
        ensures
            key@ == key_of(nft_contract_id@, token_id@),
    {
        SaleKey { nft_contract_id: nft_contract_id.clone(), token_id: token_id.clone() }
    }

    /// The written form of the key: the custody service, the delimiter, the asset.
    ///
    /// Two keys may share a written form where a name holds the delimiter; the
    /// registry goes by the pair, not by this string.
    pub fn contract_and_token_id(&self) -> (id: String)
        ensures
            id@ == written(self@),
    {
        let mut id = self.nft_contract_id.clone();
        id.append(DELIMITER);
        id.append(self.token_id.as_str());
        id
    }
}

/// An amount owed to an account: one share of a payout, or one transfer to make.
#[derive(Debug, PartialEq, Eq)]
pub struct Transfer {
    pub receiver_id: String,
    pub amount: u128,
}

/// The view of a [`Transfer`].
pub struct TransferView {
    pub receiver_id: Seq<char>,
    pub amount: u128,
}

impl View for Transfer {
    type V = TransferView;

    open spec fn view(&self) -> TransferView {
        TransferView { receiver_id: self.receiver_id@, amount: self.amount }
    }
}

/// The view of a transfer that may be absent.
pub open spec fn transfer_view(transfer: Option<Transfer>) -> Option<TransferView> {
    match transfer {
        Some(t) => Some(t@),
        None => None,
    }
}

/// The views of a vector of transfers, in order.
pub open spec fn transfers_view(transfers: Vec<Transfer>) -> Seq<TransferView> {
    transfers@.map_values(|t: Transfer| t@)
}

/// An escrowed offer on an auction.
#[derive(Debug, PartialEq, Eq)]
pub struct Bid {
    pub bidder_id: String,
    pub price: u128,
}

/// The view of a [`Bid`].
pub struct BidView {
    pub bidder_id: Seq<char>,
    pub price: u128,
}

impl View for Bid {
    type V = BidView;

    open spec fn view(&self) -> BidView {
        BidView { bidder_id: self.bidder_id@, price: self.price }
    }
}

impl Clone for Bid {
    fn clone(&self) -> (res: Self)
        ensures
            res@ == self@,
    {
        Bid { bidder_id: self.bidder_id.clone(), price: self.price }
    }
}

/// The views of the bids that a sale holds, if it holds a list of bids at all.
pub open spec fn bids_view(bids: Option<Vec<Bid>>) -> Option<Seq<BidView>> {
    match bids {
        Some(v) => Some(v@.map_values(|b: Bid| b@)),
        None => None,
    }
}

/// One listed asset.
#[derive(Debug, PartialEq, Eq)]
pub struct Sale {
    /// The seller.
    pub owner_id: String,
    /// The custody service's approval, needed to transfer the asset later.
    pub approval_id: u64,
    /// The custody service that holds the asset.
    pub nft_contract_id: String,
    /// The asset.
    pub token_id: String,
    /// The price of a fixed-price sale, the reserve of an auction.
    pub price: u128,
    /// The bids in escrow: none for a fixed-price sale, at most one for an auction.
    pub bids: Option<Vec<Bid>>,
    /// Whether the asset is auctioned rather than sold at a fixed price.
    pub is_auction: bool,
    /// When the auction opens.
    pub start_time: Option<u64>,
    /// When the auction closes.
    pub end_time: Option<u64>,
}

/// The view of a [`Sale`].
pub struct SaleView {
    pub owner_id: Seq<char>,
    pub approval_id: u64,
    pub nft_contract_id: Seq<char>,
    pub token_id: Seq<char>,
    pub price: u128,
    pub bids: Option<Seq<BidView>>,
    pub is_auction: bool,
    pub start_time: Option<u64>,
    pub end_time: Option<u64>,
}

impl View for Sale {
    type V = SaleView;

    open spec fn view(&self) -> SaleView {
        SaleView {
            owner_id: self.owner_id@,
            approval_id: self.approval_id,
            nft_contract_id: self.nft_contract_id@,
            token_id: self.token_id@,
            price: self.price,
            bids: bids_view(self.bids),
            is_auction: self.is_auction,
            start_time: self.start_time,
            end_time: self.end_time,
        }
    }
}

fn clone_bids(bids: &Vec<Bid>) -> (res: Vec<Bid>)
    ensures
        res@.map_values(|b: Bid| b@) == bids@.map_values(|b: Bid| b@),
{
    let mut res: Vec<Bid> = Vec::new();
    let mut i: usize = 0;
    while i < bids.len()
        invariant
            i <= bids.len(),
            res@.len() == i,
            forall|j: int| 0 <= j < i ==> (#[trigger] res@[j])@ == bids@[j]@,
        decreases bids.len() - i,
    {
        res.push(bids[i].clone());
        i += 1;
    }
    res
}

impl Clone for Sale {
    fn clone(&self) -> (res: Self)
        ensures
            res@ == self@,
    {
        Sale {
            owner_id: self.owner_id.clone(),
            approval_id: self.approval_id,
            nft_contract_id: self.nft_contract_id.clone(),
            token_id: self.token_id.clone(),
            price: self.price,
            bids: match &self.bids {
                Some(v) => Some(clone_bids(v)),
                None => None,
            },
            is_auction: self.is_auction,
            start_time: self.start_time,
            end_time: self.end_time,
        }
    }
}

impl Sale {
    /// The key under which the sale is listed.
    pub fn key(&self) -> (key: SaleKey)
        ensures
            key@ == self@.key(),
    {
        SaleKey::new(&self.nft_contract_id, &self.token_id)
    }

    /// The bid in escrow, as a transfer back to its bidder.
    pub fn current_refund(&self) -> (refund: Option<Transfer>)
        ensures
            transfer_view(refund) == refund_of(self@),
    {
        match &self.bids {
            Some(bids) => {
                if bids.len() > 0 {
                    let bid = &bids[bids.len() - 1];
                    Some(Transfer { receiver_id: bid.bidder_id.clone(), amount: bid.price })
                } else {
                    None
                }
            },
            None => None,
        }
    }

    /// Whether the sale holds at most one bid, and none unless it is an
    /// auction with its two times.
    pub fn well_formed(&self) -> (ok: bool)
        ensures
            ok == self@.wf(),
    {
        match &self.bids {
            Some(bids) => bids.len() == 0 || (bids.len() == 1 && self.is_auction
                && self.start_time.is_some() && self.end_time.is_some()),
            None => true,
        }
    }
}

/// What the bidder in escrow gets back when their bid leaves the sale.
pub open spec fn refund_of(sale: SaleView) -> Option<TransferView> {
    match sale.current_bid() {
        Some(bid) => Some(TransferView { receiver_id: bid.bidder_id, amount: bid.price }),
        None => None,
    }
}

impl SaleView {
    /// The key under which the sale is listed.
    pub open spec fn key(self) -> SaleKeyView {
        key_of(self.nft_contract_id, self.token_id)
    }

    /// The bids held, an absent list counting as empty.
    pub open spec fn held_bids(self) -> Seq<BidView> {
        match self.bids {
            Some(bids) => bids,
            None => Seq::empty(),
        }
    }

    /// The bid in escrow: the last one held.
    pub open spec fn current_bid(self) -> Option<BidView> {
        if self.held_bids().len() > 0 {
            Some(self.held_bids().last())
        } else {
            None
        }
    }

    /// At most one bid is held, and only by an auction that has its two times.
    pub open spec fn wf(self) -> bool {
        &&& self.held_bids().len() <= 1
        &&& self.held_bids().len() > 0 ==> self.is_auction && self.start_time is Some
            && self.end_time is Some
    }

    /// The amount in escrow for this sale.
    pub open spec fn escrow(self) -> nat {
        match self.current_bid() {
            Some(bid) => bid.price as nat,
            None => 0,
        }
    }
}

} // verus!
