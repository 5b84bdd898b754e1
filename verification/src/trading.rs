//! What sellers, bidders and buyers do with a listed sale: cancel it, reprice
//! it, bid on it, end its auction, buy it.
//!
//! Each operation takes what the host knows of the call (who calls, how much
//! is attached, what time it is) as plain arguments, and returns what is to be
//! paid out instead of paying. A refused operation changes nothing.

use crate::market::Contract;
use crate::model::MarketState;
use crate::types::{
    key_of, refund_of, transfer_view, Bid, BidView, MarketError, Sale, SaleKeyView, SaleView,
    Transfer, TransferView,
};
use vstd::prelude::*;
use vstd::string::StringExecFns;

verus! {

/// The memo that goes with the request to transfer a sold asset.
pub const TRANSFER_MEMO: &'static str = "payout from market";

/// The largest number of accounts among which the custody service may split a price.
pub const MAX_PAYEES: u32 = 10;

/// A purchase whose sale has left the registry and whose transfer is still to
/// be made: what to ask of the custody service, and what to settle afterwards.
#[derive(Debug, PartialEq, Eq)]
pub struct PendingSettlement {
    /// The sale that was taken out of the registry.
    pub sale: Sale,
    /// The account that receives the asset.
    pub buyer_id: String,
    /// The amount that the buyer has paid.
    pub price: u128,
    /// The memo of the transfer.
    pub memo: String,
    /// The largest number of payees that the custody service may report.
    pub max_len_payout: u32,
}

/// The view of a [`PendingSettlement`].
pub struct PendingSettlementView {
    pub sale: SaleView,
    pub buyer_id: Seq<char>,
    pub price: u128,
    pub memo: Seq<char>,
    pub max_len_payout: u32,
}

impl View for PendingSettlement {
    type V = PendingSettlementView;

    open spec fn view(&self) -> PendingSettlementView {
        PendingSettlementView {
            sale: self.sale@,
            buyer_id: self.buyer_id@,
            price: self.price,
            memo: self.memo@,
            max_len_payout: self.max_len_payout,
        }
    }
}

/// The settlement that is pending once `sale` is sold to `buyer_id` for `price`.
pub open spec fn pending(sale: SaleView, buyer_id: Seq<char>, price: u128) -> PendingSettlementView {
    PendingSettlementView {
        sale,
        buyer_id,
        price,
        memo: TRANSFER_MEMO@,
        max_len_payout: MAX_PAYEES,
    }
}

/// The view of a pending settlement that may be absent.
pub open spec fn pending_view(p: Option<PendingSettlement>) -> Option<PendingSettlementView> {
    match p {
        Some(p) => Some(p@),
        None => None,
    }
}

/// Whether `deposit` is enough for a bid on `sale`: the reserve plus the
/// increment for a first bid; after that the bid in escrow plus the increment,
/// and more than the reserve.
pub open spec fn bid_high_enough(sale: SaleView, deposit: u128, increment: u128) -> bool {
    match sale.current_bid() {
        Some(bid) => deposit >= bid.price + increment && deposit > sale.price,
        None => deposit >= sale.price + increment,
    }
}

/// Why a bid of `deposit` by `bidder` at `now` is refused on `sale`, if it is,
/// where bids must rise by `increment`.
pub open spec fn bid_refusal(
    sale: SaleView,
    now: u64,
    bidder: Seq<char>,
    deposit: u128,
    increment: u128,
) -> Option<MarketError> {
    if !sale.is_auction {
        Some(MarketError::NotAuction)
    } else if sale.start_time is None {
        Some(MarketError::InvalidAuctionWindow)
    } else if now < sale.start_time->0 {
        Some(MarketError::AuctionNotStarted)
    } else if sale.end_time is None {
        Some(MarketError::InvalidAuctionWindow)
    } else if now >= sale.end_time->0 {
        Some(MarketError::AuctionEnded)
    } else if bidder == sale.owner_id {
        Some(MarketError::SelfBid)
    } else if !bid_high_enough(sale, deposit, increment) {
        Some(MarketError::BidTooLow)
    } else {
        None
    }
}

/// `sale` with `bid` in escrow, in place of the bid that was.
pub open spec fn with_bid(sale: SaleView, bid: BidView) -> SaleView {
    let held = sale.held_bids();
    let kept = if held.len() > 0 {
        held.drop_last()
    } else {
        held
    };
    SaleView { bids: Some(kept.push(bid)), ..sale }
}

/// `sale` at the price `amount`.
pub open spec fn with_price(sale: SaleView, amount: u128) -> SaleView {
    SaleView { price: amount, ..sale }
}

/// Why `add_bid` is refused in the state `s`, if it is.
pub open spec fn add_bid_refusal(
    s: MarketState,
    key: SaleKeyView,
    bidder: Seq<char>,
    deposit: u128,
    now: u64,
) -> Option<MarketError> {
    if deposit == 0 {
        Some(MarketError::ZeroDeposit)
    } else if !s.sales.contains_key(key) {
        Some(MarketError::NotFound)
    } else {
        bid_refusal(s.sales[key], now, bidder, deposit, s.min_bid_increment)
    }
}

/// Why `end_auction` is refused in the state `s`, if it is.
pub open spec fn end_auction_refusal(s: MarketState, key: SaleKeyView, now: u64) -> Option<
    MarketError,
> {
    if !s.sales.contains_key(key) {
        Some(MarketError::NotFound)
    } else if !s.sales[key].is_auction {
        Some(MarketError::NotAuction)
    } else if s.sales[key].end_time is Some && now < s.sales[key].end_time->0 {
        Some(MarketError::TooEarly)
    } else {
        None
    }
}

/// The settlement that ending the auction of `sale` starts: none without a bid.
pub open spec fn auction_outcome(sale: SaleView) -> Option<PendingSettlementView> {
    match sale.current_bid() {
        Some(bid) => Some(pending(sale, bid.bidder_id, bid.price)),
        None => None,
    }
}

/// Why `process_purchase` is refused in the state `s`, if it is.
pub open spec fn purchase_refusal(s: MarketState, key: SaleKeyView) -> Option<MarketError> {
    if !s.sales.contains_key(key) {
        Some(MarketError::NotFound)
    } else {
        None
    }
}

/// Why `offer` is refused in the state `s`, if it is.
pub open spec fn offer_refusal(s: MarketState, key: SaleKeyView, buyer: Seq<char>, deposit: u128)
    -> Option<MarketError> {
    if deposit == 0 {
        Some(MarketError::ZeroDeposit)
    } else if !s.sales.contains_key(key) {
        Some(MarketError::NotFound)
    } else if s.sales[key].owner_id == buyer {
        Some(MarketError::SelfBid)
    } else if s.sales[key].is_auction {
        Some(MarketError::IsAuction)
    } else if deposit < s.sales[key].price {
        Some(MarketError::InsufficientDeposit)
    } else {
        None
    }
}

/// Why `remove_sale` is refused in the state `s`, if it is.
///
/// The seller and the operator may cancel. Once a bid is in escrow, a seller
/// who is not the operator may do so only before the end time.
pub open spec fn remove_sale_refusal(
    s: MarketState,
    key: SaleKeyView,
    caller: Seq<char>,
    attached_deposit: u128,
    now: u64,
) -> Option<MarketError> {
    if attached_deposit != 1 {
        Some(MarketError::RequiresOneYocto)
    } else if !s.sales.contains_key(key) {
        Some(MarketError::NotFound)
    } else if caller != s.sales[key].owner_id && caller != s.owner_id {
        Some(MarketError::Unauthorized)
    } else if s.sales[key].is_auction && s.sales[key].current_bid() is Some && caller
        != s.owner_id {
        if s.sales[key].end_time is None {
            Some(MarketError::InvalidAuctionWindow)
        } else if now >= s.sales[key].end_time->0 {
            Some(MarketError::AuctionEnded)
        } else {
            None
        }
    } else {
        None
    }
}

/// What the cancellation of `sale` pays back: the bid in escrow of an auction.
pub open spec fn cancel_refund(sale: SaleView) -> Option<TransferView> {
    if sale.is_auction {
        refund_of(sale)
    } else {
        None
    }
}

/// Why `update_price` is refused in the state `s`, if it is.
pub open spec fn update_price_refusal(
    s: MarketState,
    key: SaleKeyView,
    caller: Seq<char>,
    attached_deposit: u128,
) -> Option<MarketError> {
    if attached_deposit != 1 {
        Some(MarketError::RequiresOneYocto)
    } else if !s.sales.contains_key(key) {
        Some(MarketError::NotFound)
    } else if s.sales[key].is_auction {
        Some(MarketError::IsAuction)
    } else if caller != s.sales[key].owner_id {
        Some(MarketError::Unauthorized)
    } else {
        None
    }
}

/// Whether `deposit >= base + increment`, computed without overflow.
fn reaches_increment(deposit: u128, base: u128, increment: u128) -> (ok: bool)
    ensures
        ok == (deposit >= base + increment),
{
    deposit >= increment && deposit - increment >= base
}

impl Contract {
    /// Cancels a sale: takes it out of the registry and returns the refund owed
    /// to the bidder in escrow, if the sale is an auction with a bid.
    ///
    /// `caller_id` is the account that calls, `attached_deposit` what it
    /// attached, `current_time` the time of the call.
    pub fn remove_sale(
        &mut self,
        nft_contract_id: &String,
        token_id: &String,
        caller_id: &String,
        attached_deposit: u128,
        current_time: u64,
    ) -> (res: Result<Option<Transfer>, MarketError>)
        requires
            old(self).wf(),
        ensures
            final(self).wf(),
            match res {
                Ok(refund) => {
                    let key = key_of(nft_contract_id@, token_id@);
                    &&& remove_sale_refusal(
                        old(self)@,
                        key,
                        caller_id@,
                        attached_deposit,
                        current_time,
                    ) is None
                    &&& final(self)@ == old(self)@.unlist(key)
                    &&& transfer_view(refund) == cancel_refund(old(self)@.sales[key])
                },
                Err(e) => {
                    &&& remove_sale_refusal(
                        old(self)@,
                        key_of(nft_contract_id@, token_id@),
                        caller_id@,
                        attached_deposit,
                        current_time,
                    ) == Some(e)
                    &&& final(self)@ == old(self)@
                },
            },
    {
        if attached_deposit != 1 {
            return Err(MarketError::RequiresOneYocto);
        }
        let sale = match self.get_sale(nft_contract_id, token_id) {
            Some(sale) => sale,
            None => {
                return Err(MarketError::NotFound);
            },
        };
        let by_operator = *caller_id == *self.owner_id();
        if *caller_id != sale.owner_id && !by_operator {
            return Err(MarketError::Unauthorized);
        }
        let refund = if sale.is_auction {
            sale.current_refund()
        } else {
            None
        };
        if refund.is_some() && !by_operator {
            match sale.end_time {
                None => {
                    return Err(MarketError::InvalidAuctionWindow);
                },
                Some(end) => {
                    if current_time >= end {
                        return Err(MarketError::AuctionEnded);
                    }
                },
            }
        }
        match self.internal_remove_sale(nft_contract_id, token_id) {
            Ok(_) => Ok(refund),
            Err(e) => Err(e),
        }
    }

    /// Sets the price of a fixed-price sale to `amount`.
    pub fn update_price(
        &mut self,
        nft_contract_id: &String,
        token_id: &String,
        amount: u128,
        caller_id: &String,
        attached_deposit: u128,
    ) -> (res: Result<(), MarketError>)
        requires
            old(self).wf(),
        ensures
            final(self).wf(),
            match res {
                Ok(()) => {
                    let key = key_of(nft_contract_id@, token_id@);
                    &&& update_price_refusal(old(self)@, key, caller_id@, attached_deposit) is None
                    &&& final(self)@ == old(self)@.amend(with_price(old(self)@.sales[key], amount))
                },
                Err(e) => {
                    &&& update_price_refusal(
                        old(self)@,
                        key_of(nft_contract_id@, token_id@),
                        caller_id@,
                        attached_deposit,
                    ) == Some(e)
                    &&& final(self)@ == old(self)@
                },
            },
    {
        if attached_deposit != 1 {
            return Err(MarketError::RequiresOneYocto);
        }
        let listed = match self.get_sale(nft_contract_id, token_id) {
            Some(sale) => sale,
            None => {
                return Err(MarketError::NotFound);
            },
        };
        if listed.is_auction {
            return Err(MarketError::IsAuction);
        }
        if *caller_id != listed.owner_id {
            return Err(MarketError::Unauthorized);
        }
        let mut sale = listed.clone();
        sale.price = amount;
        proof {
            self.lemma_wf_view();
        }
        self.amend_sale(sale);
        Ok(())
    }

    /// Places a bid of `deposit` by `bidder_id` at `current_time`.
    ///
    /// The bid goes into escrow in place of the bid before it, which is returned
    /// as the refund to make.
    pub fn add_bid(
        &mut self,
        nft_contract_id: &String,
        token_id: &String,
        bidder_id: String,
        deposit: u128,
        current_time: u64,
    ) -> (res: Result<Option<Transfer>, MarketError>)
        requires
            old(self).wf(),
        ensures
            final(self).wf(),
            match res {
                Ok(refund) => {
                    let key = key_of(nft_contract_id@, token_id@);
                    &&& add_bid_refusal(old(self)@, key, bidder_id@, deposit, current_time) is None
                    &&& final(self)@ == old(self)@.amend(
                        with_bid(
                            old(self)@.sales[key],
                            BidView { bidder_id: bidder_id@, price: deposit },
                        ),
                    )
                    &&& transfer_view(refund) == refund_of(old(self)@.sales[key])
                },
                Err(e) => {
                    &&& add_bid_refusal(
                        old(self)@,
                        key_of(nft_contract_id@, token_id@),
                        bidder_id@,
                        deposit,
                        current_time,
                    ) == Some(e)
                    &&& final(self)@ == old(self)@
                },
            },
    {
        if deposit == 0 {
            return Err(MarketError::ZeroDeposit);
        }
        let increment = self.min_bid_increment();
        let listed = match self.get_sale(nft_contract_id, token_id) {
            Some(sale) => sale,
            None => {
                return Err(MarketError::NotFound);
            },
        };
        if !listed.is_auction {
            return Err(MarketError::NotAuction);
        }
        match listed.start_time {
            None => {
                return Err(MarketError::InvalidAuctionWindow);
            },
            Some(start) => {
                if current_time < start {
                    return Err(MarketError::AuctionNotStarted);
                }
            },
        }
        match listed.end_time {
            None => {
                return Err(MarketError::InvalidAuctionWindow);
            },
            Some(end) => {
                if current_time >= end {
                    return Err(MarketError::AuctionEnded);
                }
            },
        }
        if bidder_id == listed.owner_id {
            return Err(MarketError::SelfBid);
        }
        let refund = listed.current_refund();
        let enough = match &refund {
            Some(previous) => reaches_increment(deposit, previous.amount, increment) && deposit
                > listed.price,
            None => reaches_increment(deposit, listed.price, increment),
        };
        if !enough {
            return Err(MarketError::BidTooLow);
        }
        let ghost before = listed@;
        let ghost bid = BidView { bidder_id: bidder_id@, price: deposit };
        let sale = listed.clone();
        let mut bids = match sale.bids {
            Some(bids) => bids,
            None => Vec::new(),
        };
        if bids.len() > 0 {
            bids.pop();
        }
        bids.push(Bid { bidder_id, price: deposit });
        assert(bids@.map_values(|b: Bid| b@) =~= with_bid(before, bid).bids->0);
        proof {
            self.lemma_wf_view();
        }
        let sale = Sale {
            owner_id: sale.owner_id,
            approval_id: sale.approval_id,
            nft_contract_id: sale.nft_contract_id,
            token_id: sale.token_id,
            price: sale.price,
            bids: Some(bids),
            is_auction: sale.is_auction,
            start_time: sale.start_time,
            end_time: sale.end_time,
        };
        self.amend_sale(sale);
        Ok(refund)
    }

    /// Ends an auction whose end time has come.
    ///
    /// The sale leaves the registry. With a bid in escrow, the result is the
    /// settlement to carry out for that bidder at the amount of the bid; without
    /// one, nothing is left to do.
    pub fn end_auction(&mut self, nft_contract_id: &String, token_id: &String, current_time: u64)
        -> (res: Result<Option<PendingSettlement>, MarketError>)
        requires
            old(self).wf(),
        ensures
            final(self).wf(),
            match res {
                Ok(outcome) => {
                    let key = key_of(nft_contract_id@, token_id@);
                    &&& end_auction_refusal(old(self)@, key, current_time) is None
                    &&& final(self)@ == old(self)@.unlist(key)
                    &&& pending_view(outcome) == auction_outcome(old(self)@.sales[key])
                },
                Err(e) => {
                    &&& end_auction_refusal(
                        old(self)@,
                        key_of(nft_contract_id@, token_id@),
                        current_time,
                    ) == Some(e)
                    &&& final(self)@ == old(self)@
                },
            },
    {
        let listed = match self.get_sale(nft_contract_id, token_id) {
            Some(sale) => sale,
            None => {
                return Err(MarketError::NotFound);
            },
        };
        if !listed.is_auction {
            return Err(MarketError::NotAuction);
        }
        match listed.end_time {
            Some(end) => {
                if current_time < end {
                    return Err(MarketError::TooEarly);
                }
            },
            None => {},
        }
        match listed.current_refund() {
            Some(winning) => {
                match self.process_purchase(
                    nft_contract_id,
                    token_id,
                    winning.amount,
                    winning.receiver_id,
                ) {
                    Ok(p) => Ok(Some(p)),
                    Err(e) => Err(e),
                }
            },
            None => {
                match self.internal_remove_sale(nft_contract_id, token_id) {
                    Ok(_) => Ok(None),
                    Err(e) => Err(e),
                }
            },
        }
    }

    /// Buys a fixed-price sale for `deposit`, which must cover the price.
    ///
    /// The sale leaves the registry; the result is the settlement to carry out.
    pub fn offer(
        &mut self,
        nft_contract_id: &String,
        token_id: &String,
        buyer_id: String,
        deposit: u128,
    ) -> (res: Result<PendingSettlement, MarketError>)
        requires
            old(self).wf(),
        ensures
            final(self).wf(),
            match res {
                Ok(p) => {
                    let key = key_of(nft_contract_id@, token_id@);
                    &&& offer_refusal(old(self)@, key, buyer_id@, deposit) is None
                    &&& final(self)@ == old(self)@.unlist(key)
                    &&& p@ == pending(old(self)@.sales[key], buyer_id@, deposit)
                },
                Err(e) => {
                    &&& offer_refusal(
                        old(self)@,
                        key_of(nft_contract_id@, token_id@),
                        buyer_id@,
                        deposit,
                    ) == Some(e)
                    &&& final(self)@ == old(self)@
                },
            },
    {
        if deposit == 0 {
            return Err(MarketError::ZeroDeposit);
        }
        let listed = match self.get_sale(nft_contract_id, token_id) {
            Some(sale) => sale,
            None => {
                return Err(MarketError::NotFound);
            },
        };
        if listed.owner_id == buyer_id {
            return Err(MarketError::SelfBid);
        }
        if listed.is_auction {
            return Err(MarketError::IsAuction);
        }
        if deposit < listed.price {
            return Err(MarketError::InsufficientDeposit);
        }
        self.process_purchase(nft_contract_id, token_id, deposit, buyer_id)
    }

    /// The first phase of a settlement: takes the sale out of the registry, so
    /// that no second purchase can find it, and returns what is to be asked of
    /// the custody service and settled once it has answered.
    ///
    /// Fails with `NotFound`, changing nothing, where no such sale is listed.
    pub fn process_purchase(
        &mut self,
        nft_contract_id: &String,
        token_id: &String,
        price: u128,
        buyer_id: String,
    ) -> (res: Result<PendingSettlement, MarketError>)
        requires
            old(self).wf(),
        ensures
            final(self).wf(),
            match res {
                Ok(p) => {
                    let key = key_of(nft_contract_id@, token_id@);
                    &&& purchase_refusal(old(self)@, key) is None
                    &&& final(self)@ == old(self)@.unlist(key)
                    &&& p@ == pending(old(self)@.sales[key], buyer_id@, price)
                },
                Err(e) => {
                    &&& purchase_refusal(old(self)@, key_of(nft_contract_id@, token_id@))
                        == Some(e)
                    &&& final(self)@ == old(self)@
                },
            },
    {
        match self.internal_remove_sale(nft_contract_id, token_id) {
            Ok(sale) => Ok(
                PendingSettlement {
                    sale,
                    buyer_id,
                    price,
                    memo: String::from_str(TRANSFER_MEMO),
                    max_len_payout: MAX_PAYEES,
                },
            ),
            Err(e) => Err(e),
        }
    }
}

} // verus!
