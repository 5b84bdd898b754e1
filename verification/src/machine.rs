//! The marketplace as a state machine: every call that changes it, with what
//! the call takes from its caller and from the host, and the state that the
//! call leaves behind.

use crate::allowlist::{add_contract_refusal, remove_contract_refusal};
use crate::intake::{approval_refusal, approved_listing, SaleArgs};
use crate::market::{insert_refusal, listing, valid_window};
use crate::model::{
    lemma_amend_wf, lemma_list_wf, lemma_trusted_wf, lemma_unlist_wf, MarketState,
};
use crate::index::{lemma_index_with, lemma_index_without};
use crate::trading::{
    add_bid_refusal, end_auction_refusal, offer_refusal, purchase_refusal, remove_sale_refusal,
    update_price_refusal, with_bid, with_price,
};
use crate::types::{BidView, MarketError, SaleKeyView, SaleView};
use vstd::prelude::*;

verus! {

/// One call that may change the marketplace.
pub enum Call {
    /// `nft_on_approve`.
    Approve {
        token_id: Seq<char>,
        owner_id: Seq<char>,
        approval_id: u64,
        args: SaleArgs,
        predecessor_id: Seq<char>,
        signer_id: Seq<char>,
        now: u64,
        storage_amount: u128,
        owner_paid_storage: u128,
    },
    /// `internal_add_market_data`.
    List {
        now: u64,
        owner_id: Seq<char>,
        approval_id: u64,
        nft_contract_id: Seq<char>,
        token_id: Seq<char>,
        price: u128,
        start_time: Option<u64>,
        end_time: Option<u64>,
        is_auction: bool,
    },
    /// `internal_remove_sale`.
    Unlist { key: SaleKeyView },
    /// `remove_sale`.
    RemoveSale { key: SaleKeyView, caller: Seq<char>, attached_deposit: u128, now: u64 },
    /// `update_price`.
    UpdatePrice { key: SaleKeyView, amount: u128, caller: Seq<char>, attached_deposit: u128 },
    /// `add_bid`.
    AddBid { key: SaleKeyView, bidder: Seq<char>, deposit: u128, now: u64 },
    /// `end_auction`.
    EndAuction { key: SaleKeyView, now: u64 },
    /// `offer`.
    Offer { key: SaleKeyView, buyer: Seq<char>, deposit: u128 },
    /// `process_purchase`.
    Purchase { key: SaleKeyView },
    /// `add_contract_for_account`.
    AddContract {
        nft_contract_id: Seq<char>,
        account_id: Seq<char>,
        attached_deposit: u128,
        storage_byte_cost: u128,
    },
    /// `remove_contract_for_account`.
    RemoveContract { nft_contract_id: Seq<char>, account_id: Seq<char>, attached_deposit: u128 },
    /// `insert_sale`.
    InsertSale { sale: SaleView },
    /// `trust`.
    Trust { account_id: Seq<char>, nft_contract_id: Seq<char> },
}

/// Why `call` is refused in the state `s`, if it is.
pub open spec fn refusal(s: MarketState, call: Call) -> Option<MarketError> {
    match call {
        Call::Approve {
            token_id,
            owner_id,
            approval_id,
            args,
            predecessor_id,
            signer_id,
            now,
            storage_amount,
            owner_paid_storage,
        } => approval_refusal(
            s,
            owner_id,
            args,
            predecessor_id,
            signer_id,
            now,
            storage_amount,
            owner_paid_storage,
        ),
        Call::List {
            now,
            owner_id,
            approval_id,
            nft_contract_id,
            token_id,
            price,
            start_time,
            end_time,
            is_auction,
        } => if valid_window(now, start_time, end_time, is_auction) {
            None
        } else {
            Some(MarketError::InvalidAuctionWindow)
        },
        Call::Unlist { key } => purchase_refusal(s, key),
        Call::RemoveSale { key, caller, attached_deposit, now } => remove_sale_refusal(
            s,
            key,
            caller,
            attached_deposit,
            now,
        ),
        Call::UpdatePrice { key, amount, caller, attached_deposit } => update_price_refusal(
            s,
            key,
            caller,
            attached_deposit,
        ),
        Call::AddBid { key, bidder, deposit, now } => add_bid_refusal(s, key, bidder, deposit, now),
        Call::EndAuction { key, now } => end_auction_refusal(s, key, now),
        Call::Offer { key, buyer, deposit } => offer_refusal(s, key, buyer, deposit),
        Call::Purchase { key } => purchase_refusal(s, key),
        Call::AddContract {
            nft_contract_id,
            account_id,
            attached_deposit,
            storage_byte_cost,
        } => add_contract_refusal(attached_deposit, storage_byte_cost),
        Call::RemoveContract { nft_contract_id, account_id, attached_deposit } => remove_contract_refusal(
            s,
            account_id,
            attached_deposit,
            nft_contract_id,
        ),
        Call::InsertSale { sale } => insert_refusal(s, sale),
        Call::Trust { account_id, nft_contract_id } => None,
    }
}

/// The state that `call` leaves behind where it is not refused.
pub open spec fn effect(s: MarketState, call: Call) -> MarketState {
    match call {
        Call::Approve {
            token_id,
            owner_id,
            approval_id,
            args,
            predecessor_id,
            signer_id,
            now,
            storage_amount,
            owner_paid_storage,
        } => s.list(approved_listing(s, token_id, owner_id, approval_id, args, predecessor_id)),
        Call::List {
            now,
            owner_id,
            approval_id,
            nft_contract_id,
            token_id,
            price,
            start_time,
            end_time,
            is_auction,
        } => s.list(
            listing(
                s,
                owner_id,
                approval_id,
                nft_contract_id,
                token_id,
                price,
                start_time,
                end_time,
                is_auction,
            ),
        ),
        Call::Unlist { key } => s.unlist(key),
        Call::RemoveSale { key, caller, attached_deposit, now } => s.unlist(key),
        Call::UpdatePrice { key, amount, caller, attached_deposit } => s.amend(
            with_price(s.sales[key], amount),
        ),
        Call::AddBid { key, bidder, deposit, now } => s.amend(
            with_bid(s.sales[key], BidView { bidder_id: bidder, price: deposit }),
        ),
        Call::EndAuction { key, now } => s.unlist(key),
        Call::Offer { key, buyer, deposit } => s.unlist(key),
        Call::Purchase { key } => s.unlist(key),
        Call::AddContract { nft_contract_id, account_id, attached_deposit, storage_byte_cost } => s.trust(
            account_id,
            nft_contract_id,
        ),
        Call::RemoveContract { nft_contract_id, account_id, attached_deposit } => s.distrust(
            account_id,
            nft_contract_id,
        ),
        Call::InsertSale { sale } => s.list(sale),
        Call::Trust { account_id, nft_contract_id } => s.trust(account_id, nft_contract_id),
    }
}

/// The state after `call`: a refused call changes nothing.
pub open spec fn step(s: MarketState, call: Call) -> MarketState {
    if refusal(s, call) is None {
        effect(s, call)
    } else {
        s
    }
}

/// The state after `calls`, made one after the other.
pub open spec fn run(s: MarketState, calls: Seq<Call>) -> MarketState
    decreases calls.len(),
{
    if calls.len() == 0 {
        s
    } else {
        step(run(s, calls.drop_last()), calls.last())
    }
}

/// The sale that a listing puts into a well-formed market is well formed.
pub proof fn lemma_listing_wf(
    s: MarketState,
    owner_id: Seq<char>,
    approval_id: u64,
    nft_contract_id: Seq<char>,
    token_id: Seq<char>,
    price: u128,
    start_time: Option<u64>,
    end_time: Option<u64>,
    is_auction: bool,
)
    requires
        s.wf(),
    ensures
        listing(
            s,
            owner_id,
            approval_id,
            nft_contract_id,
            token_id,
            price,
            start_time,
            end_time,
            is_auction,
        ).wf(),
{
}

/// No call takes a well-formed market to one that is not.
pub proof fn lemma_step_wf(s: MarketState, call: Call)
    requires
        s.wf(),
    ensures
        step(s, call).wf(),
{
    if refusal(s, call) is None {
        match call {
            Call::Approve {
                token_id,
                owner_id,
                approval_id,
                args,
                predecessor_id,
                signer_id,
                now,
                storage_amount,
                owner_paid_storage,
            } => {
                lemma_listing_wf(
                    s,
                    owner_id,
                    approval_id,
                    predecessor_id,
                    token_id,
                    args.price,
                    args.start_time,
                    args.end_time,
                    args.is_auction,
                );
                lemma_list_wf(
                    s,
                    approved_listing(s, token_id, owner_id, approval_id, args, predecessor_id),
                );
            },
            Call::List {
                now,
                owner_id,
                approval_id,
                nft_contract_id,
                token_id,
                price,
                start_time,
                end_time,
                is_auction,
            } => {
                lemma_listing_wf(
                    s,
                    owner_id,
                    approval_id,
                    nft_contract_id,
                    token_id,
                    price,
                    start_time,
                    end_time,
                    is_auction,
                );
                lemma_list_wf(
                    s,
                    listing(
                        s,
                        owner_id,
                        approval_id,
                        nft_contract_id,
                        token_id,
                        price,
                        start_time,
                        end_time,
                        is_auction,
                    ),
                );
            },
            Call::Unlist { key } => {
                lemma_unlist_wf(s, key);
            },
            Call::RemoveSale { key, caller, attached_deposit, now } => {
                lemma_unlist_wf(s, key);
            },
            Call::UpdatePrice { key, amount, caller, attached_deposit } => {
                lemma_amend_wf(s, with_price(s.sales[key], amount));
            },
            Call::AddBid { key, bidder, deposit, now } => {
                lemma_amend_wf(
                    s,
                    with_bid(s.sales[key], BidView { bidder_id: bidder, price: deposit }),
                );
            },
            Call::EndAuction { key, now } => {
                lemma_unlist_wf(s, key);
            },
            Call::Offer { key, buyer, deposit } => {
                lemma_unlist_wf(s, key);
            },
            Call::Purchase { key } => {
                lemma_unlist_wf(s, key);
            },
            Call::AddContract { nft_contract_id, account_id, attached_deposit, storage_byte_cost } => {
                lemma_index_with(s.contract_ids_by_account_id, account_id, nft_contract_id);
                lemma_trusted_wf(s, s.trust(account_id, nft_contract_id).contract_ids_by_account_id);
            },
            Call::RemoveContract { nft_contract_id, account_id, attached_deposit } => {
                lemma_index_without(s.contract_ids_by_account_id, account_id, nft_contract_id);
                lemma_trusted_wf(
                    s,
                    s.distrust(account_id, nft_contract_id).contract_ids_by_account_id,
                );
            },
            Call::InsertSale { sale } => {
                lemma_list_wf(s, sale);
            },
            Call::Trust { account_id, nft_contract_id } => {
                lemma_index_with(s.contract_ids_by_account_id, account_id, nft_contract_id);
                lemma_trusted_wf(s, s.trust(account_id, nft_contract_id).contract_ids_by_account_id);
            },
        }
    }
}

/// No run of calls takes a well-formed market to one that is not.
pub proof fn lemma_run_wf(s: MarketState, calls: Seq<Call>)
    requires
        s.wf(),
    ensures
        run(s, calls).wf(),
    decreases calls.len(),
{
    if calls.len() > 0 {
        lemma_run_wf(s, calls.drop_last());
        lemma_step_wf(run(s, calls.drop_last()), calls.last());
    }
}

} // verus!
