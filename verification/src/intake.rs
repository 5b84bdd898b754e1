//! Listing intake: the custody service tells the market that an owner has
//! approved it to sell an asset, and on what terms.

use crate::index::index_group;
use crate::market::{listing, listing_refund, valid_window, Contract};
use crate::model::MarketState;
use crate::types::{key_of, transfer_view, MarketError, SaleView, Transfer};
use vstd::prelude::*;

verus! {

/// The terms of a sale, as the owner states them with the approval.
#[derive(Clone, Copy, Debug, PartialEq, Eq)]
pub struct SaleArgs {
    /// The price of a fixed-price sale, the reserve of an auction.
    pub price: u128,
    /// Whether the asset is to be auctioned rather than sold at a fixed price.
    pub is_auction: bool,
    /// When the auction opens.
    pub start_time: Option<u64>,
    /// When the auction closes.
    pub end_time: Option<u64>,
}

/// Whether `paid` covers the listings that `account_id` has and one more, at
/// `storage_amount` each.
pub open spec fn storage_covered(
    s: MarketState,
    account_id: Seq<char>,
    storage_amount: u128,
    paid: u128,
) -> bool {
    paid >= (index_group(s.by_owner_id, account_id).len() + 1) * storage_amount
}

/// Why the sender of an approval is refused in the state `s`, if it is.
///
/// The notification must come from the custody service, not from the signer of
/// the transaction; the declared owner must be that signer; the owner's deposit
/// must cover one more listing.
pub open spec fn sender_refusal(
    s: MarketState,
    owner_id: Seq<char>,
    predecessor_id: Seq<char>,
    signer_id: Seq<char>,
    storage_amount: u128,
    owner_paid_storage: u128,
) -> Option<MarketError> {
    if predecessor_id == signer_id {
        Some(MarketError::Untrusted)
    } else if owner_id != signer_id {
        Some(MarketError::Untrusted)
    } else if !storage_covered(s, signer_id, storage_amount, owner_paid_storage) {
        Some(MarketError::InsufficientStorage)
    } else {
        None
    }
}

/// Why an approval is refused in the state `s`, if it is: for its sender, or
/// else for its times.
pub open spec fn approval_refusal(
    s: MarketState,
    owner_id: Seq<char>,
    args: SaleArgs,
    predecessor_id: Seq<char>,
    signer_id: Seq<char>,
    now: u64,
    storage_amount: u128,
    owner_paid_storage: u128,
) -> Option<MarketError> {
    if sender_refusal(s, owner_id, predecessor_id, signer_id, storage_amount, owner_paid_storage)
        is Some {
        sender_refusal(s, owner_id, predecessor_id, signer_id, storage_amount, owner_paid_storage)
    } else if !valid_window(now, args.start_time, args.end_time, args.is_auction) {
        Some(MarketError::InvalidAuctionWindow)
    } else {
        None
    }
}

/// The sale that an accepted approval lists in the state `s`.
pub open spec fn approved_listing(
    s: MarketState,
    token_id: Seq<char>,
    owner_id: Seq<char>,
    approval_id: u64,
    args: SaleArgs,
    predecessor_id: Seq<char>,
) -> SaleView {
    listing(
        s,
        owner_id,
        approval_id,
        predecessor_id,
        token_id,
        args.price,
        args.start_time,
        args.end_time,
        args.is_auction,
    )
}

impl Contract {
    /// Checks the sender of an approval, before anything is read of its terms.
    ///
    /// `predecessor_id` is the account that calls, `signer_id` the account that
    /// signed the transaction, `storage_amount` the deposit that one listing
    /// needs and `owner_paid_storage` the deposit that the signer has made.
    pub fn check_approval_sender(
        &self,
        owner_id: &String,
        predecessor_id: &String,
        signer_id: &String,
        storage_amount: u128,
        owner_paid_storage: u128,
    ) -> (res: Result<(), MarketError>)
        requires
            self.wf(),
        ensures
            match res {
                Ok(()) => sender_refusal(
                    self@,
                    owner_id@,
                    predecessor_id@,
                    signer_id@,
                    storage_amount,
                    owner_paid_storage,
                ) is None,
                Err(e) => sender_refusal(
                    self@,
                    owner_id@,
                    predecessor_id@,
                    signer_id@,
                    storage_amount,
                    owner_paid_storage,
                ) == Some(e),
            },
    {
        if *predecessor_id == *signer_id {
            return Err(MarketError::Untrusted);
        }
        if *owner_id != *signer_id {
            return Err(MarketError::Untrusted);
        }
        let listings: usize = self.get_supply_by_owner_id(signer_id);
        let covered = match (listings as u128 + 1).checked_mul(storage_amount) {
            Some(required) => owner_paid_storage >= required,
            None => false,
        };
        if !covered {
            return Err(MarketError::InsufficientStorage);
        }
        Ok(())
    }

    /// Takes in an approval: lists `token_id` of the custody service
    /// `predecessor_id` for `owner_id` on the terms `args`.
    ///
    /// `predecessor_id` is the account that calls, `signer_id` the account that
    /// signed the transaction, `storage_amount` the deposit that one listing
    /// needs and `owner_paid_storage` the deposit that the signer has made.
    /// The result is the refund to make where the listing does not keep a bid
    /// that was in escrow.
    pub fn nft_on_approve(
        &mut self,
        token_id: String,
        owner_id: String,
        approval_id: u64,
        args: SaleArgs,
        predecessor_id: String,
        signer_id: &String,
        current_time: u64,
        storage_amount: u128,
        owner_paid_storage: u128,
    ) -> (res: Result<Option<Transfer>, MarketError>)
        requires
            old(self).wf(),
        ensures
            final(self).wf(),
            match res {
                Ok(refund) => {
                    &&& transfer_view(refund) == listing_refund(
                        old(self)@,
                        key_of(predecessor_id@, token_id@),
                        args.is_auction,
                    )
                    &&& approval_refusal(
                        old(self)@,
                        owner_id@,
                        args,
                        predecessor_id@,
                        signer_id@,
                        current_time,
                        storage_amount,
                        owner_paid_storage,
                    ) is None
                    &&& final(self)@ == old(self)@.list(
                        approved_listing(
                            old(self)@,
                            token_id@,
                            owner_id@,
                            approval_id,
                            args,
                            predecessor_id@,
                        ),
                    )
                },
                Err(e) => {
                    &&& approval_refusal(
                        old(self)@,
                        owner_id@,
                        args,
                        predecessor_id@,
                        signer_id@,
                        current_time,
                        storage_amount,
                        owner_paid_storage,
                    ) == Some(e)
                    &&& final(self)@ == old(self)@
                },
            },
    {
        match self.check_approval_sender(
            &owner_id,
            &predecessor_id,
            signer_id,
            storage_amount,
            owner_paid_storage,
        ) {
            Ok(()) => {},
            Err(e) => {
                return Err(e);
            },
        }
        self.internal_add_market_data(
            current_time,
            owner_id,
            approval_id,
            predecessor_id,
            token_id,
            args.price,
            args.start_time,
            args.end_time,
            args.is_auction,
        )
    }
}

} // verus!
