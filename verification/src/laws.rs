//! What holds of the marketplace as a whole, proved from the definitions that
//! the operations are specified with.

use crate::index::{index_group, index_lists};
use crate::machine::{lemma_run_wf, lemma_step_wf, refusal, run, step, Call};
use crate::model::{lemma_empty_wf, lemma_unlist_wf, MarketState};
use crate::settlement::{
    distributes, distribution, fee_covered, fee_of, lemma_total_concat, payees, payout_accepted,
    settlement_refusal, settlement_transfers, share_transfers, total,
};
use crate::market::listing_refund;
use crate::trading::{
    auction_outcome, cancel_refund, end_auction_refusal, offer_refusal, purchase_refusal,
    PendingSettlementView, MAX_PAYEES,
};
use crate::types::{key_of, refund_of, written, MarketError, SaleKeyView, TransferView};
use vstd::prelude::*;

verus! {

/// Two keys with the same written form are the same key, as long as the names
/// of their custody services hold no delimiter, or the names of their assets
/// hold none. (Where both may hold one, two keys can read alike; the registry
/// goes by the pair.)
pub proof fn law_written_key_names_one_key(a: SaleKeyView, b: SaleKeyView)
    requires
        written(a) == written(b),
        (!a.nft_contract_id.contains('.') && !b.nft_contract_id.contains('.')) || (
        !a.token_id.contains('.') && !b.token_id.contains('.')),
    ensures
        a == b,
{
    reveal_strlit(".");
    let text = written(a);
    let la = a.nft_contract_id.len() as int;
    let lb = b.nft_contract_id.len() as int;
    assert(text.len() == lb + 1 + b.token_id.len());
    if la < lb {
        // the delimiter of `a` falls into the custody service of `b`, and the
        // delimiter of `b` into the asset of `a`
        assert(b.nft_contract_id[la] == written(b)[la]);
        assert(a.token_id[lb - la - 1] == written(a)[lb]);
    } else if lb < la {
        assert(a.nft_contract_id[lb] == written(a)[lb]);
        assert(b.token_id[la - lb - 1] == written(b)[la]);
    } else {
        assert(a.nft_contract_id =~= text.subrange(0, la));
        assert(b.nft_contract_id =~= text.subrange(0, la));
        assert(a.token_id =~= text.subrange(la + 1, text.len() as int));
        assert(b.token_id =~= text.subrange(la + 1, text.len() as int));
    }
}

/// Every state that calls can reach from the empty market is well formed: no
/// two sales share a key, and the indices list exactly the sales.
pub proof fn law_reachable_states_are_well_formed(
    owner_id: Seq<char>,
    treasury_id: Seq<char>,
    min_bid_increment: u128,
    calls: Seq<Call>,
)
    ensures
        run(MarketState::empty(owner_id, treasury_id, min_bid_increment), calls).wf(),
{
    lemma_empty_wf(owner_id, treasury_id, min_bid_increment);
    lemma_run_wf(MarketState::empty(owner_id, treasury_id, min_bid_increment), calls);
}

/// Two sales of the registry for the same custody service and asset are one
/// sale: they stand under the same key.
pub proof fn law_sales_are_unique(s: MarketState, k1: SaleKeyView, k2: SaleKeyView)
    requires
        s.wf(),
        s.sales.contains_key(k1),
        s.sales.contains_key(k2),
        s.sales[k1].nft_contract_id == s.sales[k2].nft_contract_id,
        s.sales[k1].token_id == s.sales[k2].token_id,
    ensures
        k1 == k2,
{
}

/// After any call, a sale of the registry stands under its own key, and a call
/// adds at most one sale: listing never leaves two sales for one custody
/// service and asset.
pub proof fn law_listing_keeps_one_sale_per_key(s: MarketState, call: Call, key: SaleKeyView)
    requires
        s.wf(),
        step(s, call).sales.contains_key(key),
    ensures
        step(s, call).sales[key].key() == key,
        !s.sales.contains_key(key) ==> forall|other: SaleKeyView|
            step(s, call).sales.contains_key(other) && !s.sales.contains_key(other) ==> other
                == key,
{
    lemma_step_wf(s, call);
}

/// The index has an entry for an account exactly when the account is the
/// seller of at least one listed sale.
pub proof fn law_index_entry_iff_seller(s: MarketState, account_id: Seq<char>)
    requires
        s.wf(),
    ensures
        s.by_owner_id.contains_key(account_id) <==> exists|key: SaleKeyView|
            s.owns(account_id, key),
{
    if s.by_owner_id.contains_key(account_id) {
        // the entry is not empty, and what it lists is a sale of the account
        assert(s.owns(account_id, s.by_owner_id[account_id][0]));
    }
}

/// In every state that calls can reach from the empty market, the index has an
/// entry for an account exactly when the account is the seller of at least one
/// listed sale.
pub proof fn law_reachable_index_entry_iff_seller(
    owner_id: Seq<char>,
    treasury_id: Seq<char>,
    min_bid_increment: u128,
    calls: Seq<Call>,
    account_id: Seq<char>,
)
    ensures
        ({
            let reached = run(MarketState::empty(owner_id, treasury_id, min_bid_increment), calls);
            reached.by_owner_id.contains_key(account_id) <==> exists|key: SaleKeyView|
                reached.owns(account_id, key)
        }),
{
    law_reachable_states_are_well_formed(owner_id, treasury_id, min_bid_increment, calls);
    law_index_entry_iff_seller(
        run(MarketState::empty(owner_id, treasury_id, min_bid_increment), calls),
        account_id,
    );
}

/// The index lists a key under a seller exactly when the registry holds a sale
/// of that seller under the key, and lists an asset under a custody service
/// exactly when the registry holds a sale of that asset.
pub proof fn law_indices_list_the_registry(
    s: MarketState,
    account_id: Seq<char>,
    key: SaleKeyView,
)
    requires
        s.wf(),
    ensures
        index_lists(s.by_owner_id, account_id, key) <==> s.owns(account_id, key),
        index_lists(s.by_nft_contract_id, key.nft_contract_id, key.token_id)
            <==> s.sales.contains_key(key),
        index_group(s.by_owner_id, account_id).no_duplicates(),
{
}

/// Unlisting the last sale of a seller removes the seller's index entry.
pub proof fn law_last_sale_removes_entry(s: MarketState, key: SaleKeyView)
    requires
        s.wf(),
        s.sales.contains_key(key),
        forall|other: SaleKeyView| s.owns(s.sales[key].owner_id, other) ==> other == key,
    ensures
        !s.unlist(key).by_owner_id.contains_key(s.sales[key].owner_id),
{
    let seller = s.sales[key].owner_id;
    let next = s.unlist(key);
    lemma_unlist_wf(s, key);
    law_index_entry_iff_seller(next, seller);
    assert forall|other: SaleKeyView| !next.owns(seller, other) by {
        if next.owns(seller, other) {
            assert(s.owns(seller, other));
        }
    }
}

/// Once the first phase of a settlement has taken a sale out of the registry,
/// no purchase finds it: a second first phase and the end of the auction fail
/// with `NotFound`, and so does an offer that has anything attached.
pub proof fn law_at_most_one_settlement(
    s: MarketState,
    key: SaleKeyView,
    buyer: Seq<char>,
    deposit: u128,
    now: u64,
)
    requires
        s.sales.contains_key(key),
    ensures
        purchase_refusal(s, key) is None,
        !s.unlist(key).sales.contains_key(key),
        purchase_refusal(s.unlist(key), key) == Some(MarketError::NotFound),
        end_auction_refusal(s.unlist(key), key, now) == Some(MarketError::NotFound),
        offer_refusal(s.unlist(key), key, buyer, deposit) is Some,
        deposit > 0 ==> offer_refusal(s.unlist(key), key, buyer, deposit) == Some(
            MarketError::NotFound,
        ),
{
}

/// Whether `call` takes the sale under `key` out of the registry to settle it:
/// an offer, the end of the auction, or the first phase itself.
pub open spec fn settles(call: Call, key: SaleKeyView) -> bool {
    match call {
        Call::Offer { key: k, buyer, deposit } => k == key && deposit > 0,
        Call::EndAuction { key: k, now } => k == key,
        Call::Purchase { key: k } => k == key,
        _ => false,
    }
}

/// Of two calls that settle the same sale, made one after the other, the
/// second fails with `NotFound` if the first was accepted.
pub proof fn law_second_settlement_fails(s: MarketState, first: Call, second: Call, key: SaleKeyView)
    requires
        settles(first, key),
        settles(second, key),
        refusal(s, first) is None,
    ensures
        refusal(step(s, first), second) == Some(MarketError::NotFound),
        step(step(s, first), second) == step(s, first),
{
}

/// The amount of a transfer that may be absent.
pub open spec fn amount_of(transfer: Option<TransferView>) -> nat {
    match transfer {
        Some(t) => t.amount as nat,
        None => 0,
    }
}

/// The amount that a pending settlement, if any, settles.
pub open spec fn settled_amount(p: Option<PendingSettlementView>) -> nat {
    match p {
        Some(p) => p.price as nat,
        None => 0,
    }
}

/// What is in escrow for the sale under `key`: nothing where no sale stands
/// there.
pub open spec fn escrow_at(s: MarketState, key: SaleKeyView) -> nat {
    if s.sales.contains_key(key) {
        s.sales[key].escrow()
    } else {
        0
    }
}

/// What `call` puts into the escrow under `key`: the deposit of an accepted
/// bid, and what a sale brings with it when a market is rebuilt.
pub open spec fn taken_in(s: MarketState, call: Call, key: SaleKeyView) -> nat {
    if refusal(s, call) is Some {
        0
    } else {
        match call {
            Call::AddBid { key: k, bidder, deposit, now } => if k == key {
                deposit as nat
            } else {
                0
            },
            Call::InsertSale { sale } => if sale.key() == key {
                sale.escrow()
            } else {
                0
            },
            _ => 0,
        }
    }
}

/// What `call` hands out of the escrow under `key`:
/// - the refund of the bid that an accepted bid replaces, that a cancellation
///   ends, or that a listing at a fixed price does not keep;
/// - the amount that the end of an auction settles;
/// - what is in escrow for a sale that `internal_remove_sale` or
///   `process_purchase` hands to its caller, bids and all.
pub open spec fn handed_out(s: MarketState, call: Call, key: SaleKeyView) -> nat {
    if refusal(s, call) is Some {
        0
    } else {
        match call {
            Call::AddBid { key: k, bidder, deposit, now } => if k == key {
                amount_of(refund_of(s.sales[key]))
            } else {
                0
            },
            Call::RemoveSale { key: k, caller, attached_deposit, now } => if k == key {
                amount_of(cancel_refund(s.sales[key]))
            } else {
                0
            },
            Call::EndAuction { key: k, now } => if k == key {
                settled_amount(auction_outcome(s.sales[key]))
            } else {
                0
            },
            Call::Approve {
                token_id,
                owner_id,
                approval_id,
                args,
                predecessor_id,
                signer_id,
                now,
                storage_amount,
                owner_paid_storage,
            } => if key_of(predecessor_id, token_id) == key {
                amount_of(listing_refund(s, key, args.is_auction))
            } else {
                0
            },
            Call::List {
                now,
                owner_id,
                approval_id,
                nft_contract_id,
                token_id,
                price,
                start_time,
                end_time,
                is_auction,
            } => if key_of(nft_contract_id, token_id) == key {
                amount_of(listing_refund(s, key, is_auction))
            } else {
                0
            },
            Call::Unlist { key: k } => if k == key {
                escrow_at(s, key)
            } else {
                0
            },
            Call::Purchase { key: k } => if k == key {
                escrow_at(s, key)
            } else {
                0
            },
            _ => 0,
        }
    }
}

/// What the calls `calls`, made one after the other from `s`, put into the
/// escrow under `key`.
pub open spec fn total_taken_in(s: MarketState, calls: Seq<Call>, key: SaleKeyView) -> nat
    decreases calls.len(),
{
    if calls.len() == 0 {
        0
    } else {
        total_taken_in(s, calls.drop_last(), key) + taken_in(
            run(s, calls.drop_last()),
            calls.last(),
            key,
        )
    }
}

/// What the calls `calls`, made one after the other from `s`, hand out of the
/// escrow under `key`.
pub open spec fn total_handed_out(s: MarketState, calls: Seq<Call>, key: SaleKeyView) -> nat
    decreases calls.len(),
{
    if calls.len() == 0 {
        0
    } else {
        total_handed_out(s, calls.drop_last(), key) + handed_out(
            run(s, calls.drop_last()),
            calls.last(),
            key,
        )
    }
}

/// No call makes or loses escrow: what is in escrow under a key after a call,
/// together with what the call hands out, is what was in escrow before,
/// together with what the call puts in. This holds of every call: bids,
/// cancellations, the end of an auction, listings that keep the bid and
/// listings that do not, removals and purchases.
pub proof fn law_call_conserves_escrow(s: MarketState, call: Call, key: SaleKeyView)
    requires
        s.wf(),
    ensures
        escrow_at(step(s, call), key) + handed_out(s, call, key) == escrow_at(s, key) + taken_in(
            s,
            call,
            key,
        ),
{
}

/// Escrow is conserved over every run of calls: what is in escrow under a key
/// at the end, together with everything that was handed out of it, is what was
/// in escrow at the start, together with everything that was put in.
pub proof fn law_escrow_is_conserved(s: MarketState, calls: Seq<Call>, key: SaleKeyView)
    requires
        s.wf(),
    ensures
        escrow_at(run(s, calls), key) + total_handed_out(s, calls, key) == escrow_at(s, key)
            + total_taken_in(s, calls, key),
    decreases calls.len(),
{
    if calls.len() > 0 {
        law_escrow_is_conserved(s, calls.drop_last(), key);
        lemma_run_wf(s, calls.drop_last());
        law_call_conserves_escrow(run(s, calls.drop_last()), calls.last(), key);
    }
}

/// From the empty market on, everything that bidders have deposited for a
/// sale has been handed out again or is still in escrow for it.
pub proof fn law_deposits_are_accounted_for(
    owner_id: Seq<char>,
    treasury_id: Seq<char>,
    min_bid_increment: u128,
    calls: Seq<Call>,
    key: SaleKeyView,
)
    ensures
        ({
            let start = MarketState::empty(owner_id, treasury_id, min_bid_increment);
            escrow_at(run(start, calls), key) + total_handed_out(start, calls, key)
                == total_taken_in(start, calls, key)
        }),
{
    lemma_empty_wf(owner_id, treasury_id, min_bid_increment);
    law_escrow_is_conserved(MarketState::empty(owner_id, treasury_id, min_bid_increment), calls, key);
}

/// The transfers of a distribution add up to the payout: the fee only moves
/// from the seller's share to the treasury.
pub proof fn law_distribution_pays_the_payout(
    shares: Seq<TransferView>,
    owner: Seq<char>,
    treasury: Seq<char>,
    fee: u128,
)
    requires
        fee_covered(shares, owner, fee),
    ensures
        total(distribution(shares, owner, treasury, fee)) == total(shares),
    decreases shares.len(),
{
    if shares.len() > 0 {
        let rest = shares.drop_last();
        let last = shares.last();
        assert(fee_covered(rest, owner, fee)) by {
            assert forall|i: int| 0 <= i < rest.len() implies rest[i] == shares[i] by {}
        }
        law_distribution_pays_the_payout(rest, owner, treasury, fee);
        let made = share_transfers(last, owner, treasury, fee);
        lemma_total_concat(distribution(rest, owner, treasury, fee), made);
        assert(total(made) == last.amount) by {
            reveal_with_fuel(total, 3);
        }
    }
}

/// A settlement pays out the price or one unit less: the whole price to the
/// buyer where the payout is not accepted, and the sum of the payout otherwise.
pub proof fn law_settlement_pays_the_price(
    treasury: Seq<char>,
    buyer: Seq<char>,
    price: u128,
    owner: Seq<char>,
    payout: Option<Seq<TransferView>>,
)
    requires
        settlement_refusal(price, owner, payout) is None,
    ensures
        !distributes(price, payout) ==> total(
            settlement_transfers(treasury, buyer, price, owner, payout),
        ) == price,
        distributes(price, payout) ==> total(
            settlement_transfers(treasury, buyer, price, owner, payout),
        ) == total(payout->0),
        price - 1 <= total(settlement_transfers(treasury, buyer, price, owner, payout)) <= price,
{
    if distributes(price, payout) {
        law_distribution_pays_the_payout(payout->0, owner, treasury, fee_of(price));
    } else {
        reveal_with_fuel(total, 2);
    }
}

/// A payout of one to ten shares, each for another payee, is accepted exactly
/// when it adds up to the price or to one unit less: one unit too little more,
/// or anything too much, and it is rejected.
pub proof fn law_payout_tolerance(price: u128, shares: Seq<TransferView>)
    requires
        1 <= shares.len() <= MAX_PAYEES,
        payees(shares).no_duplicates(),
    ensures
        total(shares) == price ==> payout_accepted(price, shares),
        total(shares) == price - 1 ==> payout_accepted(price, shares),
        total(shares) == price - 2 ==> !payout_accepted(price, shares),
        total(shares) > price ==> !payout_accepted(price, shares),
        payout_accepted(price, shares) <==> total(shares) == price || total(shares) == price - 1,
{
}

/// In an accepted payout the seller has at most one share, so the fee is taken
/// at most once.
pub proof fn law_fee_is_taken_once(
    price: u128,
    shares: Seq<TransferView>,
    owner: Seq<char>,
    i: int,
    j: int,
)
    requires
        payout_accepted(price, shares),
        0 <= i < shares.len(),
        0 <= j < shares.len(),
        shares[i].receiver_id == owner,
        shares[j].receiver_id == owner,
    ensures
        i == j,
{
    assert(payees(shares)[i] == payees(shares)[j]);
}

/// A payout that is not accepted, or none at all, is answered by refunding the
/// whole price to the buyer, and by nothing else.
pub proof fn law_rejected_payout_refunds_buyer(
    treasury: Seq<char>,
    buyer: Seq<char>,
    price: u128,
    owner: Seq<char>,
    payout: Option<Seq<TransferView>>,
)
    requires
        payout matches Some(shares) ==> shares.len() == 0 || shares.len() > MAX_PAYEES
            || !payees(shares).no_duplicates() || total(shares) > price || total(shares) + 1
            < price,
    ensures
        settlement_refusal(price, owner, payout) is None,
        !distributes(price, payout),
        settlement_transfers(treasury, buyer, price, owner, payout) == seq![
            TransferView { receiver_id: buyer, amount: price },
        ],
{
}

} // verus!
