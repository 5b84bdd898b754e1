//! The second phase of a purchase: checking the payout that the custody
//! service reports against the price, and turning it into transfers.
//!
//! A payout is a list of shares. It is accepted when it names between one and
//! ten payees, each once, and leaves at most one unit of the price unallocated. An accepted
//! payout is paid out share by share, the marketplace fee being taken from the
//! seller's share; anything else is answered by refunding the buyer.

use crate::market::Contract;
use crate::trading::MAX_PAYEES;
use crate::types::{transfers_view, MarketError, Sale, Transfer, TransferView};
use vstd::prelude::*;

verus! {

/// The marketplace fee, in basis points of the price.
pub const FEE_BASIS_POINTS: u128 = 500;

/// The number of basis points in a whole.
pub const BASIS_POINTS: u128 = 10_000;

/// The fee owed on `price`: `price * FEE_BASIS_POINTS / BASIS_POINTS`, rounded down.
pub open spec fn fee_of(price: u128) -> u128 {
    (price as int * FEE_BASIS_POINTS as int / BASIS_POINTS as int) as u128
}

/// The sum of the amounts of `shares`.
pub open spec fn total(shares: Seq<TransferView>) -> nat
    decreases shares.len(),
{
    if shares.len() == 0 {
        0
    } else {
        total(shares.drop_last()) + shares.last().amount as nat
    }
}

/// The payees of `shares`, in order.
pub open spec fn payees(shares: Seq<TransferView>) -> Seq<Seq<char>> {
    shares.map_values(|share: TransferView| share.receiver_id)
}

/// Whether a payout is accepted for `price`: one to ten payees, none of them
/// named twice, and a sum that is the price or one unit less.
pub open spec fn payout_accepted(price: u128, shares: Seq<TransferView>) -> bool {
    &&& 1 <= shares.len() <= MAX_PAYEES
    &&& payees(shares).no_duplicates()
    &&& total(shares) <= price
    &&& price - total(shares) <= 1
}

/// Whether every share of `owner` is at least `fee`.
pub open spec fn fee_covered(shares: Seq<TransferView>, owner: Seq<char>, fee: u128) -> bool {
    forall|i: int|
        0 <= i < shares.len() && (#[trigger] shares[i]).receiver_id == owner ==> shares[i].amount
            >= fee
}

/// The transfers made for one share: to the seller the share less the fee, and
/// the fee, unless it is zero, to the treasury; to anyone else the share as it is.
pub open spec fn share_transfers(
    share: TransferView,
    owner: Seq<char>,
    treasury: Seq<char>,
    fee: u128,
) -> Seq<TransferView> {
    if share.receiver_id == owner {
        let to_owner = TransferView {
            receiver_id: share.receiver_id,
            amount: (share.amount - fee) as u128,
        };
        if fee != 0 {
            seq![to_owner, TransferView { receiver_id: treasury, amount: fee }]
        } else {
            seq![to_owner]
        }
    } else {
        seq![share]
    }
}

/// The transfers made for `shares`, in their order.
pub open spec fn distribution(
    shares: Seq<TransferView>,
    owner: Seq<char>,
    treasury: Seq<char>,
    fee: u128,
) -> Seq<TransferView>
    decreases shares.len(),
{
    if shares.len() == 0 {
        Seq::empty()
    } else {
        distribution(shares.drop_last(), owner, treasury, fee) + share_transfers(
            shares.last(),
            owner,
            treasury,
            fee,
        )
    }
}

/// The view of a payout that may be absent.
pub open spec fn payout_view(payout: Option<Vec<Transfer>>) -> Option<Seq<TransferView>> {
    match payout {
        Some(shares) => Some(transfers_view(shares)),
        None => None,
    }
}

/// Whether the custody service's answer leads to a distribution: it is there
/// and it is accepted for `price`.
pub open spec fn distributes(price: u128, payout: Option<Seq<TransferView>>) -> bool {
    payout matches Some(shares) && payout_accepted(price, shares)
}

/// Why a settlement cannot be carried out, if it cannot: the payout is
/// accepted, but a share of the seller does not cover the fee.
pub open spec fn settlement_refusal(
    price: u128,
    owner: Seq<char>,
    payout: Option<Seq<TransferView>>,
) -> Option<MarketError> {
    if distributes(price, payout) && !fee_covered(payout->0, owner, fee_of(price)) {
        Some(MarketError::FeeExceedsShare)
    } else {
        None
    }
}

/// The transfers of a settlement: the distribution of an accepted payout, or
/// else the refund of the whole price to the buyer.
pub open spec fn settlement_transfers(
    treasury: Seq<char>,
    buyer: Seq<char>,
    price: u128,
    owner: Seq<char>,
    payout: Option<Seq<TransferView>>,
) -> Seq<TransferView> {
    if distributes(price, payout) {
        distribution(payout->0, owner, treasury, fee_of(price))
    } else {
        seq![TransferView { receiver_id: buyer, amount: price }]
    }
}

/// How a purchase was settled.
#[derive(Debug, PartialEq, Eq)]
pub struct Settlement {
    /// The amount settled: the price, whichever way it went.
    pub amount: u128,
    /// Whether the payout was distributed; if not, the buyer was refunded.
    pub distributed: bool,
    /// The transfers to make, in order.
    pub transfers: Vec<Transfer>,
}

/// Splitting a price into whole lots of 10 000 and a rest gives the same fee
/// as multiplying first, and the fee never exceeds the price.
proof fn lemma_fee_by_parts(price: int, whole: int, rest: int)
    requires
        0 <= price,
        whole == price / 10_000,
        rest == price % 10_000,
    ensures
        whole * 500 + rest * 500 / 10_000 == price * 500 / 10_000,
        0 <= whole * 500 + rest * 500 / 10_000 <= price,
        0 <= whole * 500 <= price,
        0 <= rest * 500 < 5_000_000,
{
    assert(price == whole * 10_000 + rest && 0 <= rest < 10_000 && 0 <= whole) by (nonlinear_arith)
        requires
            0 <= price,
            whole == price / 10_000,
            rest == price % 10_000,
    ;
    assert(price * 500 == (whole * 500) * 10_000 + rest * 500) by (nonlinear_arith)
        requires
            price == whole * 10_000 + rest,
    ;
    assert(((whole * 500) * 10_000 + rest * 500) / 10_000 == whole * 500 + (rest * 500) / 10_000)
        by (nonlinear_arith);
    assert(0 <= rest * 500 / 10_000 <= rest) by (nonlinear_arith)
        requires
            0 <= rest,
    ;
}

/// The sum over a prefix grows by the next amount.
pub proof fn lemma_total_step(shares: Seq<TransferView>, i: int)
    requires
        0 <= i < shares.len(),
    ensures
        total(shares.take(i + 1)) == total(shares.take(i)) + shares[i].amount,
{
    assert(shares.take(i + 1).drop_last() =~= shares.take(i));
}

/// The sum over a prefix is at most the sum over the whole.
pub proof fn lemma_total_prefix(shares: Seq<TransferView>, i: int)
    requires
        0 <= i <= shares.len(),
    ensures
        total(shares.take(i)) <= total(shares),
    decreases shares.len() - i,
{
    if i < shares.len() {
        lemma_total_step(shares, i);
        lemma_total_prefix(shares, i + 1);
    } else {
        assert(shares.take(i) =~= shares);
    }
}

/// The sum over two lists in a row is the sum of their sums.
pub proof fn lemma_total_concat(a: Seq<TransferView>, b: Seq<TransferView>)
    ensures
        total(a + b) == total(a) + total(b),
    decreases b.len(),
{
    if b.len() == 0 {
    } else {
        assert((a + b).drop_last() =~= a + b.drop_last());
        lemma_total_concat(a, b.drop_last());
    }
}

/// The distribution over a prefix grows by the transfers of the next share.
pub proof fn lemma_distribution_step(
    shares: Seq<TransferView>,
    owner: Seq<char>,
    treasury: Seq<char>,
    fee: u128,
    i: int,
)
    requires
        0 <= i < shares.len(),
    ensures
        distribution(shares.take(i + 1), owner, treasury, fee) == distribution(
            shares.take(i),
            owner,
            treasury,
            fee,
        ) + share_transfers(shares[i], owner, treasury, fee),
{
    assert(shares.take(i + 1).drop_last() =~= shares.take(i));
}

/// Computes the marketplace fee on `price` without overflow, whatever the price.
pub fn marketplace_fee(price: u128) -> (fee: u128)
    ensures
        fee == fee_of(price),
        fee <= price,
{
    let whole: u128 = price / BASIS_POINTS;
    let rest: u128 = price % BASIS_POINTS;
    proof {
        lemma_fee_by_parts(price as int, whole as int, rest as int);
    }
    whole * FEE_BASIS_POINTS + rest * FEE_BASIS_POINTS / BASIS_POINTS
}

/// Whether no payee is named twice in `shares`.
pub fn distinct_payees(shares: &Vec<Transfer>) -> (ok: bool)
    ensures
        ok == payees(transfers_view(*shares)).no_duplicates(),
{
    let ghost names = payees(transfers_view(*shares));
    let mut i: usize = 0;
    while i < shares.len()
        invariant
            i <= shares.len(),
            names == payees(transfers_view(*shares)),
            forall|a: int, b: int| 0 <= a < b < i ==> names[a] != names[b],
        decreases shares.len() - i,
    {
        let mut j: usize = 0;
        while j < i
            invariant
                j <= i < shares.len(),
                names == payees(transfers_view(*shares)),
                forall|a: int| 0 <= a < j ==> names[a] != names[i as int],
            decreases i - j,
        {
            if shares[j].receiver_id == shares[i].receiver_id {
                assert(names[j as int] == names[i as int]);
                return false;
            }
            j += 1;
        }
        i += 1;
    }
    true
}

/// Whether the payout `shares` is accepted for `price`.
///
/// The amounts are taken from the price one by one; the payout is accepted when
/// no payee is named twice, none of the amounts exceeds what is left, and at
/// most one unit is left in the end.
pub fn validate_payout(price: u128, shares: &Vec<Transfer>) -> (ok: bool)
    ensures
        ok == payout_accepted(price, transfers_view(*shares)),
{
    let ghost all = transfers_view(*shares);
    if shares.len() == 0 || shares.len() > MAX_PAYEES as usize {
        return false;
    }
    if !distinct_payees(shares) {
        return false;
    }
    let mut remainder: u128 = price;
    let mut i: usize = 0;
    while i < shares.len()
        invariant
            i <= shares.len(),
            all == transfers_view(*shares),
            remainder + total(all.take(i as int)) == price,
        decreases shares.len() - i,
    {
        let amount: u128 = shares[i].amount;
        proof {
            lemma_total_step(all, i as int);
            lemma_total_prefix(all, i + 1);
        }
        if amount > remainder {
            return false;
        }
        remainder = remainder - amount;
        i += 1;
    }
    assert(all.take(i as int) =~= all);
    remainder == 0 || remainder == 1
}

impl Contract {
    /// The second phase of a settlement, run once the custody service has
    /// answered the request to transfer `sale` to `buyer_id` for `price`.
    ///
    /// `payout` is the payout that came back, or `None` where the request failed
    /// or its answer could not be read. An accepted payout is distributed, the
    /// fee going from the seller's share to the treasury; otherwise the buyer
    /// gets the price back. Fails with `FeeExceedsShare` where the payout is
    /// accepted but a share of the seller is smaller than the fee.
    pub fn resolve_purchase(
        &self,
        buyer_id: String,
        price: u128,
        sale: Sale,
        payout: Option<Vec<Transfer>>,
    ) -> (res: Result<Settlement, MarketError>)
        ensures
            match res {
                Ok(settled) => {
                    &&& settlement_refusal(price, sale@.owner_id, payout_view(payout)) is None
                    &&& settled.amount == price
                    &&& settled.distributed == distributes(price, payout_view(payout))
                    &&& transfers_view(settled.transfers) == settlement_transfers(
                        self@.treasury_id,
                        buyer_id@,
                        price,
                        sale@.owner_id,
                        payout_view(payout),
                    )
                },
                Err(e) => settlement_refusal(price, sale@.owner_id, payout_view(payout)) == Some(e),
            },
    {
        let shares = match payout {
            Some(shares) => {
                if validate_payout(price, &shares) {
                    Some(shares)
                } else {
                    None
                }
            },
            None => None,
        };
        let shares = match shares {
            Some(shares) => shares,
            None => {
                let mut transfers: Vec<Transfer> = Vec::new();
                transfers.push(Transfer { receiver_id: buyer_id, amount: price });
                assert(transfers_view(transfers) =~= seq![
                    TransferView { receiver_id: buyer_id@, amount: price },
                ]);
                return Ok(Settlement { amount: price, distributed: false, transfers });
            },
        };
        let ghost all = transfers_view(shares);
        let ghost owner = sale@.owner_id;
        let ghost treasury = self@.treasury_id;
        let fee = marketplace_fee(price);
        let mut transfers: Vec<Transfer> = Vec::new();
        let mut i: usize = 0;
        while i < shares.len()
            invariant
                i <= shares.len(),
                all == transfers_view(shares),
                owner == sale@.owner_id,
                treasury == self@.treasury_id,
                fee == fee_of(price),
                payout_view(payout) == Some(all),
                payout_accepted(price, all),
                fee_covered(all.take(i as int), owner, fee),
                transfers_view(transfers) == distribution(all.take(i as int), owner, treasury, fee),
            decreases shares.len() - i,
        {
            let share = &shares[i];
            let ghost before = transfers_view(transfers);
            proof {
                lemma_distribution_step(all, owner, treasury, fee, i as int);
            }
            if share.receiver_id == sale.owner_id {
                if share.amount < fee {
                    return Err(MarketError::FeeExceedsShare);
                }
                transfers.push(
                    Transfer { receiver_id: share.receiver_id.clone(), amount: share.amount - fee },
                );
                if fee != 0 {
                    transfers.push(
                        Transfer { receiver_id: self.treasury_id().clone(), amount: fee },
                    );
                }
            } else {
                transfers.push(
                    Transfer { receiver_id: share.receiver_id.clone(), amount: share.amount },
                );
            }
            assert(transfers_view(transfers) =~= before + share_transfers(
                all[i as int],
                owner,
                treasury,
                fee,
            ));
            i += 1;
        }
        assert(all.take(i as int) =~= all);
        Ok(Settlement { amount: price, distributed: true, transfers })
    }
}

} // verus!
