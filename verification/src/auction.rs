//! One live auction: its owner, floor price, expiry, and bid ledger.

use vstd::prelude::*;

use crate::effect::EffectView;

verus! {

/// One participant's locked offer.
///
/// `paid` marks a bid whose funds were already resolved through a companion
/// update/refund path outside this core; settlement skips such a bid so that
/// no entry is ever disbursed twice.
#[derive(Clone, Copy, Debug, PartialEq, Eq, Structural)]
pub struct Bid {
    /// The offered amount, in the smallest monetary unit.
    pub amount: u128,
    /// Whether this bid's funds have already been resolved.
    pub paid: bool,
}

/// The parameters a custodian attaches to an admission request.
#[derive(Clone, Copy, Debug, PartialEq, Eq, Structural)]
pub struct AuctionParams {
    /// Requested auction duration, in the host's time units; must be positive.
    pub timespan: u64,
    /// The floor price: the minimum amount a bid must exceed.
    pub minimum_bid: u128,
}

/// The mathematical form of an auction: identifiers as character sequences,
/// the ledger as a sequence of (participant, bid) pairs in insertion order.
#[verifier::ext_equal]
pub struct AuctionView {
    pub owner: Seq<char>,
    pub bids: Seq<(Seq<char>, Bid)>,
    pub floor: u128,
    pub expiry: u64,
}

/// Whether `who` holds an entry in the ledger `bids`.
pub open spec fn ledger_has(bids: Seq<(Seq<char>, Bid)>, who: Seq<char>) -> bool {
    exists|i: int| 0 <= i < bids.len() && bids[i].0 == who
}

/// A well-formed ledger holds at most one entry per participant.
pub open spec fn ledger_wf(bids: Seq<(Seq<char>, Bid)>) -> bool {
    forall|i: int, j: int| 0 <= i < j < bids.len() ==> bids[i].0 != bids[j].0
}

/// One live auction over a single asset.
pub struct Auction {
    /// The custodian entitled to the sale proceeds.
    pub owner: String,
    /// The bid ledger, keyed by participant identifier, in insertion order.
    pub bids: Vec<(String, Bid)>,
    /// The minimum acceptable bid, fixed at creation; a bid must exceed it.
    pub floor: u128,
    /// The absolute instant at which the auction closes, fixed at creation.
    pub expiry: u64,
}

impl View for Auction {
    type V = AuctionView;

    open spec fn view(&self) -> AuctionView {
        AuctionView {
            owner: self.owner@,
            bids: Seq::new(self.bids@.len(), |i: int| (self.bids@[i].0@, self.bids@[i].1)),
            floor: self.floor,
            expiry: self.expiry,
        }
    }
}

impl Auction {
    /// Whether `who` already holds an open bid in this auction.
    pub fn has_bidder(&self, who: &String) -> (r: bool)
        ensures
            r == ledger_has(self@.bids, who@),
    {
        let mut i: usize = 0;
        while i < self.bids.len()
            invariant
                i <= self.bids@.len(),
                forall|j: int| 0 <= j < i ==> self@.bids[j].0 != who@,
            decreases self.bids@.len() - i,
        {
            if self.bids[i].0 == *who {
                assert(self@.bids[i as int].0 == who@);
                return true;
            }
            i = i + 1;
        }
        false
    }
}

/// The refund legs of a settlement fan-out: one payout per ledger entry whose
/// participant is not the winner and whose funds are not already resolved,
/// in ledger insertion order.
pub open spec fn refund_payouts(bids: Seq<(Seq<char>, Bid)>, winner: Seq<char>) -> Seq<EffectView>
    decreases bids.len(),
{
    if bids.len() == 0 {
        Seq::empty()
    } else {
        let rest = refund_payouts(bids.drop_last(), winner);
        if bids.last().0 != winner && !bids.last().1.paid {
            rest.push(EffectView::PayOut { recipient: bids.last().0, amount: bids.last().1.amount })
        } else {
            rest
        }
    }
}

/// The full effect list a settlement declares for the auction `a`, in order.
///
/// With at least one bid, the winner is the last ledger entry — the most
/// recently admitted distinct bidder, not necessarily the highest amount:
/// the asset is approved for the winner with a minimal attached deposit of
/// one unit, the winning amount is paid to the owner exactly once, and then
/// every other unresolved entry is refunded in ledger order. With no bids,
/// the asset is approved back to the owner and the caller's entire attached
/// deposit is passed through unchanged.
pub open spec fn settlement_effects(
    nft: Seq<char>,
    token_id: Seq<char>,
    a: AuctionView,
    attached_deposit: u128,
) -> Seq<EffectView> {
    if a.bids.len() == 0 {
        seq![
            EffectView::ApproveAsset {
                nft,
                token_id,
                recipient: a.owner,
                deposit: attached_deposit,
            },
        ]
    } else {
        seq![
            EffectView::ApproveAsset { nft, token_id, recipient: a.bids.last().0, deposit: 1 },
            EffectView::PayOut { recipient: a.owner, amount: a.bids.last().1.amount },
        ] + refund_payouts(a.bids, a.bids.last().0)
    }
}

/// Law: settlement refunds every non-winning, unresolved ledger entry exactly
/// once, in ledger order, and skips an entry only if it belongs to the winner
/// or its funds were already resolved — the refund legs are precisely the
/// qualifying entries, each mapped to one payout of its own amount.
pub proof fn lemma_refunds_exactly_once(bids: Seq<(Seq<char>, Bid)>, winner: Seq<char>)
    ensures
        refund_payouts(bids, winner) =~= bids.filter(
            |e: (Seq<char>, Bid)| e.0 != winner && !e.1.paid,
        ).map_values(|e: (Seq<char>, Bid)| EffectView::PayOut { recipient: e.0, amount: e.1.amount }),
    decreases bids.len(),
{
    reveal(Seq::filter);
    let pred = |e: (Seq<char>, Bid)| e.0 != winner && !e.1.paid;
    let pay = |e: (Seq<char>, Bid)| EffectView::PayOut { recipient: e.0, amount: e.1.amount };
    if bids.len() > 0 {
        lemma_refunds_exactly_once(bids.drop_last(), winner);
        if pred(bids.last()) {
            assert(bids.filter(pred) == bids.drop_last().filter(pred).push(bids.last()));
            assert(bids.filter(pred).map_values(pay) =~= bids.drop_last().filter(pred).map_values(
                pay,
            ).push(pay(bids.last())));
        }
    }
}

} // verus!
