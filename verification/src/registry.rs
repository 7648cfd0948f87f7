//! The auction registry and the operations of its public interface.

use vstd::prelude::*;

use crate::auction::Auction;
use crate::auction::AuctionParams;
use crate::auction::AuctionView;
use crate::auction::Bid;
use crate::auction::ledger_wf;
use crate::effect::Effect;
use crate::effect::EffectView;
use crate::effect::effects_view;
use crate::error::AuctionError;
use crate::ident::NFTId;
use crate::ident::TokenId;
use crate::ident::key_of;

verus! {

/// The two effects a valid admission request declares, in order: move the
/// asset into escrow first, and only afterwards let the system's own
/// privileged continuation record the auction.
pub open spec fn admission_effects(
    nft: Seq<char>,
    token_id: Seq<char>,
    approval_id: u64,
    owner: Seq<char>,
    key: u64,
    expiry: u64,
    floor: u128,
) -> Seq<EffectView> {
    seq![
        EffectView::TransferAssetToEscrow { nft, token_id, approval_id },
        EffectView::FinalizeAdmission { owner, key, expiry, floor },
    ]
}

/// Whether the registry `r` holds a live auction under the key `k`.
pub open spec fn reg_has(r: Seq<(u64, AuctionView)>, k: u64) -> bool {
    exists|i: int| 0 <= i < r.len() && r[i].0 == k
}

/// The position of the auction keyed `k` in `r`; meaningful only when
/// `reg_has(r, k)` holds and the keys of `r` are distinct.
pub open spec fn reg_idx(r: Seq<(u64, AuctionView)>, k: u64) -> int {
    choose|i: int| 0 <= i < r.len() && r[i].0 == k
}

/// The auction that `r` holds under the key `k`.
pub open spec fn reg_get(r: Seq<(u64, AuctionView)>, k: u64) -> AuctionView {
    r[reg_idx(r, k)].1
}

/// A well-formed registry holds at most one auction per key.
pub open spec fn reg_wf(r: Seq<(u64, AuctionView)>) -> bool {
    forall|i: int, j: int| 0 <= i < j < r.len() ==> r[i].0 != r[j].0
}

/// In a well-formed registry a key determines its position: any index that
/// carries `k` is the one `reg_idx` names.
pub proof fn lemma_reg_idx_unique(r: Seq<(u64, AuctionView)>, k: u64, i: int)
    requires
        reg_wf(r),
        0 <= i < r.len(),
        r[i].0 == k,
    ensures
        reg_has(r, k),
        reg_idx(r, k) == i,
{
    assert(reg_has(r, k));
    let j = reg_idx(r, k);
    assert(0 <= j < r.len() && r[j].0 == k);
    if i < j {
        assert(r[i].0 != r[j].0);
    } else if j < i {
        assert(r[j].0 != r[i].0);
    }
}

/// Law: a successful settlement removes the settled auction exactly once.
/// Afterwards its key is absent from the registry, the count of live
/// auctions has decreased by exactly one, the presence of every other key is
/// unchanged, and the registry is still well formed — so every later query
/// under the settled key reports "not in auction".
pub proof fn lemma_settlement_removes(r0: Seq<(u64, AuctionView)>, k: u64)
    requires
        reg_wf(r0),
        reg_has(r0, k),
    ensures
        ({
            let r1 = r0.remove(reg_idx(r0, k));
            &&& r1.len() == r0.len() - 1
            &&& !reg_has(r1, k)
            &&& reg_wf(r1)
            &&& forall|k2: u64| k2 != k ==> reg_has(r1, k2) == reg_has(r0, k2)
        }),
{
    let i = reg_idx(r0, k);
    assert(0 <= i < r0.len() && r0[i].0 == k);
    let r1 = r0.remove(i);
    assert forall|m: int| 0 <= m < r1.len() implies r1[m].0 != k by {
        if m < i {
            assert(r1[m] == r0[m]);
            assert(r0[m].0 != r0[i].0);
        } else {
            assert(r1[m] == r0[m + 1]);
            assert(r0[i].0 != r0[m + 1].0);
        }
    }
    assert(!reg_has(r1, k));
    assert forall|a: int, b: int| 0 <= a < b < r1.len() implies r1[a].0 != r1[b].0 by {
        let a0 = if a < i { a } else { a + 1 };
        let b0 = if b < i { b } else { b + 1 };
        assert(r1[a] == r0[a0]);
        assert(r1[b] == r0[b0]);
        assert(r0[a0].0 != r0[b0].0);
    }
    assert forall|k2: u64| k2 != k implies reg_has(r1, k2) == reg_has(r0, k2) by {
        if reg_has(r0, k2) {
            let w = choose|w: int| 0 <= w < r0.len() && r0[w].0 == k2;
            if w < i {
                assert(r1[w] == r0[w]);
                assert(0 <= w < r1.len() && r1[w].0 == k2);
            } else {
                assert(w != i);
                assert(r1[w - 1] == r0[w]);
                assert(0 <= w - 1 < r1.len() && r1[w - 1].0 == k2);
            }
            assert(reg_has(r1, k2));
        }
        if reg_has(r1, k2) {
            let w = choose|w: int| 0 <= w < r1.len() && r1[w].0 == k2;
            if w < i {
                assert(r1[w] == r0[w]);
            } else {
                assert(r1[w] == r0[w + 1]);
            }
            assert(reg_has(r0, k2));
        }
    }
}

/// The registry of live auctions: at most one per derived asset key, which
/// stands in for the compound asset identity. Absence of a key means the
/// asset is not in auction or its auction was already settled.
pub struct Contract {
    /// The live auctions, keyed by derived asset key.
    pub auctions: Vec<(NFTId, Auction)>,
}

impl View for Contract {
    type V = Seq<(u64, AuctionView)>;

    open spec fn view(&self) -> Seq<(u64, AuctionView)> {
        Seq::new(self.auctions@.len(), |i: int| (self.auctions@[i].0@, self.auctions@[i].1@))
    }
}

impl Contract {
    /// Well-formedness: keys are distinct, every ledger holds at most one
    /// entry per participant, and the registry's size fits the 32-bit count
    /// that `len` reports.
    pub open spec fn wf(&self) -> bool {
        &&& reg_wf(self@)
        &&& forall|i: int| 0 <= i < self@.len() ==> ledger_wf(#[trigger] self@[i].1.bids)
        &&& self@.len() <= u32::MAX
    }

    /// The position of the auction keyed by `key`, if one is live.
    fn find(&self, key: &NFTId) -> (r: Option<usize>)
        ensures
            match r {
                Some(i) => i < self@.len() && self@[i as int].0 == key@,
                None => !reg_has(self@, key@),
            },
    {
        let mut i: usize = 0;
        while i < self.auctions.len()
            invariant
                i <= self.auctions@.len(),
                self@.len() == self.auctions@.len(),
                forall|j: int| 0 <= j < i ==> self@[j].0 != key@,
            decreases self.auctions@.len() - i,
        {
            if self.auctions[i].0 == *key {
                assert(self@[i as int].0 == key@);
                return Some(i);
            }
            i = i + 1;
        }
        None
    }

    /// Handles a custody-transfer authorization: validates the requested
    /// parameters and declares the two-step admission, without touching the
    /// registry — the auction is recorded only by the privileged
    /// continuation, once custody is confirmed.
    ///
    /// A non-positive duration is rejected as `InvalidParameter`; a duration
    /// that would push the expiry past the representable timestamp range is
    /// rejected as `ArithmeticOverflow`. Either rejection aborts the whole
    /// admission: no effect is declared and no auction is ever created.
    pub fn nft_on_approve(
        &self,
        nft: String,
        token_id: TokenId,
        owner_id: String,
        approval_id: u64,
        params: AuctionParams,
        current_time: u64,
    ) -> (r: Result<Vec<Effect>, AuctionError>)
        ensures
            ({
                let k = key_of(nft@, token_id@);
                match r {
                    Ok(effects) => params.timespan > 0 && current_time + params.timespan
                        <= u64::MAX && effects_view(effects@) == admission_effects(
                        nft@,
                        token_id@,
                        approval_id,
                        owner_id@,
                        k,
                        (current_time + params.timespan) as u64,
                        params.minimum_bid,
                    ),
                    Err(e) => match e {
                        AuctionError::InvalidParameter => params.timespan == 0,
                        AuctionError::ArithmeticOverflow => params.timespan > 0 && current_time
                            + params.timespan > u64::MAX,
                        _ => false,
                    },
                }
            }),
    {
        if params.timespan == 0 {
            return Err(AuctionError::InvalidParameter);
        }
        match current_time.checked_add(params.timespan) {
            None => Err(AuctionError::ArithmeticOverflow),
            Some(expiry) => {
                let nft_id = NFTId::new(&nft, &token_id);
                let mut effects: Vec<Effect> = Vec::new();
                effects.push(
                    Effect::TransferAssetToEscrow {
                        nft: nft.clone(),
                        token_id: token_id.clone(),
                        approval_id,
                    },
                );
                effects.push(
                    Effect::FinalizeAdmission {
                        owner: owner_id,
                        key: nft_id.0,
                        expiry,
                        floor: params.minimum_bid,
                    },
                );
                proof {
                    assert(effects_view(effects@) =~~= admission_effects(
                        nft@,
                        token_id@,
                        approval_id,
                        owner_id@,
                        key_of(nft@, token_id@),
                        expiry,
                        params.minimum_bid,
                    ));
                }
                Ok(effects)
            },
        }
    }

    /// The privileged continuation that finalizes admission: records the
    /// auction under `nft_id`, with an empty ledger, the custodian as owner,
    /// and the floor and expiry fixed for the auction's whole lifetime.
    /// Recording under a key that is already live replaces that entry in
    /// place. The host must let only the system itself invoke this.
    pub fn start_auction(
        &mut self,
        owner_id: String,
        nft_id: NFTId,
        expiry: u64,
        minimum_bid: u128,
    )
        requires
            old(self).wf(),
            old(self)@.len() < u32::MAX,
        ensures
            final(self).wf(),
            ({
                let av = AuctionView {
                    owner: owner_id@,
                    bids: Seq::empty(),
                    floor: minimum_bid,
                    expiry,
                };
                if reg_has(old(self)@, nft_id@) {
                    final(self)@ == old(self)@.update(
                        reg_idx(old(self)@, nft_id@),
                        (nft_id@, av),
                    )
                } else {
                    final(self)@ == old(self)@.push((nft_id@, av))
                }
            }),
    {
        let auction = Auction { owner: owner_id, bids: Vec::new(), floor: minimum_bid, expiry };
        let ghost av = AuctionView {
            owner: auction.owner@,
            bids: Seq::empty(),
            floor: minimum_bid,
            expiry,
        };
        proof {
            assert(auction@ =~~= av);
        }
        match self.find(&nft_id) {
            Some(i) => {
                proof {
                    lemma_reg_idx_unique(self@, nft_id@, i as int);
                }
                let _ = self.auctions.remove(i);
                self.auctions.insert(i, (nft_id, auction));
                proof {
                    assert(self@ =~~= old(self)@.update(i as int, (nft_id@, av)));
                }
            },
            None => {
                self.auctions.push((nft_id, auction));
                proof {
                    assert(self@ =~~= old(self)@.push((nft_id@, av)));
                }
            },
        }
    }

    /// Places a bid on the auction for the given asset.
    ///
    /// The checks run in order and the first failure aborts with no state
    /// change: the auction must be live, the amount must exceed the floor
    /// (which never rises with later bids), the attached deposit must cover
    /// the amount, the bidder must hold no open bid in this auction yet, and
    /// the expiry must not have passed. On success exactly one entry,
    /// initially unresolved, is appended to the ledger under the bidder.
    pub fn make_bid(
        &mut self,
        nft: String,
        token_id: TokenId,
        amount: u128,
        attached_deposit: u128,
        bidder: String,
        current_time: u64,
    ) -> (r: Result<(), AuctionError>)
        requires
            old(self).wf(),
        ensures
            final(self).wf(),
            ({
                let k = key_of(nft@, token_id@);
                let r0 = old(self)@;
                let av = reg_get(r0, k);
                match r {
                    Ok(_) => reg_has(r0, k) && amount > av.floor && attached_deposit >= amount
                        && !crate::auction::ledger_has(av.bids, bidder@) && current_time
                        < av.expiry && final(self)@ == r0.update(
                        reg_idx(r0, k),
                        (
                            k,
                            AuctionView {
                                owner: av.owner,
                                bids: av.bids.push((bidder@, Bid { amount, paid: false })),
                                floor: av.floor,
                                expiry: av.expiry,
                            },
                        ),
                    ),
                    Err(e) => *final(self) == *old(self) && match e {
                        AuctionError::NotInAuction => !reg_has(r0, k),
                        AuctionError::BidTooLow => reg_has(r0, k) && amount <= av.floor,
                        AuctionError::InsufficientDeposit => reg_has(r0, k) && amount > av.floor
                            && attached_deposit < amount,
                        AuctionError::DuplicateBid => reg_has(r0, k) && amount > av.floor
                            && attached_deposit >= amount && crate::auction::ledger_has(
                            av.bids,
                            bidder@,
                        ),
                        AuctionError::AuctionExpired => reg_has(r0, k) && amount > av.floor
                            && attached_deposit >= amount && !crate::auction::ledger_has(
                            av.bids,
                            bidder@,
                        ) && current_time >= av.expiry,
                        _ => false,
                    },
                }
            }),
    {
        let nft_id = NFTId::new(&nft, &token_id);
        let i: usize = match self.find(&nft_id) {
            None => {
                return Err(AuctionError::NotInAuction);
            },
            Some(i) => i,
        };
        proof {
            lemma_reg_idx_unique(self@, nft_id@, i as int);
        }
        let auction = &self.auctions[i].1;
        if amount <= auction.floor {
            return Err(AuctionError::BidTooLow);
        }
        if attached_deposit < amount {
            return Err(AuctionError::InsufficientDeposit);
        }
        if auction.has_bidder(&bidder) {
            return Err(AuctionError::DuplicateBid);
        }
        if current_time >= auction.expiry {
            return Err(AuctionError::AuctionExpired);
        }
        let (id, mut auction) = self.auctions.remove(i);
        let ghost av = auction@;
        auction.bids.push((bidder, Bid { amount, paid: false }));
        proof {
            assert(auction@.bids =~~= av.bids.push((bidder@, Bid { amount, paid: false })));
        }
        self.auctions.insert(i, (id, auction));
        proof {
            let k = nft_id@;
            let r0 = old(self)@;
            assert(self@ =~~= r0.update(
                i as int,
                (
                    k,
                    AuctionView {
                        owner: av.owner,
                        bids: av.bids.push((bidder@, Bid { amount, paid: false })),
                        floor: av.floor,
                        expiry: av.expiry,
                    },
                ),
            ));
            assert forall|a: int, b: int| 0 <= a < b < self@.len() implies self@[a].0
                != self@[b].0 by {
                assert(r0[a].0 != r0[b].0);
            }
            assert forall|m: int| 0 <= m < self@.len() implies ledger_wf(
                #[trigger] self@[m].1.bids,
            ) by {
                if m != i as int {
                    assert(ledger_wf(r0[m].1.bids));
                } else {
                    assert(ledger_wf(av.bids));
                    assert(!crate::auction::ledger_has(av.bids, bidder@));
                    let nb = av.bids.push((bidder@, Bid { amount, paid: false }));
                    assert forall|a: int, b: int| 0 <= a < b < nb.len() implies nb[a].0
                        != nb[b].0 by {
                        if b < av.bids.len() {
                            assert(av.bids[a].0 != av.bids[b].0);
                        } else {
                            assert(nb[b].0 == bidder@);
                            assert(av.bids[a].0 != bidder@) by {
                                if av.bids[a].0 == bidder@ {
                                    assert(crate::auction::ledger_has(av.bids, bidder@));
                                }
                            }
                        }
                    }
                }
            }
        }
        Ok(())
    }

    /// Settles the auction for the given asset, callable by anyone once the
    /// expiry has passed.
    ///
    /// On success the auction is removed from the registry synchronously —
    /// before any of the returned effects executes, and without rollback if
    /// one of them later fails — and the returned list declares, in order,
    /// the whole settlement: the custody approval (to the last-admitted
    /// bidder, or back to the owner when no bid exists), the payment of the
    /// winning amount to the owner, and one refund per remaining unresolved
    /// ledger entry. A call before the expiry fails with `AuctionStillOpen`
    /// and leaves the auction present and unmodified.
    pub fn end_auction(
        &mut self,
        nft: String,
        token_id: TokenId,
        attached_deposit: u128,
        current_time: u64,
    ) -> (r: Result<Vec<Effect>, AuctionError>)
        requires
            old(self).wf(),
        ensures
            final(self).wf(),
            ({
                let k = key_of(nft@, token_id@);
                let r0 = old(self)@;
                match r {
                    Ok(effects) => reg_has(r0, k) && current_time >= reg_get(r0, k).expiry
                        && effects_view(effects@) == crate::auction::settlement_effects(
                        nft@,
                        token_id@,
                        reg_get(r0, k),
                        attached_deposit,
                    ) && final(self)@ == r0.remove(reg_idx(r0, k)),
                    Err(e) => *final(self) == *old(self) && match e {
                        AuctionError::NotInAuction => !reg_has(r0, k),
                        AuctionError::AuctionStillOpen => reg_has(r0, k) && current_time
                            < reg_get(r0, k).expiry,
                        _ => false,
                    },
                }
            }),
    {
        let nft_id = NFTId::new(&nft, &token_id);
        let i: usize = match self.find(&nft_id) {
            None => {
                return Err(AuctionError::NotInAuction);
            },
            Some(i) => i,
        };
        proof {
            lemma_reg_idx_unique(self@, nft_id@, i as int);
        }
        if current_time < self.auctions[i].1.expiry {
            return Err(AuctionError::AuctionStillOpen);
        }
        let ghost r0 = old(self)@;
        let ghost k = nft_id@;
        let (_id, auction) = self.auctions.remove(i);
        let ghost av = auction@;
        proof {
            assert(av == reg_get(r0, k));
            assert(self@ =~~= r0.remove(i as int));
            lemma_settlement_removes(r0, k);
        }
        let mut effects: Vec<Effect> = Vec::new();
        if auction.bids.len() > 0 {
            let last: usize = auction.bids.len() - 1;
            let winner: String = auction.bids[last].0.clone();
            let wamount: u128 = auction.bids[last].1.amount;
            proof {
                assert(winner@ == av.bids.last().0);
                assert(wamount == av.bids.last().1.amount);
            }
            effects.push(
                Effect::ApproveAsset { nft, token_id, recipient: winner.clone(), deposit: 1 },
            );
            effects.push(Effect::PayOut { recipient: auction.owner.clone(), amount: wamount });
            let ghost head = seq![
                EffectView::ApproveAsset {
                    nft: nft@,
                    token_id: token_id@,
                    recipient: av.bids.last().0,
                    deposit: 1,
                },
                EffectView::PayOut { recipient: av.owner, amount: av.bids.last().1.amount },
            ];
            proof {
                assert(effects_view(effects@) =~~= head + crate::auction::refund_payouts(
                    av.bids.take(0),
                    winner@,
                ));
            }
            let mut j: usize = 0;
            while j < auction.bids.len()
                invariant
                    j <= auction.bids@.len(),
                    av == auction@,
                    av.bids.len() == auction.bids@.len(),
                    av.bids.len() > 0,
                    winner@ == av.bids.last().0,
                    effects_view(effects@) == head + crate::auction::refund_payouts(
                        av.bids.take(j as int),
                        winner@,
                    ),
                decreases auction.bids@.len() - j,
            {
                let ghost eff0 = effects@;
                let skip = auction.bids[j].0 == winner || auction.bids[j].1.paid;
                if !skip {
                    effects.push(
                        Effect::PayOut {
                            recipient: auction.bids[j].0.clone(),
                            amount: auction.bids[j].1.amount,
                        },
                    );
                    proof {
                        assert(effects@.last()@ == (EffectView::PayOut {
                            recipient: av.bids[j as int].0,
                            amount: av.bids[j as int].1.amount,
                        }));
                        assert(effects_view(effects@) =~~= effects_view(eff0).push(
                            effects@.last()@,
                        ));
                    }
                }
                proof {
                    let jb = j as int;
                    let pre = av.bids.take(jb);
                    let cur = av.bids.take(jb + 1);
                    assert(cur.drop_last() =~~= pre);
                    assert(cur.last() == av.bids[jb]);
                    assert(av.bids[jb].0 == auction.bids@[jb].0@);
                    assert(skip == !(av.bids[jb].0 != winner@ && !av.bids[jb].1.paid));
                    assert(crate::auction::refund_payouts(cur.drop_last(), winner@)
                        == crate::auction::refund_payouts(pre, winner@));
                    if !skip {
                        assert(crate::auction::refund_payouts(cur, winner@)
                            == crate::auction::refund_payouts(pre, winner@).push(
                            EffectView::PayOut {
                                recipient: av.bids[jb].0,
                                amount: av.bids[jb].1.amount,
                            },
                        ));
                    } else {
                        assert(crate::auction::refund_payouts(cur, winner@)
                            == crate::auction::refund_payouts(pre, winner@));
                    }
                    assert(effects_view(effects@) =~~= head + crate::auction::refund_payouts(
                        cur,
                        winner@,
                    ));
                }
                j = j + 1;
            }
            proof {
                assert(av.bids.take(av.bids.len() as int) =~~= av.bids);
                assert(effects_view(effects@) =~~= crate::auction::settlement_effects(
                    nft@,
                    token_id@,
                    av,
                    attached_deposit,
                ));
            }
        } else {
            effects.push(
                Effect::ApproveAsset {
                    nft,
                    token_id,
                    recipient: auction.owner,
                    deposit: attached_deposit,
                },
            );
            proof {
                assert(av.bids.len() == 0);
                assert(effects_view(effects@) =~~= crate::auction::settlement_effects(
                    nft@,
                    token_id@,
                    av,
                    attached_deposit,
                ));
            }
        }
        proof {
            assert forall|m: int| 0 <= m < self@.len() implies ledger_wf(
                #[trigger] self@[m].1.bids,
            ) by {
                if m < i as int {
                    assert(self@[m] == r0[m]);
                    assert(ledger_wf(r0[m].1.bids));
                } else {
                    assert(self@[m] == r0[m + 1]);
                    assert(ledger_wf(r0[m + 1].1.bids));
                }
            }
        }
        Ok(effects)
    }

    /// The number of currently live auctions.
    pub fn len(&self) -> (r: u32)
        requires
            self.wf(),
        ensures
            r == self@.len(),
    {
        self.auctions.len() as u32
    }

    /// Whether the auction for the given asset has reached its expiry.
    pub fn expired(&self, nft: String, token_id: String, current_time: u64) -> (r: Result<
        bool,
        AuctionError,
    >)
        requires
            self.wf(),
        ensures
            ({
                let k = key_of(nft@, token_id@);
                match r {
                    Ok(b) => reg_has(self@, k) && b == (current_time >= reg_get(self@, k).expiry),
                    Err(e) => e is NotInAuction && !reg_has(self@, k),
                }
            }),
    {
        let nft_id = NFTId::new(&nft, &token_id);
        match self.find(&nft_id) {
            None => Err(AuctionError::NotInAuction),
            Some(i) => {
                proof {
                    lemma_reg_idx_unique(self@, nft_id@, i as int);
                }
                Ok(current_time >= self.auctions[i].1.expiry)
            },
        }
    }
}

impl Default for Contract {
    /// A fresh registry with no live auctions.
    fn default() -> (r: Self)
        ensures
            r@ == Seq::<(u64, AuctionView)>::empty(),
            r.wf(),
    {
        let r = Contract { auctions: Vec::new() };
        proof {
            assert(r@ =~= Seq::<(u64, AuctionView)>::empty());
        }
        r
    }
}

} // verus!
