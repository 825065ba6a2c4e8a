//! One auction with all its records: the state, the bid pool and the receipt
//! of every bidder, found by the bidder's address.
//!
//! A bidder's receipt is made once and never replaced, and the pool always
//! holds exactly what its receipts still owe.

use vstd::prelude::*;
use crate::errors::AuctionErrors;
use crate::identity::Address;
use crate::instructions::{
    bid_at, end_auction_at, initialize_at, refund_at, BidAuction, EndAuction, Initialize, Refund,
};
use crate::records::{BidPool, BidSlip, State, Wallet};

verus! {

/// A bidder and the receipt of their bid.
#[derive(Clone, Copy, Debug, PartialEq, Eq)]
pub struct Receipt {
    pub bidder: Address,
    pub slip: BidSlip,
}

/// An auction and its records.
#[derive(Debug)]
pub struct Auction {
    state: State,
    pool: BidPool,
    /// One receipt for each accepted bid, in the order in which they came.
    receipts: Vec<Receipt>,
    /// The time of the latest operation that applied.
    latest: i64,
}

/// What an `Auction` holds.
pub struct AuctionView {
    pub state: State,
    pub pool: BidPool,
    /// One receipt for each accepted bid, in the order in which they came.
    pub receipts: Seq<Receipt>,
    /// The time of the latest operation that applied.
    pub latest: i64,
}

/// Whether `who` holds a receipt among `receipts`.
pub open spec fn holds_receipt(receipts: Seq<Receipt>, who: Address) -> bool {
    exists|i: int| 0 <= i < receipts.len() && (#[trigger] receipts[i]).bidder == who
}

/// The place of `who`'s receipt among `receipts`, if they hold one.
pub open spec fn place_of(receipts: Seq<Receipt>, who: Address) -> int {
    choose|i: int| 0 <= i < receipts.len() && (#[trigger] receipts[i]).bidder == who
}

/// The receipt slip of `who`, or `None` if they have not bid.
pub open spec fn slip_of(receipts: Seq<Receipt>, who: Address) -> Option<BidSlip> {
    if holds_receipt(receipts, who) {
        Some(receipts[place_of(receipts, who)].slip)
    } else {
        None
    }
}

/// Whether no bidder holds two of the receipts.
pub open spec fn one_each(receipts: Seq<Receipt>) -> bool {
    forall|i: int, j: int|
        0 <= i < j < receipts.len() ==> (#[trigger] receipts[i]).bidder != (
        #[trigger] receipts[j]).bidder
}

/// What the pool still owes on one receipt: its amount, unless that went back
/// to the bidder or, as the top bid, on to the seller.
pub open spec fn owed(receipt: Receipt, state: State) -> nat {
    if receipt.slip.funds_refunded || (state.claimed && state.led_by(receipt.bidder)) {
        0
    } else {
        receipt.slip.amount as nat
    }
}

/// What the pool still owes on all the receipts together.
pub open spec fn outstanding(receipts: Seq<Receipt>, state: State) -> nat
    decreases receipts.len(),
{
    if receipts.len() == 0 {
        0
    } else {
        outstanding(receipts.drop_last(), state) + owed(receipts.last(), state)
    }
}

/// One bid as it is offered: who bids and what they hold, how much, the nonce
/// of their receipt, and when.
pub struct Offer {
    pub bidder: Wallet,
    pub amount: u64,
    pub bump: u8,
    pub now: i64,
}

impl AuctionView {
    /// Whether the records fit together: the state names its pool; no bidder
    /// holds two receipts; the pool holds exactly what it owes; the winner is
    /// the bidder of the latest receipt, which holds the top bid and has not
    /// gone back; no receipt is for less than an earlier one; and nothing was
    /// claimed or refunded before the end time.
    pub open spec fn wf(self) -> bool {
        &&& self.state.bid_pool == self.pool.key
        &&& one_each(self.receipts)
        &&& self.pool.lamports == outstanding(self.receipts, self.state)
        &&& match self.state.winner {
            None => self.receipts.len() == 0 && self.state.top_bid == 0,
            Some(w) => {
                &&& self.receipts.len() > 0
                &&& self.receipts.last().bidder == w
                &&& self.receipts.last().slip.amount == self.state.top_bid
                &&& !self.receipts.last().slip.funds_refunded
            },
        }
        &&& forall|i: int, j: int|
            0 <= i <= j < self.receipts.len() ==> (#[trigger] self.receipts[i]).slip.amount <= (
            #[trigger] self.receipts[j]).slip.amount
        &&& self.state.claimed ==> self.latest >= self.state.end_at
        &&& forall|i: int|
            0 <= i < self.receipts.len() && (#[trigger] self.receipts[i]).slip.funds_refunded
                ==> self.latest >= self.state.end_at
    }

    /// An auction of `seller`'s as it is opened at `now` for `duration`: no bid,
    /// nothing claimed, an empty pool at `bid_pool`.
    pub open spec fn opened(
        seller: Address,
        bid_pool: Address,
        bump: u8,
        duration: i64,
        now: i64,
    ) -> AuctionView {
        AuctionView {
            state: State {
                seller,
                end_at: (now + duration) as i64,
                top_bid: 0,
                winner: None,
                bid_pool,
                claimed: false,
            },
            pool: BidPool { key: bid_pool, bump, lamports: 0 },
            receipts: Seq::empty(),
            latest: now,
        }
    }

    /// The records that a bid of `bidder`'s works on.
    pub open spec fn bid_accounts(self, bidder: Wallet, bump: u8) -> BidAuction {
        BidAuction {
            bid: slip_of(self.receipts, bidder.key),
            state: self.state,
            bid_pool: self.pool,
            bidder,
            bump,
        }
    }

    /// The records that a claim of `seller`'s works on.
    pub open spec fn claim_accounts(self, seller: Wallet) -> EndAuction {
        EndAuction { state: self.state, bid_pool: self.pool, seller }
    }

    /// The records that a refund to `bidder`, who holds a receipt, works on.
    pub open spec fn refund_accounts(self, bidder: Wallet) -> Refund {
        Refund {
            bid: self.receipts[place_of(self.receipts, bidder.key)].slip,
            state: self.state,
            bid_pool: self.pool,
            bidder,
        }
    }

    /// The auction after `offer` was made: with one more receipt where the bid
    /// is accepted, unchanged where it is refused.
    pub open spec fn after_bid(self, offer: Offer) -> AuctionView {
        let before = self.bid_accounts(offer.bidder, offer.bump);
        if before.refusal(offer.amount, offer.now) is Some {
            self
        } else {
            let after = before.outcome(offer.amount, offer.now);
            AuctionView {
                state: after.state,
                pool: after.bid_pool,
                receipts: self.receipts.push(
                    Receipt { bidder: offer.bidder.key, slip: after.bid->Some_0 },
                ),
                latest: offer.now,
            }
        }
    }

    /// The auction after the seller's claim at `now`, which `seller` made.
    pub open spec fn after_claim(self, seller: Wallet, now: i64) -> AuctionView {
        let before = self.claim_accounts(seller);
        if before.refusal(now) is Some {
            self
        } else {
            AuctionView {
                state: before.outcome().state,
                pool: before.outcome().bid_pool,
                latest: now,
                ..self
            }
        }
    }

    /// The auction after a refund at `now` to `bidder`, who holds a receipt.
    pub open spec fn after_refund(self, bidder: Wallet, now: i64) -> AuctionView {
        let before = self.refund_accounts(bidder);
        if before.refusal(now) is Some {
            self
        } else {
            AuctionView {
                state: self.state,
                pool: before.outcome().bid_pool,
                receipts: self.receipts.update(
                    place_of(self.receipts, bidder.key),
                    Receipt { bidder: bidder.key, slip: before.outcome().bid },
                ),
                latest: now,
            }
        }
    }

    /// The auction after `offers` were made one after another.
    pub open spec fn after_bids(self, offers: Seq<Offer>) -> AuctionView
        decreases offers.len(),
    {
        if offers.len() == 0 {
            self
        } else {
            self.after_bids(offers.drop_last()).after_bid(offers.last())
        }
    }
}

impl View for Auction {
    type V = AuctionView;

    closed spec fn view(&self) -> AuctionView {
        AuctionView {
            state: self.state,
            pool: self.pool,
            receipts: self.receipts@,
            latest: self.latest,
        }
    }
}

/// Two states under which every receipt is owed the same owe the same in all.
pub proof fn lemma_outstanding_agrees(receipts: Seq<Receipt>, s1: State, s2: State)
    requires
        forall|i: int|
            0 <= i < receipts.len() ==> owed(#[trigger] receipts[i], s1) == owed(receipts[i], s2),
    ensures
        outstanding(receipts, s1) == outstanding(receipts, s2),
    decreases receipts.len(),
{
    if receipts.len() > 0 {
        let front = receipts.drop_last();
        assert forall|i: int| 0 <= i < front.len() implies owed(#[trigger] front[i], s1) == owed(
            front[i],
            s2,
        ) by {
            assert(front[i] == receipts[i]);
        }
        lemma_outstanding_agrees(front, s1, s2);
    }
}

/// Replacing one receipt changes what is owed in all by what changes on it.
pub proof fn lemma_outstanding_update(
    receipts: Seq<Receipt>,
    state: State,
    i: int,
    receipt: Receipt,
)
    requires
        0 <= i < receipts.len(),
    ensures
        outstanding(receipts.update(i, receipt), state) + owed(receipts[i], state) == outstanding(
            receipts,
            state,
        ) + owed(receipt, state),
        owed(receipts[i], state) <= outstanding(receipts, state),
    decreases receipts.len(),
{
    let changed = receipts.update(i, receipt);
    if i == receipts.len() - 1 {
        assert(changed.drop_last() =~= receipts.drop_last());
    } else {
        assert(changed.drop_last() =~= receipts.drop_last().update(i, receipt));
        assert(receipts.drop_last()[i] == receipts[i]);
        lemma_outstanding_update(receipts.drop_last(), state, i, receipt);
    }
}

/// An accepted bid leaves the records fitting together, and so does a refused
/// one: the pool grows by exactly what the new receipt is owed.
pub proof fn lemma_bid_keeps_wf(a: AuctionView, offer: Offer)
    requires
        a.wf(),
        offer.now >= a.latest,
        a.bid_accounts(offer.bidder, offer.bump).funds_fit(),
    ensures
        a.after_bid(offer).wf(),
{
    let before = a.bid_accounts(offer.bidder, offer.bump);
    if before.refusal(offer.amount, offer.now) is None {
        let after = a.after_bid(offer);
        lemma_outstanding_agrees(a.receipts, a.state, after.state);
        assert(after.receipts.drop_last() =~= a.receipts);
    }
}

/// The seller's claim leaves the records fitting together, and the pool holds
/// the top bid whenever the claim comes as far as asking for it.
pub proof fn lemma_claim_keeps_wf(a: AuctionView, seller: Wallet, now: i64)
    requires
        a.wf(),
        now >= a.latest,
        a.claim_accounts(seller).funds_fit(),
    ensures
        a.after_claim(seller, now).wf(),
        a.claim_accounts(seller).refusal(now) != Some(AuctionErrors::InsufficientFunds),
{
    let after = a.after_claim(seller, now);
    if a.receipts.len() > 0 {
        let front = a.receipts.drop_last();
        assert(owed(a.receipts.last(), a.state) <= outstanding(a.receipts, a.state));
        if a.claim_accounts(seller).refusal(now) is None {
            assert forall|i: int| 0 <= i < front.len() implies owed(#[trigger] front[i], a.state)
                == owed(front[i], after.state) by {
                assert(front[i] == a.receipts[i]);
            }
            lemma_outstanding_agrees(front, a.state, after.state);
        }
    }
}

/// A refund leaves the records fitting together and the bidder's receipt in
/// its place, and the pool holds the bid whenever the refund comes as far as
/// asking for it.
pub proof fn lemma_refund_keeps_wf(a: AuctionView, bidder: Wallet, now: i64)
    requires
        a.wf(),
        now >= a.latest,
        holds_receipt(a.receipts, bidder.key),
        a.refund_accounts(bidder).funds_fit(),
    ensures
        a.after_refund(bidder, now).wf(),
        a.refund_accounts(bidder).refusal(now) != Some(AuctionErrors::InsufficientFunds),
        holds_receipt(a.after_refund(bidder, now).receipts, bidder.key),
        place_of(a.after_refund(bidder, now).receipts, bidder.key) == place_of(
            a.receipts,
            bidder.key,
        ),
{
    let i = place_of(a.receipts, bidder.key);
    let before = a.refund_accounts(bidder);
    let after = a.after_refund(bidder, now);
    lemma_outstanding_update(a.receipts, a.state, i, a.receipts[i]);
    if before.refusal(now) is None {
        lemma_outstanding_update(
            a.receipts,
            a.state,
            i,
            Receipt { bidder: bidder.key, slip: before.outcome().bid },
        );
    }
    assert(after.receipts[i].bidder == bidder.key);
}

impl Auction {
    /// Whether the records fit together. Every auction that `open` made and
    /// the operations below changed is so.
    pub open spec fn wf(&self) -> bool {
        self@.wf()
    }

    /// Opens an auction of `seller`'s at `now` that takes bids for `duration`,
    /// with an empty pool at `bid_pool`.
    pub fn open(seller: Address, bid_pool: Address, bump: u8, duration: i64, now: i64) -> (r:
        Result<Auction, AuctionErrors>)
        ensures
            match r {
                Ok(a) => i64::MIN <= now + duration <= i64::MAX && a.wf() && a@
                    == AuctionView::opened(seller, bid_pool, bump, duration, now),
                Err(e) => (now + duration > i64::MAX || now + duration < i64::MIN) && e
                    == AuctionErrors::TimeOverflow,
            },
    {
        let blank = State { seller, end_at: now, top_bid: 0, winner: None, bid_pool, claimed: false };
        let mut ctx = Initialize {
            state: blank,
            bid_pool: BidPool { key: bid_pool, bump, lamports: 0 },
            seller: Wallet { key: seller, lamports: 0 },
            bump,
        };
        match initialize_at(&mut ctx, duration, now) {
            Err(e) => Err(e),
            Ok(()) => {
                let a = Auction {
                    state: ctx.state,
                    pool: ctx.bid_pool,
                    receipts: Vec::new(),
                    latest: now,
                };
                proof {
                    assert(a@.receipts =~= Seq::empty());
                }
                Ok(a)
            },
        }
    }

    /// The auction's state.
    pub fn state(&self) -> (s: State)
        ensures
            s == self@.state,
    {
        self.state
    }

    /// The auction's bid pool.
    pub fn pool(&self) -> (p: BidPool)
        ensures
            p == self@.pool,
    {
        self.pool
    }

    /// The time of the latest operation that applied.
    pub fn latest(&self) -> (t: i64)
        ensures
            t == self@.latest,
    {
        self.latest
    }

    /// Where `who`'s receipt stands, if they hold one.
    fn find(&self, who: &Address) -> (r: Option<usize>)
        ensures
            match r {
                Some(i) => i < self@.receipts.len() && self@.receipts[i as int].bidder == *who,
                None => !holds_receipt(self@.receipts, *who),
            },
    {
        let mut i: usize = 0;
        while i < self.receipts.len()
            invariant
                i <= self.receipts.len(),
                forall|j: int| 0 <= j < i ==> (#[trigger] self.receipts@[j]).bidder != *who,
            decreases self.receipts.len() - i,
        {
            if self.receipts[i].bidder.same(who) {
                return Some(i);
            }
            i = i + 1;
        }
        None
    }

    /// The receipt slip of `who`, or `None` if they have not bid.
    pub fn slip(&self, who: &Address) -> (r: Option<BidSlip>)
        requires
            self.wf(),
        ensures
            r == slip_of(self@.receipts, *who),
    {
        match self.find(who) {
            Some(i) => Some(self.receipts[i].slip),
            None => None,
        }
    }

    /// Takes a bid of `amount` from `bidder` at `now`, or refuses it and
    /// changes nothing.
    pub fn bid(&mut self, bidder: &mut Wallet, amount: u64, bump: u8, now: i64) -> (r: Result<
        (),
        AuctionErrors,
    >)
        requires
            old(self).wf(),
            now >= old(self)@.latest,
            old(self)@.bid_accounts(*old(bidder), bump).funds_fit(),
        ensures
            final(self).wf(),
            old(self)@.bid_accounts(*old(bidder), bump).leads_to(
                amount,
                now,
                final(self)@.bid_accounts(*final(bidder), bump),
                r,
            ),
            final(self)@ == old(self)@.after_bid(
                Offer { bidder: *old(bidder), amount, bump, now },
            ),
            r is Err ==> *final(bidder) == *old(bidder),
    {
        let mut ctx = BidAuction {
            bid: self.slip(&bidder.key),
            state: self.state,
            bid_pool: self.pool,
            bidder: *bidder,
            bump,
        };
        let r = bid_at(&mut ctx, amount, now);
        if r.is_ok() {
            self.state = ctx.state;
            self.pool = ctx.bid_pool;
            self.receipts.push(Receipt { bidder: bidder.key, slip: ctx.bid.unwrap() });
            self.latest = now;
            *bidder = ctx.bidder;
        }
        proof {
            lemma_bid_keeps_wf(old(self)@, Offer { bidder: *old(bidder), amount, bump, now });
        }
        r
    }

    /// Hands the top bid to `seller` at `now`, or refuses and changes nothing.
    /// The pool never fails to pay.
    pub fn close(&mut self, seller: &mut Wallet, now: i64) -> (r: Result<(), AuctionErrors>)
        requires
            old(self).wf(),
            now >= old(self)@.latest,
            old(self)@.claim_accounts(*old(seller)).funds_fit(),
        ensures
            final(self).wf(),
            old(self)@.claim_accounts(*old(seller)).leads_to(
                now,
                final(self)@.claim_accounts(*final(seller)),
                r,
            ),
            final(self)@ == old(self)@.after_claim(*old(seller), now),
            r != Err::<(), AuctionErrors>(AuctionErrors::InsufficientFunds),
    {
        let mut ctx = EndAuction { state: self.state, bid_pool: self.pool, seller: *seller };
        proof {
            lemma_claim_keeps_wf(old(self)@, *old(seller), now);
        }
        let r = end_auction_at(&mut ctx, now);
        if r.is_ok() {
            self.state = ctx.state;
            self.pool = ctx.bid_pool;
            self.latest = now;
            *seller = ctx.seller;
        }
        r
    }

    /// Hands `bidder`, who holds a receipt, their bid back at `now`, or
    /// refuses and changes nothing. The pool never fails to pay.
    pub fn refund(&mut self, bidder: &mut Wallet, now: i64) -> (r: Result<(), AuctionErrors>)
        requires
            old(self).wf(),
            now >= old(self)@.latest,
            holds_receipt(old(self)@.receipts, old(bidder).key),
            old(self)@.refund_accounts(*old(bidder)).funds_fit(),
        ensures
            final(self).wf(),
            holds_receipt(final(self)@.receipts, old(bidder).key),
            old(self)@.refund_accounts(*old(bidder)).leads_to(
                now,
                final(self)@.refund_accounts(*final(bidder)),
                r,
            ),
            final(self)@ == old(self)@.after_refund(*old(bidder), now),
            r != Err::<(), AuctionErrors>(AuctionErrors::InsufficientFunds),
    {
        let found = self.find(&bidder.key);
        let i: usize = found.unwrap();
        let mut ctx = Refund {
            bid: self.receipts[i].slip,
            state: self.state,
            bid_pool: self.pool,
            bidder: *bidder,
        };
        proof {
            assert(place_of(old(self)@.receipts, bidder.key) == i);
            lemma_refund_keeps_wf(old(self)@, *old(bidder), now);
        }
        let r = refund_at(&mut ctx, now);
        if r.is_ok() {
            self.receipts[i] = Receipt { bidder: bidder.key, slip: ctx.bid };
            self.pool = ctx.bid_pool;
            self.latest = now;
            *bidder = ctx.bidder;
        }
        r
    }
}

} // verus!
