//! What holds of every auction, whatever is asked of it and in whatever order.

use vstd::prelude::*;
use crate::auction::{
    holds_receipt, lemma_bid_keeps_wf, lemma_claim_keeps_wf, lemma_refund_keeps_wf, outstanding,
    AuctionView, Offer,
};
use crate::errors::AuctionErrors;
use crate::instructions::{BidAuction, EndAuction, Refund};
use crate::records::Wallet;

verus! {

/// One operation on an open auction, as it is asked for.
pub enum Step {
    /// A bid.
    Bid(Offer),
    /// The claim of the top bid by `seller`, at `now`.
    Claim { seller: Wallet, now: i64 },
    /// The refund to `bidder`, at `now`.
    Refund { bidder: Wallet, now: i64 },
}

impl AuctionView {
    /// Whether `step` may be asked of this auction: time has not gone back,
    /// the funds of the two sides of the transfer together are an amount, and
    /// whoever asks for a refund holds a receipt.
    pub open spec fn admits(self, step: Step) -> bool {
        match step {
            Step::Bid(offer) => offer.now >= self.latest && self.bid_accounts(
                offer.bidder,
                offer.bump,
            ).funds_fit(),
            Step::Claim { seller, now } => now >= self.latest && self.claim_accounts(
                seller,
            ).funds_fit(),
            Step::Refund { bidder, now } => now >= self.latest && holds_receipt(
                self.receipts,
                bidder.key,
            ) && self.refund_accounts(bidder).funds_fit(),
        }
    }

    /// The auction after `step`, applied or refused.
    pub open spec fn after(self, step: Step) -> AuctionView {
        match step {
            Step::Bid(offer) => self.after_bid(offer),
            Step::Claim { seller, now } => self.after_claim(seller, now),
            Step::Refund { bidder, now } => self.after_refund(bidder, now),
        }
    }

    /// The auction after `steps`, one after another.
    pub open spec fn after_all(self, steps: Seq<Step>) -> AuctionView
        decreases steps.len(),
    {
        if steps.len() == 0 {
            self
        } else {
            self.after_all(steps.drop_last()).after(steps.last())
        }
    }

    /// Whether each of `steps` may be asked of the auction that the steps
    /// before it have made.
    pub open spec fn admits_all(self, steps: Seq<Step>) -> bool
        decreases steps.len(),
    {
        steps.len() > 0 ==> self.admits_all(steps.drop_last()) && self.after_all(
            steps.drop_last(),
        ).admits(steps.last())
    }

    /// The latest of `offers` that was accepted when they were made one after
    /// another, or `None` where all were refused.
    pub open spec fn latest_accepted(self, offers: Seq<Offer>) -> Option<Offer>
        decreases offers.len(),
    {
        if offers.len() == 0 {
            None
        } else {
            let o = offers.last();
            let before = self.after_bids(offers.drop_last()).bid_accounts(o.bidder, o.bump);
            if before.refusal(o.amount, o.now) is None {
                Some(o)
            } else {
                self.latest_accepted(offers.drop_last())
            }
        }
    }
}

/// Over any run of bids the top bid never falls: after the first `k` of them
/// it is at least what it was after the first `j`, for `j <= k`.
pub proof fn lemma_top_bid_never_falls(a: AuctionView, offers: Seq<Offer>, j: int, k: int)
    requires
        0 <= j <= k <= offers.len(),
    ensures
        a.after_bids(offers.take(j)).state.top_bid <= a.after_bids(offers.take(k)).state.top_bid,
    decreases k,
{
    if j < k {
        assert(offers.take(k).drop_last() =~= offers.take(k - 1));
        lemma_top_bid_never_falls(a, offers, j, k - 1);
    }
}

/// After any run of bids the winner is the bidder of the latest accepted one,
/// and the top bid is its amount. Where none was accepted nothing has changed.
pub proof fn lemma_latest_accepted_bidder_leads(a: AuctionView, offers: Seq<Offer>)
    ensures
        match a.latest_accepted(offers) {
            Some(o) => a.after_bids(offers).state.led_by(o.bidder.key) && a.after_bids(
                offers,
            ).state.top_bid == o.amount,
            None => a.after_bids(offers) == a,
        },
    decreases offers.len(),
{
    if offers.len() > 0 {
        lemma_latest_accepted_bidder_leads(a, offers.drop_last());
    }
}

/// A bid below the top bid is refused as too low, whenever it comes and
/// whoever makes it.
pub proof fn lemma_low_bid_is_refused(ctx: BidAuction, amount: u64, now: i64)
    requires
        amount < ctx.state.top_bid,
    ensures
        ctx.refusal(amount, now) == Some(AuctionErrors::LowBid),
{
}

/// A bid at or after the end time that is not below the top bid is refused
/// because the auction is closed.
pub proof fn lemma_late_bid_is_refused(ctx: BidAuction, amount: u64, now: i64)
    requires
        now >= ctx.state.end_at,
        amount >= ctx.state.top_bid,
    ensures
        ctx.refusal(amount, now) == Some(AuctionErrors::AuctionClosed),
{
}

/// A claim before the end time is refused as too early; one at or after it by
/// anyone but the seller is refused as unauthorized.
pub proof fn lemma_claim_refusals(ctx: EndAuction, now: i64)
    ensures
        now < ctx.state.end_at ==> ctx.refusal(now) == Some(AuctionErrors::AuctionNotFinished),
        now >= ctx.state.end_at && ctx.seller.key != ctx.state.seller ==> ctx.refusal(now) == Some(
            AuctionErrors::Unauthorized,
        ),
{
}

/// The top bid is claimed once: after a claim that applied at `now`, a claim
/// of the seller's at `later` is refused as already made.
pub proof fn lemma_second_claim_is_refused(
    a: AuctionView,
    seller: Wallet,
    now: i64,
    again: Wallet,
    later: i64,
)
    requires
        a.claim_accounts(seller).refusal(now) is None,
        again.key == seller.key,
        later >= now,
    ensures
        a.after_claim(seller, now).claim_accounts(again).refusal(later) == Some(
            AuctionErrors::AlreadyClaimed,
        ),
{
}

/// A refund before the end time is refused as too early; one at or after it
/// to the winner is refused as unauthorized.
pub proof fn lemma_refund_refusals(ctx: Refund, now: i64)
    ensures
        now < ctx.state.end_at ==> ctx.refusal(now) == Some(AuctionErrors::AuctionNotFinished),
        now >= ctx.state.end_at && ctx.state.led_by(ctx.bidder.key) ==> ctx.refusal(now) == Some(
            AuctionErrors::Unauthorized,
        ),
{
}

/// A bid goes back once: after a refund that applied at `now`, a refund to the
/// same bidder at `later` is refused as already made.
pub proof fn lemma_second_refund_is_refused(
    a: AuctionView,
    bidder: Wallet,
    now: i64,
    again: Wallet,
    later: i64,
)
    requires
        a.wf(),
        a.admits(Step::Refund { bidder, now }),
        a.refund_accounts(bidder).refusal(now) is None,
        again.key == bidder.key,
        later >= now,
    ensures
        a.after_refund(bidder, now).refund_accounts(again).refusal(later) == Some(
            AuctionErrors::AlreadyRefunded,
        ),
{
    lemma_refund_keeps_wf(a, bidder, now);
}

/// The pool of an auction whose records fit together holds at least what it
/// still owes: the bids that neither went back to their bidders nor, as the
/// top bid, on to the seller.
pub proof fn lemma_pool_covers_outstanding(a: AuctionView)
    requires
        a.wf(),
    ensures
        a.pool.lamports >= outstanding(a.receipts, a.state),
{
}

/// Whatever is asked of an auction, in whatever order, its records go on
/// fitting together, so that its pool holds what it owes at every point.
pub proof fn lemma_pool_covers_outstanding_always(a: AuctionView, steps: Seq<Step>)
    requires
        a.wf(),
        a.admits_all(steps),
    ensures
        a.after_all(steps).wf(),
        a.after_all(steps).pool.lamports >= outstanding(
            a.after_all(steps).receipts,
            a.after_all(steps).state,
        ),
    decreases steps.len(),
{
    if steps.len() > 0 {
        lemma_pool_covers_outstanding_always(a, steps.drop_last());
        let before = a.after_all(steps.drop_last());
        match steps.last() {
            Step::Bid(offer) => lemma_bid_keeps_wf(before, offer),
            Step::Claim { seller, now } => lemma_claim_keeps_wf(before, seller, now),
            Step::Refund { bidder, now } => lemma_refund_keeps_wf(before, bidder, now),
        }
    }
}

} // verus!
