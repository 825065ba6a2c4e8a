//! The four operations on an auction, each on the records that it touches.
//!
//! An operation either applies in full or is refused and changes nothing. The
//! functions whose names end in `_at` take the current time as an argument;
//! the others read it from the runtime first.

use vstd::prelude::*;
use crate::clock::current_time;
use crate::errors::AuctionErrors;
use crate::records::{transfer, BidPool, BidSlip, State, Wallet};

verus! {

/// What opening an auction works on.
#[derive(Clone, Copy, Debug, PartialEq, Eq)]
pub struct Initialize {
    /// The blank record that becomes the auction's state.
    pub state: State,
    /// The blank record that becomes the auction's bid pool.
    pub bid_pool: BidPool,
    /// Who opens the auction.
    pub seller: Wallet,
    /// The nonce that settled the bid pool's location.
    pub bump: u8,
}

/// What placing a bid works on.
#[derive(Clone, Copy, Debug, PartialEq, Eq)]
pub struct BidAuction {
    /// The place of this bidder's receipt: `None` while they have not bid.
    pub bid: Option<BidSlip>,
    pub state: State,
    pub bid_pool: BidPool,
    /// Who bids, and pays.
    pub bidder: Wallet,
    /// The nonce that settled the receipt's location.
    pub bump: u8,
}

/// What a refund works on.
#[derive(Clone, Copy, Debug, PartialEq, Eq)]
pub struct Refund {
    /// The receipt of `bidder`'s bid.
    pub bid: BidSlip,
    pub state: State,
    pub bid_pool: BidPool,
    /// Who asks for their bid back.
    pub bidder: Wallet,
}

/// What the seller's claim works on.
#[derive(Clone, Copy, Debug, PartialEq, Eq)]
pub struct EndAuction {
    pub state: State,
    pub bid_pool: BidPool,
    /// Who claims to be the seller.
    pub seller: Wallet,
}

impl Initialize {
    /// Why opening at `now` for `duration` is refused, if it is: the end time
    /// would not be a timestamp.
    pub open spec fn refusal(self, duration: i64, now: i64) -> Option<AuctionErrors> {
        if now + duration > i64::MAX || now + duration < i64::MIN {
            Some(AuctionErrors::TimeOverflow)
        } else {
            None
        }
    }

    /// The records after opening at `now` for `duration`: an unclaimed auction
    /// of the seller's with no bid, bound to its pool.
    pub open spec fn outcome(self, duration: i64, now: i64) -> Initialize {
        Initialize {
            state: State {
                seller: self.seller.key,
                end_at: (now + duration) as i64,
                top_bid: 0,
                winner: None,
                bid_pool: self.bid_pool.key,
                claimed: false,
            },
            bid_pool: BidPool { bump: self.bump, ..self.bid_pool },
            ..self
        }
    }
}

impl BidAuction {
    /// Whether the bidder's and the pool's funds together are an amount.
    pub open spec fn funds_fit(self) -> bool {
        self.bidder.lamports + self.bid_pool.lamports <= u64::MAX
    }

    /// Why a bid of `amount` at `now` is refused, if it is. The first of these
    /// that holds decides: the amount is below the top bid; the auction has
    /// ended; the bidder has bid before; the bidder cannot pay.
    pub open spec fn refusal(self, amount: u64, now: i64) -> Option<AuctionErrors> {
        if amount < self.state.top_bid {
            Some(AuctionErrors::LowBid)
        } else if !self.state.accepts_bids(now) {
            Some(AuctionErrors::AuctionClosed)
        } else if self.bid is Some {
            Some(AuctionErrors::DuplicateBidder)
        } else if self.bidder.lamports < amount {
            Some(AuctionErrors::InsufficientFunds)
        } else {
            None
        }
    }

    /// The records after a bid of `amount` at `now`: the amount has gone from
    /// the bidder to the pool, the bidder holds a receipt for it, and they lead.
    pub open spec fn outcome(self, amount: u64, now: i64) -> BidAuction {
        BidAuction {
            bid: Some(
                BidSlip { amount, bid_at: now, bump: self.bump, funds_refunded: false },
            ),
            state: State { top_bid: amount, winner: Some(self.bidder.key), ..self.state },
            bid_pool: BidPool {
                lamports: (self.bid_pool.lamports + amount) as u64,
                ..self.bid_pool
            },
            bidder: Wallet { lamports: (self.bidder.lamports - amount) as u64, ..self.bidder },
            ..self
        }
    }

    /// Whether `after` and `r` are what a bid of `amount` at `now` makes of
    /// `self`.
    pub open spec fn leads_to(
        self,
        amount: u64,
        now: i64,
        after: BidAuction,
        r: Result<(), AuctionErrors>,
    ) -> bool {
        match self.refusal(amount, now) {
            Some(e) => r == Err::<(), AuctionErrors>(e) && after == self,
            None => r is Ok && after == self.outcome(amount, now),
        }
    }
}

impl EndAuction {
    /// Whether the seller's and the pool's funds together are an amount.
    pub open spec fn funds_fit(self) -> bool {
        self.seller.lamports + self.bid_pool.lamports <= u64::MAX
    }

    /// Why a claim at `now` is refused, if it is. The first of these that
    /// holds decides: the auction has not ended; the caller is not the seller;
    /// the top bid was claimed before; the pool cannot pay it.
    pub open spec fn refusal(self, now: i64) -> Option<AuctionErrors> {
        if self.state.accepts_bids(now) {
            Some(AuctionErrors::AuctionNotFinished)
        } else if self.state.seller != self.seller.key {
            Some(AuctionErrors::Unauthorized)
        } else if self.state.claimed {
            Some(AuctionErrors::AlreadyClaimed)
        } else if self.bid_pool.lamports < self.state.top_bid {
            Some(AuctionErrors::InsufficientFunds)
        } else {
            None
        }
    }

    /// The records after the claim: the top bid has gone from the pool to the
    /// seller, and the auction is marked as claimed.
    pub open spec fn outcome(self) -> EndAuction {
        EndAuction {
            state: State { claimed: true, ..self.state },
            bid_pool: BidPool {
                lamports: (self.bid_pool.lamports - self.state.top_bid) as u64,
                ..self.bid_pool
            },
            seller: Wallet {
                lamports: (self.seller.lamports + self.state.top_bid) as u64,
                ..self.seller
            },
        }
    }

    /// Whether `after` and `r` are what a claim at `now` makes of `self`.
    pub open spec fn leads_to(
        self,
        now: i64,
        after: EndAuction,
        r: Result<(), AuctionErrors>,
    ) -> bool {
        match self.refusal(now) {
            Some(e) => r == Err::<(), AuctionErrors>(e) && after == self,
            None => r is Ok && after == self.outcome(),
        }
    }
}

impl Refund {
    /// Whether the bidder's and the pool's funds together are an amount.
    pub open spec fn funds_fit(self) -> bool {
        self.bidder.lamports + self.bid_pool.lamports <= u64::MAX
    }

    /// Why a refund at `now` is refused, if it is. The first of these that
    /// holds decides: the auction has not ended; the bidder is the winner; the
    /// bid went back before; the pool cannot pay it.
    pub open spec fn refusal(self, now: i64) -> Option<AuctionErrors> {
        if self.state.accepts_bids(now) {
            Some(AuctionErrors::AuctionNotFinished)
        } else if self.state.led_by(self.bidder.key) {
            Some(AuctionErrors::Unauthorized)
        } else if self.bid.funds_refunded {
            Some(AuctionErrors::AlreadyRefunded)
        } else if self.bid_pool.lamports < self.bid.amount {
            Some(AuctionErrors::InsufficientFunds)
        } else {
            None
        }
    }

    /// The records after the refund: the bid has gone from the pool back to
    /// the bidder, and the receipt says so.
    pub open spec fn outcome(self) -> Refund {
        Refund {
            bid: BidSlip { funds_refunded: true, ..self.bid },
            state: self.state,
            bid_pool: BidPool {
                lamports: (self.bid_pool.lamports - self.bid.amount) as u64,
                ..self.bid_pool
            },
            bidder: Wallet {
                lamports: (self.bidder.lamports + self.bid.amount) as u64,
                ..self.bidder
            },
        }
    }

    /// Whether `after` and `r` are what a refund at `now` makes of `self`.
    pub open spec fn leads_to(self, now: i64, after: Refund, r: Result<(), AuctionErrors>) -> bool {
        match self.refusal(now) {
            Some(e) => r == Err::<(), AuctionErrors>(e) && after == self,
            None => r is Ok && after == self.outcome(),
        }
    }
}

/// Opens an auction at `now` that takes bids for `duration`.
pub fn initialize_at(ctx: &mut Initialize, duration: i64, now: i64) -> (r: Result<
    (),
    AuctionErrors,
>)
    ensures
        match old(ctx).refusal(duration, now) {
            Some(e) => r == Err::<(), AuctionErrors>(e) && *final(ctx) == *old(ctx),
            None => r is Ok && *final(ctx) == old(ctx).outcome(duration, now),
        },
{
    match now.checked_add(duration) {
        None => Err(AuctionErrors::TimeOverflow),
        Some(end_at) => {
            ctx.state = State {
                seller: ctx.seller.key,
                end_at,
                top_bid: 0,
                winner: None,
                bid_pool: ctx.bid_pool.key,
                claimed: false,
            };
            ctx.bid_pool.bump = ctx.bump;
            Ok(())
        },
    }
}

/// Places a bid of `bid_amount` at `now`.
pub fn bid_at(ctx: &mut BidAuction, bid_amount: u64, now: i64) -> (r: Result<(), AuctionErrors>)
    requires
        old(ctx).funds_fit(),
    ensures
        old(ctx).leads_to(bid_amount, now, *final(ctx), r),
        bid_amount < old(ctx).state.top_bid ==> r == Err::<(), AuctionErrors>(
            AuctionErrors::LowBid,
        ) && *final(ctx) == *old(ctx),
        bid_amount >= old(ctx).state.top_bid && now >= old(ctx).state.end_at ==> r == Err::<
            (),
            AuctionErrors,
        >(AuctionErrors::AuctionClosed),
        r is Ok ==> final(ctx).state.top_bid >= old(ctx).state.top_bid,
        r is Ok ==> final(ctx).state.led_by(old(ctx).bidder.key),
{
    if bid_amount < ctx.state.top_bid {
        return Err(AuctionErrors::LowBid);
    }
    if now >= ctx.state.end_at {
        return Err(AuctionErrors::AuctionClosed);
    }
    if ctx.bid.is_some() {
        return Err(AuctionErrors::DuplicateBidder);
    }
    match transfer(&mut ctx.bidder.lamports, &mut ctx.bid_pool.lamports, bid_amount) {
        Err(e) => Err(e),
        Ok(()) => {
            ctx.bid = Some(
                BidSlip { amount: bid_amount, bid_at: now, bump: ctx.bump, funds_refunded: false },
            );
            ctx.state.top_bid = bid_amount;
            ctx.state.winner = Some(ctx.bidder.key);
            Ok(())
        },
    }
}

/// Hands the top bid to the seller, once, after the auction has ended.
pub fn end_auction_at(ctx: &mut EndAuction, now: i64) -> (r: Result<(), AuctionErrors>)
    requires
        old(ctx).funds_fit(),
    ensures
        old(ctx).leads_to(now, *final(ctx), r),
{
    if now < ctx.state.end_at {
        return Err(AuctionErrors::AuctionNotFinished);
    }
    if !ctx.state.seller.same(&ctx.seller.key) {
        return Err(AuctionErrors::Unauthorized);
    }
    if ctx.state.claimed {
        return Err(AuctionErrors::AlreadyClaimed);
    }
    let top_bid: u64 = ctx.state.top_bid;
    match transfer(&mut ctx.bid_pool.lamports, &mut ctx.seller.lamports, top_bid) {
        Err(e) => Err(e),
        Ok(()) => {
            ctx.state.claimed = true;
            Ok(())
        },
    }
}

/// Hands a losing bidder their bid back, once, after the auction has ended.
pub fn refund_at(ctx: &mut Refund, now: i64) -> (r: Result<(), AuctionErrors>)
    requires
        old(ctx).funds_fit(),
    ensures
        old(ctx).leads_to(now, *final(ctx), r),
{
    if now < ctx.state.end_at {
        return Err(AuctionErrors::AuctionNotFinished);
    }
    if ctx.state.is_winner(&ctx.bidder.key) {
        return Err(AuctionErrors::Unauthorized);
    }
    if ctx.bid.funds_refunded {
        return Err(AuctionErrors::AlreadyRefunded);
    }
    let amount: u64 = ctx.bid.amount;
    match transfer(&mut ctx.bid_pool.lamports, &mut ctx.bidder.lamports, amount) {
        Err(e) => Err(e),
        Ok(()) => {
            ctx.bid.funds_refunded = true;
            Ok(())
        },
    }
}

/// Opens an auction now that takes bids for `end_at` from now on.
///
/// The time is the runtime's. Where the runtime gives none, nothing changes.
pub fn initialize(ctx: &mut Initialize, end_at: i64) -> (r: Result<(), AuctionErrors>)
    ensures
        r == Err::<(), AuctionErrors>(AuctionErrors::ClockUnavailable) ==> *final(ctx) == *old(ctx),
        r != Err::<(), AuctionErrors>(AuctionErrors::ClockUnavailable) ==> exists|now: i64|
            match #[trigger] old(ctx).refusal(end_at, now) {
                Some(e) => r == Err::<(), AuctionErrors>(e) && *final(ctx) == *old(ctx),
                None => r is Ok && *final(ctx) == old(ctx).outcome(end_at, now),
            },
        r is Err ==> *final(ctx) == *old(ctx),
{
    match current_time() {
        Err(e) => Err(e),
        Ok(now) => initialize_at(ctx, end_at, now),
    }
}

/// Places a bid of `bid_amount` now.
///
/// A bid below the top bid is refused as too low before the time is asked
/// for, so it is refused whether or not the runtime has a time to give. For
/// any other bid the time is the runtime's, and where the runtime gives none,
/// nothing changes.
pub fn bid(ctx: &mut BidAuction, bid_amount: u64) -> (r: Result<(), AuctionErrors>)
    requires
        old(ctx).funds_fit(),
    ensures
        bid_amount < old(ctx).state.top_bid <==> r == Err::<(), AuctionErrors>(
            AuctionErrors::LowBid,
        ),
        r == Err::<(), AuctionErrors>(AuctionErrors::ClockUnavailable) ==> *final(ctx) == *old(ctx),
        r != Err::<(), AuctionErrors>(AuctionErrors::ClockUnavailable) ==> exists|now: i64|
            old(ctx).leads_to(bid_amount, now, *final(ctx), r),
        r is Err ==> *final(ctx) == *old(ctx),
{
    if bid_amount < ctx.state.top_bid {
        assert(old(ctx).leads_to(
            bid_amount,
            0,
            *ctx,
            Err::<(), AuctionErrors>(AuctionErrors::LowBid),
        ));
        return Err(AuctionErrors::LowBid);
    }
    match current_time() {
        Err(e) => Err(e),
        Ok(now) => bid_at(ctx, bid_amount, now),
    }
}

/// Hands the top bid to the seller, once, if the auction has ended by now.
///
/// The time is the runtime's. Where the runtime gives none, nothing changes.
pub fn end_auction(ctx: &mut EndAuction) -> (r: Result<(), AuctionErrors>)
    requires
        old(ctx).funds_fit(),
    ensures
        r == Err::<(), AuctionErrors>(AuctionErrors::ClockUnavailable) ==> *final(ctx) == *old(ctx),
        r != Err::<(), AuctionErrors>(AuctionErrors::ClockUnavailable) ==> exists|now: i64|
            old(ctx).leads_to(now, *final(ctx), r),
        r is Err ==> *final(ctx) == *old(ctx),
        old(ctx).state.claimed || old(ctx).state.seller != old(ctx).seller.key ==> r is Err,
{
    match current_time() {
        Err(e) => Err(e),
        Ok(now) => end_auction_at(ctx, now),
    }
}

/// Hands a losing bidder their bid back, once, if the auction has ended by now.
///
/// The time is the runtime's. Where the runtime gives none, nothing changes.
pub fn refund(ctx: &mut Refund) -> (r: Result<(), AuctionErrors>)
    requires
        old(ctx).funds_fit(),
    ensures
        r == Err::<(), AuctionErrors>(AuctionErrors::ClockUnavailable) ==> *final(ctx) == *old(ctx),
        r != Err::<(), AuctionErrors>(AuctionErrors::ClockUnavailable) ==> exists|now: i64|
            old(ctx).leads_to(now, *final(ctx), r),
        r is Err ==> *final(ctx) == *old(ctx),
        old(ctx).bid.funds_refunded || old(ctx).state.led_by(old(ctx).bidder.key) ==> r is Err,
{
    match current_time() {
        Err(e) => Err(e),
        Ok(now) => refund_at(ctx, now),
    }
}

} // verus!
