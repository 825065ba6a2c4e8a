//! The records that an auction keeps, and the balances that it moves.

use vstd::prelude::*;
use crate::identity::Address;
use crate::errors::AuctionErrors;

verus! {

/// The central record of one auction.
#[derive(Clone, Copy, Debug, PartialEq, Eq)]
pub struct State {
    /// Who opened the auction and collects the top bid. Never changes.
    pub seller: Address,
    /// The time from which no bid is taken, and claims and refunds are.
    pub end_at: i64,
    /// The highest amount accepted so far, or the latest of several equal ones.
    pub top_bid: u64,
    /// The bidder who set `top_bid`; `None` until the first bid.
    pub winner: Option<Address>,
    /// Where the bid pool of this auction lives.
    pub bid_pool: Address,
    /// Whether the seller has collected the top bid.
    pub claimed: bool,
}

/// The custodian of all funds bid in one auction.
#[derive(Clone, Copy, Debug, PartialEq, Eq)]
pub struct BidPool {
    /// Where the pool lives.
    pub key: Address,
    /// The nonce that settled the pool's location.
    pub bump: u8,
    /// The funds held.
    pub lamports: u64,
}

/// The receipt of one bidder's bid.
#[derive(Clone, Copy, Debug, PartialEq, Eq)]
pub struct BidSlip {
    /// The amount that the bidder put into the pool.
    pub amount: u64,
    /// When the bid was taken.
    pub bid_at: i64,
    /// The nonce that settled the receipt's location.
    pub bump: u8,
    /// Whether the amount went back to the bidder.
    pub funds_refunded: bool,
}

/// A party's own account: who they are and what they hold.
#[derive(Clone, Copy, Debug, PartialEq, Eq)]
pub struct Wallet {
    pub key: Address,
    pub lamports: u64,
}

impl State {
    /// Whether bids are still taken at `now`.
    pub open spec fn accepts_bids(self, now: i64) -> bool {
        now < self.end_at
    }

    /// Whether `who` set the top bid.
    pub open spec fn led_by(self, who: Address) -> bool {
        self.winner == Some(who)
    }

    /// Whether `who` is the current winner.
    pub fn is_winner(&self, who: &Address) -> (r: bool)
        ensures
            r == self.led_by(*who),
    {
        match &self.winner {
            Some(w) => w.same(who),
            None => false,
        }
    }
}

/// What moving `amount` from a balance of `from` to a balance of `to` leaves in
/// the two, provided that `from` covers it.
pub open spec fn moved(from: u64, to: u64, amount: u64) -> (u64, u64) {
    ((from - amount) as u64, (to + amount) as u64)
}

/// Moves `amount` from one balance to another, or moves nothing at all: when
/// `from` holds less than `amount`, both balances stay as they were.
pub fn transfer(from: &mut u64, to: &mut u64, amount: u64) -> (r: Result<(), AuctionErrors>)
    requires
        *old(from) + *old(to) <= u64::MAX,
    ensures
        *old(from) < amount ==> r == Err::<(), AuctionErrors>(AuctionErrors::InsufficientFunds)
            && *final(from) == *old(from) && *final(to) == *old(to),
        *old(from) >= amount ==> r is Ok && (*final(from), *final(to)) == moved(
            *old(from),
            *old(to),
            amount,
        ),
        *final(from) + *final(to) == *old(from) + *old(to),
{
    if *from < amount {
        return Err(AuctionErrors::InsufficientFunds);
    }
    *from = *from - amount;
    *to = *to + amount;
    Ok(())
}

} // verus!
