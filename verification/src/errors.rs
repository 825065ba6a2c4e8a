//! The reasons for which an operation on an auction is refused.

use vstd::prelude::*;

verus! {

/// Why an operation was refused. A refused operation changes nothing.
#[derive(Clone, Copy, Debug, PartialEq, Eq, Structural)]
pub enum AuctionErrors {
    /// The seller claimed, or a bidder asked for a refund, before the end time.
    AuctionNotFinished,
    /// The amount bid is strictly below the top bid.
    LowBid,
    /// The paying side of a transfer holds less than the amount to move.
    InsufficientFunds,
    /// A bid arrived at or after the end time.
    AuctionClosed,
    /// The seller has already collected the top bid.
    AlreadyClaimed,
    /// The caller is not the seller (on a claim), or is the winner (on a refund).
    Unauthorized,
    /// The bidder's funds went back to them before.
    AlreadyRefunded,
    /// The bidder already holds a bid record for this auction.
    DuplicateBidder,
    /// The end time, opening time plus duration, is outside the timestamp range.
    TimeOverflow,
    /// The runtime gave no current time.
    ClockUnavailable,
}

impl AuctionErrors {
    /// The short name under which the error is reported.
    pub fn name(&self) -> (s: &'static str)
        ensures
            s@ == Self::name_of(*self),
    {
        match self {
            AuctionErrors::AuctionNotFinished => "AuctionNotFinished",
            AuctionErrors::LowBid => "LowBid",
            AuctionErrors::InsufficientFunds => "InsufficientFunds",
            AuctionErrors::AuctionClosed => "AuctionClosed",
            AuctionErrors::AlreadyClaimed => "AlreadyClaimed",
            AuctionErrors::Unauthorized => "Unauthorized",
            AuctionErrors::AlreadyRefunded => "AlreadyRefunded",
            AuctionErrors::DuplicateBidder => "DuplicateBidder",
            AuctionErrors::TimeOverflow => "TimeOverflow",
            AuctionErrors::ClockUnavailable => "ClockUnavailable",
        }
    }

    /// The characters of an error's name.
    pub open spec fn name_of(e: AuctionErrors) -> Seq<char> {
        match e {
            AuctionErrors::AuctionNotFinished => "AuctionNotFinished"@,
            AuctionErrors::LowBid => "LowBid"@,
            AuctionErrors::InsufficientFunds => "InsufficientFunds"@,
            AuctionErrors::AuctionClosed => "AuctionClosed"@,
            AuctionErrors::AlreadyClaimed => "AlreadyClaimed"@,
            AuctionErrors::Unauthorized => "Unauthorized"@,
            AuctionErrors::AlreadyRefunded => "AlreadyRefunded"@,
            AuctionErrors::DuplicateBidder => "DuplicateBidder"@,
            AuctionErrors::TimeOverflow => "TimeOverflow"@,
            AuctionErrors::ClockUnavailable => "ClockUnavailable"@,
        }
    }
}

} // verus!
