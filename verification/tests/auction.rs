use english_auction::auction::Auction;
use english_auction::errors::AuctionErrors;
use english_auction::identity::Address;
use english_auction::records::{BidPool, BidSlip, State, Wallet};

fn addr(tag: u8) -> Address {
    Address::new([tag; 32])
}

fn wallet(tag: u8, lamports: u64) -> Wallet {
    Wallet { key: addr(tag), lamports }
}

const S: u8 = 1;
const A: u8 = 2;
const B: u8 = 3;
const C: u8 = 4;
const POOL: u8 = 9;

fn opened() -> Auction {
    Auction::open(addr(S), addr(POOL), 255, 100, 0).unwrap()
}

/// What the pool owes: every bid that neither went back nor was claimed.
fn owed(auction: &Auction, bidders: &[u8]) -> u64 {
    let state = auction.state();
    let mut sum = 0u64;
    for tag in bidders {
        if let Some(slip) = auction.slip(&addr(*tag)) {
            let withdrawn = state.claimed && state.winner == Some(addr(*tag));
            if !slip.funds_refunded && !withdrawn {
                sum += slip.amount;
            }
        }
    }
    sum
}

#[test]
fn open_makes_an_auction_without_bids() {
    let auction = Auction::open(addr(S), addr(POOL), 255, 100, 40).unwrap();
    assert_eq!(
        auction.state(),
        State {
            seller: addr(S),
            end_at: 140,
            top_bid: 0,
            winner: None,
            bid_pool: addr(POOL),
            claimed: false,
        }
    );
    assert_eq!(auction.pool(), BidPool { key: addr(POOL), bump: 255, lamports: 0 });
    assert_eq!(auction.latest(), 40);
    assert_eq!(auction.slip(&addr(A)), None);
}

#[test]
fn open_refuses_an_end_time_out_of_range() {
    assert_eq!(
        Auction::open(addr(S), addr(POOL), 255, 1, i64::MAX).err(),
        Some(AuctionErrors::TimeOverflow)
    );
    assert_eq!(
        Auction::open(addr(S), addr(POOL), 255, i64::MIN, -1).err(),
        Some(AuctionErrors::TimeOverflow)
    );
    assert!(Auction::open(addr(S), addr(POOL), 255, i64::MAX, 0).is_ok());
}

#[test]
fn tie_displaces_the_leader_then_claim_and_refund() {
    let mut auction = opened();
    assert_eq!(auction.state().end_at, 100);
    let mut s = wallet(S, 1000);
    let mut a = wallet(A, 50);
    let mut b = wallet(B, 50);

    assert_eq!(auction.bid(&mut a, 10, 254, 1), Ok(()));
    assert_eq!(auction.state().top_bid, 10);
    assert_eq!(auction.state().winner, Some(addr(A)));

    let before = (auction.state(), auction.pool(), b);
    assert_eq!(auction.bid(&mut b, 5, 253, 2), Err(AuctionErrors::LowBid));
    assert_eq!((auction.state(), auction.pool(), b), before);
    assert_eq!(auction.slip(&addr(B)), None);

    assert_eq!(auction.bid(&mut b, 10, 253, 3), Ok(()));
    assert_eq!(auction.state().top_bid, 10);
    assert_eq!(auction.state().winner, Some(addr(B)));
    assert_eq!(auction.pool().lamports, 20);

    assert_eq!(auction.close(&mut s, 101), Ok(()));
    assert_eq!(s.lamports, 1010);
    assert_eq!(auction.pool().lamports, 10);
    assert!(auction.state().claimed);

    assert_eq!(auction.refund(&mut a, 102), Ok(()));
    assert_eq!(a.lamports, 50);
    assert_eq!(auction.pool().lamports, 0);

    assert_eq!(auction.refund(&mut b, 103), Err(AuctionErrors::Unauthorized));
    assert_eq!(b.lamports, 40);

    assert_eq!(auction.close(&mut s, 104), Err(AuctionErrors::AlreadyClaimed));
    assert_eq!(s.lamports, 1010);
    assert_eq!(auction.pool().lamports, 0);
}

#[test]
fn bid_keeps_a_receipt_for_the_bidder() {
    let mut auction = opened();
    let mut a = wallet(A, 50);
    assert_eq!(auction.bid(&mut a, 12, 254, 7), Ok(()));
    assert_eq!(
        auction.slip(&addr(A)),
        Some(BidSlip { amount: 12, bid_at: 7, bump: 254, funds_refunded: false })
    );
    assert_eq!(auction.latest(), 7);
    assert_eq!(a.lamports, 38);
    assert_eq!(auction.pool(), BidPool { key: addr(POOL), bump: 255, lamports: 12 });
}

#[test]
fn bid_takes_one_bid_from_each_bidder() {
    let mut auction = opened();
    let mut a = wallet(A, 50);
    let mut b = wallet(B, 50);
    assert_eq!(auction.bid(&mut a, 10, 254, 1), Ok(()));
    assert_eq!(auction.bid(&mut b, 11, 254, 2), Ok(()));
    let before = (auction.state(), auction.pool(), a);
    assert_eq!(auction.bid(&mut a, 20, 254, 3), Err(AuctionErrors::DuplicateBidder));
    assert_eq!((auction.state(), auction.pool(), a), before);
    assert_eq!(
        auction.slip(&addr(A)),
        Some(BidSlip { amount: 10, bid_at: 1, bump: 254, funds_refunded: false })
    );
    assert_eq!(auction.latest(), 2);
}

#[test]
fn bid_refuses_a_bidder_who_cannot_pay() {
    let mut auction = opened();
    let mut a = wallet(A, 9);
    assert_eq!(auction.bid(&mut a, 10, 254, 1), Err(AuctionErrors::InsufficientFunds));
    assert_eq!(a.lamports, 9);
    assert_eq!(auction.pool().lamports, 0);
    assert_eq!(auction.state().winner, None);
    assert_eq!(auction.slip(&addr(A)), None);
}

#[test]
fn bid_is_refused_from_the_end_time_on() {
    let mut auction = opened();
    let mut a = wallet(A, 50);
    let mut b = wallet(B, 50);
    assert_eq!(auction.bid(&mut a, 10, 254, 99), Ok(()));
    assert_eq!(auction.bid(&mut b, 20, 254, 100), Err(AuctionErrors::AuctionClosed));
    assert_eq!(auction.bid(&mut b, 20, 254, 500), Err(AuctionErrors::AuctionClosed));
    assert_eq!(auction.bid(&mut b, 5, 254, 500), Err(AuctionErrors::LowBid));
    assert_eq!(auction.state().winner, Some(addr(A)));
    assert_eq!(b.lamports, 50);
}

#[test]
fn top_bid_never_falls_and_the_latest_accepted_bidder_leads() {
    let mut auction = opened();
    let offers: [(u8, u64, Option<AuctionErrors>); 6] = [
        (A, 3, None),
        (B, 2, Some(AuctionErrors::LowBid)),
        (B, 3, None),
        (C, 8, None),
        (A, 9, Some(AuctionErrors::DuplicateBidder)),
        (5, 7, Some(AuctionErrors::LowBid)),
    ];
    let mut top = 0u64;
    let mut leader = None;
    for (now, (tag, amount, refusal)) in offers.iter().enumerate() {
        let mut w = wallet(*tag, 100);
        let r = auction.bid(&mut w, *amount, 254, now as i64);
        assert_eq!(r.err(), *refusal);
        assert!(auction.state().top_bid >= top);
        if r.is_ok() {
            top = *amount;
            leader = Some(addr(*tag));
        }
        assert_eq!(auction.state().top_bid, top);
        assert_eq!(auction.state().winner, leader);
    }
    assert_eq!(auction.state().top_bid, 8);
    assert_eq!(auction.state().winner, Some(addr(C)));
}

#[test]
fn close_refuses_before_the_end_and_anyone_but_the_seller() {
    let mut auction = opened();
    let mut s = wallet(S, 0);
    let mut a = wallet(A, 50);
    assert_eq!(auction.bid(&mut a, 10, 254, 1), Ok(()));
    assert_eq!(auction.close(&mut s, 99), Err(AuctionErrors::AuctionNotFinished));
    assert_eq!(auction.close(&mut a, 99), Err(AuctionErrors::AuctionNotFinished));
    assert_eq!(auction.close(&mut a, 100), Err(AuctionErrors::Unauthorized));
    assert!(!auction.state().claimed);
    assert_eq!(auction.pool().lamports, 10);
    assert_eq!(auction.close(&mut s, 100), Ok(()));
    assert_eq!(s.lamports, 10);
    assert_eq!(auction.close(&mut s, 100), Err(AuctionErrors::AlreadyClaimed));
    assert_eq!(auction.close(&mut a, 100), Err(AuctionErrors::Unauthorized));
}

#[test]
fn close_of_an_auction_without_bids_pays_nothing() {
    let mut auction = opened();
    let mut s = wallet(S, 5);
    assert_eq!(auction.close(&mut s, 100), Ok(()));
    assert_eq!(s.lamports, 5);
    assert!(auction.state().claimed);
    assert_eq!(auction.state().winner, None);
    assert_eq!(auction.pool().lamports, 0);
}

#[test]
fn refund_goes_once_to_each_loser() {
    let mut auction = opened();
    let mut a = wallet(A, 50);
    let mut b = wallet(B, 50);
    let mut c = wallet(C, 50);
    assert_eq!(auction.bid(&mut a, 10, 254, 1), Ok(()));
    assert_eq!(auction.bid(&mut b, 20, 254, 2), Ok(()));
    assert_eq!(auction.bid(&mut c, 30, 254, 3), Ok(()));
    assert_eq!(auction.pool().lamports, 60);

    assert_eq!(auction.refund(&mut a, 99), Err(AuctionErrors::AuctionNotFinished));
    assert_eq!(auction.refund(&mut c, 99), Err(AuctionErrors::AuctionNotFinished));
    assert_eq!(auction.refund(&mut c, 100), Err(AuctionErrors::Unauthorized));

    assert_eq!(auction.refund(&mut b, 100), Ok(()));
    assert_eq!(b.lamports, 50);
    assert_eq!(auction.pool().lamports, 40);
    assert_eq!(
        auction.slip(&addr(B)),
        Some(BidSlip { amount: 20, bid_at: 2, bump: 254, funds_refunded: true })
    );
    assert_eq!(auction.refund(&mut b, 101), Err(AuctionErrors::AlreadyRefunded));
    assert_eq!(b.lamports, 50);
    assert_eq!(auction.pool().lamports, 40);

    assert_eq!(auction.refund(&mut a, 102), Ok(()));
    assert_eq!(a.lamports, 50);
    assert_eq!(auction.pool().lamports, 30);
    assert_eq!(auction.state().winner, Some(addr(C)));
    assert_eq!(auction.state().top_bid, 30);
}

#[test]
fn pool_holds_what_it_owes_at_every_point() {
    let bidders = [A, B, C];
    let mut auction = opened();
    let mut s = wallet(S, 0);
    let mut a = wallet(A, 50);
    let mut b = wallet(B, 50);
    let mut c = wallet(C, 50);
    assert_eq!(auction.pool().lamports, owed(&auction, &bidders));
    assert_eq!(auction.bid(&mut a, 10, 254, 1), Ok(()));
    assert_eq!(auction.pool().lamports, 10);
    assert_eq!(auction.pool().lamports, owed(&auction, &bidders));
    assert_eq!(auction.bid(&mut b, 20, 254, 2), Ok(()));
    assert_eq!(auction.pool().lamports, 30);
    assert_eq!(auction.pool().lamports, owed(&auction, &bidders));
    assert_eq!(auction.bid(&mut c, 19, 254, 3), Err(AuctionErrors::LowBid));
    assert_eq!(auction.pool().lamports, owed(&auction, &bidders));
    assert_eq!(auction.bid(&mut c, 45, 254, 4), Ok(()));
    assert_eq!(auction.pool().lamports, 75);
    assert_eq!(auction.pool().lamports, owed(&auction, &bidders));
    assert_eq!(auction.refund(&mut a, 100), Ok(()));
    assert_eq!(auction.pool().lamports, 65);
    assert_eq!(auction.pool().lamports, owed(&auction, &bidders));
    assert_eq!(auction.close(&mut s, 100), Ok(()));
    assert_eq!(auction.pool().lamports, 20);
    assert_eq!(auction.pool().lamports, owed(&auction, &bidders));
    assert_eq!(auction.refund(&mut b, 100), Ok(()));
    assert_eq!(auction.pool().lamports, 0);
    assert_eq!(auction.pool().lamports, owed(&auction, &bidders));
    assert_eq!(a.lamports + b.lamports + c.lamports + s.lamports, 150);
    assert_eq!(s.lamports, 45);
}
