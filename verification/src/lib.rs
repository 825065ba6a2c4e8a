//! A single-item ascending auction whose bids are held in escrow.
//!
//! Bidders pay their bids into a pool. After the end time the seller collects
//! the top bid from the pool, and every other bidder takes their own bid back.

pub mod auction;
pub mod clock;
pub mod errors;
pub mod identity;
pub mod instructions;
pub mod laws;
pub mod records;
