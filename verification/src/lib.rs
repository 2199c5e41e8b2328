//! A single-item sealed-bid auction: bidders commit to hashed bids with an
//! escrowed deposit, later reveal bid and nonce, and the highest revealed bid
//! wins once the reserve price is met. All refunds are pull-based through a
//! per-address refund ledger.

pub mod auction;
pub mod hashing;
pub mod laws;

pub use auction::SealedBidAuction;
pub use auction::SealedBidError;
