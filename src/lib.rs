//! A single-item auction with escrow: one seller lists one poem, bidders raise
//! the price, displaced bids are refunded, and after the deadline the best bid
//! is paid to the seller.
//!
//! The host (clock, ledger, event log) stays outside: every operation takes the
//! caller, the block number and the outcome of a transfer as plain values, and
//! hands back the transfer to make and the events to record.
pub mod account;
pub mod amount;
pub mod auction;
pub mod hashing;
pub mod laws;

pub use account::AccountId;
pub use amount::Amount;
pub use auction::{
    AuctionCreated, AuctionEnded, BidPlaced, BidRefunded, BlockNumber, Error, PoetChainX, Transfer,
};
