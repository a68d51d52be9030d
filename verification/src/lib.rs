//! A single-asset Dutch auction: a seller offers a quantity of one asset
//! against a second asset, and the unit price falls linearly from a starting
//! price to a floor price over a fixed window of time.
//!
//! The crate holds the auction record and its pricing, the registry of live
//! auctions, the global parameters and the operations on them. Every
//! operation runs on an explicit [`state::State`] value and yields the
//! effects (attributes and transfers) for the host to carry out.

pub mod auction;
pub mod coin;
pub mod context;
pub mod contract;
pub mod decimal;
pub mod error;
pub mod helpers;
pub mod msg;
pub mod response;
pub mod state;
pub mod text;
pub mod timestamp;

pub use crate::error::ContractError;
