//! The messages that the operations are asked with.

use vstd::prelude::*;

use crate::auction::Auction;
use crate::coin::Coin;
use crate::decimal::Decimal;
use crate::state::Params;
use crate::timestamp::Timestamp;

verus! {

/// The message that sets the auction house up.
#[derive(Debug, PartialEq, Eq)]
pub struct InstantiateMsg {
    pub auction_creation_fee: Coin,
    pub admin: String,
    pub min_seconds_until_auction_start: u64,
    pub max_auction_duration: u64,
    pub accepted_denoms: Vec<String>,
}

/// The operations that change the state.
#[derive(Debug, PartialEq, Eq)]
pub enum ExecuteMsg {
    /// Opens an auction; the creation fee and the offered asset are attached.
    CreateAuction {
        offered_asset: Coin,
        in_denom: String,
        starting_price: Decimal,
        end_price: Decimal,
        start_time: Timestamp,
        end_time: Timestamp,
    },
    /// Buys from an auction with the attached payment, at the price of the moment.
    Bid { auction_id: u8 },
    /// Changes the global parameters; a field that is absent keeps its value.
    ChangeParams {
        auction_creation_fee: Option<Coin>,
        min_seconds_until_auction_start: Option<u64>,
        max_auction_duration: Option<u64>,
        accepted_denoms: Option<Vec<String>>,
        admin: Option<String>,
    },
    /// Withdraws an auction that has not started yet.
    CancelAuction { auction_id: u8 },
}

/// The questions that can be asked of the state.
#[derive(Debug, PartialEq, Eq)]
pub enum QueryMsg {
    /// One page of the registered auctions, by ascending identifier.
    Auctions { start_after: Option<u8>, limit: Option<u8> },
    /// The auction registered under an identifier.
    Auction { auction_id: u8 },
    /// The global parameters.
    Params {  },
}

/// The answer to a [`QueryMsg`], one variant for each question.
#[derive(Debug, PartialEq, Eq)]
pub enum QueryResponse {
    Auctions(Vec<(u8, Auction)>),
    Auction(Auction),
    Params(Params),
}

} // verus!
