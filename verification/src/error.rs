//! The failures of the operations.

use vstd::prelude::*;

use crate::timestamp::Timestamp;

verus! {

/// The arithmetic operation that left the range of its type.
#[derive(Clone, Copy, Debug, PartialEq, Eq, Structural)]
pub enum OverflowOperation {
    Add,
    Mul,
}

/// An arithmetic result that does not fit its type.
#[derive(Clone, Copy, Debug, PartialEq, Eq, Structural)]
pub struct OverflowError {
    pub operation: OverflowOperation,
}

/// Why the funds attached to a bid are not a payment in the asked denomination.
/// The variants are those of `cw_utils::PaymentError`.
#[derive(Debug, PartialEq, Eq)]
pub enum PaymentError {
    /// The one coin attached is of another denomination than the one asked for.
    MissingDenom(String),
    /// A coin of a denomination that is not accepted was attached.
    ExtraDenom(String),
    /// More than one coin was attached.
    MultipleDenoms {},
    /// Nothing was attached, or a coin of amount zero.
    NoFunds {},
    /// Funds were attached to a message that takes none.
    NonPayable {},
}

/// Why the funds attached to a message are not the funds it has to carry.
#[derive(Debug, PartialEq, Eq)]
pub enum CustomPaymentError {
    /// The attached coins are not, coin for coin, the expected ones.
    FundsMismatch {},
}

/// Every way in which an operation of this crate fails.
#[derive(Debug, PartialEq, Eq)]
pub enum ContractError {
    Payment(PaymentError),
    CustomPayment(CustomPaymentError),
    Overflow(OverflowError),
    /// The sender is not authorized to perform the action.
    Unauthorized {},
    /// The start time lies after the end time.
    InvalidTimeRange { start_time: Timestamp, end_time: Timestamp },
    /// The end price is higher than the starting price.
    EndPriceHigherThanStartingPrice {},
    /// The start time lies before the current time.
    StartTimeInPast { start_time: Timestamp, now: Timestamp },
    /// The start time lies less than `min_seconds` seconds after the current time.
    StartTimeTooSoon { now: Timestamp, start_time: Timestamp, min_seconds: u64 },
    /// The auction lasts `duration` seconds, more than the allowed `max_duration`.
    DurationTooLong { duration: u64, max_duration: u64 },
    /// The offered asset and the asset to pay with are the same.
    SameDenomination { denom: String },
    /// The global parameters are not usable.
    InvalidParams {},
    /// A bid asks for more than the auction has left.
    InsufficientRemainingAmount {},
    /// No auction is registered under the identifier.
    AuctionNotFound {},
    /// The auction is outside its bidding window.
    AuctionNotActive {},
    /// The auction has started and can no longer be cancelled.
    AuctionCannotBeCanceled {},
}

} // verus!
