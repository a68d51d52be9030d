//! The auction record, the rules a new auction has to pass, and its price
//! over time.

use vstd::prelude::*;

use crate::coin::{Coin, CoinView};
use crate::decimal::{
    decimal_checked_mul, decimal_from_ratio, lemma_ratio_at_most_one,
    lemma_ratio_grows_with_part, lemma_scaled_product_at_most_value,
    lemma_scaled_product_grows_with_factor, ratio_atomics, scaled_product, Decimal,
};
use crate::error::ContractError;
use crate::state::{Params, ParamsView};
use crate::timestamp::{Timestamp, NANOS_PER_SECOND};

verus! {

/// One Dutch auction: an offered quantity of one asset, sold for another
/// asset at a price that falls from `starting_price` at `start_time` to
/// `end_price` at `end_time`.
#[derive(Debug, PartialEq, Eq)]
pub struct Auction {
    /// The identity that created and funded the auction.
    pub creator: String,
    /// The asset on sale, with the quantity that was offered at creation.
    pub offered_asset: Coin,
    /// The asset that buyers pay with.
    pub in_denom: String,
    /// The price at `start_time`.
    pub starting_price: Decimal,
    /// The price at `end_time`.
    pub end_price: Decimal,
    /// The moment from which bids are taken.
    pub start_time: Timestamp,
    /// The last moment at which bids are taken.
    pub end_time: Timestamp,
    /// The quantity of the offered asset that is not sold yet.
    pub remaining_amount: u128,
}

/// What an [`Auction`] stands for: prices in atomic units of a decimal, times
/// in nanoseconds since the epoch.
pub struct AuctionView {
    pub creator: Seq<char>,
    pub offered_asset: CoinView,
    pub in_denom: Seq<char>,
    pub starting_price: nat,
    pub end_price: nat,
    pub start_time: nat,
    pub end_time: nat,
    pub remaining_amount: nat,
}

impl View for Auction {
    type V = AuctionView;

    open spec fn view(&self) -> AuctionView {
        AuctionView {
            creator: self.creator@,
            offered_asset: self.offered_asset@,
            in_denom: self.in_denom@,
            starting_price: self.starting_price.atomics as nat,
            end_price: self.end_price.atomics as nat,
            start_time: self.start_time.nanos as nat,
            end_time: self.end_time.nanos as nat,
            remaining_amount: self.remaining_amount as nat,
        }
    }
}

impl DeepView for Auction {
    type V = AuctionView;

    open spec fn deep_view(&self) -> AuctionView {
        self@
    }
}

impl AuctionView {
    /// The invariant of every registered auction: the price does not rise,
    /// the window is not reversed, the two assets differ, and no more is left
    /// than was offered.
    pub open spec fn consistent(self) -> bool {
        &&& self.end_price <= self.starting_price
        &&& self.start_time <= self.end_time
        &&& self.offered_asset.denom != self.in_denom
        &&& self.remaining_amount <= self.offered_asset.amount
    }

    /// Whether bids have begun at `now`.
    pub open spec fn is_started(self, now: nat) -> bool {
        self.start_time <= now
    }

    /// Whether `now` lies in the bidding window, both ends included.
    pub open spec fn is_active(self, now: nat) -> bool {
        self.start_time <= now <= self.end_time
    }

    /// Whether the bidding window has closed at `now`.
    pub open spec fn is_expired(self, now: nat) -> bool {
        self.end_time < now
    }

    /// The share of the window that has passed at `now`, in atomic units of a
    /// decimal and rounded down. Meant for `start_time < now < end_time`.
    pub open spec fn elapsed_fraction(self, now: nat) -> nat {
        ratio_atomics((now - self.start_time) as nat, (self.end_time - self.start_time) as nat)
    }

    /// The price at `now`, in atomic units: `starting_price` until the window
    /// opens, `end_price` from its last moment on, and in between
    /// `starting_price - (starting_price - end_price) * elapsed_fraction`,
    /// where both the fraction and the product are rounded down. A window of
    /// no length has the price `end_price` at its single moment.
    pub open spec fn price_at(self, now: nat) -> int {
        if now >= self.end_time {
            self.end_price as int
        } else if now <= self.start_time {
            self.starting_price as int
        } else {
            self.starting_price - scaled_product(
                (self.starting_price - self.end_price) as nat,
                self.elapsed_fraction(now),
            )
        }
    }

    /// The length of the window in whole seconds: the difference of the two
    /// ends, each cut down to whole seconds.
    pub open spec fn duration_seconds(self) -> int {
        self.end_time / (NANOS_PER_SECOND as nat) - self.start_time / (NANOS_PER_SECOND as nat)
    }

    /// Whether the window opens earlier than `min_seconds` seconds after `now`.
    pub open spec fn starts_too_soon(self, now: nat, min_seconds: nat) -> bool {
        now + min_seconds * NANOS_PER_SECOND > self.start_time
    }

    /// Whether an auction may be created at `now` under `params`: none of the
    /// six grounds for rejection holds.
    pub open spec fn acceptable(self, now: nat, params: ParamsView) -> bool {
        &&& self.end_price <= self.starting_price
        &&& self.start_time <= self.end_time
        &&& self.offered_asset.denom != self.in_denom
        &&& self.start_time >= now
        &&& !self.starts_too_soon(now, params.min_seconds_until_auction_start)
        &&& self.duration_seconds() <= params.max_auction_duration
    }

    /// Whether `e` is the error with which the creation of the auction is
    /// refused at `now` under `params`. The grounds are tried in a fixed order
    /// and the first that holds decides the error; where none holds there is
    /// no such error.
    pub open spec fn rejected_with(self, now: nat, params: ParamsView, e: ContractError) -> bool {
        if self.end_price > self.starting_price {
            e == (ContractError::EndPriceHigherThanStartingPrice {  })
        } else if self.start_time > self.end_time {
            e matches ContractError::InvalidTimeRange { start_time, end_time } && start_time.nanos
                == self.start_time && end_time.nanos == self.end_time
        } else if self.offered_asset.denom == self.in_denom {
            e matches ContractError::SameDenomination { denom } && denom@
                == self.offered_asset.denom
        } else if self.start_time < now {
            e matches ContractError::StartTimeInPast { start_time, now: at } && start_time.nanos
                == self.start_time && at.nanos == now
        } else if self.starts_too_soon(now, params.min_seconds_until_auction_start) {
            e matches ContractError::StartTimeTooSoon { now: at, start_time, min_seconds }
                && at.nanos == now && start_time.nanos == self.start_time && min_seconds
                == params.min_seconds_until_auction_start
        } else if self.duration_seconds() > params.max_auction_duration {
            e matches ContractError::DurationTooLong { duration, max_duration } && duration
                == self.duration_seconds() && max_duration == params.max_auction_duration
        } else {
            false
        }
    }

    /// The auction after `amount` units of the offered asset were sold.
    pub open spec fn sell(self, amount: nat) -> AuctionView
        recommends
            amount <= self.remaining_amount,
    {
        AuctionView { remaining_amount: (self.remaining_amount - amount) as nat, ..self }
    }

    /// The auction after the sales of `amounts`, one after the other; `None`
    /// where one of them asks for more than is left at its turn.
    pub open spec fn sell_all(self, amounts: Seq<nat>) -> Option<AuctionView>
        decreases amounts.len(),
    {
        if amounts.len() == 0 {
            Some(self)
        } else if amounts[0] > self.remaining_amount {
            None
        } else {
            self.sell(amounts[0]).sell_all(amounts.drop_first())
        }
    }
}

impl Clone for Auction {
    fn clone(&self) -> (copy: Auction)
        ensures
            copy == *self,
    {
        Auction {
            creator: self.creator.clone(),
            offered_asset: self.offered_asset.clone(),
            in_denom: self.in_denom.clone(),
            starting_price: self.starting_price,
            end_price: self.end_price,
            start_time: self.start_time,
            end_time: self.end_time,
            remaining_amount: self.remaining_amount,
        }
    }
}

impl Auction {
    /// A new auction with nothing sold yet. Nothing is validated here: see
    /// [`Auction::validate`].
    pub fn new(
        creator: String,
        offered_asset: Coin,
        in_denom: String,
        starting_price: Decimal,
        end_price: Decimal,
        start_time: Timestamp,
        end_time: Timestamp,
    ) -> (auction: Auction)
        ensures
            auction.creator == creator,
            auction.offered_asset == offered_asset,
            auction.in_denom == in_denom,
            auction.starting_price == starting_price,
            auction.end_price == end_price,
            auction.start_time == start_time,
            auction.end_time == end_time,
            auction.remaining_amount == offered_asset.amount,
    {
        let remaining_amount = offered_asset.amount;
        Auction {
            creator,
            offered_asset,
            in_denom,
            starting_price,
            end_price,
            start_time,
            end_time,
            remaining_amount,
        }
    }

    /// Decides whether the auction may be created at `now` under `params`.
    /// The checks run in this order and the first that fails decides the
    /// error: the end price is above the starting price; the window is
    /// reversed; the two assets are the same; the start lies in the past; the
    /// start leaves less than the minimum lead time; the window is longer
    /// than allowed.
    pub fn validate(&self, now: Timestamp, params: Params) -> (r: Result<(), ContractError>)
        ensures
            r is Ok <==> self@.acceptable(now.nanos as nat, params@),
            r is Err ==> self@.rejected_with(now.nanos as nat, params@, r->Err_0),
            self@.end_price > self@.starting_price ==> r == Err::<(), ContractError>(
                ContractError::EndPriceHigherThanStartingPrice {  },
            ),
            self@.offered_asset.denom == self@.in_denom ==> r is Err,
    {
        if self.starting_price.atomics < self.end_price.atomics {
            return Err(ContractError::EndPriceHigherThanStartingPrice {  });
        }
        if self.start_time.nanos > self.end_time.nanos {
            return Err(
                ContractError::InvalidTimeRange {
                    start_time: self.start_time,
                    end_time: self.end_time,
                },
            );
        }
        if self.offered_asset.denom == self.in_denom {
            return Err(ContractError::SameDenomination { denom: self.offered_asset.denom.clone() });
        }
        if self.start_time.nanos < now.nanos {
            return Err(ContractError::StartTimeInPast { start_time: self.start_time, now });
        }
        let min_seconds: u64 = params.min_seconds_until_auction_start;
        assert(min_seconds * NANOS_PER_SECOND <= u64::MAX * NANOS_PER_SECOND) by (nonlinear_arith)
            requires
                min_seconds <= u64::MAX,
        ;
        let lead: u128 = min_seconds as u128 * NANOS_PER_SECOND as u128;
        if now.nanos as u128 + lead > self.start_time.nanos as u128 {
            return Err(
                ContractError::StartTimeTooSoon {
                    now,
                    start_time: self.start_time,
                    min_seconds: params.min_seconds_until_auction_start,
                },
            );
        }
        let duration: u64 = self.end_time.seconds() - self.start_time.seconds();
        if duration > params.max_auction_duration {
            return Err(
                ContractError::DurationTooLong {
                    duration,
                    max_duration: params.max_auction_duration,
                },
            );
        }
        Ok(())
    }

    /// Whether the auction keeps the invariant of registered auctions.
    pub fn is_consistent(&self) -> (consistent: bool)
        ensures
            consistent == self@.consistent(),
    {
        self.end_price.atomics <= self.starting_price.atomics && self.start_time.nanos
            <= self.end_time.nanos && !(self.offered_asset.denom == self.in_denom)
            && self.remaining_amount <= self.offered_asset.amount
    }

    /// Whether `now` lies in the bidding window, both ends included.
    pub fn is_active(&self, now: Timestamp) -> (active: bool)
        ensures
            active == self@.is_active(now.nanos as nat),
    {
        self.start_time.nanos <= now.nanos && now.nanos <= self.end_time.nanos
    }

    /// Whether the bidding window has closed at `now`.
    pub fn is_expired(&self, now: Timestamp) -> (expired: bool)
        ensures
            expired == self@.is_expired(now.nanos as nat),
    {
        self.end_time.nanos < now.nanos
    }

    /// Whether bids have begun at `now`.
    pub fn is_started(&self, now: Timestamp) -> (started: bool)
        ensures
            started == self@.is_started(now.nanos as nat),
    {
        self.start_time.nanos <= now.nanos
    }

    /// The price at `now`: linear between `starting_price` at `start_time`
    /// and `end_price` at `end_time`, constant outside the window. The
    /// elapsed fraction and its product with the price difference are both
    /// computed in 256 bits and rounded down, so the price is rounded up and
    /// never falls below `end_price`.
    pub fn calculate_price(&self, now: Timestamp) -> (price: Decimal)
        requires
            self.end_price.atomics <= self.starting_price.atomics,
        ensures
            price.atomics == self@.price_at(now.nanos as nat),
    {
        if now.nanos >= self.end_time.nanos {
            return self.end_price;
        }
        if now.nanos <= self.start_time.nanos {
            return self.starting_price;
        }
        let total_duration: u64 = self.end_time.nanos - self.start_time.nanos;
        let time_passed: u64 = now.nanos - self.start_time.nanos;
        let price_diff: u128 = self.starting_price.atomics - self.end_price.atomics;
        proof {
            lemma_ratio_at_most_one(time_passed as nat, total_duration as nat);
        }
        let elapsed: u128 = decimal_from_ratio(time_passed as u128, total_duration as u128);
        proof {
            lemma_scaled_product_at_most_value(price_diff as nat, elapsed as nat);
        }
        match decimal_checked_mul(price_diff, elapsed) {
            Some(drop) => Decimal { atomics: self.starting_price.atomics - drop },
            None => self.end_price,
        }
    }
}

/// At every moment the price lies between the end price and the starting
/// price, for every auction whose end price is not above its starting price.
pub proof fn lemma_price_within_bounds(a: AuctionView, now: nat)
    requires
        a.end_price <= a.starting_price,
    ensures
        a.end_price <= a.price_at(now) <= a.starting_price,
{
    if a.start_time < now < a.end_time {
        lemma_ratio_at_most_one((now - a.start_time) as nat, (a.end_time - a.start_time) as nat);
        lemma_scaled_product_at_most_value(
            (a.starting_price - a.end_price) as nat,
            a.elapsed_fraction(now),
        );
    }
}

/// At the start of a window of positive length the price is the starting
/// price. A window of no length is left out: its single moment is also its
/// end, where the price is the end price.
pub proof fn lemma_price_at_start(a: AuctionView)
    requires
        a.start_time < a.end_time,
    ensures
        a.price_at(a.start_time) == a.starting_price,
{
}

/// At the end of the window the price is the end price.
pub proof fn lemma_price_at_end(a: AuctionView)
    ensures
        a.price_at(a.end_time) == a.end_price,
{
}

/// The price never rises with time: of two moments, the later has a price
/// that is no higher, inside the window and outside it.
pub proof fn lemma_price_never_rises(a: AuctionView, earlier: nat, later: nat)
    requires
        a.end_price <= a.starting_price,
        earlier <= later,
    ensures
        a.price_at(earlier) >= a.price_at(later),
{
    lemma_price_within_bounds(a, earlier);
    lemma_price_within_bounds(a, later);
    if a.start_time < earlier && later < a.end_time {
        let whole = (a.end_time - a.start_time) as nat;
        lemma_ratio_grows_with_part(
            (earlier - a.start_time) as nat,
            (later - a.start_time) as nat,
            whole,
        );
        lemma_scaled_product_grows_with_factor(
            (a.starting_price - a.end_price) as nat,
            a.elapsed_fraction(earlier),
            a.elapsed_fraction(later),
        );
    }
}

/// The sum of a sequence of amounts.
pub open spec fn total(amounts: Seq<nat>) -> nat
    decreases amounts.len(),
{
    if amounts.len() == 0 {
        0
    } else {
        amounts[0] + total(amounts.drop_first())
    }
}

/// An end price equal to the starting price is no ground for refusal: an
/// auction that may be created may still be created with its end price
/// raised to its starting price.
pub proof fn lemma_equal_prices_are_accepted(a: AuctionView, now: nat, params: ParamsView)
    requires
        a.acceptable(now, params),
    ensures
        (AuctionView { end_price: a.starting_price, ..a }).acceptable(now, params),
{
}

/// An auction that may be created keeps, with nothing sold yet, the
/// invariant of registered auctions.
pub proof fn lemma_acceptable_is_consistent(a: AuctionView, now: nat, params: ParamsView)
    requires
        a.acceptable(now, params),
        a.remaining_amount == a.offered_asset.amount,
    ensures
        a.consistent(),
{
}

/// Sales one after the other never sell more than was left: they all go
/// through exactly where their sum is at most what was left, what is left
/// afterwards is what was left before minus their sum, and where the sum is
/// all that was left, nothing is left. The invariant of registered auctions
/// is kept.
pub proof fn lemma_sales_never_oversell(a: AuctionView, amounts: Seq<nat>)
    ensures
        a.sell_all(amounts) is Some <==> total(amounts) <= a.remaining_amount,
        a.sell_all(amounts) is Some ==> a.sell_all(amounts)->Some_0.remaining_amount + total(
            amounts,
        ) == a.remaining_amount,
        a.sell_all(amounts) is Some && total(amounts) == a.remaining_amount ==> a.sell_all(
            amounts,
        )->Some_0.remaining_amount == 0,
        a.sell_all(amounts) is Some && a.consistent() ==> a.sell_all(amounts)->Some_0.consistent(),
    decreases amounts.len(),
{
    if amounts.len() > 0 && amounts[0] <= a.remaining_amount {
        lemma_sales_never_oversell(a.sell(amounts[0]), amounts.drop_first());
    }
}

} // verus!
