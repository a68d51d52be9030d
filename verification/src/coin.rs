//! Amounts of fungible assets.

use vstd::prelude::*;

verus! {

/// An amount of one fungible asset.
#[derive(Debug, PartialEq, Eq)]
pub struct Coin {
    /// The identifier of the asset.
    pub denom: String,
    /// The quantity, in the asset's smallest unit.
    pub amount: u128,
}

/// What a [`Coin`] stands for: the text of its denomination and its amount.
pub struct CoinView {
    pub denom: Seq<char>,
    pub amount: nat,
}

impl View for Coin {
    type V = CoinView;

    open spec fn view(&self) -> CoinView {
        CoinView { denom: self.denom@, amount: self.amount as nat }
    }
}

impl DeepView for Coin {
    type V = CoinView;

    open spec fn deep_view(&self) -> CoinView {
        self@
    }
}

impl Clone for Coin {
    fn clone(&self) -> (copy: Coin)
        ensures
            copy == *self,
    {
        Coin { denom: self.denom.clone(), amount: self.amount }
    }
}

impl Coin {
    /// The coin of `amount` units of `denom`.
    pub fn new(amount: u128, denom: String) -> (coin: Coin)
        ensures
            coin.denom == denom,
            coin.amount == amount,
    {
        Coin { denom, amount }
    }

    /// Whether two coins name the same asset and hold the same amount.
    pub fn same_as(&self, other: &Coin) -> (same: bool)
        ensures
            same == (self@ == other@),
    {
        self.amount == other.amount && self.denom == other.denom
    }
}

/// The views of a sequence of coins, in order.
pub open spec fn coin_views(coins: Seq<Coin>) -> Seq<CoinView> {
    coins.map_values(|c: Coin| c@)
}

} // verus!
