//! The effects of an operation: attributes to report and transfers to
//! carry out.

use vstd::prelude::*;

use crate::coin::{coin_views, Coin, CoinView};

verus! {

/// One key with its value, reported by an operation for those who watch it.
#[derive(Debug, PartialEq, Eq)]
pub struct Attribute {
    pub key: String,
    pub value: String,
}

/// What an [`Attribute`] stands for: the text of its key and of its value.
pub struct AttributeView {
    pub key: Seq<char>,
    pub value: Seq<char>,
}

impl View for Attribute {
    type V = AttributeView;

    open spec fn view(&self) -> AttributeView {
        AttributeView { key: self.key@, value: self.value@ }
    }
}

/// An instruction to move funds out of the custody of the auction house.
#[derive(Debug, PartialEq, Eq)]
pub enum BankMsg {
    /// Send `amount` to `to_address`.
    Send { to_address: String, amount: Vec<Coin> },
}

/// What a [`BankMsg`] stands for.
pub enum BankMsgView {
    Send { to_address: Seq<char>, amount: Seq<CoinView> },
}

impl View for BankMsg {
    type V = BankMsgView;

    open spec fn view(&self) -> BankMsgView {
        match *self {
            BankMsg::Send { to_address, amount } => BankMsgView::Send {
                to_address: to_address@,
                amount: coin_views(amount@),
            },
        }
    }
}

/// The effects of an operation that succeeded: the transfers to carry out
/// and the attributes to report, each in the order in which it was added.
#[derive(Debug, PartialEq, Eq)]
pub struct Response {
    pub messages: Vec<BankMsg>,
    pub attributes: Vec<Attribute>,
}

/// What a [`Response`] stands for.
pub struct ResponseView {
    pub messages: Seq<BankMsgView>,
    pub attributes: Seq<AttributeView>,
}

impl View for Response {
    type V = ResponseView;

    open spec fn view(&self) -> ResponseView {
        ResponseView {
            messages: self.messages@.map_values(|m: BankMsg| m@),
            attributes: self.attributes@.map_values(|a: Attribute| a@),
        }
    }
}

/// The attribute that holds `key` and `value`.
pub open spec fn attribute(key: Seq<char>, value: Seq<char>) -> AttributeView {
    AttributeView { key, value }
}

/// The instruction to send one coin of `amount` units of `denom` to `to_address`.
pub open spec fn send_one(to_address: Seq<char>, denom: Seq<char>, amount: nat) -> BankMsgView {
    BankMsgView::Send { to_address, amount: seq![CoinView { denom, amount }] }
}

impl Response {
    /// The response without effects.
    pub fn new() -> (response: Response)
        ensures
            response@.messages == Seq::<BankMsgView>::empty(),
            response@.attributes == Seq::<AttributeView>::empty(),
    {
        Response { messages: Vec::new(), attributes: Vec::new() }
    }

    /// Adds an attribute behind those already there.
    pub fn add_attribute(self, key: &str, value: String) -> (response: Response)
        ensures
            response@.attributes == self@.attributes.push(attribute(key@, value@)),
            response@.messages == self@.messages,
    {
        let mut response = self;
        response.attributes.push(Attribute { key: key.to_owned(), value });
        response
    }

    /// Adds a transfer behind those already there.
    pub fn add_message(self, msg: BankMsg) -> (response: Response)
        ensures
            response@.messages == self@.messages.push(msg@),
            response@.attributes == self@.attributes,
    {
        let mut response = self;
        response.messages.push(msg);
        response
    }
}

impl BankMsg {
    /// The instruction to send the single coin `coin` to `to_address`.
    pub fn send(to_address: String, coin: Coin) -> (msg: BankMsg)
        ensures
            msg@ == send_one(to_address@, coin@.denom, coin@.amount),
    {
        let mut amount: Vec<Coin> = Vec::new();
        amount.push(coin);
        assert(coin_views(amount@) =~= seq![coin@]);
        BankMsg::Send { to_address, amount }
    }
}

} // verus!
