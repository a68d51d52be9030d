use std::str::FromStr;

use dutch_auction_launchpad::auction::Auction;
use dutch_auction_launchpad::coin::Coin;
use dutch_auction_launchpad::context::{Env, MessageInfo};
use dutch_auction_launchpad::contract::{
    execute, execute_bid, execute_cancel_auction, execute_change_params, execute_create_auction,
    instantiate, query, query_auction, query_auctions, query_params,
};
use dutch_auction_launchpad::decimal::Decimal;
use dutch_auction_launchpad::error::{
    ContractError, CustomPaymentError, OverflowError, OverflowOperation, PaymentError,
};
use dutch_auction_launchpad::msg::{ExecuteMsg, InstantiateMsg, QueryMsg, QueryResponse};
use dutch_auction_launchpad::response::{Attribute, BankMsg, Response};
use dutch_auction_launchpad::state::{Params, State, MAX_LIMIT};
use dutch_auction_launchpad::timestamp::Timestamp;

fn decimal(text: &str) -> Decimal {
    Decimal::new(cosmwasm_std::Decimal::from_str(text).unwrap().atomics().u128())
}

fn coin(amount: u128, denom: &str) -> Coin {
    Coin::new(amount, denom.to_string())
}

fn at(seconds: u64) -> Env {
    Env {
        time: Timestamp::from_seconds(seconds),
    }
}

fn sender(name: &str, funds: Vec<Coin>) -> MessageInfo {
    MessageInfo {
        sender: name.to_string(),
        funds,
    }
}

fn attribute(key: &str, value: &str) -> Attribute {
    Attribute {
        key: key.to_string(),
        value: value.to_string(),
    }
}

fn instantiate_msg() -> InstantiateMsg {
    InstantiateMsg {
        auction_creation_fee: coin(100, "uusd"),
        admin: "admin".to_string(),
        min_seconds_until_auction_start: 10,
        max_auction_duration: 1000,
        accepted_denoms: vec!["uusd".to_string()],
    }
}

fn fresh_state() -> State {
    let (state, _) = instantiate(at(0), sender("deployer", vec![]), instantiate_msg()).unwrap();
    state
}

/// An auction of 1000 ubtc for uusd, from 100 down to 10, open from 1000 s to 2000 s.
fn create_msg() -> ExecuteMsg {
    ExecuteMsg::CreateAuction {
        offered_asset: coin(1000, "ubtc"),
        in_denom: "uusd".to_string(),
        starting_price: decimal("100"),
        end_price: decimal("10"),
        start_time: Timestamp::from_seconds(1000),
        end_time: Timestamp::from_seconds(2000),
    }
}

fn create_funds() -> Vec<Coin> {
    vec![coin(100, "uusd"), coin(1000, "ubtc")]
}

/// The state with `count` auctions like that of `create_msg`, created at 500 s.
fn state_with_auctions(count: usize) -> State {
    let mut state = fresh_state();
    for _ in 0..count {
        execute(&mut state, at(500), sender("creator", create_funds()), create_msg()).unwrap();
    }
    state
}

fn stored(offered: u128, remaining: u128) -> Auction {
    Auction {
        creator: "creator".to_string(),
        offered_asset: coin(offered, "ubtc"),
        in_denom: "uusd".to_string(),
        starting_price: decimal("100"),
        end_price: decimal("10"),
        start_time: Timestamp::from_seconds(1000),
        end_time: Timestamp::from_seconds(2000),
        remaining_amount: remaining,
    }
}

#[test]
fn instantiate_sets_the_parameters() {
    let (state, response) =
        instantiate(at(0), sender("deployer", vec![]), instantiate_msg()).unwrap();
    assert_eq!(
        response,
        Response {
            messages: vec![],
            attributes: vec![]
        }
    );
    assert_eq!(
        query_params(&state),
        Params {
            auction_creation_fee: coin(100, "uusd"),
            admin: "admin".to_string(),
            min_seconds_until_auction_start: 10,
            max_auction_duration: 1000,
            accepted_denoms: vec!["uusd".to_string()],
        }
    );
    assert_eq!(state.auction_index(), 0);
    assert_eq!(query_auctions(&state, None, None), vec![]);
}

#[test]
fn instantiate_rejects_a_lead_time_of_zero() {
    let mut msg = instantiate_msg();
    msg.min_seconds_until_auction_start = 0;
    let result = instantiate(at(0), sender("deployer", vec![]), msg);
    assert_eq!(result.unwrap_err(), ContractError::InvalidParams {});
}

#[test]
fn instantiate_rejects_a_maximum_duration_of_zero() {
    let mut msg = instantiate_msg();
    msg.max_auction_duration = 0;
    let result = instantiate(at(0), sender("deployer", vec![]), msg);
    assert_eq!(result.unwrap_err(), ContractError::InvalidParams {});
}

#[test]
fn create_registers_the_auction_and_pays_the_fee() {
    let mut state = fresh_state();
    let response =
        execute(&mut state, at(500), sender("creator", create_funds()), create_msg()).unwrap();

    assert_eq!(
        response.attributes,
        vec![
            attribute("action", "create_auction"),
            attribute("auction_id", "1"),
            attribute("creator", "creator"),
            attribute("offered_asset_denom", "ubtc"),
            attribute("offered_asset_amount", "1000"),
        ]
    );
    assert_eq!(
        response.messages,
        vec![BankMsg::Send {
            to_address: "admin".to_string(),
            amount: vec![coin(100, "uusd")],
        }]
    );
    assert_eq!(state.auction_index(), 1);
    assert_eq!(query_auction(&state, 1), Ok(stored(1000, 1000)));
    assert_eq!(query_auctions(&state, None, None), vec![(1, stored(1000, 1000))]);
}

#[test]
fn create_allocates_ascending_identifiers() {
    let mut state = fresh_state();
    for expected in 1..=3u8 {
        let response =
            execute(&mut state, at(500), sender("creator", create_funds()), create_msg())
                .unwrap();
        assert_eq!(
            response.attributes[1],
            attribute("auction_id", &expected.to_string())
        );
        assert_eq!(state.auction_index(), expected);
    }
    let ids: Vec<u8> = query_auctions(&state, None, None)
        .into_iter()
        .map(|(id, _)| id)
        .collect();
    assert_eq!(ids, vec![1, 2, 3]);
}

#[test]
fn create_takes_the_funds_in_any_order() {
    let mut state = fresh_state();
    let funds = vec![coin(1000, "ubtc"), coin(100, "uusd")];
    execute(&mut state, at(500), sender("creator", funds), create_msg()).unwrap();
    assert_eq!(state.auction_index(), 1);
}

#[test]
fn create_rejects_funds_that_do_not_match() {
    let mismatches = vec![
        vec![],
        vec![coin(100, "uusd")],
        vec![coin(1000, "ubtc")],
        vec![coin(99, "uusd"), coin(1000, "ubtc")],
        vec![coin(100, "uusd"), coin(1001, "ubtc")],
        vec![coin(100, "uatom"), coin(1000, "ubtc")],
        vec![coin(100, "uusd"), coin(1000, "ubtc"), coin(1, "uatom")],
        vec![coin(100, "uusd"), coin(100, "uusd"), coin(1000, "ubtc")],
        vec![coin(1100, "uusd")],
    ];
    for funds in mismatches {
        let mut state = fresh_state();
        let result = execute(&mut state, at(500), sender("creator", funds), create_msg());
        assert_eq!(
            result,
            Err(ContractError::CustomPayment(
                CustomPaymentError::FundsMismatch {}
            ))
        );
        assert_eq!(state, fresh_state());
    }
}

#[test]
fn create_checks_the_funds_before_the_auction() {
    // The auction is invalid too, yet the funds are reported.
    let mut state = fresh_state();
    let msg = ExecuteMsg::CreateAuction {
        offered_asset: coin(1000, "ubtc"),
        in_denom: "uusd".to_string(),
        starting_price: decimal("10"),
        end_price: decimal("100"),
        start_time: Timestamp::from_seconds(1000),
        end_time: Timestamp::from_seconds(2000),
    };
    let result = execute(&mut state, at(500), sender("creator", vec![]), msg);
    assert_eq!(
        result,
        Err(ContractError::CustomPayment(
            CustomPaymentError::FundsMismatch {}
        ))
    );
}

#[test]
fn create_rejects_an_invalid_auction_and_allocates_nothing() {
    let mut state = state_with_auctions(2);
    let before = state_with_auctions(2);

    // 995 + 10 > 1000: the lead time is not met.
    let result = execute(&mut state, at(995), sender("creator", create_funds()), create_msg());
    assert_eq!(
        result,
        Err(ContractError::StartTimeTooSoon {
            now: Timestamp::from_seconds(995),
            start_time: Timestamp::from_seconds(1000),
            min_seconds: 10,
        })
    );
    assert_eq!(state, before);
    assert_eq!(state.auction_index(), 2);

    let result = execute_create_auction(
        &mut state,
        at(500),
        sender("creator", vec![coin(100, "uusd"), coin(1000, "uusd")]),
        coin(1000, "uusd"),
        "uusd".to_string(),
        decimal("100"),
        decimal("10"),
        Timestamp::from_seconds(1000),
        Timestamp::from_seconds(2000),
    );
    assert_eq!(
        result,
        Err(ContractError::SameDenomination {
            denom: "uusd".to_string()
        })
    );
    assert_eq!(state, before);
}

#[test]
fn create_fails_when_the_identifiers_are_used_up() {
    let mut state = state_with_auctions(255);
    assert_eq!(state.auction_index(), 255);
    let before = state_with_auctions(255);

    let result = execute(&mut state, at(500), sender("creator", create_funds()), create_msg());
    assert_eq!(
        result,
        Err(ContractError::Overflow(OverflowError {
            operation: OverflowOperation::Add
        }))
    );
    assert_eq!(state, before);
    assert_eq!(query_auction(&state, 255), Ok(stored(1000, 1000)));
}

#[test]
fn bid_buys_at_the_price_of_the_moment() {
    let mut state = state_with_auctions(1);
    // At 1500 s the price is 55: 10 uusd buy 550 ubtc.
    let response = execute(
        &mut state,
        at(1500),
        sender("bidder", vec![coin(10, "uusd")]),
        ExecuteMsg::Bid { auction_id: 1 },
    )
    .unwrap();

    assert_eq!(
        response.attributes,
        vec![
            attribute("action", "bid"),
            attribute("auction_id", "1"),
            attribute("bidder", "bidder"),
            attribute("amount", "10"),
            attribute("acquired_asset_denom", "ubtc"),
            attribute("acquired_asset_amount", "550"),
        ]
    );
    assert_eq!(
        response.messages,
        vec![BankMsg::Send {
            to_address: "bidder".to_string(),
            amount: vec![coin(550, "ubtc")],
        }]
    );
    assert_eq!(query_auction(&state, 1), Ok(stored(1000, 450)));
    assert_eq!(state.auction_index(), 1);
}

#[test]
fn bid_rounds_the_acquired_amount_down() {
    let mut state = fresh_state();
    let msg = ExecuteMsg::CreateAuction {
        offered_asset: coin(1000, "ubtc"),
        in_denom: "uusd".to_string(),
        starting_price: decimal("0.35"),
        end_price: decimal("0.35"),
        start_time: Timestamp::from_seconds(1000),
        end_time: Timestamp::from_seconds(2000),
    };
    execute(&mut state, at(500), sender("creator", create_funds()), msg).unwrap();

    // 0.35 * 19 = 6.65
    let response = execute_bid(&mut state, at(1500), sender("bidder", vec![coin(19, "uusd")]), 1)
        .unwrap();
    assert_eq!(
        response.attributes[5],
        attribute("acquired_asset_amount", "6")
    );
    assert_eq!(query_auction(&state, 1).unwrap().remaining_amount, 994);

    // 0.35 * 2 = 0.7: nothing is acquired, and nothing leaves the auction.
    let response = execute_bid(&mut state, at(1500), sender("bidder", vec![coin(2, "uusd")]), 1)
        .unwrap();
    assert_eq!(
        response.attributes[5],
        attribute("acquired_asset_amount", "0")
    );
    assert_eq!(query_auction(&state, 1).unwrap().remaining_amount, 994);
}

#[test]
fn bid_is_taken_at_both_ends_of_the_window() {
    let mut state = state_with_auctions(1);
    // At the start the price is 100.
    let response = execute_bid(&mut state, at(1000), sender("bidder", vec![coin(1, "uusd")]), 1)
        .unwrap();
    assert_eq!(
        response.attributes[5],
        attribute("acquired_asset_amount", "100")
    );
    // At the end the price is 10.
    let response = execute_bid(&mut state, at(2000), sender("bidder", vec![coin(1, "uusd")]), 1)
        .unwrap();
    assert_eq!(
        response.attributes[5],
        attribute("acquired_asset_amount", "10")
    );
    assert_eq!(query_auction(&state, 1).unwrap().remaining_amount, 890);
}

#[test]
fn bid_fails_on_an_unknown_auction() {
    let mut state = state_with_auctions(1);
    let before = state_with_auctions(1);
    for id in [0u8, 2, 255] {
        let result = execute_bid(&mut state, at(1500), sender("bidder", vec![coin(1, "uusd")]), id);
        assert_eq!(result, Err(ContractError::AuctionNotFound {}));
        assert_eq!(state, before);
    }
}

#[test]
fn bid_fails_outside_the_window() {
    let mut state = state_with_auctions(1);
    let before = state_with_auctions(1);

    let early = Env {
        time: Timestamp::from_nanos(999_999_999_999),
    };
    let result = execute_bid(&mut state, early, sender("bidder", vec![coin(1, "uusd")]), 1);
    assert_eq!(result, Err(ContractError::AuctionNotActive {}));

    let late = Env {
        time: Timestamp::from_nanos(2_000_000_000_001),
    };
    let result = execute_bid(&mut state, late, sender("bidder", vec![coin(1, "uusd")]), 1);
    assert_eq!(result, Err(ContractError::AuctionNotActive {}));
    assert_eq!(state, before);
}

#[test]
fn bid_fails_without_a_payment_in_the_asked_denomination() {
    let mut state = state_with_auctions(1);
    let before = state_with_auctions(1);

    let result = execute_bid(&mut state, at(1500), sender("bidder", vec![]), 1);
    assert_eq!(
        result,
        Err(ContractError::Payment(PaymentError::NoFunds {}))
    );

    let result = execute_bid(&mut state, at(1500), sender("bidder", vec![coin(0, "uusd")]), 1);
    assert_eq!(
        result,
        Err(ContractError::Payment(PaymentError::NoFunds {}))
    );

    let result = execute_bid(
        &mut state,
        at(1500),
        sender("bidder", vec![coin(1, "uusd"), coin(1, "uatom")]),
        1,
    );
    assert_eq!(
        result,
        Err(ContractError::Payment(PaymentError::MultipleDenoms {}))
    );

    let result = execute_bid(&mut state, at(1500), sender("bidder", vec![coin(1, "uatom")]), 1);
    assert_eq!(
        result,
        Err(ContractError::Payment(PaymentError::MissingDenom(
            "uusd".to_string()
        )))
    );
    assert_eq!(state, before);
}

#[test]
fn bid_checks_the_window_before_the_payment() {
    let mut state = state_with_auctions(1);
    let result = execute_bid(&mut state, at(999), sender("bidder", vec![]), 1);
    assert_eq!(result, Err(ContractError::AuctionNotActive {}));
}

#[test]
fn bid_fails_when_the_product_leaves_the_range() {
    let mut state = state_with_auctions(1);
    let before = state_with_auctions(1);
    // At 1500 s the price is 55.
    let result = execute_bid(
        &mut state,
        at(1500),
        sender("bidder", vec![coin(u128::MAX / 55 + 1, "uusd")]),
        1,
    );
    assert_eq!(
        result,
        Err(ContractError::Overflow(OverflowError {
            operation: OverflowOperation::Mul
        }))
    );
    assert_eq!(state, before);

    // The greatest payment whose product fits asks for more than is left.
    let result = execute_bid(
        &mut state,
        at(1500),
        sender("bidder", vec![coin(u128::MAX / 55, "uusd")]),
        1,
    );
    assert_eq!(result, Err(ContractError::InsufficientRemainingAmount {}));
    assert_eq!(state, before);
}

#[test]
fn bid_fails_when_more_is_asked_than_is_left() {
    let mut state = state_with_auctions(1);
    let before = state_with_auctions(1);
    // At 2000 s the price is 10: 101 uusd would buy 1010 ubtc.
    let result = execute_bid(&mut state, at(2000), sender("bidder", vec![coin(101, "uusd")]), 1);
    assert_eq!(result, Err(ContractError::InsufficientRemainingAmount {}));
    assert_eq!(state, before);
}

#[test]
fn bids_in_a_row_sell_the_auction_out_and_no_more() {
    let mut state = state_with_auctions(1);
    // At 2000 s the price is 10.
    execute_bid(&mut state, at(2000), sender("first", vec![coin(30, "uusd")]), 1).unwrap();
    assert_eq!(query_auction(&state, 1).unwrap().remaining_amount, 700);
    execute_bid(&mut state, at(2000), sender("second", vec![coin(69, "uusd")]), 1).unwrap();
    assert_eq!(query_auction(&state, 1).unwrap().remaining_amount, 10);

    // Two units are too many, one is exactly what is left.
    let result = execute_bid(&mut state, at(2000), sender("third", vec![coin(2, "uusd")]), 1);
    assert_eq!(result, Err(ContractError::InsufficientRemainingAmount {}));
    assert_eq!(query_auction(&state, 1).unwrap().remaining_amount, 10);
    execute_bid(&mut state, at(2000), sender("third", vec![coin(1, "uusd")]), 1).unwrap();
    assert_eq!(query_auction(&state, 1), Ok(stored(1000, 0)));

    // A sold-out auction stays in the registry and takes no further sale.
    let result = execute_bid(&mut state, at(2000), sender("fourth", vec![coin(1, "uusd")]), 1);
    assert_eq!(result, Err(ContractError::InsufficientRemainingAmount {}));
    assert_eq!(query_auctions(&state, None, None), vec![(1, stored(1000, 0))]);
}

#[test]
fn cancel_succeeds_strictly_before_the_start() {
    let mut state = state_with_auctions(2);
    let just_before = Env {
        time: Timestamp::from_nanos(999_999_999_999),
    };
    let response = execute(
        &mut state,
        just_before,
        sender("creator", vec![]),
        ExecuteMsg::CancelAuction { auction_id: 1 },
    )
    .unwrap();
    assert_eq!(
        response,
        Response {
            messages: vec![],
            attributes: vec![
                attribute("action", "cancel_auction"),
                attribute("auction_id", "1"),
            ],
        }
    );
    assert_eq!(query_auction(&state, 1), Err(ContractError::AuctionNotFound {}));
    assert_eq!(query_auctions(&state, None, None), vec![(2, stored(1000, 1000))]);
    assert_eq!(state.auction_index(), 2);
}

#[test]
fn cancel_fails_from_the_start_on() {
    let mut state = state_with_auctions(1);
    let before = state_with_auctions(1);
    for seconds in [1000u64, 1001, 2000, 5000] {
        let result = execute_cancel_auction(&mut state, at(seconds), sender("creator", vec![]), 1);
        assert_eq!(result, Err(ContractError::AuctionCannotBeCanceled {}));
        assert_eq!(state, before);
    }
}

#[test]
fn cancel_is_for_the_creator_alone() {
    let mut state = state_with_auctions(1);
    let before = state_with_auctions(1);
    let result = execute_cancel_auction(&mut state, at(500), sender("admin", vec![]), 1);
    assert_eq!(result, Err(ContractError::Unauthorized {}));
    // Also after the start the stranger learns only that.
    let result = execute_cancel_auction(&mut state, at(1500), sender("bidder", vec![]), 1);
    assert_eq!(result, Err(ContractError::Unauthorized {}));
    assert_eq!(state, before);
}

#[test]
fn cancel_fails_on_an_unknown_auction() {
    let mut state = state_with_auctions(1);
    let result = execute_cancel_auction(&mut state, at(500), sender("creator", vec![]), 2);
    assert_eq!(result, Err(ContractError::AuctionNotFound {}));
}

#[test]
fn cancelled_identifier_is_not_allocated_again() {
    let mut state = state_with_auctions(2);
    execute_cancel_auction(&mut state, at(500), sender("creator", vec![]), 2).unwrap();
    let response =
        execute(&mut state, at(500), sender("creator", create_funds()), create_msg()).unwrap();
    assert_eq!(response.attributes[1], attribute("auction_id", "3"));
    let ids: Vec<u8> = query_auctions(&state, None, None)
        .into_iter()
        .map(|(id, _)| id)
        .collect();
    assert_eq!(ids, vec![1, 3]);
}

#[test]
fn change_params_is_for_the_admin_alone() {
    let mut state = state_with_auctions(1);
    let before = state_with_auctions(1);
    let result = execute(
        &mut state,
        at(500),
        sender("creator", vec![]),
        ExecuteMsg::ChangeParams {
            auction_creation_fee: Some(coin(1, "uatom")),
            min_seconds_until_auction_start: Some(1),
            max_auction_duration: Some(1),
            accepted_denoms: Some(vec![]),
            admin: Some("creator".to_string()),
        },
    );
    assert_eq!(result, Err(ContractError::Unauthorized {}));
    assert_eq!(state, before);
    assert_eq!(query_params(&state), query_params(&before));
}

#[test]
fn change_params_overwrites_the_given_fields_only() {
    let mut state = fresh_state();
    let response = execute_change_params(
        &mut state,
        at(500),
        sender("admin", vec![]),
        None,
        Some(77),
        None,
        None,
        None,
    )
    .unwrap();
    assert_eq!(
        response,
        Response {
            messages: vec![],
            attributes: vec![attribute("action", "change_params")],
        }
    );
    assert_eq!(
        query_params(&state),
        Params {
            auction_creation_fee: coin(100, "uusd"),
            admin: "admin".to_string(),
            min_seconds_until_auction_start: 77,
            max_auction_duration: 1000,
            accepted_denoms: vec!["uusd".to_string()],
        }
    );

    execute_change_params(
        &mut state,
        at(500),
        sender("admin", vec![]),
        Some(coin(5, "uatom")),
        None,
        Some(0),
        Some(vec!["uatom".to_string(), "uusd".to_string()]),
        None,
    )
    .unwrap();
    assert_eq!(
        query_params(&state),
        Params {
            auction_creation_fee: coin(5, "uatom"),
            admin: "admin".to_string(),
            min_seconds_until_auction_start: 77,
            max_auction_duration: 0,
            accepted_denoms: vec!["uatom".to_string(), "uusd".to_string()],
        }
    );

    // A change without fields changes nothing.
    let before = query_params(&state);
    execute_change_params(
        &mut state,
        at(500),
        sender("admin", vec![]),
        None,
        None,
        None,
        None,
        None,
    )
    .unwrap();
    assert_eq!(query_params(&state), before);
}

#[test]
fn change_params_hands_the_admin_over() {
    let mut state = fresh_state();
    execute_change_params(
        &mut state,
        at(500),
        sender("admin", vec![]),
        None,
        None,
        None,
        None,
        Some("heir".to_string()),
    )
    .unwrap();
    assert_eq!(query_params(&state).admin, "heir");

    let result = execute_change_params(
        &mut state,
        at(500),
        sender("admin", vec![]),
        None,
        Some(1),
        None,
        None,
        None,
    );
    assert_eq!(result, Err(ContractError::Unauthorized {}));

    execute_change_params(
        &mut state,
        at(500),
        sender("heir", vec![]),
        None,
        Some(1),
        None,
        None,
        None,
    )
    .unwrap();
    assert_eq!(query_params(&state).min_seconds_until_auction_start, 1);
}

#[test]
fn changed_params_govern_the_next_creation() {
    let mut state = fresh_state();
    execute_change_params(
        &mut state,
        at(500),
        sender("admin", vec![]),
        Some(coin(7, "uatom")),
        None,
        Some(999),
        None,
        Some("heir".to_string()),
    )
    .unwrap();

    // The old fee no longer does, and the auction is now too long.
    let result = execute(&mut state, at(500), sender("creator", create_funds()), create_msg());
    assert_eq!(
        result,
        Err(ContractError::CustomPayment(
            CustomPaymentError::FundsMismatch {}
        ))
    );
    let funds = vec![coin(7, "uatom"), coin(1000, "ubtc")];
    let result = execute(&mut state, at(500), sender("creator", funds), create_msg());
    assert_eq!(
        result,
        Err(ContractError::DurationTooLong {
            duration: 1000,
            max_duration: 999,
        })
    );
}

#[test]
fn pagination_starts_behind_the_cursor() {
    let state = state_with_auctions(5);
    let page = query_auctions(&state, Some(2), Some(2));
    assert_eq!(page, vec![(3, stored(1000, 1000)), (4, stored(1000, 1000))]);

    let ids =
        |page: Vec<(u8, Auction)>| -> Vec<u8> { page.into_iter().map(|(id, _)| id).collect() };
    assert_eq!(ids(query_auctions(&state, None, None)), vec![1, 2, 3, 4, 5]);
    assert_eq!(ids(query_auctions(&state, Some(0), Some(1))), vec![1]);
    assert_eq!(ids(query_auctions(&state, Some(4), Some(10))), vec![5]);
    assert_eq!(ids(query_auctions(&state, Some(5), Some(10))), Vec::<u8>::new());
    assert_eq!(ids(query_auctions(&state, Some(255), None)), Vec::<u8>::new());
    assert_eq!(ids(query_auctions(&state, None, Some(0))), Vec::<u8>::new());
}

#[test]
fn pagination_clamps_the_limit() {
    let state = state_with_auctions(40);
    assert_eq!(MAX_LIMIT, 30);
    let ids =
        |page: Vec<(u8, Auction)>| -> Vec<u8> { page.into_iter().map(|(id, _)| id).collect() };

    let first: Vec<u8> = (1..=30).collect();
    assert_eq!(ids(query_auctions(&state, None, None)), first);
    assert_eq!(ids(query_auctions(&state, None, Some(30))), first);
    assert_eq!(ids(query_auctions(&state, None, Some(31))), first);
    assert_eq!(ids(query_auctions(&state, None, Some(255))), first);

    let rest: Vec<u8> = (31..=40).collect();
    assert_eq!(ids(query_auctions(&state, Some(30), Some(255))), rest);
    let some: Vec<u8> = (11..=39).collect();
    assert_eq!(ids(query_auctions(&state, Some(10), Some(29))), some);
}

#[test]
fn query_answers_each_question() {
    let state = state_with_auctions(3);
    assert_eq!(
        query(
            &state,
            at(500),
            QueryMsg::Auctions {
                start_after: Some(1),
                limit: Some(1)
            }
        ),
        Ok(QueryResponse::Auctions(vec![(2, stored(1000, 1000))]))
    );
    assert_eq!(
        query(&state, at(500), QueryMsg::Auction { auction_id: 3 }),
        Ok(QueryResponse::Auction(stored(1000, 1000)))
    );
    assert_eq!(
        query(&state, at(500), QueryMsg::Auction { auction_id: 4 }),
        Err(ContractError::AuctionNotFound {})
    );
    assert_eq!(
        query(&state, at(500), QueryMsg::Params {}),
        Ok(QueryResponse::Params(query_params(&state)))
    );
}

#[test]
fn execute_does_what_the_handlers_do() {
    let mut by_message = state_with_auctions(1);
    let mut by_handler = state_with_auctions(1);

    let a = execute(
        &mut by_message,
        at(1500),
        sender("bidder", vec![coin(3, "uusd")]),
        ExecuteMsg::Bid { auction_id: 1 },
    );
    let b = execute_bid(&mut by_handler, at(1500), sender("bidder", vec![coin(3, "uusd")]), 1);
    assert_eq!(a, b);
    assert_eq!(by_message, by_handler);

    let a = execute(
        &mut by_message,
        at(1500),
        sender("admin", vec![]),
        ExecuteMsg::ChangeParams {
            auction_creation_fee: None,
            min_seconds_until_auction_start: None,
            max_auction_duration: Some(5),
            accepted_denoms: None,
            admin: None,
        },
    );
    let b = execute_change_params(
        &mut by_handler,
        at(1500),
        sender("admin", vec![]),
        None,
        None,
        Some(5),
        None,
        None,
    );
    assert_eq!(a, b);
    assert_eq!(by_message, by_handler);

    let a = execute(
        &mut by_message,
        at(1500),
        sender("creator", vec![]),
        ExecuteMsg::CancelAuction { auction_id: 1 },
    );
    let b = execute_cancel_auction(&mut by_handler, at(1500), sender("creator", vec![]), 1);
    assert_eq!(a, b);
    assert_eq!(a, Err(ContractError::AuctionCannotBeCanceled {}));
    assert_eq!(by_message, by_handler);
}

#[test]
fn create_rejects_a_start_that_comes_too_soon() {
    let mut msg = instantiate_msg();
    msg.min_seconds_until_auction_start = 1000;
    msg.max_auction_duration = 2000;
    let (mut state, _) = instantiate(at(0), sender("deployer", vec![]), msg).unwrap();

    let create = |start: u64| ExecuteMsg::CreateAuction {
        offered_asset: coin(1000, "ubtc"),
        in_denom: "uusd".to_string(),
        starting_price: decimal("100"),
        end_price: decimal("10"),
        start_time: Timestamp::from_seconds(start),
        end_time: Timestamp::from_seconds(3000),
    };

    // 1400 + 1000 > 1500
    let result = execute(&mut state, at(1400), sender("creator", create_funds()), create(1500));
    assert_eq!(
        result,
        Err(ContractError::StartTimeTooSoon {
            now: Timestamp::from_seconds(1400),
            start_time: Timestamp::from_seconds(1500),
            min_seconds: 1000,
        })
    );
    assert_eq!(state.auction_index(), 0);

    // 1400 + 1000 == 2400
    let result = execute(&mut state, at(1400), sender("creator", create_funds()), create(2400));
    assert!(result.is_ok());
    assert_eq!(state.auction_index(), 1);
}
