//! The operations of the auction house. Each takes the state, the time and
//! the caller, and either changes the state and returns its effects, or
//! fails and leaves the state as it was.

use vstd::prelude::*;

use crate::auction::{Auction, AuctionView};
use crate::coin::{coin_views, Coin, CoinView};
use crate::context::{Env, MessageInfo};
use crate::decimal::{amount_checked_mul_floor, scaled_product, Decimal};
use crate::error::{ContractError, CustomPaymentError, OverflowError, OverflowOperation};
use crate::helpers::{check_payment, must_pay, payment_of, same_coins};
use crate::msg::{ExecuteMsg, InstantiateMsg, QueryMsg, QueryResponse};
use crate::response::{attribute, send_one, BankMsg, Response, ResponseView};
use crate::state::{entry_views, page_size, Params, ParamsView, State, StateView, MAX_LIMIT};
use crate::text::{decimal_digits, number_text};
use crate::timestamp::Timestamp;

verus! {

/// The parameters that an instantiate message asks for.
pub open spec fn initial_params(msg: InstantiateMsg) -> ParamsView {
    ParamsView {
        auction_creation_fee: msg.auction_creation_fee@,
        admin: msg.admin@,
        min_seconds_until_auction_start: msg.min_seconds_until_auction_start as nat,
        max_auction_duration: msg.max_auction_duration as nat,
        accepted_denoms: msg.accepted_denoms.deep_view(),
    }
}

/// The state before the first auction, under the given parameters.
pub open spec fn initial_state(params: ParamsView) -> StateView {
    StateView { params, auction_index: 0, auctions: Map::empty() }
}

/// The response of an operation that has nothing to report.
pub open spec fn no_effects() -> ResponseView {
    ResponseView { messages: Seq::empty(), attributes: Seq::empty() }
}

/// Sets the auction house up. Both the minimum lead time and the maximum
/// duration have to be positive; then the state holds the parameters of the
/// message, no identifier is allocated and no auction is registered.
pub fn instantiate(_env: Env, _info: MessageInfo, msg: InstantiateMsg) -> (r: Result<
    (State, Response),
    ContractError,
>)
    ensures
        msg.min_seconds_until_auction_start == 0 || msg.max_auction_duration == 0 ==> r == Err::<
            (State, Response),
            ContractError,
        >(ContractError::InvalidParams {  }),
        msg.min_seconds_until_auction_start > 0 && msg.max_auction_duration > 0 ==> r is Ok
            && r->Ok_0.0.wf() && r->Ok_0.0@ == initial_state(initial_params(msg)) && r->Ok_0.1@
            == no_effects(),
{
    if msg.min_seconds_until_auction_start == 0 {
        return Err(ContractError::InvalidParams {  });
    }
    if msg.max_auction_duration == 0 {
        return Err(ContractError::InvalidParams {  });
    }
    let params = Params {
        auction_creation_fee: msg.auction_creation_fee,
        admin: msg.admin,
        min_seconds_until_auction_start: msg.min_seconds_until_auction_start,
        max_auction_duration: msg.max_auction_duration,
        accepted_denoms: msg.accepted_denoms,
    };
    let state = State::new(params);
    Ok((state, Response::new()))
}

/// The auction that a creation message asks for, with nothing sold yet.
pub open spec fn created_auction(
    creator: Seq<char>,
    offered_asset: CoinView,
    in_denom: Seq<char>,
    starting_price: Decimal,
    end_price: Decimal,
    start_time: Timestamp,
    end_time: Timestamp,
) -> AuctionView {
    AuctionView {
        creator,
        offered_asset,
        in_denom,
        starting_price: starting_price.atomics as nat,
        end_price: end_price.atomics as nat,
        start_time: start_time.nanos as nat,
        end_time: end_time.nanos as nat,
        remaining_amount: offered_asset.amount,
    }
}

/// The effects of a creation: the fee goes to the admin, and the identifier,
/// the creator and the offered asset are reported.
pub open spec fn creation_effects(
    params: ParamsView,
    id: u8,
    auction: AuctionView,
) -> ResponseView {
    ResponseView {
        messages: seq![
            send_one(
                params.admin,
                params.auction_creation_fee.denom,
                params.auction_creation_fee.amount,
            ),
        ],
        attributes: seq![
            attribute("action"@, "create_auction"@),
            attribute("auction_id"@, decimal_digits(id as nat)),
            attribute("creator"@, auction.creator),
            attribute("offered_asset_denom"@, auction.offered_asset.denom),
            attribute("offered_asset_amount"@, decimal_digits(auction.offered_asset.amount)),
        ],
    }
}

/// What the creation of `auction` does at `now`, with `funds` attached: the
/// state goes from `pre` to `post` and the caller gets `r`. Every failure
/// leaves the state as it was.
pub open spec fn create_auction_post(
    pre: StateView,
    now: nat,
    funds: Seq<CoinView>,
    auction: AuctionView,
    post: StateView,
    r: Result<Response, ContractError>,
) -> bool {
    if !same_coins(funds, seq![pre.params.auction_creation_fee, auction.offered_asset]) {
        &&& r == Err::<Response, ContractError>(
            ContractError::CustomPayment(CustomPaymentError::FundsMismatch {  }),
        )
        &&& post == pre
    } else if !auction.acceptable(now, pre.params) {
        &&& r is Err
        &&& auction.rejected_with(now, pre.params, r->Err_0)
        &&& post == pre
    } else if pre.auction_index >= u8::MAX {
        &&& r == Err::<Response, ContractError>(
            ContractError::Overflow(OverflowError { operation: OverflowOperation::Add }),
        )
        &&& post == pre
    } else {
        let id = (pre.auction_index + 1) as u8;
        &&& r is Ok
        &&& r->Ok_0@ == creation_effects(pre.params, id, auction)
        &&& post == StateView {
            params: pre.params,
            auction_index: pre.auction_index + 1,
            auctions: pre.auctions.insert(id, auction),
        }
    }
}

/// Opens an auction. The attached funds have to be the creation fee and the
/// offered asset, no more and no less; the auction has to pass
/// [`Auction::validate`] at the time of the call; then it is registered under
/// the next identifier and the fee is sent to the admin.
pub fn execute_create_auction(
    state: &mut State,
    env: Env,
    info: MessageInfo,
    offered_asset: Coin,
    in_denom: String,
    starting_price: Decimal,
    end_price: Decimal,
    start_time: Timestamp,
    end_time: Timestamp,
) -> (r: Result<Response, ContractError>)
    requires
        old(state).wf(),
    ensures
        final(state).wf(),
        create_auction_post(
            old(state)@,
            env.time.nanos as nat,
            coin_views(info.funds@),
            created_auction(
                info.sender@,
                offered_asset@,
                in_denom@,
                starting_price,
                end_price,
                start_time,
                end_time,
            ),
            final(state)@,
            r,
        ),
        r is Err ==> final(state)@ == old(state)@,
{
    let params = state.params().clone();
    let mut expected_funds: Vec<Coin> = Vec::new();
    expected_funds.push(params.auction_creation_fee.clone());
    expected_funds.push(offered_asset.clone());
    assert(coin_views(expected_funds@) =~= seq![
        old(state)@.params.auction_creation_fee,
        offered_asset@,
    ]);
    match check_payment(&info.funds, &expected_funds) {
        Err(e) => {
            return Err(ContractError::CustomPayment(e));
        },
        Ok(()) => {},
    }
    let offered_denom = offered_asset.denom.clone();
    let offered_amount = offered_asset.amount;
    let auction = Auction::new(
        info.sender.clone(),
        offered_asset,
        in_denom,
        starting_price,
        end_price,
        start_time,
        end_time,
    );
    match auction.validate(env.time, params.clone()) {
        Err(e) => {
            return Err(e);
        },
        Ok(()) => {},
    }
    let id = match state.allocate_id() {
        Err(e) => {
            return Err(e);
        },
        Ok(id) => id,
    };
    state.save(id, auction);
    let creation_fee_msg = BankMsg::send(params.admin, params.auction_creation_fee);
    let response = Response::new()
        .add_attribute("action", "create_auction".to_owned())
        .add_attribute("auction_id", number_text(id as u128))
        .add_attribute("creator", info.sender)
        .add_attribute("offered_asset_denom", offered_denom)
        .add_attribute("offered_asset_amount", number_text(offered_amount))
        .add_message(creation_fee_msg);
    proof {
        let view = created_auction(
            info.sender@,
            offered_asset@,
            in_denom@,
            starting_price,
            end_price,
            start_time,
            end_time,
        );
        let effects = creation_effects(old(state)@.params, id, view);
        assert(response@.attributes =~= effects.attributes);
    }
    Ok(response)
}

/// The effects of a bid: the acquired quantity goes to the bidder, and the
/// identifier, the bidder, the payment and the acquired asset are reported.
pub open spec fn bid_effects(
    id: u8,
    bidder: Seq<char>,
    paid: nat,
    offered_denom: Seq<char>,
    acquired: nat,
) -> ResponseView {
    ResponseView {
        messages: seq![send_one(bidder, offered_denom, acquired)],
        attributes: seq![
            attribute("action"@, "bid"@),
            attribute("auction_id"@, decimal_digits(id as nat)),
            attribute("bidder"@, bidder),
            attribute("amount"@, decimal_digits(paid)),
            attribute("acquired_asset_denom"@, offered_denom),
            attribute("acquired_asset_amount"@, decimal_digits(acquired)),
        ],
    }
}

/// The quantity of the offered asset that a payment of `paid` buys at `now`:
/// the payment times the price of the moment, rounded down.
pub open spec fn acquired_amount(auction: AuctionView, now: nat, paid: nat) -> nat {
    scaled_product(paid, auction.price_at(now) as nat)
}

/// What a bid on the auction `id` does at `now`, made by `bidder` with
/// `funds` attached: the state goes from `pre` to `post` and the bidder gets
/// `r`. Every failure leaves the state as it was.
pub open spec fn bid_post(
    pre: StateView,
    now: nat,
    bidder: Seq<char>,
    funds: Seq<CoinView>,
    id: u8,
    post: StateView,
    r: Result<Response, ContractError>,
) -> bool {
    if !pre.auctions.contains_key(id) {
        &&& r == Err::<Response, ContractError>(ContractError::AuctionNotFound {  })
        &&& post == pre
    } else if !pre.auctions[id].is_active(now) {
        &&& r == Err::<Response, ContractError>(ContractError::AuctionNotActive {  })
        &&& post == pre
    } else if !(funds.len() == 1 && funds[0].amount > 0 && funds[0].denom
        == pre.auctions[id].in_denom) {
        &&& r matches Err(ContractError::Payment(e))
        &&& payment_of(funds, pre.auctions[id].in_denom, Err(e))
        &&& post == pre
    } else {
        let auction = pre.auctions[id];
        let paid = funds[0].amount;
        let acquired = acquired_amount(auction, now, paid);
        if acquired > u128::MAX {
            &&& r == Err::<Response, ContractError>(
                ContractError::Overflow(OverflowError { operation: OverflowOperation::Mul }),
            )
            &&& post == pre
        } else if acquired > auction.remaining_amount {
            &&& r == Err::<Response, ContractError>(
                ContractError::InsufficientRemainingAmount {  },
            )
            &&& post == pre
        } else {
            &&& r is Ok
            &&& r->Ok_0@ == bid_effects(id, bidder, paid, auction.offered_asset.denom, acquired)
            &&& post == StateView {
                auctions: pre.auctions.insert(id, auction.sell(acquired)),
                ..pre
            }
        }
    }
}

/// Buys from the auction `auction_id` at the price of the moment. The
/// auction has to be inside its bidding window and the attached funds have to
/// be one coin of the auction's payment asset; the payment times the price,
/// rounded down, is the quantity acquired, which the auction must still
/// hold. That quantity leaves the auction and is sent to the bidder.
pub fn execute_bid(state: &mut State, env: Env, info: MessageInfo, auction_id: u8) -> (r: Result<
    Response,
    ContractError,
>)
    requires
        old(state).wf(),
    ensures
        final(state).wf(),
        bid_post(
            old(state)@,
            env.time.nanos as nat,
            info.sender@,
            coin_views(info.funds@),
            auction_id,
            final(state)@,
            r,
        ),
        r is Ok ==> final(state)@.auctions[auction_id].remaining_amount <= old(
            state,
        )@.auctions[auction_id].remaining_amount,
        r is Err ==> final(state)@ == old(state)@,
{
    proof {
        state.lemma_wf_is_consistent();
    }
    let mut auction = match state.load(auction_id) {
        Err(e) => {
            return Err(e);
        },
        Ok(auction) => auction,
    };
    if !auction.is_active(env.time) {
        return Err(ContractError::AuctionNotActive {  });
    }
    let price = auction.calculate_price(env.time);
    let amount = match must_pay(&info, auction.in_denom.as_str()) {
        Err(e) => {
            return Err(ContractError::Payment(e));
        },
        Ok(amount) => amount,
    };
    let acquired_amount = match amount_checked_mul_floor(amount, price.atomics) {
        None => {
            return Err(
                ContractError::Overflow(OverflowError { operation: OverflowOperation::Mul }),
            );
        },
        Some(acquired_amount) => acquired_amount,
    };
    if acquired_amount > auction.remaining_amount {
        return Err(ContractError::InsufficientRemainingAmount {  });
    }
    let ghost before = auction@;
    auction.remaining_amount = auction.remaining_amount - acquired_amount;
    let offered_denom = auction.offered_asset.denom.clone();
    state.save(auction_id, auction);
    let acquired_asset = Coin::new(acquired_amount, offered_denom.clone());
    let response = Response::new()
        .add_attribute("action", "bid".to_owned())
        .add_attribute("auction_id", number_text(auction_id as u128))
        .add_attribute("bidder", info.sender.clone())
        .add_attribute("amount", number_text(amount))
        .add_attribute("acquired_asset_denom", offered_denom)
        .add_attribute("acquired_asset_amount", number_text(acquired_amount))
        .add_message(BankMsg::send(info.sender, acquired_asset));
    proof {
        let effects = bid_effects(
            auction_id,
            info.sender@,
            amount as nat,
            before.offered_asset.denom,
            acquired_amount as nat,
        );
        assert(response@.attributes =~= effects.attributes);
    }
    Ok(response)
}

/// A bid that succeeds is a sale of the quantity it delivers: that quantity
/// was still left, it leaves the auction and nothing else changes, neither
/// in this auction nor in the others; the auction stays registered, also
/// where nothing is left of it.
pub proof fn lemma_bid_is_a_sale(
    pre: StateView,
    now: nat,
    bidder: Seq<char>,
    funds: Seq<CoinView>,
    id: u8,
    post: StateView,
    r: Result<Response, ContractError>,
)
    requires
        bid_post(pre, now, bidder, funds, id, post, r),
        r is Ok,
    ensures
        pre.auctions.contains_key(id),
        acquired_amount(pre.auctions[id], now, funds[0].amount)
            <= pre.auctions[id].remaining_amount,
        post.auctions.contains_key(id),
        post.auctions[id] == pre.auctions[id].sell(
            acquired_amount(pre.auctions[id], now, funds[0].amount),
        ),
        post.auctions[id].remaining_amount + acquired_amount(
            pre.auctions[id],
            now,
            funds[0].amount,
        ) == pre.auctions[id].remaining_amount,
        post.auctions.dom() == pre.auctions.dom(),
        forall|other: u8|
            other != id && #[trigger] pre.auctions.contains_key(other) ==> post.auctions[other]
                == pre.auctions[other],
        post.params == pre.params,
        post.auction_index == pre.auction_index,
{
}

/// The parameters after a change: each field that the message holds takes
/// the place of the old one, each field that it leaves out stays.
pub open spec fn changed_params(
    old_params: ParamsView,
    auction_creation_fee: Option<Coin>,
    min_seconds_until_auction_start: Option<u64>,
    max_auction_duration: Option<u64>,
    accepted_denoms: Option<Vec<String>>,
    admin: Option<String>,
) -> ParamsView {
    ParamsView {
        auction_creation_fee: match auction_creation_fee {
            Some(fee) => fee@,
            None => old_params.auction_creation_fee,
        },
        admin: match admin {
            Some(admin) => admin@,
            None => old_params.admin,
        },
        min_seconds_until_auction_start: match min_seconds_until_auction_start {
            Some(seconds) => seconds as nat,
            None => old_params.min_seconds_until_auction_start,
        },
        max_auction_duration: match max_auction_duration {
            Some(seconds) => seconds as nat,
            None => old_params.max_auction_duration,
        },
        accepted_denoms: match accepted_denoms {
            Some(denoms) => denoms.deep_view(),
            None => old_params.accepted_denoms,
        },
    }
}

/// The effects of a change of parameters.
pub open spec fn change_params_effects() -> ResponseView {
    ResponseView {
        messages: Seq::empty(),
        attributes: seq![attribute("action"@, "change_params"@)],
    }
}

/// What a change of parameters to `new_params` does when `sender` asks for
/// it: only the admin is heard, and a refusal leaves the state as it was.
pub open spec fn change_params_post(
    pre: StateView,
    sender: Seq<char>,
    new_params: ParamsView,
    post: StateView,
    r: Result<Response, ContractError>,
) -> bool {
    if sender != pre.params.admin {
        &&& r == Err::<Response, ContractError>(ContractError::Unauthorized {  })
        &&& post == pre
    } else {
        &&& r is Ok
        &&& r->Ok_0@ == change_params_effects()
        &&& post == StateView { params: new_params, ..pre }
    }
}

/// Changes the global parameters on behalf of the admin. Each field is
/// optional: one that is given is overwritten, one that is left out keeps
/// its value. The admin itself is such a field.
pub fn execute_change_params(
    state: &mut State,
    _env: Env,
    info: MessageInfo,
    auction_creation_fee: Option<Coin>,
    min_seconds_until_auction_start: Option<u64>,
    max_auction_duration: Option<u64>,
    accepted_denoms: Option<Vec<String>>,
    admin: Option<String>,
) -> (r: Result<Response, ContractError>)
    requires
        old(state).wf(),
    ensures
        final(state).wf(),
        change_params_post(
            old(state)@,
            info.sender@,
            changed_params(
                old(state)@.params,
                auction_creation_fee,
                min_seconds_until_auction_start,
                max_auction_duration,
                accepted_denoms,
                admin,
            ),
            final(state)@,
            r,
        ),
        info.sender@ != old(state)@.params.admin ==> r == Err::<Response, ContractError>(
            ContractError::Unauthorized {  },
        ) && final(state)@ == old(state)@,
{
    let mut params = state.params().clone();
    if !(info.sender == params.admin) {
        return Err(ContractError::Unauthorized {  });
    }
    if let Some(auction_creation_fee) = auction_creation_fee {
        params.auction_creation_fee = auction_creation_fee;
    }
    if let Some(min_seconds_until_auction_start) = min_seconds_until_auction_start {
        params.min_seconds_until_auction_start = min_seconds_until_auction_start;
    }
    if let Some(max_auction_duration) = max_auction_duration {
        params.max_auction_duration = max_auction_duration;
    }
    if let Some(accepted_denoms) = accepted_denoms {
        params.accepted_denoms = accepted_denoms;
    }
    if let Some(admin) = admin {
        params.admin = admin;
    }
    state.set_params(params);
    let response = Response::new().add_attribute("action", "change_params".to_owned());
    Ok(response)
}

/// The effects of a cancellation.
pub open spec fn cancel_effects(id: u8) -> ResponseView {
    ResponseView {
        messages: Seq::empty(),
        attributes: seq![
            attribute("action"@, "cancel_auction"@),
            attribute("auction_id"@, decimal_digits(id as nat)),
        ],
    }
}

/// What the cancellation of the auction `id` does at `now` when `sender`
/// asks for it. Only the creator is heard, and only strictly before the
/// start; every failure leaves the state as it was.
pub open spec fn cancel_auction_post(
    pre: StateView,
    now: nat,
    sender: Seq<char>,
    id: u8,
    post: StateView,
    r: Result<Response, ContractError>,
) -> bool {
    if !pre.auctions.contains_key(id) {
        &&& r == Err::<Response, ContractError>(ContractError::AuctionNotFound {  })
        &&& post == pre
    } else if sender != pre.auctions[id].creator {
        &&& r == Err::<Response, ContractError>(ContractError::Unauthorized {  })
        &&& post == pre
    } else if pre.auctions[id].is_started(now) {
        &&& r == Err::<Response, ContractError>(ContractError::AuctionCannotBeCanceled {  })
        &&& post == pre
    } else {
        &&& r is Ok
        &&& r->Ok_0@ == cancel_effects(id)
        &&& post == StateView { auctions: pre.auctions.remove(id), ..pre }
    }
}

/// Withdraws the auction `auction_id` on behalf of its creator, strictly
/// before its start. The auction leaves the registry; no funds move.
pub fn execute_cancel_auction(
    state: &mut State,
    env: Env,
    info: MessageInfo,
    auction_id: u8,
) -> (r: Result<Response, ContractError>)
    requires
        old(state).wf(),
    ensures
        final(state).wf(),
        cancel_auction_post(
            old(state)@,
            env.time.nanos as nat,
            info.sender@,
            auction_id,
            final(state)@,
            r,
        ),
        old(state)@.auctions.contains_key(auction_id) && info.sender@ == old(
            state,
        )@.auctions[auction_id].creator ==> (r is Ok <==> env.time.nanos < old(
            state,
        )@.auctions[auction_id].start_time),
        old(state)@.auctions.contains_key(auction_id) && info.sender@ == old(
            state,
        )@.auctions[auction_id].creator && env.time.nanos >= old(
            state,
        )@.auctions[auction_id].start_time ==> r == Err::<Response, ContractError>(
            ContractError::AuctionCannotBeCanceled {  },
        ),
        r is Err ==> final(state)@ == old(state)@,
{
    let auction = match state.load(auction_id) {
        Err(e) => {
            return Err(e);
        },
        Ok(auction) => auction,
    };
    if !(info.sender == auction.creator) {
        return Err(ContractError::Unauthorized {  });
    }
    if auction.is_started(env.time) {
        return Err(ContractError::AuctionCannotBeCanceled {  });
    }
    state.remove(auction_id);
    let response = Response::new()
        .add_attribute("action", "cancel_auction".to_owned())
        .add_attribute("auction_id", number_text(auction_id as u128));
    proof {
        assert(response@.attributes =~= cancel_effects(auction_id).attributes);
    }
    Ok(response)
}

/// A creation that succeeds registers the auction under an identifier that
/// was not in use, leaves every other auction as it was, and keeps the
/// invariant of the registry.
pub proof fn lemma_creation_takes_a_fresh_identifier(
    pre: StateView,
    now: nat,
    funds: Seq<CoinView>,
    auction: AuctionView,
    post: StateView,
    r: Result<Response, ContractError>,
)
    requires
        pre.consistent(),
        auction.remaining_amount == auction.offered_asset.amount,
        create_auction_post(pre, now, funds, auction, post, r),
        r is Ok,
    ensures
        !pre.auctions.contains_key(post.auction_index as u8),
        post.auctions.contains_key(post.auction_index as u8),
        post.auctions[post.auction_index as u8] == auction,
        forall|id: u8| #[trigger]
            pre.auctions.contains_key(id) ==> post.auctions.contains_key(id) && post.auctions[id]
                == pre.auctions[id],
        post.consistent(),
{
}

/// What an operation does: that of the handler of its message.
pub open spec fn execute_post(
    pre: StateView,
    env: Env,
    info: MessageInfo,
    msg: ExecuteMsg,
    post: StateView,
    r: Result<Response, ContractError>,
) -> bool {
    let now = env.time.nanos as nat;
    match msg {
        ExecuteMsg::CreateAuction {
            offered_asset,
            in_denom,
            starting_price,
            end_price,
            start_time,
            end_time,
        } => create_auction_post(
            pre,
            now,
            coin_views(info.funds@),
            created_auction(
                info.sender@,
                offered_asset@,
                in_denom@,
                starting_price,
                end_price,
                start_time,
                end_time,
            ),
            post,
            r,
        ),
        ExecuteMsg::Bid { auction_id } => bid_post(
            pre,
            now,
            info.sender@,
            coin_views(info.funds@),
            auction_id,
            post,
            r,
        ),
        ExecuteMsg::ChangeParams {
            auction_creation_fee,
            min_seconds_until_auction_start,
            max_auction_duration,
            accepted_denoms,
            admin,
        } => change_params_post(
            pre,
            info.sender@,
            changed_params(
                pre.params,
                auction_creation_fee,
                min_seconds_until_auction_start,
                max_auction_duration,
                accepted_denoms,
                admin,
            ),
            post,
            r,
        ),
        ExecuteMsg::CancelAuction { auction_id } => cancel_auction_post(
            pre,
            now,
            info.sender@,
            auction_id,
            post,
            r,
        ),
    }
}

/// Carries out one operation on the state, at the time and for the caller
/// that the host attests. Either the operation succeeds, the state changes
/// and the response holds all its effects, or it fails and the state is as
/// it was.
pub fn execute(state: &mut State, env: Env, info: MessageInfo, msg: ExecuteMsg) -> (r: Result<
    Response,
    ContractError,
>)
    requires
        old(state).wf(),
    ensures
        final(state).wf(),
        execute_post(old(state)@, env, info, msg, final(state)@, r),
        r is Err ==> final(state)@ == old(state)@,
{
    match msg {
        ExecuteMsg::CreateAuction {
            offered_asset,
            in_denom,
            starting_price,
            end_price,
            start_time,
            end_time,
        } => execute_create_auction(
            state,
            env,
            info,
            offered_asset,
            in_denom,
            starting_price,
            end_price,
            start_time,
            end_time,
        ),
        ExecuteMsg::Bid { auction_id } => execute_bid(state, env, info, auction_id),
        ExecuteMsg::ChangeParams {
            auction_creation_fee,
            min_seconds_until_auction_start,
            max_auction_duration,
            accepted_denoms,
            admin,
        } => execute_change_params(
            state,
            env,
            info,
            auction_creation_fee,
            min_seconds_until_auction_start,
            max_auction_duration,
            accepted_denoms,
            admin,
        ),
        ExecuteMsg::CancelAuction { auction_id } => execute_cancel_auction(
            state,
            env,
            info,
            auction_id,
        ),
    }
}

/// The global parameters.
pub fn query_params(state: &State) -> (params: Params)
    ensures
        params@ == state@.params,
{
    state.params().clone()
}

/// The auction registered under `auction_id`.
pub fn query_auction(state: &State, auction_id: u8) -> (r: Result<Auction, ContractError>)
    requires
        state.wf(),
    ensures
        state@.auctions.contains_key(auction_id) ==> r is Ok && r->Ok_0@
            == state@.auctions[auction_id],
        !state@.auctions.contains_key(auction_id) ==> r == Err::<Auction, ContractError>(
            ContractError::AuctionNotFound {  },
        ),
{
    state.load(auction_id)
}

/// One page of the registered auctions: those with an identifier above
/// `start_after`, by ascending identifier. A page holds `limit` entries, at
/// most [`MAX_LIMIT`]; a greater limit is cut down to it, and so is the page
/// where no limit is given.
pub fn query_auctions(state: &State, start_after: Option<u8>, limit: Option<u8>) -> (page: Vec<
    (u8, Auction),
>)
    requires
        state.wf(),
    ensures
        entry_views(page@) == state@.page(start_after, page_size(limit)),
{
    let limit: u8 = match limit {
        Some(limit) => if limit <= MAX_LIMIT {
            limit
        } else {
            MAX_LIMIT
        },
        None => MAX_LIMIT,
    };
    state.range(start_after, limit)
}

/// What a question is answered with.
pub open spec fn query_post(
    state: StateView,
    msg: QueryMsg,
    r: Result<QueryResponse, ContractError>,
) -> bool {
    match msg {
        QueryMsg::Auctions { start_after, limit } => r matches Ok(QueryResponse::Auctions(page))
            && entry_views(page@) == state.page(start_after, page_size(limit)),
        QueryMsg::Auction { auction_id } => if state.auctions.contains_key(auction_id) {
            r matches Ok(QueryResponse::Auction(auction)) && auction@ == state.auctions[auction_id]
        } else {
            r == Err::<QueryResponse, ContractError>(ContractError::AuctionNotFound {  })
        },
        QueryMsg::Params {  } => r matches Ok(QueryResponse::Params(params)) && params@
            == state.params,
    }
}

/// Answers one question about the state, which it leaves as it is.
pub fn query(state: &State, _env: Env, msg: QueryMsg) -> (r: Result<QueryResponse, ContractError>)
    requires
        state.wf(),
    ensures
        query_post(state@, msg, r),
{
    match msg {
        QueryMsg::Auctions { start_after, limit } => Ok(
            QueryResponse::Auctions(query_auctions(state, start_after, limit)),
        ),
        QueryMsg::Auction { auction_id } => match query_auction(state, auction_id) {
            Ok(auction) => Ok(QueryResponse::Auction(auction)),
            Err(e) => Err(e),
        },
        QueryMsg::Params {  } => Ok(QueryResponse::Params(query_params(state))),
    }
}

} // verus!
