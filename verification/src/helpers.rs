//! What a message has to carry in funds, and what it carries.

use vstd::prelude::*;
use vstd::seq_lib::to_multiset_build;

use crate::coin::{coin_views, Coin, CoinView};
use crate::context::MessageInfo;
use crate::error::{CustomPaymentError, PaymentError};

verus! {

/// Whether two lists hold the same coins, each as often as the other,
/// whatever the order.
pub open spec fn same_coins(sent: Seq<CoinView>, expected: Seq<CoinView>) -> bool {
    sent.to_multiset() =~= expected.to_multiset()
}

/// How often `coin` occurs in `coins`.
fn count_coin(coins: &Vec<Coin>, coin: &Coin) -> (n: usize)
    ensures
        n == coin_views(coins@).to_multiset().count(coin@),
{
    let ghost views = coin_views(coins@);
    let mut n: usize = 0;
    let mut i: usize = 0;
    proof {
        views.take(0).to_multiset_ensures();
    }
    while i < coins.len()
        invariant
            i <= coins.len(),
            n <= i,
            views == coin_views(coins@),
            n == views.take(i as int).to_multiset().count(coin@),
        decreases coins.len() - i,
    {
        proof {
            assert(views.take(i + 1) =~= views.take(i as int).push(views[i as int]));
            to_multiset_build(views.take(i as int), views[i as int]);
        }
        if coins[i].same_as(coin) {
            n += 1;
        }
        i += 1;
    }
    assert(views.take(coins.len() as int) =~= views);
    n
}

/// Accepts the attached funds where they are, coin for coin and whatever the
/// order, the expected funds; any coin that is missing, extra, of another
/// denomination or of another amount is a mismatch.
pub fn check_payment(sent_funds: &Vec<Coin>, expected_funds: &Vec<Coin>) -> (r: Result<
    (),
    CustomPaymentError,
>)
    ensures
        r is Ok <==> same_coins(coin_views(sent_funds@), coin_views(expected_funds@)),
        r is Err ==> r == Err::<(), CustomPaymentError>(CustomPaymentError::FundsMismatch {  }),
{
    let ghost sent = coin_views(sent_funds@);
    let ghost expected = coin_views(expected_funds@);
    let mut i: usize = 0;
    while i < expected_funds.len()
        invariant
            i <= expected_funds.len(),
            sent == coin_views(sent_funds@),
            expected == coin_views(expected_funds@),
            forall|k: int|
                0 <= k < i ==> sent.to_multiset().count(#[trigger] expected[k])
                    == expected.to_multiset().count(expected[k]),
        decreases expected_funds.len() - i,
    {
        let coin = &expected_funds[i];
        if count_coin(sent_funds, coin) != count_coin(expected_funds, coin) {
            return Err(CustomPaymentError::FundsMismatch {  });
        }
        i += 1;
    }
    let mut j: usize = 0;
    while j < sent_funds.len()
        invariant
            j <= sent_funds.len(),
            sent == coin_views(sent_funds@),
            expected == coin_views(expected_funds@),
            forall|k: int|
                0 <= k < j ==> sent.to_multiset().count(#[trigger] sent[k])
                    == expected.to_multiset().count(sent[k]),
        decreases sent_funds.len() - j,
    {
        let coin = &sent_funds[j];
        if count_coin(sent_funds, coin) != count_coin(expected_funds, coin) {
            return Err(CustomPaymentError::FundsMismatch {  });
        }
        j += 1;
    }
    proof {
        sent.to_multiset_ensures();
        expected.to_multiset_ensures();
        assert forall|c: CoinView| sent.to_multiset().count(c) == expected.to_multiset().count(
            c,
        ) by {
            if sent.contains(c) {
                let k = choose|k: int| 0 <= k < sent.len() && sent[k] == c;
                assert(sent.to_multiset().count(sent[k]) == expected.to_multiset().count(sent[k]));
            } else if expected.contains(c) {
                let k = choose|k: int| 0 <= k < expected.len() && expected[k] == c;
                assert(sent.to_multiset().count(expected[k]) == expected.to_multiset().count(
                    expected[k],
                ));
            }
        }
    }
    Ok(())
}

/// What a payment in `denom` amounts to, given the attached funds: the amount
/// of the single coin attached, where it is of that denomination and not zero.
pub open spec fn payment_of(
    funds: Seq<CoinView>,
    denom: Seq<char>,
    r: Result<u128, PaymentError>,
) -> bool {
    if funds.len() == 0 {
        r == Err::<u128, PaymentError>(PaymentError::NoFunds {  })
    } else if funds.len() > 1 {
        r == Err::<u128, PaymentError>(PaymentError::MultipleDenoms {  })
    } else if funds[0].amount == 0 {
        r == Err::<u128, PaymentError>(PaymentError::NoFunds {  })
    } else if funds[0].denom != denom {
        r matches Err(PaymentError::MissingDenom(asked)) && asked@ == denom
    } else {
        r == Ok::<u128, PaymentError>(funds[0].amount as u128)
    }
}

/// Calls `cw_utils::must_pay` on the attached funds: the amount paid in
/// `denom`. The outside function asks for exactly one coin, of a non-zero
/// amount and of the denomination `denom`, and says which of these failed.
#[verifier::external_body]
pub(crate) fn must_pay(info: &MessageInfo, denom: &str) -> (r: Result<u128, PaymentError>)
    ensures
        payment_of(coin_views(info.funds@), denom@, r),
{
    let funds = info.funds.iter().map(|c| cosmwasm_std::Coin::new(c.amount, c.denom.clone()));
    let sender = cosmwasm_std::Addr::unchecked(info.sender.clone());
    match cw_utils::must_pay(&cosmwasm_std::MessageInfo { sender, funds: funds.collect() }, denom) {
        Ok(amount) => Ok(amount.u128()),
        Err(cw_utils::PaymentError::MissingDenom(d)) => Err(PaymentError::MissingDenom(d)),
        Err(cw_utils::PaymentError::ExtraDenom(d)) => Err(PaymentError::ExtraDenom(d)),
        Err(cw_utils::PaymentError::MultipleDenoms {}) => Err(PaymentError::MultipleDenoms {}),
        Err(cw_utils::PaymentError::NoFunds {}) => Err(PaymentError::NoFunds {}),
        Err(cw_utils::PaymentError::NonPayable {}) => Err(PaymentError::NonPayable {}),
    }
}

} // verus!
