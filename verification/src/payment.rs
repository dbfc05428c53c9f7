use vstd::prelude::*;
use cosmwasm_std::{Addr, MessageInfo, Uint128};
use cw_utils::PaymentError;
use crate::error::ContractError;
use crate::msg::Coin;

verus! {

/// What validating an attached payment yields: exactly one coin of `denom`
/// with a positive amount must be attached, and the amount is returned.
///
/// No funds at all, or a single coin of amount zero, is a missing payment;
/// two or more coins are an extra denomination; a single positive coin of
/// another denomination is the wrong denomination.
pub open spec fn spec_must_pay(funds: Seq<Coin>, denom: Seq<char>) -> Result<u128, ContractError> {
    if funds.len() == 0 {
        Err(ContractError::MissingPayment)
    } else if funds.len() > 1 {
        Err(ContractError::ExtraDenom)
    } else if funds[0].amount == 0 {
        Err(ContractError::MissingPayment)
    } else if funds[0].denom@ != denom {
        Err(ContractError::WrongDenom)
    } else {
        Ok(funds[0].amount)
    }
}

/// Relies on `cw_utils::must_pay` (with `cw_utils::one_coin`): it returns
/// the attached amount when the funds are exactly one coin of `denom` with a
/// positive amount, and otherwise fails with `NoFunds` (no coins, or one
/// coin of amount zero), `MultipleDenoms` (two or more coins), or
/// `MissingDenom` (one positive coin of another denomination).
#[verifier::external_body]
pub(crate) fn must_pay(funds: &Vec<Coin>, denom: &str) -> (r: Result<u128, ContractError>)
    ensures
        r == spec_must_pay(funds@, denom@),
{
    let coin = |c: &Coin| cosmwasm_std::Coin { denom: c.denom.clone(), amount: Uint128::new(c.amount) };
    let info = MessageInfo { sender: Addr::unchecked(""), funds: funds.iter().map(coin).collect() };
    match cw_utils::must_pay(&info, denom) {
        Ok(amount) => Ok(amount.u128()),
        Err(PaymentError::NoFunds {}) => Err(ContractError::MissingPayment),
        Err(PaymentError::MultipleDenoms {}) => Err(ContractError::ExtraDenom),
        Err(PaymentError::MissingDenom(_)) => Err(ContractError::WrongDenom),
        Err(PaymentError::ExtraDenom(_)) => Err(ContractError::ExtraDenom),
        Err(PaymentError::NonPayable {}) => Err(ContractError::MissingPayment),
    }
}

} // verus!
