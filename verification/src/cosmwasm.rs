//! The calls into `cosmwasm_std` and `cw_utils`.
//!
//! Nothing in this module is verified: each function makes one call, and its contract says
//! what the rest of the crate takes that call to do.

use crate::chain::{paid, MessageInfo};
use crate::fees::{mul_ratio, DECIMAL_FRACTIONAL};
use cosmwasm_std::{Addr, Coin, Decimal, Uint128};
use vstd::prelude::*;

verus! {

/// `Decimal::from_ratio` of `cosmwasm_std`, read back in atomic units: the quotient of the
/// two numbers with eighteen fractional digits, rounded down. The call panics on a zero
/// denominator and on a quotient beyond the range of `Decimal`.
#[verifier::external_body]
pub(crate) fn ratio_atomics(numerator: u128, denominator: u128) -> (atomics: u128)
    requires
        denominator != 0,
        mul_ratio(numerator as int, DECIMAL_FRACTIONAL as int, denominator as int) <= u128::MAX,
    ensures
        atomics == mul_ratio(numerator as int, DECIMAL_FRACTIONAL as int, denominator as int),
{
    Decimal::from_ratio(numerator, denominator).atomics().u128()
}

/// `Decimal::percent` of `cosmwasm_std`, read back in atomic units: `percent` hundredths.
#[verifier::external_body]
pub(crate) fn percent_atomics(percent: u64) -> (atomics: u128)
    ensures
        atomics == percent * 10_000_000_000_000_000,
{
    Decimal::percent(percent).atomics().u128()
}

/// The product `Uint128 * Decimal` of `cosmwasm_std`, the decimal given in atomic units:
/// `amount` times the decimal, rounded down. The call panics when the product is beyond the
/// range of `Uint128`.
#[verifier::external_body]
pub(crate) fn mul_atomics(amount: u128, atomics: u128) -> (product: u128)
    requires
        mul_ratio(amount as int, atomics as int, DECIMAL_FRACTIONAL as int) <= u128::MAX,
    ensures
        product == mul_ratio(amount as int, atomics as int, DECIMAL_FRACTIONAL as int),
{
    (Uint128::new(amount) * Decimal::new(Uint128::new(atomics))).u128()
}

/// `PaymentError` of `cw_utils`: why `must_pay` found the funds wanting. Nothing is read
/// from it.
#[verifier::external_type_specification]
#[verifier::external_body]
pub struct ExPaymentError(cw_utils::PaymentError);

/// `must_pay` of `cw_utils`, on the funds of `info`: the amount of the one coin attached, if
/// exactly one coin is attached, its amount is not zero and its denomination is `denom`;
/// an error for any other funds.
#[verifier::external_body]
pub(crate) fn must_pay(
    info: &MessageInfo,
    denom: &str,
) -> (payment: Result<u128, cw_utils::PaymentError>)
    ensures
        match payment {
            Ok(amount) => paid(info@.funds, denom@) == Some(amount),
            Err(_) => paid(info@.funds, denom@) is None,
        },
{
    let mut funds = Vec::new();
    for coin in info.funds.iter() {
        funds.push(Coin::new(coin.amount, coin.denom.clone()));
    }
    let sender = Addr::unchecked(info.sender.clone());
    match cw_utils::must_pay(&cosmwasm_std::MessageInfo { sender, funds }, denom) {
        Ok(amount) => Ok(amount.u128()),
        Err(e) => Err(e),
    }
}

} // verus!
