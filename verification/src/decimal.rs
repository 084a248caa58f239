//! The arithmetic that `rust_decimal` does for the ledger.
//!
//! Nothing in this file is proved: each function hands its arguments to
//! `rust_decimal::Decimal` and states what that crate returns.

use crate::amount::Amount;
use rust_decimal::Decimal;
use vstd::prelude::*;

verus! {

/// What `Decimal::checked_add` returns for `a + b`: the sum, at a scale the
/// crate picks and rounded where 96 bits cannot hold it exactly, or `None`
/// where the sum is out of range.
pub uninterp spec fn decimal_sum(a: Amount, b: Amount) -> Option<Amount>;

/// What `Decimal::checked_sub` returns for `a - b`: the difference, at a scale
/// the crate picks and rounded where 96 bits cannot hold it exactly, or `None`
/// where the difference is out of range.
pub uninterp spec fn decimal_difference(a: Amount, b: Amount) -> Option<Amount>;

/// Calls `Decimal::checked_add`. The result depends on the two operands alone
/// and is a decimal again; the contract gives it the name [`decimal_sum`] and
/// claims nothing else of it.
#[verifier::external_body]
pub(crate) fn checked_add(a: Amount, b: Amount) -> (r: Option<Amount>)
    ensures
        r == decimal_sum(a, b),
{
    let x = Decimal::from_i128_with_scale(a.mantissa, a.scale);
    let y = Decimal::from_i128_with_scale(b.mantissa, b.scale);
    match x.checked_add(y) {
        Some(d) => Some(Amount { mantissa: d.mantissa(), scale: d.scale() }),
        None => None,
    }
}

/// Calls `Decimal::checked_sub`. The result depends on the two operands alone
/// and is a decimal again; the contract gives it the name
/// [`decimal_difference`] and claims nothing else of it.
#[verifier::external_body]
pub(crate) fn checked_sub(a: Amount, b: Amount) -> (r: Option<Amount>)
    ensures
        r == decimal_difference(a, b),
{
    let x = Decimal::from_i128_with_scale(a.mantissa, a.scale);
    let y = Decimal::from_i128_with_scale(b.mantissa, b.scale);
    match x.checked_sub(y) {
        Some(d) => Some(Amount { mantissa: d.mantissa(), scale: d.scale() }),
        None => None,
    }
}

/// Calls `>` of `Decimal`, which orders decimals by the numbers they denote,
/// whatever their scales: the contract says that `a` is the greater number.
#[verifier::external_body]
pub(crate) fn greater_than(a: Amount, b: Amount) -> (r: bool)
    ensures
        r == a.exceeds(b),
{
    let x = Decimal::from_i128_with_scale(a.mantissa, a.scale);
    let y = Decimal::from_i128_with_scale(b.mantissa, b.scale);
    x > y
}

} // verus!
