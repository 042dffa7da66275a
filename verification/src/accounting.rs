//! The adapter's arithmetic: what bTokens are worth, what a deposit credited, what a withdrawal
//! delivered, and what the cached total becomes.

use vstd::prelude::*;

use crate::error::{Abort, ContractError};

verus! {

/// The fixed-point base of Blend's `b_rate`. It is the same for every asset, and is not the
/// reserve's `scalar`.
pub const RATE_SCALAR: i128 = 1_000_000_000_000;

/// Whether `x` is representable as an amount.
pub open spec fn is_amount(x: int) -> bool {
    i128::MIN <= x <= i128::MAX
}

/// The quotient of `x` by `d`, rounded towards zero.
pub open spec fn truncated_quotient(x: int, d: int) -> int
    recommends
        d > 0,
{
    if x >= 0 {
        x / d
    } else {
        -((-x) / d)
    }
}

/// What `b_tokens` are worth in USDC at `b_rate`, rounded towards zero.
pub open spec fn usdc_value(b_tokens: int, b_rate: int) -> int {
    truncated_quotient(b_tokens * b_rate, RATE_SCALAR as int)
}

/// What [`b_tokens_to_usdc`] returns: the value, as long as the product behind it fits in `i128`.
pub open spec fn spec_b_tokens_to_usdc(b_tokens: i128, b_rate: i128) -> Result<i128, ContractError> {
    if is_amount(b_tokens * b_rate) {
        Ok(usdc_value(b_tokens as int, b_rate as int) as i128)
    } else {
        Err(ContractError::Overflow)
    }
}

/// A quotient by the rate's base is an amount where the dividend is.
pub proof fn lemma_value_is_amount(x: int)
    requires
        is_amount(x),
    ensures
        is_amount(truncated_quotient(x, RATE_SCALAR as int)),
{
}

/// Converts a bToken amount to its underlying USDC value at `b_rate`.
///
/// Shared by `accrue` and `withdraw`, so that the two never drift apart.
pub fn b_tokens_to_usdc(b_tokens: i128, b_rate: i128) -> (value: Result<i128, ContractError>)
    ensures
        is_amount(b_tokens * b_rate) <==> value is Ok,
        value matches Ok(v) ==> v == usdc_value(b_tokens as int, b_rate as int),
        value matches Err(e) ==> e == ContractError::Overflow,
        value == spec_b_tokens_to_usdc(b_tokens, b_rate),
        value is Ok <==> i128::MIN <= b_tokens * b_rate <= i128::MAX,
        value matches Ok(v) ==> {
            &&& b_tokens * b_rate >= 0 ==> v * 1_000_000_000_000 <= b_tokens * b_rate < (v + 1)
                * 1_000_000_000_000
            &&& b_tokens * b_rate <= 0 ==> (v - 1) * 1_000_000_000_000 < b_tokens * b_rate <= v
                * 1_000_000_000_000
        },
{
    match b_tokens.checked_mul(b_rate) {
        None => Err(ContractError::Overflow),
        Some(product) => {
            proof {
                lemma_value_is_amount(product as int);
            }
            match product.checked_div(RATE_SCALAR) {
                None => Err(ContractError::Overflow),
                Some(value) => Ok(value),
            }
        },
    }
}

/// Settles a deposit of `amount`, from the adapter's bToken balances before and after it and from
/// the cached total: the bTokens credited, as measured, and the new total.
pub open spec fn spec_settle_deposit(
    total: i128,
    amount: i128,
    before: i128,
    after: i128,
) -> Result<(i128, i128), Abort> {
    if is_amount(after - before) && is_amount(total + amount) {
        Ok(((after - before) as i128, (total + amount) as i128))
    } else {
        Err(Abort::Arithmetic)
    }
}

/// Settles a deposit: returns the bTokens credited and the new total.
pub fn settle_deposit(total: i128, amount: i128, before: i128, after: i128) -> (settled: Result<
    (i128, i128),
    Abort,
>)
    ensures
        settled == spec_settle_deposit(total, amount, before, after),
        settled is Ok <==> i128::MIN <= after - before <= i128::MAX && i128::MIN <= total + amount
            <= i128::MAX,
        settled matches Ok((credited, new_total)) ==> credited == after - before && new_total
            == total + amount,
        settled matches Err(abort) ==> abort == Abort::Arithmetic,
{
    match (after.checked_sub(before), total.checked_add(amount)) {
        (Some(credited), Some(new_total)) => Ok((credited, new_total)),
        _ => Err(Abort::Arithmetic),
    }
}

/// What is left of `total` once `delivered` has been paid out of it; never below zero.
pub open spec fn remaining_total(total: int, delivered: int) -> int {
    if total > delivered {
        total - delivered
    } else {
        0
    }
}

/// Settles a withdrawal, from the recipient's USDC balances before and after it and from the cached
/// total: the USDC delivered, as measured, and the new total.
pub open spec fn spec_settle_withdrawal(total: i128, before: i128, after: i128) -> Result<
    (i128, i128),
    Abort,
> {
    if is_amount(after - before) && is_amount(remaining_total(total as int, after - before)) {
        Ok(((after - before) as i128, remaining_total(total as int, after - before) as i128))
    } else {
        Err(Abort::Arithmetic)
    }
}

/// Settles a withdrawal: returns the USDC delivered and the new total.
pub fn settle_withdrawal(total: i128, before: i128, after: i128) -> (settled: Result<
    (i128, i128),
    Abort,
>)
    ensures
        settled == spec_settle_withdrawal(total, before, after),
        settled is Ok <==> i128::MIN <= after - before <= i128::MAX && (total > after - before
            ==> total - (after - before) <= i128::MAX),
        settled matches Ok((delivered, new_total)) ==> {
            &&& delivered == after - before
            &&& delivered < total ==> new_total == total - delivered
            &&& delivered >= total ==> new_total == 0
        },
        settled matches Err(abort) ==> abort == Abort::Arithmetic,
{
    match after.checked_sub(before) {
        None => Err(Abort::Arithmetic),
        Some(delivered) => if total > delivered {
            match total.checked_sub(delivered) {
                None => Err(Abort::Arithmetic),
                Some(remaining) => Ok((delivered, remaining)),
            }
        } else {
            Ok((delivered, 0))
        },
    }
}

} // verus!
