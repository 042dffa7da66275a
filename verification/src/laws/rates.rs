//! What holds of the conversion between bTokens and USDC.

use vstd::arithmetic::div_mod::lemma_div_multiples_vanish;
use vstd::prelude::*;

use crate::accounting::{
    is_amount, lemma_value_is_amount, spec_b_tokens_to_usdc, usdc_value, RATE_SCALAR,
};
use crate::error::ContractError;

verus! {

/// At par, a bToken is worth one unit of USDC.
pub proof fn law_par_is_one_to_one(b_tokens: int)
    ensures
        usdc_value(b_tokens, RATE_SCALAR as int) == b_tokens,
{
    let s = RATE_SCALAR as int;
    lemma_div_multiples_vanish(b_tokens, s);
    lemma_div_multiples_vanish(-b_tokens, s);
    assert(b_tokens * s == s * b_tokens && -(b_tokens * s) == s * (-b_tokens)) by (nonlinear_arith);
    assert(b_tokens < 0 ==> b_tokens * s < 0) by (nonlinear_arith)
        requires
            s == 1_000_000_000_000,
    ;
    assert(b_tokens >= 0 ==> b_tokens * s >= 0) by (nonlinear_arith)
        requires
            s == 1_000_000_000_000,
    ;
}

/// A value is rounded towards zero: in size it is never more than what the bTokens are worth, and
/// falls short of it by less than one unit.
pub proof fn law_value_is_rounded_towards_zero(b_tokens: int, b_rate: int)
    ensures
        b_tokens * b_rate >= 0 ==> 0 <= usdc_value(b_tokens, b_rate) * RATE_SCALAR <= b_tokens
            * b_rate < (usdc_value(b_tokens, b_rate) + 1) * RATE_SCALAR,
        b_tokens * b_rate <= 0 ==> (usdc_value(b_tokens, b_rate) - 1) * RATE_SCALAR < b_tokens
            * b_rate <= usdc_value(b_tokens, b_rate) * RATE_SCALAR <= 0,
{
}

/// A position never loses value when the rate goes up.
pub proof fn law_value_grows_with_the_rate(b_tokens: int, b_rate: int, new_rate: int)
    requires
        b_tokens >= 0,
        b_rate <= new_rate,
    ensures
        usdc_value(b_tokens, b_rate) <= usdc_value(b_tokens, new_rate),
{
    assert(b_tokens * b_rate <= b_tokens * new_rate) by (nonlinear_arith)
        requires
            b_tokens >= 0,
            b_rate <= new_rate,
    ;
}

/// More bTokens are never worth less.
pub proof fn law_value_grows_with_the_position(b_tokens: int, more: int, b_rate: int)
    requires
        b_tokens <= more,
        b_rate >= 0,
    ensures
        usdc_value(b_tokens, b_rate) <= usdc_value(more, b_rate),
{
    assert(b_tokens * b_rate <= more * b_rate) by (nonlinear_arith)
        requires
            b_tokens <= more,
            b_rate >= 0,
    ;
}

/// Redeeming a position in two parts never pays more than redeeming it whole, and at most one unit
/// less.
pub proof fn law_redeeming_in_two_parts(b_tokens: int, rest: int, b_rate: int)
    requires
        b_tokens >= 0,
        rest >= 0,
        b_rate >= 0,
    ensures
        ({
            let parts = usdc_value(b_tokens, b_rate) + usdc_value(rest, b_rate);
            parts <= usdc_value(b_tokens + rest, b_rate) <= parts + 1
        }),
{
    assert((b_tokens + rest) * b_rate == b_tokens * b_rate + rest * b_rate && b_tokens * b_rate >= 0
        && rest * b_rate >= 0) by (nonlinear_arith)
        requires
            b_tokens >= 0,
            rest >= 0,
            b_rate >= 0,
    ;
}

/// A conversion that does not overflow gives the exact value, and a position that is not negative
/// has a value that is not negative.
pub proof fn law_conversion_is_exact(b_tokens: i128, b_rate: i128)
    requires
        is_amount(b_tokens * b_rate),
    ensures
        spec_b_tokens_to_usdc(b_tokens, b_rate) matches Ok(value) && value == usdc_value(
            b_tokens as int,
            b_rate as int,
        ) && (b_tokens >= 0 && b_rate >= 0 ==> value >= 0),
{
    lemma_value_is_amount(b_tokens * b_rate);
    if b_tokens >= 0 && b_rate >= 0 {
        assert(b_tokens * b_rate >= 0) by (nonlinear_arith)
            requires
                b_tokens >= 0,
                b_rate >= 0,
        ;
    }
}

/// A conversion succeeds exactly where the product of bTokens and rate fits in an amount. It gives
/// the product over ten to the twelfth: never more than that in size, and less by under one unit.
/// Its only error is `Overflow`.
pub proof fn law_conversion_in_plain_arithmetic(b_tokens: i128, b_rate: i128)
    ensures
        match spec_b_tokens_to_usdc(b_tokens, b_rate) {
            Ok(value) => {
                &&& i128::MIN <= b_tokens * b_rate <= i128::MAX
                &&& b_tokens * b_rate >= 0 ==> value * 1_000_000_000_000 <= b_tokens * b_rate < (
                value + 1) * 1_000_000_000_000
                &&& b_tokens * b_rate <= 0 ==> (value - 1) * 1_000_000_000_000 < b_tokens * b_rate
                    <= value * 1_000_000_000_000
            },
            Err(e) => {
                &&& e == ContractError::Overflow
                &&& !(i128::MIN <= b_tokens * b_rate <= i128::MAX)
            },
        },
{
    if is_amount(b_tokens * b_rate) {
        lemma_value_is_amount(b_tokens * b_rate);
    }
}

} // verus!
