//! Checked fixed-point arithmetic and constant-product quoting.
//!
//! Every fee and curve computation routes through `mul_div`: the product is
//! widened to 128 bits before dividing, and the result is the floor of the
//! exact quotient.  Floor rounding always favors the curve, a deliberate
//! anti-manipulation choice.  No floating point appears anywhere.
use vstd::prelude::*;
use vstd::arithmetic::div_mod::lemma_div_of0;
use vstd::arithmetic::div_mod::lemma_div_pos_is_pos;
use vstd::arithmetic::div_mod::lemma_fundamental_div_mod;
use vstd::arithmetic::div_mod::lemma_mod_division_less_than_divisor;
use vstd::arithmetic::div_mod::lemma_multiply_divide_le;
use vstd::arithmetic::div_mod::lemma_multiply_divide_lt;
use vstd::arithmetic::mul::lemma_mul_inequality;
use vstd::arithmetic::mul::lemma_mul_is_commutative;
use vstd::arithmetic::mul::lemma_mul_nonnegative;
use vstd::arithmetic::mul::lemma_mul_upper_bound;
use crate::constants::BPS_DENOMINATOR;
use crate::errors::MathError;

verus! {

/// Floor of `a * b / d`: the exact value every trade computation is
/// specified against.
pub open spec fn mul_div_spec(a: int, b: int, d: int) -> int {
    (a * b) / d
}

/// Fee taken from `amount` at `bps` basis points, rounded down.
pub open spec fn fee_amount(amount: int, bps: int) -> int {
    (amount * bps) / (BPS_DENOMINATOR as int)
}

/// Base tokens bought with `sol_in` quote units on a constant-product
/// curve: `floor(virtual_token * sol_in / (virtual_sol + sol_in))`.
pub open spec fn buy_quote(virtual_sol: int, virtual_token: int, sol_in: int) -> int {
    (virtual_token * sol_in) / (virtual_sol + sol_in)
}

/// Quote units received for `token_in` base tokens: the symmetric inverse,
/// `floor(virtual_sol * token_in / (virtual_token + token_in))`.
pub open spec fn sell_quote(virtual_sol: int, virtual_token: int, token_in: int) -> int {
    (virtual_sol * token_in) / (virtual_token + token_in)
}

/// The product of two 64-bit values always fits the 128-bit intermediate.
pub proof fn lemma_wide_product_fits(a: u64, b: u64)
    ensures
        0 <= (a as int) * (b as int) <= u128::MAX,
{
    lemma_mul_nonnegative(a as int, b as int);
    lemma_mul_upper_bound(a as int, u64::MAX as int, b as int, u64::MAX as int);
}

/// A constant-product quote never reaches the reserve it pays out of:
/// `(reserve * amount_in) / (other + amount_in) < reserve` whenever both
/// working reserves are positive.
pub proof fn lemma_quote_below_reserve(reserve: int, other: int, amount_in: int)
    requires
        reserve > 0,
        other > 0,
        amount_in >= 0,
    ensures
        0 <= (reserve * amount_in) / (other + amount_in) < reserve,
{
    lemma_mul_nonnegative(reserve, amount_in);
    lemma_div_pos_is_pos(reserve * amount_in, other + amount_in);
    assert(reserve * amount_in < (other + amount_in) * reserve) by (nonlinear_arith)
        requires
            reserve > 0,
            other > 0,
            amount_in >= 0;
    lemma_multiply_divide_lt(reserve * amount_in, other + amount_in, reserve);
}

/// A floor-rounded fee never exceeds the amount it is taken from.
pub proof fn lemma_fee_le_amount(amount: int, bps: int)
    requires
        amount >= 0,
        0 <= bps <= BPS_DENOMINATOR,
    ensures
        0 <= fee_amount(amount, bps) <= amount,
{
    lemma_mul_nonnegative(amount, bps);
    lemma_div_pos_is_pos(amount * bps, BPS_DENOMINATOR as int);
    lemma_mul_inequality(bps, BPS_DENOMINATOR as int, amount);
    lemma_mul_is_commutative(amount, bps);
    lemma_mul_is_commutative(BPS_DENOMINATOR as int, amount);
    lemma_multiply_divide_le(amount * bps, BPS_DENOMINATOR as int, amount);
}

/// Round-trip bound: buying `buy_quote(vs, vt, net_in)` tokens with
/// `net_in` quote units and immediately selling them back returns at most
/// `net_in`.  The curve never lets a round trip profit, even before fees.
pub proof fn lemma_round_trip_no_profit(vs: int, vt: int, net_in: int)
    requires
        vs > 0,
        vt > 0,
        net_in >= 0,
    ensures
        sell_quote(
            vs + net_in,
            vt - buy_quote(vs, vt, net_in),
            buy_quote(vs, vt, net_in),
        ) <= net_in,
{
    let out = buy_quote(vs, vt, net_in);
    lemma_quote_below_reserve(vt, vs, net_in);
    // After the buy the virtual reserves are (vs + net_in, vt - out), so the
    // sell of `out` tokens quotes (vs + net_in) * out / vt.
    assert((vt - out) + out == vt);
    // Floor division leaves a nonnegative remainder: (vs + net_in) * out <= vt * net_in.
    lemma_fundamental_div_mod(vt * net_in, vs + net_in);
    lemma_mod_division_less_than_divisor(vt * net_in, vs + net_in);
    assert((vs + net_in) * out <= vt * net_in);
    lemma_multiply_divide_le((vs + net_in) * out, vt, net_in);
    assert(((vs + net_in) * out) / vt <= net_in);
}

/// Floor of `a * b / d` over a 128-bit intermediate.
///
/// Fails with `DivisionByZero` when `d == 0`, and with `Overflow` when the
/// exact quotient does not fit back into 64 bits.
pub fn mul_div(a: u64, b: u64, d: u64) -> (r: Result<u64, MathError>)
    ensures
        r is Ok <==> d != 0 && mul_div_spec(a as int, b as int, d as int) <= u64::MAX,
        r matches Ok(v) ==> v == mul_div_spec(a as int, b as int, d as int),
        r == Err::<u64, MathError>(MathError::DivisionByZero) <==> d == 0,
        r == Err::<u64, MathError>(MathError::Overflow) <==> d != 0 && mul_div_spec(
            a as int,
            b as int,
            d as int,
        ) > u64::MAX,
{
    if d == 0 {
        return Err(MathError::DivisionByZero);
    }
    proof {
        lemma_wide_product_fits(a, b);
    }
    let wide = (a as u128) * (b as u128);
    let q = wide / (d as u128);
    if q > u64::MAX as u128 {
        return Err(MathError::Overflow);
    }
    Ok(q as u64)
}

/// Base tokens received for `sol_amount` quote units, per the
/// constant-product formula
/// `tokens_out = floor(virtual_token * sol_amount / (virtual_sol + sol_amount))`.
///
/// Fails with `DivisionByZero` only when both `virtual_sol` and
/// `sol_amount` are zero; on a well-formed curve `virtual_sol` is always
/// positive, so callers there always receive the quote.
pub fn calculate_buy_amount(virtual_sol: u64, virtual_token: u64, sol_amount: u64) -> (r: Result<
    u64,
    MathError,
>)
    ensures
        r matches Ok(v) ==> v == buy_quote(virtual_sol as int, virtual_token as int, sol_amount as int),
        r is Err <==> virtual_sol == 0 && sol_amount == 0,
        r matches Err(e) ==> e == MathError::DivisionByZero,
{
    proof {
        lemma_wide_product_fits(virtual_token, sol_amount);
    }
    let numerator = (virtual_token as u128) * (sol_amount as u128);
    let denominator = (virtual_sol as u128) + (sol_amount as u128);
    if denominator == 0 {
        return Err(MathError::DivisionByZero);
    }
    let tokens_out = numerator / denominator;
    proof {
        if sol_amount == 0 {
            lemma_div_of0(virtual_sol as int + sol_amount as int);
        } else {
            lemma_quote_fits(virtual_token as int, virtual_sol as int, sol_amount as int);
        }
    }
    Ok(tokens_out as u64)
}

/// Quote units received for `token_amount` base tokens, per the symmetric
/// constant-product inverse
/// `sol_out = floor(virtual_sol * token_amount / (virtual_token + token_amount))`.
///
/// Fails with `DivisionByZero` only when both `virtual_token` and
/// `token_amount` are zero.
pub fn calculate_sell_amount(virtual_sol: u64, virtual_token: u64, token_amount: u64) -> (r: Result<
    u64,
    MathError,
>)
    ensures
        r matches Ok(v) ==> v == sell_quote(
            virtual_sol as int,
            virtual_token as int,
            token_amount as int,
        ),
        r is Err <==> virtual_token == 0 && token_amount == 0,
        r matches Err(e) ==> e == MathError::DivisionByZero,
{
    proof {
        lemma_wide_product_fits(virtual_sol, token_amount);
    }
    let numerator = (virtual_sol as u128) * (token_amount as u128);
    let denominator = (virtual_token as u128) + (token_amount as u128);
    if denominator == 0 {
        return Err(MathError::DivisionByZero);
    }
    let sol_out = numerator / denominator;
    proof {
        if token_amount == 0 {
            lemma_div_of0(virtual_token as int + token_amount as int);
        } else {
            lemma_quote_fits(virtual_sol as int, virtual_token as int, token_amount as int);
        }
    }
    Ok(sol_out as u64)
}

/// A quote paid out of a 64-bit reserve fits back into 64 bits: with a
/// positive input the quotient is bounded by the paying reserve.
proof fn lemma_quote_fits(reserve: int, other: int, amount_in: int)
    requires
        0 <= reserve <= u64::MAX,
        other >= 0,
        amount_in > 0,
    ensures
        0 <= (reserve * amount_in) / (other + amount_in) <= reserve,
{
    lemma_mul_nonnegative(reserve, amount_in);
    lemma_div_pos_is_pos(reserve * amount_in, other + amount_in);
    assert(reserve * amount_in <= (other + amount_in) * reserve) by (nonlinear_arith)
        requires
            reserve >= 0,
            other >= 0,
            amount_in > 0;
    lemma_multiply_divide_le(reserve * amount_in, other + amount_in, reserve);
}

} // verus!
