//! Profit, fee and funding arithmetic of positions.

use vstd::prelude::*;
use vstd::arithmetic::mul::{lemma_mul_inequality, lemma_mul_is_distributive_sub, lemma_mul_unary_negation, lemma_mul_nonnegative, lemma_mul_is_commutative};
use vstd::arithmetic::div_mod::lemma_div_is_ordered;
use crate::arith::{abs, div_ok, div_trunc, fits_i128, tdiv, lemma_tdiv_monotonic, lemma_tdiv_neg, lemma_tdiv_nonneg, lemma_tdiv_sign};
use crate::types::Direction;

verus! {

/// Price movement in the position's favour: `current - entry` for a long,
/// `entry - current` for a short.
pub open spec fn price_move(direction: Direction, entry_price: int, current_price: int) -> int {
    match direction {
        Direction::Long => current_price - entry_price,
        Direction::Short => entry_price - current_price,
    }
}

/// Unrealized profit of a position: `size * price_move / entry_price`.
pub open spec fn pnl(direction: Direction, size: int, entry_price: int, current_price: int) -> int {
    tdiv(size * price_move(direction, entry_price, current_price), entry_price)
}

/// `calculate_pnl` neither overflows nor divides by zero on these values.
pub open spec fn pnl_ok(direction: Direction, size: int, entry_price: int, current_price: int) -> bool {
    let mv = price_move(direction, entry_price, current_price);
    &&& fits_i128(mv)
    &&& div_ok(size * mv, entry_price)
}

/// Fee on a notional size: `notional_size * fee_bps / 10_000`.
pub open spec fn fee(notional_size: int, fee_bps: int) -> int {
    tdiv(notional_size * fee_bps, 10_000)
}

/// `calculate_fee` does not overflow on these values.
pub open spec fn fee_ok(notional_size: int, fee_bps: int) -> bool {
    fits_i128(notional_size * fee_bps)
}

/// Funding owed by a position: `size * (current - entry index) / 10_000`.
pub open spec fn funding_payment(size: int, entry_index: int, current_index: int) -> int {
    tdiv(size * (current_index - entry_index), 10_000)
}

/// Calculate unrealized PnL for a position.
///
/// For Long:  pnl = size * (current_price - entry_price) / entry_price
/// For Short: pnl = size * (entry_price - current_price) / entry_price
pub fn calculate_pnl(direction: &Direction, size: i128, entry_price: i128, current_price: i128) -> (r: i128)
    requires
        pnl_ok(*direction, size as int, entry_price as int, current_price as int),
    ensures
        r == pnl(*direction, size as int, entry_price as int, current_price as int),
{
    match direction {
        Direction::Long => div_trunc(size * (current_price - entry_price), entry_price),
        Direction::Short => div_trunc(size * (entry_price - current_price), entry_price),
    }
}

/// Calculate trading fee: `notional_size * fee_bps / 10_000`
pub fn calculate_fee(notional_size: i128, fee_bps: u32) -> (r: i128)
    requires
        fee_ok(notional_size as int, fee_bps as int),
    ensures
        r == fee(notional_size as int, fee_bps as int),
{
    notional_size * (fee_bps as i128) / 10_000
}

/// Calculate funding payment owed by a position.
///
/// `payment = size * (current_cumulative - entry_cumulative) / 10_000`
/// Positive = position owes funding; Negative = position receives funding.
pub fn calculate_funding_payment(size: i128, entry_funding_index: i128, current_funding_index: i128) -> (r: i128)
    requires
        fits_i128(current_funding_index - entry_funding_index),
        fits_i128(size * (current_funding_index - entry_funding_index)),
    ensures
        r == funding_payment(size as int, entry_funding_index as int, current_funding_index as int),
{
    size * (current_funding_index - entry_funding_index) / 10_000
}

/// A long and a short of the same size and entry price gain exactly
/// opposite amounts at any price.
pub proof fn lemma_pnl_long_short_opposite(size: int, entry_price: int, current_price: int)
    requires
        entry_price != 0,
    ensures
        pnl(Direction::Long, size, entry_price, current_price)
            == -pnl(Direction::Short, size, entry_price, current_price),
{
    let up = current_price - entry_price;
    lemma_mul_unary_negation(size, up);
    assert(size * (entry_price - current_price) == -(size * up)) by {
        lemma_mul_is_distributive_sub(size, entry_price, current_price);
        lemma_mul_is_distributive_sub(size, current_price, entry_price);
    }
    lemma_tdiv_neg(size * up, entry_price);
}

/// A position closed at its entry price has no profit or loss.
pub proof fn lemma_pnl_zero_at_entry(direction: Direction, size: int, entry_price: int)
    requires
        entry_price != 0,
    ensures
        pnl(direction, size, entry_price, entry_price) == 0,
{
    assert(price_move(direction, entry_price, entry_price) == 0);
    assert(size * 0 == 0);
    vstd::arithmetic::div_mod::lemma_div_of0(abs(entry_price));
}

/// For a position of nonnegative size and positive entry price, profit
/// never decreases as the price moves in the position's favour.
pub proof fn lemma_pnl_monotonic(direction: Direction, size: int, entry_price: int, price1: int, price2: int)
    requires
        0 <= size,
        0 < entry_price,
        price_move(direction, entry_price, price1) <= price_move(direction, entry_price, price2),
    ensures
        pnl(direction, size, entry_price, price1) <= pnl(direction, size, entry_price, price2),
        price_move(direction, entry_price, price1) >= 0 ==> pnl(direction, size, entry_price, price1) >= 0,
        price_move(direction, entry_price, price1) <= 0 ==> pnl(direction, size, entry_price, price1) <= 0,
{
    let m1 = price_move(direction, entry_price, price1);
    let m2 = price_move(direction, entry_price, price2);
    lemma_mul_inequality(m1, m2, size);
    lemma_mul_is_commutative(m1, size);
    lemma_mul_is_commutative(m2, size);
    lemma_tdiv_monotonic(size * m1, size * m2, entry_price);
    if m1 >= 0 {
        lemma_mul_nonnegative(size, m1);
    }
    if m1 <= 0 {
        lemma_mul_inequality(m1, 0, size);
        vstd::arithmetic::mul::lemma_mul_basics(size);
        assert(size * m1 <= 0);
    }
    lemma_tdiv_sign(size * m1, entry_price);
}

/// A fee of at most 100% on a nonnegative size is between zero and the
/// size, and grows with the size.
pub proof fn lemma_fee_bounds(size1: int, size2: int, fee_bps: int)
    requires
        0 <= size1 <= size2,
        0 <= fee_bps <= 10_000,
    ensures
        0 <= fee(size1, fee_bps) <= size1,
        fee(size1, fee_bps) <= fee(size2, fee_bps),
{
    lemma_mul_nonnegative(size1, fee_bps);
    lemma_mul_inequality(fee_bps, 10_000, size1);
    lemma_mul_is_commutative(fee_bps, size1);
    lemma_tdiv_nonneg(size1 * fee_bps, 10_000);
    lemma_div_is_ordered(size1 * fee_bps, size1 * 10_000, 10_000);
    vstd::arithmetic::div_mod::lemma_div_by_multiple(size1, 10_000);
    lemma_mul_inequality(size1, size2, fee_bps);
    lemma_tdiv_monotonic(size1 * fee_bps, size2 * fee_bps, 10_000);
}

/// A charge of `bps` on the collateral of a liquidated position, capped at
/// the equity left after its PnL, and nothing when no equity is left.
pub open spec fn liquidation_charge(collateral: int, pnl: int, bps: int) -> int {
    let remaining = collateral + pnl;
    let raw = tdiv(collateral * bps, 10_000);
    if remaining > 0 {
        if raw < remaining {
            raw
        } else {
            remaining
        }
    } else {
        0
    }
}

/// A charge of `bps` on `collateral`, capped at the equity left after `pnl`.
pub fn charge(collateral: i128, pnl: i128, bps: u32) -> (c: i128)
    requires
        fits_i128(collateral + pnl),
        collateral + pnl > 0 ==> fits_i128(collateral * bps),
    ensures
        c == liquidation_charge(collateral as int, pnl as int, bps as int),
{
    let remaining = collateral + pnl;
    if remaining > 0 {
        let raw = collateral * (bps as i128) / 10_000;
        if raw < remaining {
            raw
        } else {
            remaining
        }
    } else {
        0
    }
}


/// How the equity left to a liquidated position is shared: the keeper's
/// reward and the penalty that the pool keeps are each charged on the
/// collateral and capped at the equity left (`liquidation_charge`); the
/// trader is owed the rest, which is negative, and then not paid, when the
/// two together exceed the equity. The triple is (keeper reward, penalty,
/// trader's rest).
pub open spec fn liquidation_split(collateral: int, pnl: int, penalty_bps: int, reward_bps: int) -> (int, int, int) {
    let reward = liquidation_charge(collateral, pnl, reward_bps);
    let penalty = liquidation_charge(collateral, pnl, penalty_bps);
    (reward, penalty, collateral + pnl - reward - penalty)
}

/// The keeper reward and the penalty of `liquidation_split`.
pub fn split_liquidation(collateral: i128, pnl: i128, penalty_bps: u32, reward_bps: u32) -> (s: (i128, i128))
    requires
        fits_i128(collateral + pnl),
        collateral + pnl > 0 ==> fits_i128(collateral * penalty_bps) && fits_i128(collateral * reward_bps),
    ensures
        s.0 == liquidation_split(collateral as int, pnl as int, penalty_bps as int, reward_bps as int).0,
        s.1 == liquidation_split(collateral as int, pnl as int, penalty_bps as int, reward_bps as int).1,
{
    let reward = charge(collateral, pnl, reward_bps);
    let penalty = charge(collateral, pnl, penalty_bps);
    (reward, penalty)
}

/// A charge on a positive collateral at a nonnegative rate is never negative
/// and never more than the equity left, when some is left.
pub proof fn lemma_charge_nonneg(collateral: int, pnl: int, bps: int)
    requires
        0 < collateral,
        0 <= bps,
    ensures
        0 <= liquidation_charge(collateral, pnl, bps),
        collateral + pnl > 0 ==> liquidation_charge(collateral, pnl, bps) <= collateral + pnl,
        collateral + pnl <= 0 ==> liquidation_charge(collateral, pnl, bps) == 0,
{
    lemma_mul_nonnegative(collateral, bps);
    lemma_tdiv_nonneg(collateral * bps, 10_000);
}

/// Reward and penalty of a liquidation are never negative and each at most
/// the equity left; when the loss is capped at the collateral, the three
/// parts add up to the equity.
pub proof fn lemma_liquidation_split(collateral: int, pnl: int, penalty_bps: int, reward_bps: int)
    requires
        0 < collateral,
        pnl >= -collateral,
        0 <= penalty_bps,
        0 <= reward_bps,
    ensures
        ({
            let (reward, penalty, rest) = liquidation_split(collateral, pnl, penalty_bps, reward_bps);
            &&& 0 <= reward <= collateral + pnl
            &&& 0 <= penalty <= collateral + pnl
            &&& reward + penalty + rest == collateral + pnl
        }),
{
    lemma_charge_nonneg(collateral, pnl, reward_bps);
    lemma_charge_nonneg(collateral, pnl, penalty_bps);
}

} // verus!
