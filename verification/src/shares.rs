//! Share accounting of the liquidity vault.

use vstd::prelude::*;
use vstd::arithmetic::div_mod::*;
use vstd::arithmetic::mul::*;
use crate::arith::{tdiv, div_ok, div_trunc, lemma_tdiv_exact, lemma_tdiv_nonneg, lemma_tdiv_monotonic};
use crate::DECIMALS;

verus! {

/// Shares minted for a deposit of `amount`: one share per unit for the
/// first deposit (no shares or no deposits yet), otherwise
/// `amount * total_shares / total_deposits`.
pub open spec fn shares_to_mint(amount: int, total_shares: int, total_deposits: int) -> int {
    if total_shares == 0 || total_deposits == 0 {
        amount
    } else {
        tdiv(amount * total_shares, total_deposits)
    }
}

/// USDC returned for burning `shares`: `shares * total_deposits / total_shares`,
/// or nothing when no shares exist.
pub open spec fn withdrawal_amount(shares: int, total_shares: int, total_deposits: int) -> int {
    if total_shares == 0 {
        0
    } else {
        tdiv(shares * total_deposits, total_shares)
    }
}

/// Price of one share with seven decimals: `total_deposits * DECIMALS / total_shares`,
/// or exactly one when no shares exist.
pub open spec fn share_price(total_shares: int, total_deposits: int) -> int {
    if total_shares == 0 {
        DECIMALS as int
    } else {
        tdiv(total_deposits * DECIMALS, total_shares)
    }
}

/// Locked liquidity as a fraction of deposits, in basis points, before the
/// conversion to `u32`.
pub open spec fn utilization_bps(locked: int, total_deposits: int) -> int {
    if total_deposits == 0 {
        0
    } else {
        tdiv(locked * 10_000, total_deposits)
    }
}

/// Calculate shares to mint for a given deposit amount.
///
/// If no shares exist yet (first deposit), mint 1:1.
/// Otherwise: `shares = amount * total_shares / total_deposits`
pub fn calc_shares_to_mint(amount: i128, total_shares: i128, total_deposits: i128) -> (shares: i128)
    requires
        total_shares != 0 && total_deposits != 0 ==> div_ok(
            amount * total_shares,
            total_deposits as int,
        ),
    ensures
        shares == shares_to_mint(amount as int, total_shares as int, total_deposits as int),
{
    if total_shares == 0 || total_deposits == 0 {
        amount
    } else {
        div_trunc(amount * total_shares, total_deposits)
    }
}

/// Calculate USDC to return for a given number of shares being burned.
///
/// `usdc = shares * total_deposits / total_shares`
pub fn calc_withdrawal_amount(shares: i128, total_shares: i128, total_deposits: i128) -> (usdc: i128)
    requires
        total_shares != 0 ==> div_ok(shares * total_deposits, total_shares as int),
    ensures
        usdc == withdrawal_amount(shares as int, total_shares as int, total_deposits as int),
{
    if total_shares == 0 {
        0
    } else {
        div_trunc(shares * total_deposits, total_shares)
    }
}

/// Calculate the current share price (7 decimals).
///
/// `price = total_deposits * DECIMALS / total_shares`
pub fn calc_share_price(total_shares: i128, total_deposits: i128) -> (price: i128)
    requires
        total_shares != 0 ==> div_ok(total_deposits * DECIMALS, total_shares as int),
    ensures
        price == share_price(total_shares as int, total_deposits as int),
{
    if total_shares == 0 {
        DECIMALS
    } else {
        div_trunc(total_deposits * DECIMALS, total_shares)
    }
}

/// Calculate utilization in basis points.
///
/// `utilization = locked * 10000 / total_deposits`, converted to `u32`
/// (keeping the low 32 bits).
pub fn calc_utilization_bps(locked: i128, total_deposits: i128) -> (bps: u32)
    requires
        total_deposits != 0 ==> div_ok(locked * 10_000, total_deposits as int),
    ensures
        bps == utilization_bps(locked as int, total_deposits as int) as u32,
{
    if total_deposits == 0 {
        0
    } else {
        div_trunc(locked * 10_000, total_deposits) as u32
    }
}

/// A deposit followed at once by a withdrawal of the shares it minted
/// returns at most the amount deposited: rounding never lets a depositor
/// take value out of the pool. (Laid down for a pool that holds both shares
/// and deposits, or neither.)
pub proof fn lemma_deposit_withdraw_round_trip(amount: int, total_shares: int, total_deposits: int)
    requires
        0 <= amount,
        (0 < total_shares && 0 < total_deposits) || (total_shares == 0 && total_deposits == 0),
    ensures
        ({
            let minted = shares_to_mint(amount, total_shares, total_deposits);
            withdrawal_amount(minted, total_shares + minted, total_deposits + amount) <= amount
        }),
{
    let s = total_shares;
    let d = total_deposits;
    let m = shares_to_mint(amount, s, d);
    if s == 0 {
        if amount > 0 {
            lemma_tdiv_exact(amount, amount);
            lemma_mul_is_commutative(amount, amount);
        }
    } else {
        lemma_mul_nonnegative(amount, s);
        lemma_tdiv_nonneg(amount * s, d);
        assert(m == (amount * s) / d);
        lemma_fundamental_div_mod(amount * s, d);
        lemma_mul_is_commutative(d, m);
        // m * d <= amount * s
        assert(m * d <= amount * s);
        lemma_mul_is_distributive_add(m, d, amount);
        lemma_mul_is_distributive_add(amount, s, m);
        lemma_mul_is_commutative(m, amount);
        assert(m * (d + amount) <= amount * (s + m));
        lemma_mul_nonnegative(m, d + amount);
        lemma_tdiv_nonneg(m * (d + amount), s + m);
        lemma_div_is_ordered(m * (d + amount), amount * (s + m), s + m);
        lemma_div_by_multiple(amount, s + m);
    }
}

/// A deposit never lowers the share price: the shares it mints are rounded
/// down, so what each share is worth can only rise. (Laid down for a pool
/// whose shares and deposits are not negative.)
pub proof fn lemma_deposit_never_dilutes(amount: int, total_shares: int, total_deposits: int)
    requires
        0 < amount,
        0 <= total_shares,
        0 <= total_deposits,
    ensures
        share_price(
            total_shares + shares_to_mint(amount, total_shares, total_deposits),
            total_deposits + amount,
        ) >= share_price(total_shares, total_deposits),
{
    let k = DECIMALS as int;
    let s = total_shares;
    let d = total_deposits;
    let m = shares_to_mint(amount, s, d);
    let d2 = d + amount;
    if s == 0 {
        // The first shares are minted one per unit, at a price of at least one.
        lemma_mul_inequality(amount, d2, k);
        lemma_mul_is_commutative(amount, k);
        lemma_mul_nonnegative(d2, k);
        lemma_tdiv_nonneg(d2 * k, amount);
        lemma_div_is_ordered(amount * k, d2 * k, amount);
        lemma_div_by_multiple(k, amount);
    } else if d == 0 {
        lemma_mul_nonnegative(d2, k);
        lemma_tdiv_nonneg(d2 * k, s + m);
    } else {
        lemma_mul_nonnegative(amount, s);
        lemma_tdiv_nonneg(amount * s, d);
        assert(m == (amount * s) / d);
        lemma_fundamental_div_mod(amount * s, d);
        lemma_mod_bound(amount * s, d);
        assert(d * m <= amount * s) by (nonlinear_arith)
            requires
                amount * s == d * m + (amount * s) % d,
                0 <= (amount * s) % d,
        ;
        let s2 = s + m;
        lemma_mul_nonnegative(d, k);
        lemma_tdiv_nonneg(d * k, s);
        let q = (d * k) / s;
        lemma_fundamental_div_mod(d * k, s);
        lemma_mod_bound(d * k, s);
        assert(q * s2 <= d2 * k) by (nonlinear_arith)
            requires
                d * k == s * q + (d * k) % s,
                0 <= (d * k) % s,
                d * m <= amount * s,
                s > 0,
                k > 0,
                q >= 0,
                m >= 0,
                s2 == s + m,
                d2 == d + amount,
        ;
        lemma_mul_nonnegative(d2, k);
        lemma_tdiv_nonneg(d2 * k, s2);
        lemma_div_is_ordered(q * s2, d2 * k, s2);
        lemma_div_by_multiple(q, s2);
    }
}

/// Burning every share pays out every deposit.
pub proof fn lemma_full_withdrawal(total_shares: int, total_deposits: int)
    requires
        0 < total_shares,
    ensures
        withdrawal_amount(total_shares, total_shares, total_deposits) == total_deposits,
{
    lemma_mul_is_commutative(total_shares, total_deposits);
    lemma_tdiv_exact(total_deposits, total_shares);
}

/// More deposits behind the same shares never lower the share price.
pub proof fn lemma_share_price_monotonic(total_shares: int, deposits1: int, deposits2: int)
    requires
        0 < total_shares,
        deposits1 <= deposits2,
    ensures
        share_price(total_shares, deposits1) <= share_price(total_shares, deposits2),
{
    lemma_mul_inequality(deposits1, deposits2, DECIMALS as int);
    lemma_tdiv_monotonic(deposits1 * DECIMALS, deposits2 * DECIMALS, total_shares);
}

/// The first deposit into an empty pool mints one share per unit.
pub proof fn lemma_first_deposit_one_to_one(amount: int, total_deposits: int)
    ensures
        shares_to_mint(amount, 0, total_deposits) == amount,
        shares_to_mint(amount, total_deposits, 0) == amount,
{
}

} // verus!
