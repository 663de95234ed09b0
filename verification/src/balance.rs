//! Pool-level value conservation.
//!
//! The pool's live balances are the derivative-token supply and the total
//! pooled native value. A deposit adds native value and mints derivative
//! units at the current rate; a withdrawal burns derivative units and
//! redeems native value at that rate. Both conversions round down, toward
//! the pool, and the handlers admit them only in the epoch the rate was
//! computed for (their staleness guard), so one recorded rate governs the
//! whole sequence the model ranges over.
//! This module states and proves the invariant that discipline buys: under
//! any sequence of deposits and withdrawals, the derivative supply
//! converted back at the current rate never exceeds the pooled native
//! value, so the pool can always cover every receipt token in circulation.

use vstd::prelude::*;

use crate::error::LidoError;
use crate::state::ExchangeRate;
use crate::token::{spec_mul_div_floor, Lamports, StLamports};
use vstd::arithmetic::div_mod::{
    lemma_div_is_ordered, lemma_div_multiples_vanish, lemma_fundamental_div_mod, lemma_mod_bound,
};

verus! {

/// The live balances of the pool: what the mint and the pooled accounts
/// hold right now, between rate recomputations.
#[derive(Clone, Copy, Debug, PartialEq, Eq, Structural)]
pub struct PoolBalances {
    /// Total derivative-token supply in circulation.
    pub st_sol_supply: StLamports,
    /// Total pooled native value (reserve plus stake accounts).
    pub sol_balance: Lamports,
}

/// One user-facing pool operation.
#[derive(Clone, Copy, Debug, PartialEq, Eq, Structural)]
pub enum PoolOp {
    Deposit { amount_sol: Lamports },
    Withdraw { amount_st_sol: StLamports },
}

/// The conservation relation between the recorded rate and the live
/// balances: the derivative supply, valued at the rate, does not exceed
/// the pooled native value. Stated in exact multiplicative form
/// (`supply * rate_numerator <= pooled * rate_denominator`), which for a
/// positive denominator is `supply × rate⁻¹ ≤ pooled` without rounding.
pub open spec fn conserves_value(rate: ExchangeRate, pool: PoolBalances) -> bool {
    pool.st_sol_supply.0 * rate.sol_balance.0 <= pool.sol_balance.0 * rate.st_sol_supply.0
}

/// What a deposit mints at this rate: derivative units floored at the
/// rate, or one-to-one while the recorded supply is zero. This is the
/// formula the deposit handler converts by once its epoch-staleness
/// guard passes (`Lido::spec_deposit`).
pub open spec fn spec_minted_on_deposit(rate: ExchangeRate, amount: Lamports) -> Result<
    StLamports,
    LidoError,
> {
    if rate.st_sol_supply.0 == 0 {
        Ok(StLamports(amount.0))
    } else {
        rate.spec_exchange_sol(amount)
    }
}

/// What a deposit of `amount` does to the live balances: native value in,
/// freshly minted derivative units out, at the recorded rate. A deposit
/// the substrate would reject (conversion undefined, or a balance leaving
/// the 64-bit range) changes nothing.
pub open spec fn spec_apply_deposit(
    rate: ExchangeRate,
    pool: PoolBalances,
    amount: Lamports,
) -> PoolBalances {
    match spec_minted_on_deposit(rate, amount) {
        Ok(m) => if pool.sol_balance.0 + amount.0 <= u64::MAX && pool.st_sol_supply.0 + m.0
            <= u64::MAX {
            PoolBalances {
                st_sol_supply: StLamports((pool.st_sol_supply.0 + m.0) as u64),
                sol_balance: Lamports((pool.sol_balance.0 + amount.0) as u64),
            }
        } else {
            pool
        },
        Err(_) => pool,
    }
}

/// What a withdrawal of `amount` derivative units does to the live
/// balances: the units burn and the pool pays out their value at the
/// recorded rate, rounded down. A withdrawal the substrate would reject
/// (conversion undefined, more units than the supply, or more value than
/// the pool holds) changes nothing.
pub open spec fn spec_apply_withdraw(
    rate: ExchangeRate,
    pool: PoolBalances,
    amount: StLamports,
) -> PoolBalances {
    match rate.spec_exchange_st_sol(amount) {
        Ok(x) => if amount.0 <= pool.st_sol_supply.0 && x.0 <= pool.sol_balance.0 {
            PoolBalances {
                st_sol_supply: StLamports((pool.st_sol_supply.0 - amount.0) as u64),
                sol_balance: Lamports((pool.sol_balance.0 - x.0) as u64),
            }
        } else {
            pool
        },
        Err(_) => pool,
    }
}

/// One step of the pool model.
pub open spec fn spec_apply_op(rate: ExchangeRate, pool: PoolBalances, op: PoolOp) -> PoolBalances {
    match op {
        PoolOp::Deposit { amount_sol } => spec_apply_deposit(rate, pool, amount_sol),
        PoolOp::Withdraw { amount_st_sol } => spec_apply_withdraw(rate, pool, amount_st_sol),
    }
}

/// The pool after a whole sequence of deposits and withdrawals, applied
/// in order at one recorded rate.
pub open spec fn spec_apply_ops(rate: ExchangeRate, pool: PoolBalances, ops: Seq<PoolOp>) -> PoolBalances
    decreases ops.len(),
{
    if ops.len() == 0 {
        pool
    } else {
        spec_apply_ops(rate, spec_apply_op(rate, pool, ops[0]), ops.subrange(1, ops.len() as int))
    }
}

/// A deposit preserves the conservation relation: the minted units are
/// floored at the rate, so they are worth no more than the value that
/// came in.
proof fn lemma_deposit_preserves_value(rate: ExchangeRate, pool: PoolBalances, amount: Lamports)
    requires
        rate.st_sol_supply.0 > 0,
        conserves_value(rate, pool),
    ensures
        conserves_value(rate, spec_apply_deposit(rate, pool, amount)),
{
    let s = rate.st_sol_supply.0 as int;
    let b = rate.sol_balance.0 as int;
    let d = amount.0 as int;
    let sup = pool.st_sol_supply.0 as int;
    let bal = pool.sol_balance.0 as int;
    if b > 0 && spec_mul_div_floor(amount.0, rate.st_sol_supply.0, rate.sol_balance.0)
        <= u64::MAX {
        let m = spec_mul_div_floor(amount.0, rate.st_sol_supply.0, rate.sol_balance.0);
        if bal + d <= u64::MAX && sup + m <= u64::MAX {
            lemma_fundamental_div_mod(d * s, b);
            lemma_mod_bound(d * s, b);
            assert(m * b <= d * s) by (nonlinear_arith)
                requires
                    d * s == b * m + (d * s) % b,
                    0 <= (d * s) % b,
            {}
            assert((sup + m) * b <= (bal + d) * s) by (nonlinear_arith)
                requires
                    sup * b <= bal * s,
                    m * b <= d * s,
            {}
        }
    }
}

/// A withdrawal preserves the conservation relation: the native value
/// paid out is floored at the rate, so it is worth no more than the units
/// that burned.
proof fn lemma_withdraw_preserves_value(rate: ExchangeRate, pool: PoolBalances, amount: StLamports)
    requires
        rate.st_sol_supply.0 > 0,
        conserves_value(rate, pool),
    ensures
        conserves_value(rate, spec_apply_withdraw(rate, pool, amount)),
{
    let s = rate.st_sol_supply.0 as int;
    let b = rate.sol_balance.0 as int;
    let w = amount.0 as int;
    let sup = pool.st_sol_supply.0 as int;
    let bal = pool.sol_balance.0 as int;
    if spec_mul_div_floor(amount.0, rate.sol_balance.0, rate.st_sol_supply.0) <= u64::MAX {
        let x = spec_mul_div_floor(amount.0, rate.sol_balance.0, rate.st_sol_supply.0);
        if w <= sup && x <= bal {
            lemma_fundamental_div_mod(w * b, s);
            lemma_mod_bound(w * b, s);
            assert(x * s <= w * b) by (nonlinear_arith)
                requires
                    w * b == s * x + (w * b) % s,
                    0 <= (w * b) % s,
            {}
            assert((sup - w) * b <= (bal - x) * s) by (nonlinear_arith)
                requires
                    sup * b <= bal * s,
                    x * s <= w * b,
            {}
        }
    }
}

/// Value conservation: under any sequence of deposits and withdrawals at
/// an established rate, the derivative supply valued at that rate never
/// exceeds the pooled native value. Rejected operations leave the pool
/// unchanged, so they preserve the relation trivially; accepted ones
/// preserve it because every conversion rounds down toward the pool.
pub proof fn lemma_value_conservation(rate: ExchangeRate, pool: PoolBalances, ops: Seq<PoolOp>)
    requires
        rate.st_sol_supply.0 > 0,
        conserves_value(rate, pool),
    ensures
        conserves_value(rate, spec_apply_ops(rate, pool, ops)),
    decreases ops.len(),
{
    if ops.len() > 0 {
        match ops[0] {
            PoolOp::Deposit { amount_sol } => lemma_deposit_preserves_value(rate, pool, amount_sol),
            PoolOp::Withdraw { amount_st_sol } => lemma_withdraw_preserves_value(rate, pool, amount_st_sol),
        }
        lemma_value_conservation(
            rate,
            spec_apply_op(rate, pool, ops[0]),
            ops.subrange(1, ops.len() as int),
        );
    }
}

/// The user-facing reading of the conservation relation: redeeming the
/// whole derivative supply at the current rate (rounded down, as every
/// conversion is) yields at most the pooled native value.
pub proof fn lemma_conserved_redemption_bounded(rate: ExchangeRate, pool: PoolBalances)
    requires
        rate.st_sol_supply.0 > 0,
        conserves_value(rate, pool),
    ensures
        spec_mul_div_floor(pool.st_sol_supply.0, rate.sol_balance.0, rate.st_sol_supply.0)
            <= pool.sol_balance.0,
{
    let s = rate.st_sol_supply.0 as int;
    let b = rate.sol_balance.0 as int;
    let sup = pool.st_sol_supply.0 as int;
    let bal = pool.sol_balance.0 as int;
    assert(sup * b <= bal * s);
    lemma_div_is_ordered(sup * b, bal * s, s);
    assert(bal * s == s * bal) by (nonlinear_arith);
    lemma_div_multiples_vanish(bal, s);
}

} // verus!
