//! The share accounting engine: native asset to claim-token conversion at
//! the pool's current ratio, with wide overflow-checked intermediates.

use vstd::prelude::*;

use crate::error::StakePoolError;

verus! {

/// Claim-tokens owed for depositing `amount` into a pool holding
/// `total_staked` against `total_shares`: the deposit itself while either
/// total is zero, else `amount * total_shares / total_staked` rounded
/// toward zero.
pub open spec fn mint_amount(amount: u64, total_shares: u64, total_staked: u64) -> int {
    if total_shares == 0 || total_staked == 0 {
        amount as int
    } else {
        (amount * total_shares) / (total_staked as int)
    }
}

/// Native-asset units owed for burning `token_amount` claim-tokens: the
/// ratio inverse `token_amount * total_staked / total_shares` rounded
/// toward zero, or nothing while either total is zero.
pub open spec fn withdraw_amount(token_amount: u64, total_staked: u64, total_shares: u64) -> int {
    if total_shares > 0 && total_staked > 0 {
        (token_amount * total_staked) / (total_shares as int)
    } else {
        0
    }
}

/// Converts a deposit to the claim-tokens it mints, at the current ratio.
///
/// Fails with `MathOverflow` exactly when the rounded quotient does not fit
/// a `u64`; the wide intermediate product itself cannot overflow.  While
/// either total is zero the deposit converts one to one, whatever the other
/// total holds.
pub fn calc_tokens_to_mint(amount: u64, total_shares: u64, total_staked: u64) -> (r: Result<
    u64,
    StakePoolError,
>)
    ensures
        mint_amount(amount, total_shares, total_staked) <= u64::MAX ==> r == Ok::<
            u64,
            StakePoolError,
        >((mint_amount(amount, total_shares, total_staked)) as u64),
        mint_amount(amount, total_shares, total_staked) > u64::MAX ==> r == Err::<
            u64,
            StakePoolError,
        >(StakePoolError::MathOverflow),
{
    if total_shares == 0 || total_staked == 0 {
        return Ok(amount);
    }
    proof {
        assert((amount as u128) * (total_shares as u128) <= u128::MAX) by (nonlinear_arith)
            requires
                amount <= u64::MAX,
                total_shares <= u64::MAX,
        ;
    }
    let prod: u128 = (amount as u128) * (total_shares as u128);
    let q: u128 = prod / (total_staked as u128);
    if q > u64::MAX as u128 {
        Err(StakePoolError::MathOverflow)
    } else {
        Ok(q as u64)
    }
}

/// Converts burned claim-tokens to the native-asset units they stand for,
/// at the current ratio.
///
/// Fails with `MathOverflow` exactly when the rounded quotient does not fit
/// a `u64`.  While either total is zero the result is zero, deferring
/// nothing.
pub fn calc_sol_to_withdraw(token_amount: u64, total_staked: u64, total_shares: u64) -> (r: Result<
    u64,
    StakePoolError,
>)
    ensures
        withdraw_amount(token_amount, total_staked, total_shares) <= u64::MAX ==> r == Ok::<
            u64,
            StakePoolError,
        >((withdraw_amount(token_amount, total_staked, total_shares)) as u64),
        withdraw_amount(token_amount, total_staked, total_shares) > u64::MAX ==> r == Err::<
            u64,
            StakePoolError,
        >(StakePoolError::MathOverflow),
{
    if total_shares > 0 && total_staked > 0 {
        proof {
            assert((token_amount as u128) * (total_staked as u128) <= u128::MAX)
                by (nonlinear_arith)
                requires
                    token_amount <= u64::MAX,
                    total_staked <= u64::MAX,
            ;
        }
        let prod: u128 = (token_amount as u128) * (total_staked as u128);
        let q: u128 = prod / (total_shares as u128);
        if q > u64::MAX as u128 {
            Err(StakePoolError::MathOverflow)
        } else {
            Ok(q as u64)
        }
    } else {
        Ok(0)
    }
}

/// Bootstrap rule: while no claim-tokens circulate, a deposit mints
/// exactly itself, whatever `total_staked` holds.
pub proof fn lemma_bootstrap_mint(amount: u64, total_staked: u64)
    ensures
        mint_amount(amount, 0, total_staked) == amount as int,
{
}

/// Ratio symmetry: a deposit followed at once by burning exactly the
/// claim-tokens it minted is owed the deposit back, whenever the minting
/// ratio divided evenly (in particular whenever the pool stood at one to
/// one, the bootstrap case included).  With a remainder the rounded mint
/// loses value to the pool and the burn returns less, so those inputs are
/// left out.
pub proof fn lemma_ratio_symmetry(amount: u64, total_shares: u64, total_staked: u64, t: u64)
    requires
        t == mint_amount(amount, total_shares, total_staked),
        1 <= t,
        total_staked + amount <= u64::MAX,
        total_shares + t <= u64::MAX,
        (total_shares == 0 || total_staked == 0) ==> (total_shares == 0 && total_staked == 0),
        !(total_shares == 0 || total_staked == 0) ==> (amount * total_shares) % (
        total_staked as int) == 0,
    ensures
        withdraw_amount(t, (total_staked + amount) as u64, (total_shares + t) as u64)
            == amount as int,
{
    let a = amount as int;
    let ns = total_shares + t;
    let nt = total_staked + amount;
    if total_shares == 0 || total_staked == 0 {
        assert(t == amount);
        assert(ns == t && nt == a);
        assert((t * nt) / ns == a) by (nonlinear_arith)
            requires
                t == a,
                ns == t,
                nt == a,
                1 <= t,
        ;
    } else {
        let s = total_shares as int;
        let st = total_staked as int;
        assert(t == (a * s) / st);
        assert(t * st == a * s) by (nonlinear_arith)
            requires
                t == (a * s) / st,
                (a * s) % st == 0,
                st > 0,
        ;
        assert(t * nt == a * ns) by (nonlinear_arith)
            requires
                t * st == a * s,
                nt == st + a,
                ns == s + t,
        ;
        assert((t * nt) / ns == a) by (nonlinear_arith)
            requires
                t * nt == a * ns,
                ns >= 1,
                a >= 0,
        ;
    }
}

} // verus!
