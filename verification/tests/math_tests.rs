use stake_pool::error::StakePoolError;
use stake_pool::math::{calc_sol_to_withdraw, calc_tokens_to_mint};

#[test]
fn bootstrap_mints_deposit_exactly() {
    // Empty pool: one-to-one, whatever the other total holds.
    assert_eq!(calc_tokens_to_mint(2_000_000_000, 0, 0), Ok(2_000_000_000));
    assert_eq!(calc_tokens_to_mint(7, 0, 123_456), Ok(7));
    assert_eq!(calc_tokens_to_mint(7, 123_456, 0), Ok(7));
}

#[test]
fn mint_follows_ratio_with_floor() {
    // 1:1 pool.
    assert_eq!(
        calc_tokens_to_mint(1_000_000_000, 2_000_000_000, 2_000_000_000),
        Ok(1_000_000_000)
    );
    // floor(5 * 3 / 10) == 1.
    assert_eq!(calc_tokens_to_mint(5, 3, 10), Ok(1));
    // floor(2 * 2 / 3) == 1.
    assert_eq!(calc_tokens_to_mint(2, 2, 3), Ok(1));
}

#[test]
fn mint_zero_result_is_zero() {
    // floor(1 * 1 / 10) == 0; the handler turns this into a calculation
    // failure before any effect.
    assert_eq!(calc_tokens_to_mint(1, 1, 10), Ok(0));
}

#[test]
fn mint_overflow_is_reported() {
    // 2 * u64::MAX / 1 does not fit a u64.
    assert_eq!(
        calc_tokens_to_mint(2, u64::MAX, 1),
        Err(StakePoolError::MathOverflow)
    );
}

#[test]
fn withdraw_follows_inverse_ratio() {
    assert_eq!(
        calc_sol_to_withdraw(1_500_000_000, 3_000_000_000, 3_000_000_000),
        Ok(1_500_000_000)
    );
    // floor(3 * 10 / 4) == 7.
    assert_eq!(calc_sol_to_withdraw(3, 10, 4), Ok(7));
}

#[test]
fn withdraw_on_empty_pool_is_zero() {
    assert_eq!(calc_sol_to_withdraw(5, 0, 0), Ok(0));
    assert_eq!(calc_sol_to_withdraw(5, 10, 0), Ok(0));
    assert_eq!(calc_sol_to_withdraw(5, 0, 10), Ok(0));
}

#[test]
fn withdraw_overflow_is_reported() {
    assert_eq!(
        calc_sol_to_withdraw(2, u64::MAX, 1),
        Err(StakePoolError::MathOverflow)
    );
}

#[test]
fn ratio_symmetry_round_trip() {
    // Stake then immediately unstake the minted tokens on a 1:1 pool.
    let staked: u64 = 3_000_000_000;
    let shares: u64 = 3_000_000_000;
    let amount: u64 = 2_000_000_000;
    let minted = calc_tokens_to_mint(amount, shares, staked).unwrap();
    assert_eq!(minted, amount);
    let back = calc_sol_to_withdraw(minted, staked + amount, shares + minted).unwrap();
    assert_eq!(back, amount);
}
