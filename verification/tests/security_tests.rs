use stake_pool::addr::Address;
use stake_pool::error::{PoolError, StakePoolError};
use stake_pool::pda::{
    derive_mint_address, derive_pool_address, derive_stake_authority, derive_user_stake_account,
    derive_withdraw_authority,
};
use stake_pool::security::SecurityManager;
use stake_pool::state::{Account, StakePool, ValidatorInfo, ValidatorList};

fn addr(tag: u8) -> Address {
    Address { bytes: [tag; 32] }
}

fn acct(key: Address, is_signer: bool) -> Account {
    Account { key, is_signer, owner: addr(0), lamports: 0, data: Vec::new() }
}

fn pool_with_authorities() -> StakePool {
    let mut p = StakePool::default();
    p.version = 1;
    p.authority = addr(1);
    p.stake_authority = addr(2);
    p.withdraw_authority = addr(3);
    p.min_stake = 10;
    p.max_stake = 100;
    p
}

#[test]
fn verify_admin_checks_signature_then_identity() {
    let pool = pool_with_authorities();
    assert_eq!(
        SecurityManager::verify_admin(&acct(addr(1), false), &pool),
        Err(PoolError::MissingRequiredSignature)
    );
    assert_eq!(
        SecurityManager::verify_admin(&acct(addr(9), true), &pool),
        Err(PoolError::Custom(StakePoolError::InvalidAuthority))
    );
    assert_eq!(SecurityManager::verify_admin(&acct(addr(1), true), &pool), Ok(()));
}

#[test]
fn verify_stake_and_withdraw_authorities() {
    let pool = pool_with_authorities();
    assert_eq!(
        SecurityManager::verify_stake_authority(&acct(addr(2), true), &pool),
        Ok(())
    );
    assert_eq!(
        SecurityManager::verify_stake_authority(&acct(addr(3), true), &pool),
        Err(PoolError::Custom(StakePoolError::InvalidAuthority))
    );
    assert_eq!(
        SecurityManager::verify_withdraw_authority(&acct(addr(3), true), &pool),
        Ok(())
    );
    assert_eq!(
        SecurityManager::verify_withdraw_authority(&acct(addr(2), true), &pool),
        Err(PoolError::Custom(StakePoolError::InvalidAuthority))
    );
}

#[test]
fn verify_not_paused_and_bounds() {
    let mut pool = pool_with_authorities();
    assert_eq!(SecurityManager::verify_not_paused(&pool), Ok(()));
    pool.paused = true;
    assert_eq!(
        SecurityManager::verify_not_paused(&pool),
        Err(PoolError::Custom(StakePoolError::PoolPaused))
    );
    assert_eq!(
        SecurityManager::verify_stake_amount(9, &pool),
        Err(PoolError::Custom(StakePoolError::StakeTooSmall))
    );
    assert_eq!(
        SecurityManager::verify_stake_amount(101, &pool),
        Err(PoolError::Custom(StakePoolError::StakeTooLarge))
    );
    assert_eq!(SecurityManager::verify_stake_amount(10, &pool), Ok(()));
    assert_eq!(SecurityManager::verify_stake_amount(100, &pool), Ok(()));
}

#[test]
fn validator_stake_limit_caps_at_a_tenth() {
    let list = ValidatorList {
        validators: vec![
            ValidatorInfo { vote_account: addr(1), active_stake_lamports: 100 },
            ValidatorInfo { vote_account: addr(2), active_stake_lamports: 900 },
        ],
    };
    // Aggregate 1000, cap 100: validator 0 already sits at the cap.
    assert_eq!(SecurityManager::verify_validator_stake_limit(&list, 0, 0), Ok(()));
    assert_eq!(
        SecurityManager::verify_validator_stake_limit(&list, 0, 10),
        Err(PoolError::Custom(StakePoolError::ValidatorStakeLimitExceeded))
    );
}

#[test]
fn validator_stake_limit_reports_overflowing_aggregates() {
    let list = ValidatorList {
        validators: vec![
            ValidatorInfo { vote_account: addr(1), active_stake_lamports: u64::MAX },
            ValidatorInfo { vote_account: addr(2), active_stake_lamports: 1 },
        ],
    };
    assert_eq!(
        SecurityManager::verify_validator_stake_limit(&list, 0, 1),
        Err(PoolError::Custom(StakePoolError::CalculationFailure))
    );
}

#[test]
fn unstake_cooldown_needs_two_days() {
    let two_days: i64 = 2 * 24 * 60 * 60;
    assert_eq!(
        SecurityManager::verify_unstake_cooldown(1_000, 1_000 + two_days - 1),
        Err(PoolError::Custom(StakePoolError::UnstakeCooldownNotMet))
    );
    assert_eq!(
        SecurityManager::verify_unstake_cooldown(1_000, 1_000 + two_days),
        Ok(())
    );
}

#[test]
fn account_ownership_and_signers() {
    let mut a = acct(addr(5), true);
    a.owner = addr(7);
    assert_eq!(SecurityManager::verify_account_ownership(&a, &addr(7)), Ok(()));
    assert_eq!(
        SecurityManager::verify_account_ownership(&a, &addr(8)),
        Err(PoolError::Custom(StakePoolError::InvalidAccountOwner))
    );
    let signed = acct(addr(1), true);
    let unsigned = acct(addr(2), false);
    assert_eq!(SecurityManager::verify_all_signers(&vec![&signed]), Ok(()));
    assert_eq!(
        SecurityManager::verify_all_signers(&vec![&signed, &unsigned]),
        Err(PoolError::MissingRequiredSignature)
    );
    assert_eq!(SecurityManager::verify_all_signers(&vec![]), Ok(()));
}

#[test]
fn derived_addresses_are_deterministic_and_distinct() {
    let program_id = addr(0xAA);
    let creator = addr(1);
    let (pool_a, bump_a) = derive_pool_address(&creator, &program_id).unwrap();
    let (pool_b, bump_b) = derive_pool_address(&creator, &program_id).unwrap();
    assert!(pool_a == pool_b);
    assert_eq!(bump_a, bump_b);
    // The derivation leaves the key space of its inputs: a capability
    // address equals neither the creator nor the controller.
    assert!(!(pool_a == creator));
    assert!(!(pool_a == program_id));
    // Different tags give different authorities for the same pool.
    let (sa, _) = derive_stake_authority(&pool_a, &program_id).unwrap();
    let (wa, _) = derive_withdraw_authority(&pool_a, &program_id).unwrap();
    let (mint, _) = derive_mint_address(&pool_a, &program_id).unwrap();
    assert!(!(sa == wa));
    assert!(!(sa == mint));
    assert!(!(wa == mint));
    // Different users give different stake records.
    let (rec1, _) = derive_user_stake_account(&pool_a, &addr(11), &sa, &program_id).unwrap();
    let (rec2, _) = derive_user_stake_account(&pool_a, &addr(12), &sa, &program_id).unwrap();
    assert!(!(rec1 == rec2));
}

#[test]
fn derive_and_verify_program_derived_address_agree() {
    let program_id = addr(0xAA);
    let seeds = vec![b"stake_authority".to_vec(), [1u8; 32].to_vec()];
    let (derived, bump) = SecurityManager::derive_program_address(&program_id, &seeds).unwrap();
    assert_eq!(
        SecurityManager::verify_program_derived_address(&derived, &program_id, &seeds, bump),
        Ok(())
    );
    // A forged address is refused.
    assert_eq!(
        SecurityManager::verify_program_derived_address(&addr(9), &program_id, &seeds, bump),
        Err(PoolError::Custom(StakePoolError::InvalidProgramAddress))
    );
    // An oversized seed never derives.
    let long = vec![vec![0u8; 33]];
    assert_eq!(
        SecurityManager::derive_program_address(&program_id, &long),
        Err(PoolError::Custom(StakePoolError::InvalidProgramAddress))
    );
}
