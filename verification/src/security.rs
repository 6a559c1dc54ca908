//! The security/invariant module: signer, authority, pause, bounds,
//! ownership and derivation checks reused by the handlers, plus the
//! dormant per-validator concentration cap.

use vstd::prelude::*;

use crate::addr::Address;
use crate::codec::clone_bytes;
use crate::error::{PoolError, StakePoolError};
use crate::pda::{create_pda, find_pda, seeds_view, create_pda_raw, try_find_pda_raw};
use crate::state::{Account, StakePool, ValidatorInfo, ValidatorList};

verus! {

/// Stake on a single validator may not exceed this share of the roster's
/// aggregate, in percent.
pub const MAX_VALIDATOR_STAKE_PERCENTAGE: u64 = 10;

/// Unbonding waits at least this long, in seconds.
pub const MINIMUM_COOLDOWN_PERIOD: i64 = 2 * 24 * 60 * 60;

/// The aggregate active stake of a roster.
pub open spec fn sum_stake(vs: Seq<ValidatorInfo>) -> int
    decreases vs.len(),
{
    if vs.len() == 0 {
        0
    } else {
        sum_stake(vs.drop_last()) + vs.last().active_stake_lamports
    }
}

/// Stateless bundle of the reusable checks.
pub struct SecurityManager;

impl SecurityManager {
    /// The caller must have signed and be the pool's creator authority.
    pub fn verify_admin(admin_info: &Account, stake_pool: &StakePool) -> (r: Result<(), PoolError>)
        ensures
            r == if !admin_info.is_signer {
                Err::<(), PoolError>(PoolError::MissingRequiredSignature)
            } else if stake_pool.authority@ != admin_info.key@ {
                Err::<(), PoolError>(PoolError::Custom(StakePoolError::InvalidAuthority))
            } else {
                Ok::<(), PoolError>(())
            },
    {
        if !admin_info.is_signer {
            return Err(PoolError::MissingRequiredSignature);
        }
        if !(stake_pool.authority == admin_info.key) {
            return Err(PoolError::Custom(StakePoolError::InvalidAuthority));
        }
        Ok(())
    }

    /// The caller must have signed and be the pool's stake authority.
    pub fn verify_stake_authority(authority_info: &Account, stake_pool: &StakePool) -> (r: Result<
        (),
        PoolError,
    >)
        ensures
            r == if !authority_info.is_signer {
                Err::<(), PoolError>(PoolError::MissingRequiredSignature)
            } else if stake_pool.stake_authority@ != authority_info.key@ {
                Err::<(), PoolError>(PoolError::Custom(StakePoolError::InvalidAuthority))
            } else {
                Ok::<(), PoolError>(())
            },
    {
        if !authority_info.is_signer {
            return Err(PoolError::MissingRequiredSignature);
        }
        if !(stake_pool.stake_authority == authority_info.key) {
            return Err(PoolError::Custom(StakePoolError::InvalidAuthority));
        }
        Ok(())
    }

    /// The caller must have signed and be the pool's withdraw authority.
    pub fn verify_withdraw_authority(authority_info: &Account, stake_pool: &StakePool) -> (r:
        Result<(), PoolError>)
        ensures
            r == if !authority_info.is_signer {
                Err::<(), PoolError>(PoolError::MissingRequiredSignature)
            } else if stake_pool.withdraw_authority@ != authority_info.key@ {
                Err::<(), PoolError>(PoolError::Custom(StakePoolError::InvalidAuthority))
            } else {
                Ok::<(), PoolError>(())
            },
    {
        if !authority_info.is_signer {
            return Err(PoolError::MissingRequiredSignature);
        }
        if !(stake_pool.withdraw_authority == authority_info.key) {
            return Err(PoolError::Custom(StakePoolError::InvalidAuthority));
        }
        Ok(())
    }

    /// The pool must not be paused.
    pub fn verify_not_paused(stake_pool: &StakePool) -> (r: Result<(), PoolError>)
        ensures
            r == if stake_pool.paused {
                Err::<(), PoolError>(PoolError::Custom(StakePoolError::PoolPaused))
            } else {
                Ok::<(), PoolError>(())
            },
    {
        if stake_pool.paused {
            return Err(PoolError::Custom(StakePoolError::PoolPaused));
        }
        Ok(())
    }

    /// A deposit must lie within the pool's stake bounds.
    pub fn verify_stake_amount(amount: u64, stake_pool: &StakePool) -> (r: Result<(), PoolError>)
        ensures
            r == if amount < stake_pool.min_stake {
                Err::<(), PoolError>(PoolError::Custom(StakePoolError::StakeTooSmall))
            } else if amount > stake_pool.max_stake {
                Err::<(), PoolError>(PoolError::Custom(StakePoolError::StakeTooLarge))
            } else {
                Ok::<(), PoolError>(())
            },
    {
        if amount < stake_pool.min_stake {
            return Err(PoolError::Custom(StakePoolError::StakeTooSmall));
        }
        if amount > stake_pool.max_stake {
            return Err(PoolError::Custom(StakePoolError::StakeTooLarge));
        }
        Ok(())
    }

    /// After adding `amount` to one validator, that validator's stake must
    /// not exceed a tenth of the roster's aggregate.  Any total that would
    /// not fit the checked arithmetic is a calculation failure.
    pub fn verify_validator_stake_limit(
        validator_list: &ValidatorList,
        validator_index: usize,
        amount: u64,
    ) -> (r: Result<(), PoolError>)
        requires
            validator_index < validator_list.validators@.len(),
        ensures
            r == ({
                let total = sum_stake(validator_list.validators@);
                let own = validator_list.validators@[validator_index as int].active_stake_lamports;
                if total > u64::MAX {
                    Err::<(), PoolError>(PoolError::Custom(StakePoolError::CalculationFailure))
                } else if own + amount > u64::MAX {
                    Err::<(), PoolError>(PoolError::Custom(StakePoolError::CalculationFailure))
                } else if total * MAX_VALIDATOR_STAKE_PERCENTAGE > u64::MAX {
                    Err::<(), PoolError>(PoolError::Custom(StakePoolError::CalculationFailure))
                } else if own + amount > (total * MAX_VALIDATOR_STAKE_PERCENTAGE) / 100 {
                    Err::<(), PoolError>(
                        PoolError::Custom(StakePoolError::ValidatorStakeLimitExceeded),
                    )
                } else {
                    Ok::<(), PoolError>(())
                }
            }),
    {
        let n = validator_list.validators.len();
        let mut total_stake: u64 = 0;
        let mut i: usize = 0;
        while i < n
            invariant
                i <= n,
                n == validator_list.validators@.len(),
                total_stake == sum_stake(validator_list.validators@.take(i as int)),
                sum_stake(validator_list.validators@.take(i as int)) <= u64::MAX,
            decreases n - i,
        {
            proof {
                assert(validator_list.validators@.take(i + 1).drop_last()
                    =~= validator_list.validators@.take(i as int));
                assert(validator_list.validators@.take(i + 1).last()
                    == validator_list.validators@[i as int]);
            }
            let s = validator_list.validators[i].active_stake_lamports;
            match total_stake.checked_add(s) {
                Some(t) => {
                    total_stake = t;
                },
                None => {
                    proof {
                        lemma_sum_stake_prefix_monotonic(validator_list.validators@, i + 1);
                    }
                    return Err(PoolError::Custom(StakePoolError::CalculationFailure));
                },
            }
            i += 1;
        }
        proof {
            assert(validator_list.validators@.take(n as int) =~= validator_list.validators@);
        }
        let validator = &validator_list.validators[validator_index];
        let new_validator_stake = match validator.active_stake_lamports.checked_add(amount) {
            Some(v) => v,
            None => {
                return Err(PoolError::Custom(StakePoolError::CalculationFailure));
            },
        };
        let scaled = match total_stake.checked_mul(MAX_VALIDATOR_STAKE_PERCENTAGE) {
            Some(v) => v,
            None => {
                return Err(PoolError::Custom(StakePoolError::CalculationFailure));
            },
        };
        let max_allowed = scaled / 100;
        if new_validator_stake > max_allowed {
            return Err(PoolError::Custom(StakePoolError::ValidatorStakeLimitExceeded));
        }
        Ok(())
    }

    /// At least the minimum cooldown must have passed since the last stake.
    pub fn verify_unstake_cooldown(last_stake_timestamp: i64, current_time: i64) -> (r: Result<
        (),
        PoolError,
    >)
        requires
            i64::MIN <= current_time - last_stake_timestamp <= i64::MAX,
        ensures
            r == if current_time - last_stake_timestamp < MINIMUM_COOLDOWN_PERIOD {
                Err::<(), PoolError>(PoolError::Custom(StakePoolError::UnstakeCooldownNotMet))
            } else {
                Ok::<(), PoolError>(())
            },
    {
        if current_time - last_stake_timestamp < MINIMUM_COOLDOWN_PERIOD {
            return Err(PoolError::Custom(StakePoolError::UnstakeCooldownNotMet));
        }
        Ok(())
    }

    /// An account must be owned by the expected subsystem.
    pub fn verify_account_ownership(account_info: &Account, expected_owner: &Address) -> (r: Result<
        (),
        PoolError,
    >)
        ensures
            r == if account_info.owner@ != expected_owner@ {
                Err::<(), PoolError>(PoolError::Custom(StakePoolError::InvalidAccountOwner))
            } else {
                Ok::<(), PoolError>(())
            },
    {
        if !(account_info.owner == *expected_owner) {
            return Err(PoolError::Custom(StakePoolError::InvalidAccountOwner));
        }
        Ok(())
    }

    /// Every listed account must have signed the call.
    pub fn verify_all_signers(signers: &Vec<&Account>) -> (r: Result<(), PoolError>)
        ensures
            r == if (forall|i: int| 0 <= i < signers@.len() ==> signers@[i].is_signer) {
                Ok::<(), PoolError>(())
            } else {
                Err::<(), PoolError>(PoolError::MissingRequiredSignature)
            },
    {
        let n = signers.len();
        let mut i: usize = 0;
        while i < n
            invariant
                i <= n,
                n == signers@.len(),
                forall|j: int| 0 <= j < i ==> signers@[j].is_signer,
            decreases n - i,
        {
            if !signers[i].is_signer {
                return Err(PoolError::MissingRequiredSignature);
            }
            i += 1;
        }
        Ok(())
    }

    /// Derives the capability address for a seed list, failing where the
    /// derivation finds no disambiguator.
    pub fn derive_program_address(program_id: &Address, seeds: &Vec<Vec<u8>>) -> (r: Result<
        (Address, u8),
        PoolError,
    >)
        ensures
            r matches Ok(p) ==> find_pda(seeds_view(seeds@), program_id@) == Some((p.0@, p.1)),
            r matches Err(e) ==> find_pda(seeds_view(seeds@), program_id@) is None && e
                == PoolError::Custom(StakePoolError::InvalidProgramAddress),
    {
        match try_find_pda_raw(seeds, program_id) {
            Some(p) => Ok(p),
            None => Err(PoolError::Custom(StakePoolError::InvalidProgramAddress)),
        }
    }

    /// Re-derives the address for a seed list with its stored disambiguator
    /// and accepts only an exact match.
    pub fn verify_program_derived_address(
        address: &Address,
        program_id: &Address,
        seeds: &Vec<Vec<u8>>,
        bump_seed: u8,
    ) -> (r: Result<(), PoolError>)
        ensures
            r == ({
                let derived = create_pda(
                    seeds_view(seeds@).push(seq![bump_seed]),
                    program_id@,
                );
                if derived is None {
                    Err::<(), PoolError>(PoolError::Custom(StakePoolError::InvalidProgramAddress))
                } else if derived != Some(address@) {
                    Err::<(), PoolError>(PoolError::Custom(StakePoolError::InvalidProgramAddress))
                } else {
                    Ok::<(), PoolError>(())
                }
            }),
    {
        let mut full_seeds: Vec<Vec<u8>> = Vec::new();
        let n = seeds.len();
        let mut i: usize = 0;
        while i < n
            invariant
                i <= n,
                n == seeds@.len(),
                full_seeds@.len() == i,
                forall|j: int| 0 <= j < i ==> full_seeds@[j]@ == seeds@[j]@,
            decreases n - i,
        {
            full_seeds.push(clone_bytes(&seeds[i]));
            i += 1;
        }
        let bump: Vec<u8> = vec![bump_seed];
        full_seeds.push(bump);
        proof {
            let lhs = seeds_view(full_seeds@);
            let rhs = seeds_view(seeds@).push(seq![bump_seed]);
            assert forall|j: int| 0 <= j < lhs.len() implies lhs[j] == rhs[j] by {
                assert(lhs[j] == full_seeds@[j]@);
                if j < n {
                    assert(rhs[j] == seeds@[j]@);
                } else {
                    assert(full_seeds@[j]@ =~= seq![bump_seed]);
                }
            }
            assert(seeds_view(full_seeds@) =~= seeds_view(seeds@).push(seq![bump_seed]));
        }
        match create_pda_raw(&full_seeds, program_id) {
            None => Err(PoolError::Custom(StakePoolError::InvalidProgramAddress)),
            Some(expected) => {
                if !(expected == *address) {
                    Err(PoolError::Custom(StakePoolError::InvalidProgramAddress))
                } else {
                    Ok(())
                }
            },
        }
    }
}

/// A prefix of a roster never aggregates more stake than the whole roster.
proof fn lemma_sum_stake_prefix_monotonic(vs: Seq<ValidatorInfo>, i: int)
    requires
        0 <= i <= vs.len(),
    ensures
        sum_stake(vs.take(i)) <= sum_stake(vs),
    decreases vs.len() - i,
{
    if i < vs.len() {
        lemma_sum_stake_prefix_monotonic(vs, i + 1);
        assert(vs.take(i + 1).drop_last() =~= vs.take(i));
        assert(sum_stake(vs.take(i)) <= sum_stake(vs.take(i + 1)));
    } else {
        assert(vs.take(i) =~= vs);
    }
}

} // verus!
