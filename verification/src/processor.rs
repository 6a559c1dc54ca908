//! The instruction processor: each handler turns the supplied accounts,
//! the decoded command and the host context into either a single failure
//! code (no mutation) or a plan of effects — the new registry bytes and
//! the subsystem calls the host is to perform.  The host commits all of a
//! plan or none of it.

use vstd::prelude::*;

use crate::addr::Address;
use crate::error::{PoolError, StakePoolError};
use crate::instruction::{
    decode_instruction, parse_instruction, InstructionView, StakePoolInstruction,
};
use crate::math::{calc_sol_to_withdraw, calc_tokens_to_mint, mint_amount, withdraw_amount};
use crate::pda::{
    derive_mint_address, derive_pool_address, derive_stake_authority, derive_user_stake_account,
    derive_withdraw_authority, mint_pda, pool_pda, stake_authority_pda, user_stake_account_pda,
    withdraw_authority_pda,
};
use crate::record::{
    lemma_patch_mint, mint_offset, parse_pool, parse_pool_bytes, pool_bytes,
    pool_record_size_spec, serialize_pool, write_address_at,
};
use crate::state::{
    Account, AccountView, CallContext, PoolView, StakePool, StakeRecordState, StakeRecordView,
    DEFAULT_MAX_STAKE, DEFAULT_MIN_STAKE,
};

verus! {

/// The instruction processor.
pub struct Processor {}

/// The registry after an epoch-marker update: untouched while the marker
/// already covers the current epoch, else advanced to it.
pub open spec fn claim_rewards_pool(p: PoolView, epoch: u64) -> PoolView {
    if p.last_update_epoch >= epoch {
        p
    } else {
        PoolView { last_update_epoch: epoch, ..p }
    }
}

/// The first failure an epoch-marker update hits, or `None`.
pub open spec fn claim_rewards_check(program_id: Seq<u8>, accounts: Seq<AccountView>) -> Option<
    PoolError,
> {
    if accounts.len() < 3 {
        Some(PoolError::NotEnoughAccountKeys)
    } else if !accounts[0].is_signer {
        Some(PoolError::MissingRequiredSignature)
    } else if accounts[1].owner != program_id {
        Some(PoolError::IllegalOwner)
    } else if parse_pool_bytes(accounts[1].data) is None {
        Some(PoolError::InvalidAccountData)
    } else if parse_pool_bytes(accounts[1].data).unwrap().version == 0 {
        Some(PoolError::UninitializedAccount)
    } else {
        None
    }
}

/// The plan of an epoch-marker update: the registry to persist when
/// `updated` is set; no token or asset movement.
pub struct ClaimEffects {
    /// Whether the marker advanced; the host persists only then.
    pub updated: bool,
    /// The registry after the call.
    pub new_pool: StakePool,
    /// That registry's serialized bytes.
    pub new_pool_bytes: Vec<u8>,
}

/// The mathematical model of [`ClaimEffects`].
pub struct ClaimEffectsView {
    pub updated: bool,
    pub new_pool: PoolView,
    pub new_pool_bytes: Seq<u8>,
}

impl View for ClaimEffects {
    type V = ClaimEffectsView;

    open spec fn view(&self) -> ClaimEffectsView {
        ClaimEffectsView {
            updated: self.updated,
            new_pool: self.new_pool@,
            new_pool_bytes: self.new_pool_bytes@,
        }
    }
}

/// What a successful epoch-marker update is owed to plan.
pub open spec fn claim_rewards_ok(
    accounts: Seq<AccountView>,
    ctx: crate::state::CallContextView,
    eff: ClaimEffectsView,
) -> bool {
    let p0 = parse_pool_bytes(accounts[1].data).unwrap();
    &&& eff.new_pool == claim_rewards_pool(p0, ctx.current_epoch)
    &&& eff.updated == (p0.last_update_epoch < ctx.current_epoch)
    &&& eff.new_pool_bytes == pool_bytes(eff.new_pool)
}

/// The first failure a deposit hits, or `None`.
pub open spec fn stake_check(
    program_id: Seq<u8>,
    accounts: Seq<AccountView>,
    amount: u64,
    ctx: crate::state::CallContextView,
) -> Option<PoolError> {
    if accounts.len() < 14 {
        Some(PoolError::NotEnoughAccountKeys)
    } else if !accounts[0].is_signer {
        Some(PoolError::MissingRequiredSignature)
    } else if accounts[1].owner != program_id {
        Some(PoolError::IllegalOwner)
    } else if accounts[3].owner != ctx.token_program {
        Some(PoolError::IllegalOwner)
    } else if accounts[2].owner != ctx.token_program {
        Some(PoolError::IllegalOwner)
    } else if parse_pool_bytes(accounts[1].data) is None {
        Some(PoolError::InvalidAccountData)
    } else {
        let pool = parse_pool_bytes(accounts[1].data).unwrap();
        let tokens = mint_amount(amount, pool.total_shares, pool.total_staked);
        if pool.version == 0 {
            Some(PoolError::UninitializedAccount)
        } else if pool.paused {
            Some(PoolError::Custom(StakePoolError::PoolPaused))
        } else if amount < pool.min_stake {
            Some(PoolError::Custom(StakePoolError::StakeTooSmall))
        } else if amount > pool.max_stake {
            Some(PoolError::Custom(StakePoolError::StakeTooLarge))
        } else if accounts[12].key != pool.helius_validator_vote {
            Some(PoolError::Custom(StakePoolError::InvalidStakeAccountDelegation))
        } else if tokens > u64::MAX {
            Some(PoolError::Custom(StakePoolError::MathOverflow))
        } else if tokens == 0 {
            Some(PoolError::Custom(StakePoolError::CalculationFailure))
        } else if stake_authority_pda(accounts[1].key, program_id) is None {
            Some(PoolError::Custom(StakePoolError::InvalidProgramAddress))
        } else if stake_authority_pda(accounts[1].key, program_id).unwrap().0
            != pool.stake_authority || stake_authority_pda(accounts[1].key, program_id).unwrap().0
            != accounts[13].key {
            Some(PoolError::Custom(StakePoolError::InvalidStakeAuthority))
        } else if user_stake_account_pda(
            accounts[1].key,
            accounts[0].key,
            pool.stake_authority,
            program_id,
        ) is None {
            Some(PoolError::Custom(StakePoolError::InvalidProgramAddress))
        } else if user_stake_account_pda(
            accounts[1].key,
            accounts[0].key,
            pool.stake_authority,
            program_id,
        ).unwrap().0 != accounts[4].key {
            Some(PoolError::InvalidSeeds)
        } else if accounts[4].lamports != 0 && accounts[4].owner != accounts[6].key {
            Some(PoolError::IllegalOwner)
        } else if accounts[4].lamports != 0 && ctx.stake_record is None {
            Some(PoolError::InvalidAccountData)
        } else if pool.total_staked + amount > u64::MAX {
            Some(PoolError::Custom(StakePoolError::MathOverflow))
        } else if pool.total_shares + tokens > u64::MAX {
            Some(PoolError::Custom(StakePoolError::MathOverflow))
        } else {
            None
        }
    }
}

/// The plan of a deposit: create or top up the user's stake record, move
/// the deposit into it, delegate it to the pinned validator, mint the
/// converted claim-tokens to the user and persist the grown totals.
pub struct StakeEffects {
    /// The registry after the call.
    pub new_pool: StakePool,
    /// That registry's serialized bytes.
    pub new_pool_bytes: Vec<u8>,
    /// Claim-tokens minted to the user, under the stake authority.
    pub tokens_to_mint: u64,
    /// Whether the user's stake record must first be created and
    /// initialized (it held no balance).
    pub create_stake_account: bool,
}

/// The mathematical model of [`StakeEffects`].
pub struct StakeEffectsView {
    pub new_pool: PoolView,
    pub new_pool_bytes: Seq<u8>,
    pub tokens_to_mint: u64,
    pub create_stake_account: bool,
}

impl View for StakeEffects {
    type V = StakeEffectsView;

    open spec fn view(&self) -> StakeEffectsView {
        StakeEffectsView {
            new_pool: self.new_pool@,
            new_pool_bytes: self.new_pool_bytes@,
            tokens_to_mint: self.tokens_to_mint,
            create_stake_account: self.create_stake_account,
        }
    }
}

/// What a successful deposit is owed to plan: mint exactly the converted
/// claim-tokens (the deposit itself on an empty pool) and grow both
/// totals by the deposited and minted amounts — the running-sum
/// accounting.
pub open spec fn stake_ok(accounts: Seq<AccountView>, amount: u64, eff: StakeEffectsView) -> bool {
    let p0 = parse_pool_bytes(accounts[1].data).unwrap();
    let tokens = mint_amount(amount, p0.total_shares, p0.total_staked);
    &&& eff.tokens_to_mint == tokens
    &&& eff.create_stake_account == (accounts[4].lamports == 0)
    &&& eff.new_pool == PoolView {
        total_staked: (p0.total_staked + amount) as u64,
        total_shares: (p0.total_shares + tokens) as u64,
        ..p0
    }
    &&& eff.new_pool_bytes == pool_bytes(eff.new_pool)
}

/// The record `Initialize` builds before the mint exists: fresh totals,
/// derived authorities, default bounds, the epoch marker at the current
/// epoch, and the mint slot zeroed until the patch.
pub open spec fn initial_pool_view(
    authority: Seq<u8>,
    sa: (Seq<u8>, u8),
    wa: (Seq<u8>, u8),
    name: Seq<u8>,
    fee_percentage: u8,
    vote: Seq<u8>,
    manager: Seq<u8>,
    treasury: Seq<u8>,
    epoch: u64,
) -> PoolView {
    PoolView {
        version: 1,
        authority: authority,
        stake_authority: sa.0,
        withdraw_authority: wa.0,
        name: name,
        fee_percentage: fee_percentage,
        total_staked: 0,
        total_shares: 0,
        mint: crate::addr::zero_address(),
        reserve: crate::addr::zero_address(),
        helius_validator_vote: vote,
        manager_fee_account: manager,
        treasury_fee_account: treasury,
        paused: false,
        last_update_epoch: epoch,
        min_stake: DEFAULT_MIN_STAKE,
        max_stake: DEFAULT_MAX_STAKE,
        stake_authority_bump_seed: sa.1,
        withdraw_authority_bump_seed: wa.1,
        reserved: Seq::new(62, |i: int| 0u8),
    }
}

/// The first failure a pool creation hits, or `None`.
pub open spec fn initialize_check(
    program_id: Seq<u8>,
    accounts: Seq<AccountView>,
    name: Seq<u8>,
    fee_percentage: u8,
) -> Option<PoolError> {
    if accounts.len() < 9 {
        Some(PoolError::NotEnoughAccountKeys)
    } else if !accounts[0].is_signer {
        Some(PoolError::MissingRequiredSignature)
    } else if fee_percentage > 100 {
        Some(PoolError::Custom(StakePoolError::InvalidFeePercentage))
    } else if name.len() < 3 || name.len() > 32 {
        Some(PoolError::Custom(StakePoolError::InvalidPoolName))
    } else {
        match pool_pda(accounts[0].key, program_id) {
            None => Some(PoolError::Custom(StakePoolError::InvalidProgramAddress)),
            Some(pp) => {
                if pp.0 != accounts[1].key {
                    Some(PoolError::InvalidSeeds)
                } else if stake_authority_pda(accounts[1].key, program_id) is None {
                    Some(PoolError::Custom(StakePoolError::InvalidProgramAddress))
                } else if withdraw_authority_pda(accounts[1].key, program_id) is None {
                    Some(PoolError::Custom(StakePoolError::InvalidProgramAddress))
                } else {
                    match mint_pda(accounts[1].key, program_id) {
                        None => Some(PoolError::Custom(StakePoolError::InvalidProgramAddress)),
                        Some(mp) => {
                            if mp.0 != accounts[2].key {
                                Some(PoolError::InvalidSeeds)
                            } else {
                                None
                            }
                        },
                    }
                }
            },
        }
    }
}

/// The plan of a pool creation, in the order the host applies it: create
/// the pool account sized `required_size` and write `record_bytes`;
/// create the mint account; then the mint address is patched into the
/// already-persisted record at its exact offset, giving `patched_bytes`
/// (the two-phase write: the mint is only derivable once the pool account
/// exists, and a variable-length name precedes the mint slot).
pub struct InitEffects {
    /// The final record, mint included.
    pub pool: StakePool,
    /// The record as first persisted, mint slot zeroed.
    pub record_bytes: Vec<u8>,
    /// The record after the in-place mint patch.
    pub patched_bytes: Vec<u8>,
    /// The exact serialized size the pool account is created with.
    pub required_size: usize,
    /// The pool address disambiguator.
    pub pool_bump: u8,
    /// The mint address disambiguator.
    pub mint_bump: u8,
}

/// The mathematical model of [`InitEffects`].
pub struct InitEffectsView {
    pub pool: PoolView,
    pub record_bytes: Seq<u8>,
    pub patched_bytes: Seq<u8>,
    pub required_size: int,
    pub pool_bump: u8,
    pub mint_bump: u8,
}

impl View for InitEffects {
    type V = InitEffectsView;

    open spec fn view(&self) -> InitEffectsView {
        InitEffectsView {
            pool: self.pool@,
            record_bytes: self.record_bytes@,
            patched_bytes: self.patched_bytes@,
            required_size: self.required_size as int,
            pool_bump: self.pool_bump,
            mint_bump: self.mint_bump,
        }
    }
}

/// What a successful pool creation is owed to plan.
pub open spec fn initialize_ok(
    program_id: Seq<u8>,
    accounts: Seq<AccountView>,
    name: Seq<u8>,
    fee_percentage: u8,
    vote: Seq<u8>,
    ctx: crate::state::CallContextView,
    eff: InitEffectsView,
) -> bool {
    let pp = pool_pda(accounts[0].key, program_id).unwrap();
    let sa = stake_authority_pda(accounts[1].key, program_id).unwrap();
    let wa = withdraw_authority_pda(accounts[1].key, program_id).unwrap();
    let mp = mint_pda(accounts[1].key, program_id).unwrap();
    let pre = initial_pool_view(
        accounts[0].key,
        sa,
        wa,
        name,
        fee_percentage,
        vote,
        accounts[3].key,
        accounts[4].key,
        ctx.current_epoch,
    );
    &&& eff.pool == (PoolView { mint: mp.0, ..pre })
    &&& eff.record_bytes == pool_bytes(pre)
    &&& eff.patched_bytes == pool_bytes(eff.pool)
    &&& eff.required_size == pool_record_size_spec(name.len() as int)
    &&& eff.pool_bump == pp.1
    &&& eff.mint_bump == mp.1
}

/// The plan a successful call hands the host, one variant per command.
pub enum Effects {
    Initialized(InitEffects),
    Staked(StakeEffects),
    Unstaked(UnstakeEffects),
    ClaimedRewards(ClaimEffects),
    WithdrewStake(WithdrawEffects),
}

/// Exactly what [`Processor::process`] owes for a payload, an account
/// list and a context: the decode error on a malformed payload, else the
/// routed handler's first failure or its plan.
pub open spec fn process_spec(
    program_id: Seq<u8>,
    accounts: Seq<AccountView>,
    instruction_data: Seq<u8>,
    ctx: crate::state::CallContextView,
    r: Result<Effects, PoolError>,
) -> bool {
    match parse_instruction(instruction_data) {
        None => r == Err::<Effects, PoolError>(PoolError::InvalidInstructionData),
        Some(iv) => match iv {
            InstructionView::Initialize { name, fee_percentage, helius_validator_vote } => {
                match r {
                    Err(e) => initialize_check(program_id, accounts, name, fee_percentage) == Some(
                        e,
                    ),
                    Ok(eff) => initialize_check(program_id, accounts, name, fee_percentage)
                        is None && (eff matches Effects::Initialized(x) && initialize_ok(
                        program_id,
                        accounts,
                        name,
                        fee_percentage,
                        helius_validator_vote,
                        ctx,
                        x@,
                    )),
                }
            },
            InstructionView::Stake { amount } => match r {
                Err(e) => stake_check(program_id, accounts, amount, ctx) == Some(e),
                Ok(eff) => stake_check(program_id, accounts, amount, ctx) is None && (eff matches
                Effects::Staked(x) && stake_ok(accounts, amount, x@)),
            },
            InstructionView::Unstake { amount } => match r {
                Err(e) => unstake_check(program_id, accounts, amount, ctx) == Some(e),
                Ok(eff) => unstake_check(program_id, accounts, amount, ctx) is None && (eff matches
                Effects::Unstaked(x) && unstake_ok(accounts, amount, x@)),
            },
            InstructionView::ClaimRewards => match r {
                Err(e) => claim_rewards_check(program_id, accounts) == Some(e),
                Ok(eff) => claim_rewards_check(program_id, accounts) is None && (eff matches
                Effects::ClaimedRewards(x) && claim_rewards_ok(accounts, ctx, x@)),
            },
            InstructionView::WithdrawStake => match r {
                Err(e) => withdraw_stake_check(program_id, accounts, ctx) == Some(e),
                Ok(eff) => withdraw_stake_check(program_id, accounts, ctx) is None && (eff matches
                Effects::WithdrewStake(x) && withdraw_stake_ok(accounts, x@)),
            },
        },
    }
}

/// Epoch idempotence: one epoch-marker update settles the registry for the
/// whole epoch; a second update at the same epoch is the identity.
pub proof fn lemma_epoch_idempotent(p: PoolView, epoch: u64)
    ensures
        claim_rewards_pool(claim_rewards_pool(p, epoch), epoch) == claim_rewards_pool(p, epoch),
{
}

/// Withdraw gating: with every identity in place, a settlement fails
/// "not deactivated" while the record carries the never-deactivated
/// sentinel, fails "cooldown not passed" up to and including the
/// deactivation epoch, and is owed success once the current epoch
/// exceeds it (the planned payout being the record's whole balance, by
/// [`withdraw_stake_ok`]).
pub proof fn lemma_withdraw_gating(
    program_id: Seq<u8>,
    accounts: Seq<AccountView>,
    ctx: crate::state::CallContextView,
    deact: u64,
)
    requires
        accounts.len() >= 7,
        accounts[0].is_signer,
        accounts[1].owner == program_id,
        accounts[2].owner == ctx.stake_program,
        parse_pool_bytes(accounts[1].data) matches Some(p0) && p0.version > 0 && accounts[3].key
            == p0.withdraw_authority && (ctx.stake_record matches Some(
            StakeRecordView::Stake { staker, withdrawer, voter, deactivation_epoch },
        ) && withdrawer == p0.withdraw_authority && deactivation_epoch == deact) && (
        withdraw_authority_pda(accounts[1].key, program_id) matches Some(wa) && wa.0
            == p0.withdraw_authority),
    ensures
        deact == u64::MAX ==> withdraw_stake_check(program_id, accounts, ctx) == Some(
            PoolError::Custom(StakePoolError::StakeNotDeactivated),
        ),
        deact != u64::MAX && ctx.current_epoch <= deact ==> withdraw_stake_check(
            program_id,
            accounts,
            ctx,
        ) == Some(PoolError::Custom(StakePoolError::CooldownNotPassed)),
        deact != u64::MAX && ctx.current_epoch > deact ==> withdraw_stake_check(
            program_id,
            accounts,
            ctx,
        ) is None,
{
}

/// Forgery rejection, stake-record direction: a deposit or a withdrawal
/// request whose supplied stake record sits at any address other than
/// its correctly derived one fails, and a failed call plans no effects.
pub proof fn lemma_forged_stake_record_rejected(
    program_id: Seq<u8>,
    accounts: Seq<AccountView>,
    amount: u64,
    ctx: crate::state::CallContextView,
)
    requires
        parse_pool_bytes(accounts[1].data) matches Some(p0) && user_stake_account_pda(
            accounts[1].key,
            accounts[0].key,
            p0.stake_authority,
            program_id,
        ) matches Some(pda) && pda.0 != accounts[4].key,
    ensures
        stake_check(program_id, accounts, amount, ctx) is Some,
        unstake_check(program_id, accounts, amount, ctx) is Some,
{
}

/// Forgery rejection, authority direction: a withdrawal settlement whose
/// supplied withdraw-authority account differs from the registry's
/// stored one fails.
pub proof fn lemma_forged_withdraw_authority_rejected(
    program_id: Seq<u8>,
    accounts: Seq<AccountView>,
    ctx: crate::state::CallContextView,
)
    requires
        parse_pool_bytes(accounts[1].data) matches Some(p0) && accounts[3].key
            != p0.withdraw_authority,
    ensures
        withdraw_stake_check(program_id, accounts, ctx) is Some,
{
}

/// Forgery rejection, creation direction: a pool creation whose supplied
/// pool account or mint account differs from its derived address fails.
pub proof fn lemma_forged_creation_rejected(
    program_id: Seq<u8>,
    accounts: Seq<AccountView>,
    name: Seq<u8>,
    fee_percentage: u8,
)
    requires
        pool_pda(accounts[0].key, program_id) matches Some(pp) && (pp.0 != accounts[1].key || (
        mint_pda(accounts[1].key, program_id) matches Some(mp) && mp.0 != accounts[2].key)),
    ensures
        initialize_check(program_id, accounts, name, fee_percentage) is Some,
{
}

/// Monotonic accounting, deposit direction: a deposit that passes every
/// check grows the totals by exactly the deposited and minted amounts,
/// with no truncation.
pub proof fn lemma_accounting_deposit(
    program_id: Seq<u8>,
    accounts: Seq<AccountView>,
    amount: u64,
    ctx: crate::state::CallContextView,
    eff: StakeEffectsView,
)
    requires
        stake_check(program_id, accounts, amount, ctx) is None,
        stake_ok(accounts, amount, eff),
    ensures
        eff.new_pool.total_staked == parse_pool_bytes(accounts[1].data).unwrap().total_staked
            + amount,
        eff.new_pool.total_shares == parse_pool_bytes(accounts[1].data).unwrap().total_shares
            + eff.tokens_to_mint,
{
}

/// Monotonic accounting, withdrawal direction: a withdrawal request that
/// passes every check shrinks the totals by exactly the converted and
/// burned amounts, with no wrap-around.
pub proof fn lemma_accounting_withdrawal(
    program_id: Seq<u8>,
    accounts: Seq<AccountView>,
    pool_token_amount: u64,
    ctx: crate::state::CallContextView,
    eff: UnstakeEffectsView,
)
    requires
        unstake_check(program_id, accounts, pool_token_amount, ctx) is None,
        unstake_ok(accounts, pool_token_amount, eff),
    ensures
        eff.new_pool.total_staked == parse_pool_bytes(accounts[1].data).unwrap().total_staked
            - eff.sol_to_withdraw,
        eff.new_pool.total_shares == parse_pool_bytes(accounts[1].data).unwrap().total_shares
            - pool_token_amount,
{
}

/// Monotonic accounting, failure direction: a withdrawal request whose
/// subtraction would go negative fails; no input wraps a total around.
pub proof fn lemma_negative_total_fails(
    program_id: Seq<u8>,
    accounts: Seq<AccountView>,
    pool_token_amount: u64,
    ctx: crate::state::CallContextView,
)
    requires
        parse_pool_bytes(accounts[1].data) matches Some(p0) && (p0.total_shares
            < pool_token_amount || p0.total_staked < withdraw_amount(
            pool_token_amount,
            p0.total_staked,
            p0.total_shares,
        )),
    ensures
        unstake_check(program_id, accounts, pool_token_amount, ctx) is Some,
{
}

/// The first failure a withdrawal settlement hits, or `None`.
pub open spec fn withdraw_stake_check(
    program_id: Seq<u8>,
    accounts: Seq<AccountView>,
    ctx: crate::state::CallContextView,
) -> Option<PoolError> {
    if accounts.len() < 7 {
        Some(PoolError::NotEnoughAccountKeys)
    } else if !accounts[0].is_signer {
        Some(PoolError::MissingRequiredSignature)
    } else if accounts[1].owner != program_id {
        Some(PoolError::IllegalOwner)
    } else if accounts[2].owner != ctx.stake_program {
        Some(PoolError::IllegalOwner)
    } else if parse_pool_bytes(accounts[1].data) is None {
        Some(PoolError::InvalidAccountData)
    } else {
        let pool = parse_pool_bytes(accounts[1].data).unwrap();
        if pool.version == 0 {
            Some(PoolError::UninitializedAccount)
        } else if accounts[3].key != pool.withdraw_authority {
            Some(PoolError::Custom(StakePoolError::InvalidWithdrawAuthority))
        } else if ctx.stake_record is None {
            Some(PoolError::InvalidAccountData)
        } else {
            match ctx.stake_record.unwrap() {
                StakeRecordView::Stake { staker, withdrawer, voter, deactivation_epoch } => {
                    if withdrawer != pool.withdraw_authority {
                        Some(PoolError::Custom(StakePoolError::InvalidStakeAccountAuthority))
                    } else if deactivation_epoch == u64::MAX {
                        Some(PoolError::Custom(StakePoolError::StakeNotDeactivated))
                    } else if ctx.current_epoch <= deactivation_epoch {
                        Some(PoolError::Custom(StakePoolError::CooldownNotPassed))
                    } else {
                        match withdraw_authority_pda(accounts[1].key, program_id) {
                            None => Some(PoolError::Custom(StakePoolError::InvalidProgramAddress)),
                            Some(wa) => {
                                if wa.0 != pool.withdraw_authority {
                                    Some(
                                        PoolError::Custom(StakePoolError::InvalidWithdrawAuthority),
                                    )
                                } else {
                                    None
                                }
                            },
                        }
                    }
                },
                _ => Some(PoolError::Custom(StakePoolError::WrongStakeState)),
            }
        }
    }
}

/// The plan of a withdrawal settlement: drain the stake record in full.
pub struct WithdrawEffects {
    /// The stake record's whole balance, paid to the user.
    pub withdraw_lamports: u64,
}

/// The mathematical model of [`WithdrawEffects`].
pub struct WithdrawEffectsView {
    pub withdraw_lamports: u64,
}

impl View for WithdrawEffects {
    type V = WithdrawEffectsView;

    open spec fn view(&self) -> WithdrawEffectsView {
        WithdrawEffectsView { withdraw_lamports: self.withdraw_lamports }
    }
}

/// What a successful withdrawal settlement is owed to plan: the drained
/// balance is the stake record's whole balance.
pub open spec fn withdraw_stake_ok(accounts: Seq<AccountView>, eff: WithdrawEffectsView) -> bool {
    eff.withdraw_lamports == accounts[2].lamports
}

/// The first failure a withdrawal request (claim-token burn) hits, or
/// `None`.
pub open spec fn unstake_check(
    program_id: Seq<u8>,
    accounts: Seq<AccountView>,
    pool_token_amount: u64,
    ctx: crate::state::CallContextView,
) -> Option<PoolError> {
    if accounts.len() < 8 {
        Some(PoolError::NotEnoughAccountKeys)
    } else if !accounts[0].is_signer {
        Some(PoolError::MissingRequiredSignature)
    } else if accounts[1].owner != program_id {
        Some(PoolError::IllegalOwner)
    } else if accounts[3].owner != ctx.token_program {
        Some(PoolError::IllegalOwner)
    } else if accounts[2].owner != ctx.token_program {
        Some(PoolError::IllegalOwner)
    } else if parse_pool_bytes(accounts[1].data) is None {
        Some(PoolError::InvalidAccountData)
    } else {
        let pool = parse_pool_bytes(accounts[1].data).unwrap();
        let sol = withdraw_amount(pool_token_amount, pool.total_staked, pool.total_shares);
        if pool.version == 0 {
            Some(PoolError::UninitializedAccount)
        } else if pool.paused {
            Some(PoolError::Custom(StakePoolError::PoolPaused))
        } else if pool_token_amount == 0 {
            Some(PoolError::Custom(StakePoolError::StakeTooSmall))
        } else if sol > u64::MAX {
            Some(PoolError::Custom(StakePoolError::MathOverflow))
        } else if stake_authority_pda(accounts[1].key, program_id) is None {
            Some(PoolError::Custom(StakePoolError::InvalidProgramAddress))
        } else if stake_authority_pda(accounts[1].key, program_id).unwrap().0
            != pool.stake_authority {
            Some(PoolError::Custom(StakePoolError::InvalidStakeAuthority))
        } else if user_stake_account_pda(
            accounts[1].key,
            accounts[0].key,
            pool.stake_authority,
            program_id,
        ) is None {
            Some(PoolError::Custom(StakePoolError::InvalidProgramAddress))
        } else if user_stake_account_pda(
            accounts[1].key,
            accounts[0].key,
            pool.stake_authority,
            program_id,
        ).unwrap().0 != accounts[4].key {
            Some(PoolError::InvalidSeeds)
        } else if pool.total_staked < sol {
            Some(PoolError::Custom(StakePoolError::MathOverflow))
        } else if pool.total_shares < pool_token_amount {
            Some(PoolError::Custom(StakePoolError::MathOverflow))
        } else {
            None
        }
    }
}

/// The plan of a withdrawal request: burn the claim-tokens, start the
/// cooldown on the user's stake record, and persist the shrunk totals.
pub struct UnstakeEffects {
    /// The registry after the call.
    pub new_pool: StakePool,
    /// That registry's serialized bytes.
    pub new_pool_bytes: Vec<u8>,
    /// Claim-tokens burned from the user, by the user's own signature.
    pub burn_amount: u64,
    /// Native-asset units the burn stands for; not moved yet, settled by
    /// the later withdrawal from this record.
    pub sol_to_withdraw: u64,
}

/// The mathematical model of [`UnstakeEffects`].
pub struct UnstakeEffectsView {
    pub new_pool: PoolView,
    pub new_pool_bytes: Seq<u8>,
    pub burn_amount: u64,
    pub sol_to_withdraw: u64,
}

impl View for UnstakeEffects {
    type V = UnstakeEffectsView;

    open spec fn view(&self) -> UnstakeEffectsView {
        UnstakeEffectsView {
            new_pool: self.new_pool@,
            new_pool_bytes: self.new_pool_bytes@,
            burn_amount: self.burn_amount,
            sol_to_withdraw: self.sol_to_withdraw,
        }
    }
}

/// What a successful withdrawal request is owed to plan: burn exactly the
/// requested claim-tokens and shrink both totals by the converted amounts
/// — the running-difference accounting.
pub open spec fn unstake_ok(
    accounts: Seq<AccountView>,
    pool_token_amount: u64,
    eff: UnstakeEffectsView,
) -> bool {
    let p0 = parse_pool_bytes(accounts[1].data).unwrap();
    let sol = withdraw_amount(pool_token_amount, p0.total_staked, p0.total_shares);
    &&& eff.burn_amount == pool_token_amount
    &&& eff.sol_to_withdraw == sol
    &&& eff.new_pool == PoolView {
        total_staked: (p0.total_staked - sol) as u64,
        total_shares: (p0.total_shares - pool_token_amount) as u64,
        ..p0
    }
    &&& eff.new_pool_bytes == pool_bytes(eff.new_pool)
}

impl Processor {
    /// Advances the reward epoch marker.  Accounts: signer, pool registry,
    /// clock.  Rewards accrue implicitly in delegated balances and are
    /// never rebased into the totals; within one epoch a repeat call is a
    /// successful no-op.
    pub fn process_claim_rewards(
        program_id: &Address,
        accounts: &Vec<Account>,
        ctx: &CallContext,
    ) -> (r: Result<ClaimEffects, PoolError>)
        ensures
            r is Err <==> claim_rewards_check(program_id@, accounts.deep_view()) is Some,
            r matches Err(e) ==> claim_rewards_check(program_id@, accounts.deep_view()) == Some(e),
            r matches Ok(eff) ==> claim_rewards_ok(accounts.deep_view(), ctx@, eff@),
    {
        if accounts.len() < 3 {
            return Err(PoolError::NotEnoughAccountKeys);
        }
        let user_info = &accounts[0];
        let stake_pool_info = &accounts[1];
        if !user_info.is_signer {
            return Err(PoolError::MissingRequiredSignature);
        }
        if !(stake_pool_info.owner == *program_id) {
            return Err(PoolError::IllegalOwner);
        }
        let mut stake_pool = match parse_pool(&stake_pool_info.data) {
            Ok(p) => p,
            Err(e) => {
                return Err(e);
            },
        };
        if !stake_pool.is_initialized() {
            return Err(PoolError::UninitializedAccount);
        }
        proof {
            assert(stake_pool.name@.len() <= 0xFFFF_FFFF);
        }
        if stake_pool.last_update_epoch >= ctx.current_epoch {
            let new_pool_bytes = serialize_pool(&stake_pool);
            return Ok(ClaimEffects { updated: false, new_pool: stake_pool, new_pool_bytes });
        }
        stake_pool.last_update_epoch = ctx.current_epoch;
        let new_pool_bytes = serialize_pool(&stake_pool);
        Ok(ClaimEffects { updated: true, new_pool: stake_pool, new_pool_bytes })
    }

    /// Settles a withdrawal after the cooldown: pays the stake record's
    /// full balance to the user.  Accounts: signer, pool registry, stake
    /// record, withdraw authority, staking subsystem, clock, stake
    /// history.  The record must be authorized to the pool's withdraw
    /// authority, deactivated, and past its deactivation epoch; the pause
    /// flag is irrelevant here.
    pub fn process_withdraw_stake(
        program_id: &Address,
        accounts: &Vec<Account>,
        ctx: &CallContext,
    ) -> (r: Result<WithdrawEffects, PoolError>)
        ensures
            r is Err <==> withdraw_stake_check(program_id@, accounts.deep_view(), ctx@) is Some,
            r matches Err(e) ==> withdraw_stake_check(program_id@, accounts.deep_view(), ctx@)
                == Some(e),
            r matches Ok(eff) ==> withdraw_stake_ok(accounts.deep_view(), eff@),
    {
        if accounts.len() < 7 {
            return Err(PoolError::NotEnoughAccountKeys);
        }
        let user_info = &accounts[0];
        let stake_pool_info = &accounts[1];
        let stake_account_info = &accounts[2];
        let withdraw_authority_info = &accounts[3];
        if !user_info.is_signer {
            return Err(PoolError::MissingRequiredSignature);
        }
        if !(stake_pool_info.owner == *program_id) {
            return Err(PoolError::IllegalOwner);
        }
        if !(stake_account_info.owner == ctx.ids.stake_program) {
            return Err(PoolError::IllegalOwner);
        }
        let stake_pool = match parse_pool(&stake_pool_info.data) {
            Ok(p) => p,
            Err(e) => {
                return Err(e);
            },
        };
        if !stake_pool.is_initialized() {
            return Err(PoolError::UninitializedAccount);
        }
        if !(withdraw_authority_info.key == stake_pool.withdraw_authority) {
            return Err(PoolError::Custom(StakePoolError::InvalidWithdrawAuthority));
        }
        let record = match &ctx.stake_record {
            Some(s) => s,
            None => {
                return Err(PoolError::InvalidAccountData);
            },
        };
        let deactivation_epoch: u64 = match record {
            StakeRecordState::Stake { staker: _, withdrawer, voter: _, deactivation_epoch } => {
                if !(*withdrawer == stake_pool.withdraw_authority) {
                    return Err(PoolError::Custom(StakePoolError::InvalidStakeAccountAuthority));
                }
                if *deactivation_epoch == u64::MAX {
                    return Err(PoolError::Custom(StakePoolError::StakeNotDeactivated));
                }
                *deactivation_epoch
            },
            _ => {
                return Err(PoolError::Custom(StakePoolError::WrongStakeState));
            },
        };
        if ctx.current_epoch <= deactivation_epoch {
            return Err(PoolError::Custom(StakePoolError::CooldownNotPassed));
        }
        match derive_withdraw_authority(&stake_pool_info.key, program_id) {
            None => {
                return Err(PoolError::Custom(StakePoolError::InvalidProgramAddress));
            },
            Some(wa) => {
                if !(wa.0 == stake_pool.withdraw_authority) {
                    return Err(PoolError::Custom(StakePoolError::InvalidWithdrawAuthority));
                }
            },
        }
        Ok(WithdrawEffects { withdraw_lamports: stake_account_info.lamports })
    }

    /// Creates a new pool.  Accounts: creator (signer), pool registry
    /// account, claim-token mint, manager fee recipient, treasury fee
    /// recipient, token subsystem, system subsystem, rent, stake
    /// authority.  Validates the inputs, re-derives every address, and
    /// plans the two-phase write that patches the mint in once the pool
    /// account exists.
    pub fn process_initialize(
        program_id: &Address,
        accounts: &Vec<Account>,
        name: Vec<u8>,
        fee_percentage: u8,
        helius_validator_vote: Address,
        ctx: &CallContext,
    ) -> (r: Result<InitEffects, PoolError>)
        ensures
            r is Err <==> initialize_check(
                program_id@,
                accounts.deep_view(),
                name@,
                fee_percentage,
            ) is Some,
            r matches Err(e) ==> initialize_check(
                program_id@,
                accounts.deep_view(),
                name@,
                fee_percentage,
            ) == Some(e),
            r matches Ok(eff) ==> initialize_ok(
                program_id@,
                accounts.deep_view(),
                name@,
                fee_percentage,
                helius_validator_vote@,
                ctx@,
                eff@,
            ),
    {
        if accounts.len() < 9 {
            return Err(PoolError::NotEnoughAccountKeys);
        }
        let authority_info = &accounts[0];
        let stake_pool_info = &accounts[1];
        let pool_mint_info = &accounts[2];
        let manager_fee_info = &accounts[3];
        let treasury_fee_info = &accounts[4];
        if !authority_info.is_signer {
            return Err(PoolError::MissingRequiredSignature);
        }
        if fee_percentage > 100 {
            return Err(PoolError::Custom(StakePoolError::InvalidFeePercentage));
        }
        if name.len() < 3 || name.len() > 32 {
            return Err(PoolError::Custom(StakePoolError::InvalidPoolName));
        }
        let pool_bump: u8 = match derive_pool_address(&authority_info.key, program_id) {
            None => {
                return Err(PoolError::Custom(StakePoolError::InvalidProgramAddress));
            },
            Some(pp) => {
                if !(pp.0 == stake_pool_info.key) {
                    return Err(PoolError::InvalidSeeds);
                }
                pp.1
            },
        };
        let (stake_authority, stake_authority_bump) = match derive_stake_authority(
            &stake_pool_info.key,
            program_id,
        ) {
            None => {
                return Err(PoolError::Custom(StakePoolError::InvalidProgramAddress));
            },
            Some(sa) => sa,
        };
        let (withdraw_authority, withdraw_authority_bump) = match derive_withdraw_authority(
            &stake_pool_info.key,
            program_id,
        ) {
            None => {
                return Err(PoolError::Custom(StakePoolError::InvalidProgramAddress));
            },
            Some(wa) => wa,
        };
        let mint_bump: u8 = match derive_mint_address(&stake_pool_info.key, program_id) {
            None => {
                return Err(PoolError::Custom(StakePoolError::InvalidProgramAddress));
            },
            Some(mp) => {
                if !(mp.0 == pool_mint_info.key) {
                    return Err(PoolError::InvalidSeeds);
                }
                mp.1
            },
        };
        let mut pool = StakePool {
            version: 1,
            authority: authority_info.key,
            stake_authority,
            withdraw_authority,
            name,
            fee_percentage,
            total_staked: 0,
            total_shares: 0,
            mint: Address::zeroed(),
            reserve: Address::zeroed(),
            helius_validator_vote,
            manager_fee_account: manager_fee_info.key,
            treasury_fee_account: treasury_fee_info.key,
            paused: false,
            last_update_epoch: ctx.current_epoch,
            min_stake: DEFAULT_MIN_STAKE,
            max_stake: DEFAULT_MAX_STAKE,
            stake_authority_bump_seed: stake_authority_bump,
            withdraw_authority_bump_seed: withdraw_authority_bump,
            reserved: [0u8; 62],
        };
        let ghost pre_view = pool@;
        proof {
            assert(pool.reserved@ =~= Seq::new(62, |i: int| 0u8));
        }
        let record_bytes = serialize_pool(&pool);
        let required_size = record_bytes.len();
        let mut patched_bytes = crate::codec::clone_bytes(&record_bytes);
        let off = mint_offset(pool.name.len());
        match write_address_at(&mut patched_bytes, off, &pool_mint_info.key) {
            Ok(u) => u,
            Err(_) => {
                return Err(PoolError::AccountDataTooSmall);
            },
        };
        pool.mint = pool_mint_info.key;
        proof {
            lemma_patch_mint(pre_view, pool_mint_info.key@);
            assert(patched_bytes@ == pool_bytes(pool@));
        }
        Ok(InitEffects { pool, record_bytes, patched_bytes, required_size, pool_bump, mint_bump })
    }

    /// Deposits native-asset units: plans the user's stake record
    /// (created on first use, topped up and re-delegated after), the
    /// transfer into it, its delegation to the pinned validator, and the
    /// claim-token mint at the pool's current ratio.  Accounts: signer,
    /// pool registry, user token account, claim-token mint, stake record,
    /// token subsystem, staking subsystem, system subsystem, rent, clock,
    /// stake history, stake config, pinned validator, stake authority.
    pub fn process_stake(
        program_id: &Address,
        accounts: &Vec<Account>,
        amount: u64,
        ctx: &CallContext,
    ) -> (r: Result<StakeEffects, PoolError>)
        ensures
            r is Err <==> stake_check(program_id@, accounts.deep_view(), amount, ctx@) is Some,
            r matches Err(e) ==> stake_check(program_id@, accounts.deep_view(), amount, ctx@)
                == Some(e),
            r matches Ok(eff) ==> stake_ok(accounts.deep_view(), amount, eff@),
    {
        if accounts.len() < 14 {
            return Err(PoolError::NotEnoughAccountKeys);
        }
        let user_info = &accounts[0];
        let stake_pool_info = &accounts[1];
        let user_token_account_info = &accounts[2];
        let pool_mint_info = &accounts[3];
        let stake_account_info = &accounts[4];
        let stake_program_info = &accounts[6];
        let helius_validator_vote_info = &accounts[12];
        let stake_authority_info = &accounts[13];
        if !user_info.is_signer {
            return Err(PoolError::MissingRequiredSignature);
        }
        if !(stake_pool_info.owner == *program_id) {
            return Err(PoolError::IllegalOwner);
        }
        if !(pool_mint_info.owner == ctx.ids.token_program) {
            return Err(PoolError::IllegalOwner);
        }
        if !(user_token_account_info.owner == ctx.ids.token_program) {
            return Err(PoolError::IllegalOwner);
        }
        let mut stake_pool = match parse_pool(&stake_pool_info.data) {
            Ok(p) => p,
            Err(e) => {
                return Err(e);
            },
        };
        if !stake_pool.is_initialized() {
            return Err(PoolError::UninitializedAccount);
        }
        if stake_pool.paused {
            return Err(PoolError::Custom(StakePoolError::PoolPaused));
        }
        if amount < stake_pool.min_stake {
            return Err(PoolError::Custom(StakePoolError::StakeTooSmall));
        }
        if amount > stake_pool.max_stake {
            return Err(PoolError::Custom(StakePoolError::StakeTooLarge));
        }
        if !(helius_validator_vote_info.key == stake_pool.helius_validator_vote) {
            return Err(PoolError::Custom(StakePoolError::InvalidStakeAccountDelegation));
        }
        let pool_tokens_to_mint = match calc_tokens_to_mint(
            amount,
            stake_pool.total_shares,
            stake_pool.total_staked,
        ) {
            Ok(v) => v,
            Err(e) => {
                return Err(PoolError::Custom(e));
            },
        };
        if pool_tokens_to_mint == 0 {
            return Err(PoolError::Custom(StakePoolError::CalculationFailure));
        }
        match derive_stake_authority(&stake_pool_info.key, program_id) {
            None => {
                return Err(PoolError::Custom(StakePoolError::InvalidProgramAddress));
            },
            Some(sa) => {
                if !(sa.0 == stake_pool.stake_authority) || !(sa.0 == stake_authority_info.key) {
                    return Err(PoolError::Custom(StakePoolError::InvalidStakeAuthority));
                }
            },
        }
        match derive_user_stake_account(
            &stake_pool_info.key,
            &user_info.key,
            &stake_pool.stake_authority,
            program_id,
        ) {
            None => {
                return Err(PoolError::Custom(StakePoolError::InvalidProgramAddress));
            },
            Some(pda) => {
                if !(pda.0 == stake_account_info.key) {
                    return Err(PoolError::InvalidSeeds);
                }
            },
        }
        let create_stake_account = stake_account_info.lamports == 0;
        if !create_stake_account {
            if !(stake_account_info.owner == stake_program_info.key) {
                return Err(PoolError::IllegalOwner);
            }
            match &ctx.stake_record {
                Some(_) => {},
                None => {
                    return Err(PoolError::InvalidAccountData);
                },
            }
        }
        let new_staked = match stake_pool.total_staked.checked_add(amount) {
            Some(v) => v,
            None => {
                return Err(PoolError::Custom(StakePoolError::MathOverflow));
            },
        };
        let new_shares = match stake_pool.total_shares.checked_add(pool_tokens_to_mint) {
            Some(v) => v,
            None => {
                return Err(PoolError::Custom(StakePoolError::MathOverflow));
            },
        };
        stake_pool.total_staked = new_staked;
        stake_pool.total_shares = new_shares;
        let new_pool_bytes = serialize_pool(&stake_pool);
        Ok(
            StakeEffects {
                new_pool: stake_pool,
                new_pool_bytes,
                tokens_to_mint: pool_tokens_to_mint,
                create_stake_account,
            },
        )
    }

    /// Requests a withdrawal: burns the user's claim-tokens at once,
    /// starts the external cooldown on their stake record and shrinks the
    /// totals.  Accounts: signer, pool registry, user token account,
    /// claim-token mint, stake record, token subsystem, staking
    /// subsystem, clock.  No separate request ledger exists: the amount
    /// owed is whatever that record holds when the cooldown ends.
    pub fn process_unstake(
        program_id: &Address,
        accounts: &Vec<Account>,
        pool_token_amount: u64,
        ctx: &CallContext,
    ) -> (r: Result<UnstakeEffects, PoolError>)
        ensures
            r is Err <==> unstake_check(
                program_id@,
                accounts.deep_view(),
                pool_token_amount,
                ctx@,
            ) is Some,
            r matches Err(e) ==> unstake_check(
                program_id@,
                accounts.deep_view(),
                pool_token_amount,
                ctx@,
            ) == Some(e),
            r matches Ok(eff) ==> unstake_ok(accounts.deep_view(), pool_token_amount, eff@),
    {
        if accounts.len() < 8 {
            return Err(PoolError::NotEnoughAccountKeys);
        }
        let user_info = &accounts[0];
        let stake_pool_info = &accounts[1];
        let user_token_account_info = &accounts[2];
        let pool_mint_info = &accounts[3];
        let stake_account_info = &accounts[4];
        if !user_info.is_signer {
            return Err(PoolError::MissingRequiredSignature);
        }
        if !(stake_pool_info.owner == *program_id) {
            return Err(PoolError::IllegalOwner);
        }
        if !(pool_mint_info.owner == ctx.ids.token_program) {
            return Err(PoolError::IllegalOwner);
        }
        if !(user_token_account_info.owner == ctx.ids.token_program) {
            return Err(PoolError::IllegalOwner);
        }
        let mut stake_pool = match parse_pool(&stake_pool_info.data) {
            Ok(p) => p,
            Err(e) => {
                return Err(e);
            },
        };
        if !stake_pool.is_initialized() {
            return Err(PoolError::UninitializedAccount);
        }
        if stake_pool.paused {
            return Err(PoolError::Custom(StakePoolError::PoolPaused));
        }
        if pool_token_amount == 0 {
            return Err(PoolError::Custom(StakePoolError::StakeTooSmall));
        }
        let sol_to_withdraw = match calc_sol_to_withdraw(
            pool_token_amount,
            stake_pool.total_staked,
            stake_pool.total_shares,
        ) {
            Ok(v) => v,
            Err(e) => {
                return Err(PoolError::Custom(e));
            },
        };
        match derive_stake_authority(&stake_pool_info.key, program_id) {
            None => {
                return Err(PoolError::Custom(StakePoolError::InvalidProgramAddress));
            },
            Some(sa) => {
                if !(sa.0 == stake_pool.stake_authority) {
                    return Err(PoolError::Custom(StakePoolError::InvalidStakeAuthority));
                }
            },
        }
        match derive_user_stake_account(
            &stake_pool_info.key,
            &user_info.key,
            &stake_pool.stake_authority,
            program_id,
        ) {
            None => {
                return Err(PoolError::Custom(StakePoolError::InvalidProgramAddress));
            },
            Some(pda) => {
                if !(pda.0 == stake_account_info.key) {
                    return Err(PoolError::InvalidSeeds);
                }
            },
        }
        let new_staked = match stake_pool.total_staked.checked_sub(sol_to_withdraw) {
            Some(v) => v,
            None => {
                return Err(PoolError::Custom(StakePoolError::MathOverflow));
            },
        };
        let new_shares = match stake_pool.total_shares.checked_sub(pool_token_amount) {
            Some(v) => v,
            None => {
                return Err(PoolError::Custom(StakePoolError::MathOverflow));
            },
        };
        stake_pool.total_staked = new_staked;
        stake_pool.total_shares = new_shares;
        let new_pool_bytes = serialize_pool(&stake_pool);
        Ok(
            UnstakeEffects {
                new_pool: stake_pool,
                new_pool_bytes,
                burn_amount: pool_token_amount,
                sol_to_withdraw,
            },
        )
    }

    /// Decodes the payload and routes it to its handler; decoding fails
    /// before any state is read.
    pub fn process(
        program_id: &Address,
        accounts: &Vec<Account>,
        instruction_data: &Vec<u8>,
        ctx: &CallContext,
    ) -> (r: Result<Effects, PoolError>)
        ensures
            process_spec(program_id@, accounts.deep_view(), instruction_data@, ctx@, r),
    {
        let instruction = match decode_instruction(instruction_data) {
            Ok(i) => i,
            Err(e) => {
                return Err(e);
            },
        };
        match instruction {
            StakePoolInstruction::Initialize { name, fee_percentage, helius_validator_vote } => {
                match Self::process_initialize(
                    program_id,
                    accounts,
                    name,
                    fee_percentage,
                    helius_validator_vote,
                    ctx,
                ) {
                    Ok(x) => Ok(Effects::Initialized(x)),
                    Err(e) => Err(e),
                }
            },
            StakePoolInstruction::Stake { amount } => {
                match Self::process_stake(program_id, accounts, amount, ctx) {
                    Ok(x) => Ok(Effects::Staked(x)),
                    Err(e) => Err(e),
                }
            },
            StakePoolInstruction::Unstake { amount } => {
                match Self::process_unstake(program_id, accounts, amount, ctx) {
                    Ok(x) => Ok(Effects::Unstaked(x)),
                    Err(e) => Err(e),
                }
            },
            StakePoolInstruction::ClaimRewards => {
                match Self::process_claim_rewards(program_id, accounts, ctx) {
                    Ok(x) => Ok(Effects::ClaimedRewards(x)),
                    Err(e) => Err(e),
                }
            },
            StakePoolInstruction::WithdrawStake => {
                match Self::process_withdraw_stake(program_id, accounts, ctx) {
                    Ok(x) => Ok(Effects::WithdrewStake(x)),
                    Err(e) => Err(e),
                }
            },
        }
    }
}

} // verus!
