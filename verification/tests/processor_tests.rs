use stake_pool::addr::Address;
use stake_pool::error::{PoolError, StakePoolError};
use stake_pool::pda::{derive_mint_address, derive_pool_address, derive_user_stake_account};
use stake_pool::processor::{Effects, Processor};
use stake_pool::record::parse_pool;
use stake_pool::state::{
    Account, CallContext, ProgramIds, StakePool, StakeRecordState, DEFAULT_MAX_STAKE,
    DEFAULT_MIN_STAKE,
};

fn addr(tag: u8) -> Address {
    Address { bytes: [tag; 32] }
}

fn program_id() -> Address {
    addr(0xAA)
}

fn token_prog() -> Address {
    addr(0xBB)
}

fn stake_prog() -> Address {
    addr(0xCC)
}

fn acct(key: Address, is_signer: bool, owner: Address, lamports: u64, data: Vec<u8>) -> Account {
    Account { key, is_signer, owner, lamports, data }
}

fn ctx(current_epoch: u64, stake_record: Option<StakeRecordState>) -> CallContext {
    CallContext {
        current_epoch,
        ids: ProgramIds { token_program: token_prog(), stake_program: stake_prog() },
        stake_record,
    }
}

fn init_accounts(creator: Address, pool_key: Address, mint_key: Address) -> Vec<Account> {
    vec![
        acct(creator, true, addr(0), 0, Vec::new()),
        acct(pool_key, false, program_id(), 0, Vec::new()),
        acct(mint_key, false, addr(0), 0, Vec::new()),
        acct(addr(7), false, addr(0), 0, Vec::new()),
        acct(addr(8), false, addr(0), 0, Vec::new()),
        acct(token_prog(), false, addr(0), 0, Vec::new()),
        acct(addr(0xDD), false, addr(0), 0, Vec::new()),
        acct(addr(0xEE), false, addr(0), 0, Vec::new()),
        acct(addr(0), false, addr(0), 0, Vec::new()),
    ]
}

// Creates a pool named "TestPool" with fee 5 pinned to validator addr(6),
// returning its address, its record bytes and the record itself.
fn setup_pool() -> (Address, Vec<u8>, StakePool) {
    let creator = addr(1);
    let (pool_key, _) = derive_pool_address(&creator, &program_id()).unwrap();
    let (mint_key, _) = derive_mint_address(&pool_key, &program_id()).unwrap();
    let accounts = init_accounts(creator, pool_key, mint_key);
    let eff = Processor::process_initialize(
        &program_id(),
        &accounts,
        b"TestPool".to_vec(),
        5,
        addr(6),
        &ctx(0, None),
    )
    .unwrap();
    (pool_key, eff.patched_bytes, eff.pool)
}

fn stake_accounts(
    user: Address,
    pool_key: Address,
    pool: &StakePool,
    pool_data: Vec<u8>,
    record_key: Address,
    record_lamports: u64,
    record_owner: Address,
) -> Vec<Account> {
    let (mint_key, _) = derive_mint_address(&pool_key, &program_id()).unwrap();
    vec![
        acct(user, true, addr(0xDD), 10_000_000_000, Vec::new()),
        acct(pool_key, false, program_id(), 0, pool_data),
        acct(addr(0x21), false, token_prog(), 0, Vec::new()),
        acct(mint_key, false, token_prog(), 0, Vec::new()),
        acct(record_key, false, record_owner, record_lamports, Vec::new()),
        acct(token_prog(), false, addr(0), 0, Vec::new()),
        acct(stake_prog(), false, addr(0), 0, Vec::new()),
        acct(addr(0xDD), false, addr(0), 0, Vec::new()),
        acct(addr(0xEE), false, addr(0), 0, Vec::new()),
        acct(addr(0xE1), false, addr(0), 0, Vec::new()),
        acct(addr(0xE2), false, addr(0), 0, Vec::new()),
        acct(addr(0xE3), false, addr(0), 0, Vec::new()),
        acct(addr(6), false, addr(0), 0, Vec::new()),
        acct(pool.stake_authority, false, addr(0), 0, Vec::new()),
    ]
}

fn unstake_accounts(
    user: Address,
    pool_key: Address,
    pool_data: Vec<u8>,
    record_key: Address,
) -> Vec<Account> {
    let (mint_key, _) = derive_mint_address(&pool_key, &program_id()).unwrap();
    vec![
        acct(user, true, addr(0xDD), 0, Vec::new()),
        acct(pool_key, false, program_id(), 0, pool_data),
        acct(addr(0x21), false, token_prog(), 0, Vec::new()),
        acct(mint_key, false, token_prog(), 0, Vec::new()),
        acct(record_key, false, stake_prog(), 0, Vec::new()),
        acct(token_prog(), false, addr(0), 0, Vec::new()),
        acct(stake_prog(), false, addr(0), 0, Vec::new()),
        acct(addr(0xE1), false, addr(0), 0, Vec::new()),
    ]
}

fn withdraw_accounts(
    user: Address,
    pool_key: Address,
    pool: &StakePool,
    pool_data: Vec<u8>,
    record_key: Address,
    record_lamports: u64,
) -> Vec<Account> {
    vec![
        acct(user, true, addr(0xDD), 0, Vec::new()),
        acct(pool_key, false, program_id(), 0, pool_data),
        acct(record_key, false, stake_prog(), record_lamports, Vec::new()),
        acct(pool.withdraw_authority, false, addr(0), 0, Vec::new()),
        acct(stake_prog(), false, addr(0), 0, Vec::new()),
        acct(addr(0xE1), false, addr(0), 0, Vec::new()),
        acct(addr(0xE2), false, addr(0), 0, Vec::new()),
    ]
}

fn record_key_for(user: &Address, pool_key: &Address, pool: &StakePool) -> Address {
    derive_user_stake_account(pool_key, user, &pool.stake_authority, &program_id())
        .unwrap()
        .0
}

#[test]
fn initialize_builds_fresh_record() {
    let (pool_key, bytes, pool) = setup_pool();
    assert_eq!(pool.version, 1);
    assert_eq!(pool.total_staked, 0);
    assert_eq!(pool.total_shares, 0);
    assert_eq!(pool.name, b"TestPool".to_vec());
    assert_eq!(pool.fee_percentage, 5);
    assert!(!pool.paused);
    assert_eq!(pool.min_stake, DEFAULT_MIN_STAKE);
    assert_eq!(pool.max_stake, DEFAULT_MAX_STAKE);
    let (mint_key, _) = derive_mint_address(&pool_key, &program_id()).unwrap();
    assert!(pool.mint == mint_key);
    // The persisted bytes parse back to the same record.
    let back = parse_pool(&bytes).unwrap();
    assert!(back.mint == mint_key);
    assert!(back.stake_authority == pool.stake_authority);
    assert_eq!(back.last_update_epoch, 0);
}

#[test]
fn initialize_two_phase_write_patches_mint() {
    let creator = addr(1);
    let (pool_key, _) = derive_pool_address(&creator, &program_id()).unwrap();
    let (mint_key, _) = derive_mint_address(&pool_key, &program_id()).unwrap();
    let accounts = init_accounts(creator, pool_key, mint_key);
    let eff = Processor::process_initialize(
        &program_id(),
        &accounts,
        b"TestPool".to_vec(),
        5,
        addr(6),
        &ctx(0, None),
    )
    .unwrap();
    assert_eq!(eff.required_size, eff.record_bytes.len());
    assert_eq!(eff.record_bytes.len(), eff.patched_bytes.len());
    // Before the patch the mint slot is zeroed; after it, set.
    let pre = parse_pool(&eff.record_bytes).unwrap();
    assert!(pre.mint == Address { bytes: [0u8; 32] });
    let post = parse_pool(&eff.patched_bytes).unwrap();
    assert!(post.mint == mint_key);
}

#[test]
fn initialize_validates_inputs() {
    let creator = addr(1);
    let (pool_key, _) = derive_pool_address(&creator, &program_id()).unwrap();
    let (mint_key, _) = derive_mint_address(&pool_key, &program_id()).unwrap();
    let accounts = init_accounts(creator, pool_key, mint_key);
    let c = ctx(0, None);
    let r = Processor::process_initialize(&program_id(), &accounts, b"TestPool".to_vec(), 101, addr(6), &c);
    assert_eq!(r.err(), Some(PoolError::Custom(StakePoolError::InvalidFeePercentage)));
    let r = Processor::process_initialize(&program_id(), &accounts, b"ab".to_vec(), 5, addr(6), &c);
    assert_eq!(r.err(), Some(PoolError::Custom(StakePoolError::InvalidPoolName)));
    let r = Processor::process_initialize(&program_id(), &accounts, vec![b'x'; 33], 5, addr(6), &c);
    assert_eq!(r.err(), Some(PoolError::Custom(StakePoolError::InvalidPoolName)));
    let mut unsigned = accounts.clone();
    unsigned[0].is_signer = false;
    let r = Processor::process_initialize(&program_id(), &unsigned, b"TestPool".to_vec(), 5, addr(6), &c);
    assert_eq!(r.err(), Some(PoolError::MissingRequiredSignature));
}

#[test]
fn initialize_rejects_forged_addresses() {
    let creator = addr(1);
    let (pool_key, _) = derive_pool_address(&creator, &program_id()).unwrap();
    let (mint_key, _) = derive_mint_address(&pool_key, &program_id()).unwrap();
    let c = ctx(0, None);
    let mut forged_pool = init_accounts(creator, pool_key, mint_key);
    forged_pool[1].key = addr(99);
    let r = Processor::process_initialize(&program_id(), &forged_pool, b"TestPool".to_vec(), 5, addr(6), &c);
    assert_eq!(r.err(), Some(PoolError::InvalidSeeds));
    let mut forged_mint = init_accounts(creator, pool_key, mint_key);
    forged_mint[2].key = addr(98);
    let r = Processor::process_initialize(&program_id(), &forged_mint, b"TestPool".to_vec(), 5, addr(6), &c);
    assert_eq!(r.err(), Some(PoolError::InvalidSeeds));
}

#[test]
fn stake_enforces_default_bounds() {
    let (pool_key, bytes, pool) = setup_pool();
    let user = addr(11);
    let rec = record_key_for(&user, &pool_key, &pool);
    let c = ctx(0, None);
    let accounts = stake_accounts(user, pool_key, &pool, bytes.clone(), rec, 0, addr(0));
    let r = Processor::process_stake(&program_id(), &accounts, 999_999_999, &c);
    assert_eq!(r.err(), Some(PoolError::Custom(StakePoolError::StakeTooSmall)));
    let r = Processor::process_stake(&program_id(), &accounts, 1_000_000_000_000_001, &c);
    assert_eq!(r.err(), Some(PoolError::Custom(StakePoolError::StakeTooLarge)));
    let r = Processor::process_stake(&program_id(), &accounts, 1_000_000_000, &c);
    assert!(r.is_ok());
    let r = Processor::process_stake(&program_id(), &accounts, 1_000_000_000_000_000, &c);
    assert!(r.is_ok());
}

#[test]
fn stake_bootstrap_then_ratio() {
    let (pool_key, bytes, pool) = setup_pool();
    let c = ctx(0, None);
    // First deposit into the empty pool mints one-to-one.
    let user1 = addr(11);
    let rec1 = record_key_for(&user1, &pool_key, &pool);
    let accounts = stake_accounts(user1, pool_key, &pool, bytes, rec1, 0, addr(0));
    let eff = Processor::process_stake(&program_id(), &accounts, 2_000_000_000, &c).unwrap();
    assert_eq!(eff.tokens_to_mint, 2_000_000_000);
    assert!(eff.create_stake_account);
    assert_eq!(eff.new_pool.total_staked, 2_000_000_000);
    assert_eq!(eff.new_pool.total_shares, 2_000_000_000);
    // Second deposit at the 1:1 ratio.
    let user2 = addr(12);
    let rec2 = record_key_for(&user2, &pool_key, &pool);
    let accounts =
        stake_accounts(user2, pool_key, &pool, eff.new_pool_bytes, rec2, 0, addr(0));
    let eff2 = Processor::process_stake(&program_id(), &accounts, 1_000_000_000, &c).unwrap();
    assert_eq!(eff2.tokens_to_mint, 1_000_000_000);
    assert_eq!(eff2.new_pool.total_staked, 3_000_000_000);
    assert_eq!(eff2.new_pool.total_shares, 3_000_000_000);
}

#[test]
fn stake_rejects_wrong_accounts_and_state() {
    let (pool_key, bytes, pool) = setup_pool();
    let user = addr(11);
    let rec = record_key_for(&user, &pool_key, &pool);
    let c = ctx(0, None);
    let amount = 2_000_000_000;
    // Wrong validator vote account.
    let mut a = stake_accounts(user, pool_key, &pool, bytes.clone(), rec, 0, addr(0));
    a[12].key = addr(66);
    let r = Processor::process_stake(&program_id(), &a, amount, &c);
    assert_eq!(r.err(), Some(PoolError::Custom(StakePoolError::InvalidStakeAccountDelegation)));
    // Forged stake record address.
    let a = stake_accounts(user, pool_key, &pool, bytes.clone(), addr(77), 0, addr(0));
    let r = Processor::process_stake(&program_id(), &a, amount, &c);
    assert_eq!(r.err(), Some(PoolError::InvalidSeeds));
    // Forged stake authority account.
    let mut a = stake_accounts(user, pool_key, &pool, bytes.clone(), rec, 0, addr(0));
    a[13].key = addr(88);
    let r = Processor::process_stake(&program_id(), &a, amount, &c);
    assert_eq!(r.err(), Some(PoolError::Custom(StakePoolError::InvalidStakeAuthority)));
    // Missing signature.
    let mut a = stake_accounts(user, pool_key, &pool, bytes.clone(), rec, 0, addr(0));
    a[0].is_signer = false;
    let r = Processor::process_stake(&program_id(), &a, amount, &c);
    assert_eq!(r.err(), Some(PoolError::MissingRequiredSignature));
    // Registry owned by the wrong subsystem.
    let mut a = stake_accounts(user, pool_key, &pool, bytes.clone(), rec, 0, addr(0));
    a[1].owner = addr(0x55);
    let r = Processor::process_stake(&program_id(), &a, amount, &c);
    assert_eq!(r.err(), Some(PoolError::IllegalOwner));
    // Paused pool.
    let mut paused = parse_pool(&bytes).unwrap();
    paused.paused = true;
    let paused_bytes = stake_pool::record::serialize_pool(&paused);
    let a = stake_accounts(user, pool_key, &pool, paused_bytes, rec, 0, addr(0));
    let r = Processor::process_stake(&program_id(), &a, amount, &c);
    assert_eq!(r.err(), Some(PoolError::Custom(StakePoolError::PoolPaused)));
    // Uninitialized registry record.
    let blank_bytes = stake_pool::record::serialize_pool(&StakePool::default());
    let a = stake_accounts(user, pool_key, &pool, blank_bytes, rec, 0, addr(0));
    let r = Processor::process_stake(&program_id(), &a, amount, &c);
    assert_eq!(r.err(), Some(PoolError::UninitializedAccount));
}

#[test]
fn stake_into_existing_record() {
    let (pool_key, bytes, pool) = setup_pool();
    let user = addr(11);
    let rec = record_key_for(&user, &pool_key, &pool);
    let existing = Some(StakeRecordState::Stake {
        staker: pool.stake_authority,
        withdrawer: user,
        voter: addr(6),
        deactivation_epoch: u64::MAX,
    });
    // A live record owned by the staking subsystem is topped up.
    let a = stake_accounts(user, pool_key, &pool, bytes.clone(), rec, 5, stake_prog());
    let eff =
        Processor::process_stake(&program_id(), &a, 2_000_000_000, &ctx(0, existing)).unwrap();
    assert!(!eff.create_stake_account);
    // A live record owned by anyone else is refused.
    let a = stake_accounts(user, pool_key, &pool, bytes.clone(), rec, 5, addr(0x44));
    let r = Processor::process_stake(&program_id(), &a, 2_000_000_000, &ctx(0, existing));
    assert_eq!(r.err(), Some(PoolError::IllegalOwner));
    // A live record whose bytes do not parse is refused.
    let a = stake_accounts(user, pool_key, &pool, bytes, rec, 5, stake_prog());
    let r = Processor::process_stake(&program_id(), &a, 2_000_000_000, &ctx(0, None));
    assert_eq!(r.err(), Some(PoolError::InvalidAccountData));
}

#[test]
fn unstake_burns_and_shrinks_totals() {
    let (pool_key, bytes, pool) = setup_pool();
    let c = ctx(0, None);
    let user1 = addr(11);
    let rec1 = record_key_for(&user1, &pool_key, &pool);
    let a = stake_accounts(user1, pool_key, &pool, bytes, rec1, 0, addr(0));
    let eff = Processor::process_stake(&program_id(), &a, 3_000_000_000, &c).unwrap();
    // Burn half the minted tokens.
    let a = unstake_accounts(user1, pool_key, eff.new_pool_bytes, rec1);
    let ueff = Processor::process_unstake(&program_id(), &a, 1_500_000_000, &c).unwrap();
    assert_eq!(ueff.burn_amount, 1_500_000_000);
    assert_eq!(ueff.sol_to_withdraw, 1_500_000_000);
    assert_eq!(ueff.new_pool.total_staked, 1_500_000_000);
    assert_eq!(ueff.new_pool.total_shares, 1_500_000_000);
    // A zero request is refused.
    let a = unstake_accounts(user1, pool_key, ueff.new_pool_bytes.clone(), rec1);
    let r = Processor::process_unstake(&program_id(), &a, 0, &c);
    assert_eq!(r.err(), Some(PoolError::Custom(StakePoolError::StakeTooSmall)));
    // A forged stake record address is refused.
    let a = unstake_accounts(user1, pool_key, ueff.new_pool_bytes, addr(77));
    let r = Processor::process_unstake(&program_id(), &a, 1, &c);
    assert_eq!(r.err(), Some(PoolError::InvalidSeeds));
}

#[test]
fn withdraw_gating_follows_the_cooldown() {
    let (pool_key, bytes, pool) = setup_pool();
    let user = addr(11);
    let rec = record_key_for(&user, &pool_key, &pool);
    let balance = 1_500_000_000;
    let a = withdraw_accounts(user, pool_key, &pool, bytes, rec, balance);
    let record = |deact: u64| {
        Some(StakeRecordState::Stake {
            staker: pool.stake_authority,
            withdrawer: pool.withdraw_authority,
            voter: addr(6),
            deactivation_epoch: deact,
        })
    };
    // Never deactivated: refused.
    let r = Processor::process_withdraw_stake(&program_id(), &a, &ctx(12, record(u64::MAX)));
    assert_eq!(r.err(), Some(PoolError::Custom(StakePoolError::StakeNotDeactivated)));
    // Deactivated this very epoch: cooldown not passed.
    let r = Processor::process_withdraw_stake(&program_id(), &a, &ctx(10, record(10)));
    assert_eq!(r.err(), Some(PoolError::Custom(StakePoolError::CooldownNotPassed)));
    // One epoch later: drains the full balance.
    let eff = Processor::process_withdraw_stake(&program_id(), &a, &ctx(11, record(10))).unwrap();
    assert_eq!(eff.withdraw_lamports, balance);
    // A record not in the delegated state is refused.
    let wrong_state = Some(StakeRecordState::Initialized {
        staker: pool.stake_authority,
        withdrawer: pool.withdraw_authority,
    });
    let r = Processor::process_withdraw_stake(&program_id(), &a, &ctx(11, wrong_state));
    assert_eq!(r.err(), Some(PoolError::Custom(StakePoolError::WrongStakeState)));
    // A record authorized to someone else is refused.
    let foreign = Some(StakeRecordState::Stake {
        staker: pool.stake_authority,
        withdrawer: addr(9),
        voter: addr(6),
        deactivation_epoch: 10,
    });
    let r = Processor::process_withdraw_stake(&program_id(), &a, &ctx(11, foreign));
    assert_eq!(r.err(), Some(PoolError::Custom(StakePoolError::InvalidStakeAccountAuthority)));
}

#[test]
fn withdraw_rejects_forged_authority() {
    let (pool_key, bytes, pool) = setup_pool();
    let user = addr(11);
    let rec = record_key_for(&user, &pool_key, &pool);
    let mut a = withdraw_accounts(user, pool_key, &pool, bytes, rec, 5);
    a[3].key = addr(99);
    let record = Some(StakeRecordState::Stake {
        staker: pool.stake_authority,
        withdrawer: pool.withdraw_authority,
        voter: addr(6),
        deactivation_epoch: 1,
    });
    let r = Processor::process_withdraw_stake(&program_id(), &a, &ctx(5, record));
    assert_eq!(r.err(), Some(PoolError::Custom(StakePoolError::InvalidWithdrawAuthority)));
}

#[test]
fn claim_rewards_is_idempotent_within_an_epoch() {
    let (pool_key, bytes, _pool) = setup_pool();
    let accounts = |data: Vec<u8>| {
        vec![
            acct(addr(11), true, addr(0xDD), 0, Vec::new()),
            acct(pool_key, false, program_id(), 0, data),
            acct(addr(0xE1), false, addr(0), 0, Vec::new()),
        ]
    };
    let c = ctx(5, None);
    let eff = Processor::process_claim_rewards(&program_id(), &accounts(bytes), &c).unwrap();
    assert!(eff.updated);
    assert_eq!(eff.new_pool.last_update_epoch, 5);
    // The second call in the same epoch changes nothing.
    let again =
        Processor::process_claim_rewards(&program_id(), &accounts(eff.new_pool_bytes.clone()), &c)
            .unwrap();
    assert!(!again.updated);
    assert_eq!(again.new_pool_bytes, eff.new_pool_bytes);
    // An older epoch is also a no-op.
    let older =
        Processor::process_claim_rewards(&program_id(), &accounts(eff.new_pool_bytes.clone()), &ctx(3, None))
            .unwrap();
    assert!(!older.updated);
    assert_eq!(older.new_pool.last_update_epoch, 5);
}

#[test]
fn end_to_end_lifecycle() {
    // Initialize("TestPool", fee 5, validator V), stake 2e9 into the
    // empty pool, a second user stakes 1e9 at the 1:1 ratio, the first
    // burns 1.5e9 tokens, and after the cooldown the withdrawal drains
    // exactly that record's balance.
    let (pool_key, bytes, pool) = setup_pool();
    let c = ctx(0, None);
    let user1 = addr(11);
    let user2 = addr(12);
    let rec1 = record_key_for(&user1, &pool_key, &pool);
    let rec2 = record_key_for(&user2, &pool_key, &pool);
    let a = stake_accounts(user1, pool_key, &pool, bytes, rec1, 0, addr(0));
    let s1 = Processor::process_stake(&program_id(), &a, 2_000_000_000, &c).unwrap();
    assert_eq!(s1.tokens_to_mint, 2_000_000_000);
    assert_eq!((s1.new_pool.total_staked, s1.new_pool.total_shares), (2_000_000_000, 2_000_000_000));
    let a = stake_accounts(user2, pool_key, &pool, s1.new_pool_bytes, rec2, 0, addr(0));
    let s2 = Processor::process_stake(&program_id(), &a, 1_000_000_000, &c).unwrap();
    assert_eq!(s2.tokens_to_mint, 1_000_000_000);
    assert_eq!((s2.new_pool.total_staked, s2.new_pool.total_shares), (3_000_000_000, 3_000_000_000));
    let a = unstake_accounts(user1, pool_key, s2.new_pool_bytes, rec1);
    let u = Processor::process_unstake(&program_id(), &a, 1_500_000_000, &c).unwrap();
    assert_eq!(u.sol_to_withdraw, 1_500_000_000);
    assert_eq!((u.new_pool.total_staked, u.new_pool.total_shares), (1_500_000_000, 1_500_000_000));
    // The host moves 1.5e9 into the record and deactivation starts at
    // epoch 0; one epoch later the withdrawal settles in full.
    let record = Some(StakeRecordState::Stake {
        staker: pool.stake_authority,
        withdrawer: pool.withdraw_authority,
        voter: addr(6),
        deactivation_epoch: 0,
    });
    let a = withdraw_accounts(user1, pool_key, &pool, u.new_pool_bytes, rec1, 1_500_000_000);
    let w = Processor::process_withdraw_stake(&program_id(), &a, &ctx(1, record)).unwrap();
    assert_eq!(w.withdraw_lamports, 1_500_000_000);
}

#[test]
fn too_few_accounts_are_rejected() {
    let c = ctx(0, None);
    let two = vec![
        acct(addr(11), true, addr(0), 0, Vec::new()),
        acct(addr(12), false, program_id(), 0, Vec::new()),
    ];
    let r = Processor::process_claim_rewards(&program_id(), &two, &c);
    assert_eq!(r.err(), Some(PoolError::NotEnoughAccountKeys));
    let r = Processor::process_stake(&program_id(), &two, 2_000_000_000, &c);
    assert_eq!(r.err(), Some(PoolError::NotEnoughAccountKeys));
    let r = Processor::process_unstake(&program_id(), &two, 1, &c);
    assert_eq!(r.err(), Some(PoolError::NotEnoughAccountKeys));
    let r = Processor::process_withdraw_stake(&program_id(), &two, &c);
    assert_eq!(r.err(), Some(PoolError::NotEnoughAccountKeys));
}

// Rewrites an existing registry's totals and bounds, keeping its derived
// authorities, to put the share ratio into a chosen corner.
fn with_totals(bytes: &[u8], total_staked: u64, total_shares: u64, min_stake: u64) -> Vec<u8> {
    let mut pool = parse_pool(&bytes.to_vec()).unwrap();
    pool.total_staked = total_staked;
    pool.total_shares = total_shares;
    pool.min_stake = min_stake;
    stake_pool::record::serialize_pool(&pool)
}

#[test]
fn stake_calculation_corner_cases() {
    let (pool_key, bytes, pool) = setup_pool();
    let user = addr(11);
    let rec = record_key_for(&user, &pool_key, &pool);
    let c = ctx(0, None);
    // A ratio so dilute the deposit would mint nothing.
    let dilute = with_totals(&bytes, u64::MAX, 1, 1);
    let a = stake_accounts(user, pool_key, &pool, dilute, rec, 0, addr(0));
    let r = Processor::process_stake(&program_id(), &a, 1_000, &c);
    assert_eq!(r.err(), Some(PoolError::Custom(StakePoolError::CalculationFailure)));
    // A ratio whose minted amount does not fit a u64.
    let explosive = with_totals(&bytes, 1, u64::MAX, 1);
    let a = stake_accounts(user, pool_key, &pool, explosive, rec, 0, addr(0));
    let r = Processor::process_stake(&program_id(), &a, 2, &c);
    assert_eq!(r.err(), Some(PoolError::Custom(StakePoolError::MathOverflow)));
}

#[test]
fn unstake_never_wraps_the_totals() {
    let (pool_key, bytes, pool) = setup_pool();
    let user = addr(11);
    let rec = record_key_for(&user, &pool_key, &pool);
    let c = ctx(0, None);
    // Burning more shares than the ratio can cover fails instead of
    // driving a total negative.
    let lopsided = with_totals(&bytes, 10, 5, 1);
    let a = unstake_accounts(user, pool_key, lopsided, rec);
    let r = Processor::process_unstake(&program_id(), &a, 10, &c);
    assert_eq!(r.err(), Some(PoolError::Custom(StakePoolError::MathOverflow)));
}

#[test]
fn error_codes_follow_declaration_order() {
    assert_eq!(StakePoolError::InvalidInstruction.code(), 0);
    assert_eq!(StakePoolError::MathOverflow.code(), 8);
    assert_eq!(StakePoolError::CalculationFailure.code(), 17);
    assert_eq!(StakePoolError::CooldownNotPassed.code(), 25);
    assert_eq!(StakePoolError::ValidatorStakeLimitExceeded.code(), 27);
}

#[test]
fn dispatcher_routes_and_rejects() {
    let (pool_key, bytes, pool) = setup_pool();
    let c = ctx(0, None);
    let user = addr(11);
    let rec = record_key_for(&user, &pool_key, &pool);
    let accounts = stake_accounts(user, pool_key, &pool, bytes, rec, 0, addr(0));
    let mut payload = vec![1u8];
    payload.extend_from_slice(&2_000_000_000u64.to_le_bytes());
    match Processor::process(&program_id(), &accounts, &payload, &c) {
        Ok(Effects::Staked(eff)) => assert_eq!(eff.tokens_to_mint, 2_000_000_000),
        other => panic!("unexpected routing: {:?}", other.is_ok()),
    }
    let r = Processor::process(&program_id(), &accounts, &vec![9u8, 9, 9], &c);
    assert_eq!(r.err(), Some(PoolError::InvalidInstructionData));
    let r = stake_pool::process_instruction(&program_id(), &accounts, &vec![], &c);
    assert_eq!(r.err(), Some(PoolError::InvalidInstructionData));
}
