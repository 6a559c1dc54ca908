//! The pool registry record and the plain-data model of the host's accounts.

use vstd::prelude::*;

use crate::addr::{zero_address, Address};

verus! {

/// Default minimum deposit, in native-asset units.
pub const DEFAULT_MIN_STAKE: u64 = 1_000_000_000;

/// Default maximum deposit, in native-asset units.
pub const DEFAULT_MAX_STAKE: u64 = 1_000_000_000_000_000;

/// The single durable record per pool: authorities, accounting totals,
/// limits, pinned validator and pause flag.  Created once by `Initialize`
/// and mutated in place forever after.
#[derive(Clone, Debug)]
pub struct StakePool {
    /// Schema version; zero means uninitialized.
    pub version: u8,
    /// The creator authority.
    pub authority: Address,
    /// Derived capability address that delegates, deactivates and mints.
    pub stake_authority: Address,
    /// Derived capability address that withdraws settled funds.
    pub withdraw_authority: Address,
    /// Pool name as UTF-8 bytes, 3 to 32 of them once initialized.
    pub name: Vec<u8>,
    /// Fee percentage, 0 to 100; read by no current calculation.
    pub fee_percentage: u8,
    /// Idealized total of native-asset units staked.
    pub total_staked: u64,
    /// Running total of claim-tokens in circulation.
    pub total_shares: u64,
    /// The claim-token mint address, patched in after creation.
    pub mint: Address,
    /// Reserve account slot, unused.
    pub reserve: Address,
    /// The single validator this pool delegates to.
    pub helius_validator_vote: Address,
    /// Fee recipient kept for future use.
    pub manager_fee_account: Address,
    /// Fee recipient kept for future use.
    pub treasury_fee_account: Address,
    /// When set, deposits and withdrawal requests are refused.
    pub paused: bool,
    /// Last epoch the reward marker was advanced to.
    pub last_update_epoch: u64,
    /// Minimum accepted deposit.
    pub min_stake: u64,
    /// Maximum accepted deposit.
    pub max_stake: u64,
    /// Derivation disambiguator of the stake authority.
    pub stake_authority_bump_seed: u8,
    /// Derivation disambiguator of the withdraw authority.
    pub withdraw_authority_bump_seed: u8,
    /// Reserved padding.
    pub reserved: [u8; 62],
}

/// The mathematical model of a pool record: addresses and the name as byte
/// sequences, everything else as its plain value.
pub struct PoolView {
    pub version: u8,
    pub authority: Seq<u8>,
    pub stake_authority: Seq<u8>,
    pub withdraw_authority: Seq<u8>,
    pub name: Seq<u8>,
    pub fee_percentage: u8,
    pub total_staked: u64,
    pub total_shares: u64,
    pub mint: Seq<u8>,
    pub reserve: Seq<u8>,
    pub helius_validator_vote: Seq<u8>,
    pub manager_fee_account: Seq<u8>,
    pub treasury_fee_account: Seq<u8>,
    pub paused: bool,
    pub last_update_epoch: u64,
    pub min_stake: u64,
    pub max_stake: u64,
    pub stake_authority_bump_seed: u8,
    pub withdraw_authority_bump_seed: u8,
    pub reserved: Seq<u8>,
}

impl View for StakePool {
    type V = PoolView;

    open spec fn view(&self) -> PoolView {
        PoolView {
            version: self.version,
            authority: self.authority@,
            stake_authority: self.stake_authority@,
            withdraw_authority: self.withdraw_authority@,
            name: self.name@,
            fee_percentage: self.fee_percentage,
            total_staked: self.total_staked,
            total_shares: self.total_shares,
            mint: self.mint@,
            reserve: self.reserve@,
            helius_validator_vote: self.helius_validator_vote@,
            manager_fee_account: self.manager_fee_account@,
            treasury_fee_account: self.treasury_fee_account@,
            paused: self.paused,
            last_update_epoch: self.last_update_epoch,
            min_stake: self.min_stake,
            max_stake: self.max_stake,
            stake_authority_bump_seed: self.stake_authority_bump_seed,
            withdraw_authority_bump_seed: self.withdraw_authority_bump_seed,
            reserved: self.reserved@,
        }
    }
}

impl PoolView {
    /// Every address slot holds 32 bytes, the padding its 62, and an
    /// initialized record carries a 3-to-32-byte name.
    pub open spec fn wf(self) -> bool {
        &&& self.authority.len() == 32
        &&& self.stake_authority.len() == 32
        &&& self.withdraw_authority.len() == 32
        &&& self.mint.len() == 32
        &&& self.reserve.len() == 32
        &&& self.helius_validator_vote.len() == 32
        &&& self.manager_fee_account.len() == 32
        &&& self.treasury_fee_account.len() == 32
        &&& self.reserved.len() == 62
        &&& self.version > 0 ==> 3 <= self.name.len() <= 32
    }
}

impl StakePool {
    /// A record is live once `Initialize` has stamped a version into it.
    pub fn is_initialized(&self) -> (r: bool)
        ensures
            r == (self.version > 0),
    {
        self.version > 0
    }
}

impl Default for StakePool {
    /// The all-unset record: version zero, empty name, zero addresses and
    /// totals, nothing paused and no bounds.
    fn default() -> (r: StakePool)
        ensures
            r@.version == 0,
            r@.authority == zero_address(),
            r@.stake_authority == zero_address(),
            r@.withdraw_authority == zero_address(),
            r@.name.len() == 0,
            r@.fee_percentage == 0,
            r@.total_staked == 0,
            r@.total_shares == 0,
            r@.mint == zero_address(),
            r@.reserve == zero_address(),
            r@.helius_validator_vote == zero_address(),
            r@.manager_fee_account == zero_address(),
            r@.treasury_fee_account == zero_address(),
            !r@.paused,
            r@.last_update_epoch == 0,
            r@.min_stake == 0,
            r@.max_stake == 0,
            r@.stake_authority_bump_seed == 0,
            r@.withdraw_authority_bump_seed == 0,
            r@.reserved == Seq::new(62, |i: int| 0u8),
    {
        let r = StakePool {
            version: 0,
            authority: Address::zeroed(),
            stake_authority: Address::zeroed(),
            withdraw_authority: Address::zeroed(),
            name: Vec::new(),
            fee_percentage: 0,
            total_staked: 0,
            total_shares: 0,
            mint: Address::zeroed(),
            reserve: Address::zeroed(),
            helius_validator_vote: Address::zeroed(),
            manager_fee_account: Address::zeroed(),
            treasury_fee_account: Address::zeroed(),
            paused: false,
            last_update_epoch: 0,
            min_stake: 0,
            max_stake: 0,
            stake_authority_bump_seed: 0,
            withdraw_authority_bump_seed: 0,
            reserved: [0u8; 62],
        };
        proof {
            assert(r.reserved@ =~= Seq::new(62, |i: int| 0u8));
        }
        r
    }
}

/// What the controller reads of one host account: its address, whether it
/// signed the call, which subsystem owns it, its balance and its raw bytes.
#[derive(Clone, Debug)]
pub struct Account {
    pub key: Address,
    pub is_signer: bool,
    pub owner: Address,
    pub lamports: u64,
    pub data: Vec<u8>,
}

/// The mathematical model of a host account.
pub struct AccountView {
    pub key: Seq<u8>,
    pub is_signer: bool,
    pub owner: Seq<u8>,
    pub lamports: u64,
    pub data: Seq<u8>,
}

impl View for Account {
    type V = AccountView;

    open spec fn view(&self) -> AccountView {
        AccountView {
            key: self.key@,
            is_signer: self.is_signer,
            owner: self.owner@,
            lamports: self.lamports,
            data: self.data@,
        }
    }
}

impl DeepView for Account {
    type V = AccountView;

    open spec fn deep_view(&self) -> AccountView {
        self.view()
    }
}

/// The fixed program addresses the controller compares account owners
/// against.
#[derive(Clone, Copy, Debug)]
pub struct ProgramIds {
    /// The fungible-token subsystem.
    pub token_program: Address,
    /// The native staking subsystem.
    pub stake_program: Address,
}

/// The lifecycle state of a per-user stake record, as the external staking
/// subsystem reports it.
#[derive(Clone, Copy, Debug)]
pub enum StakeRecordState {
    /// Never initialized.
    Uninitialized,
    /// Created and authorized but not yet delegated.
    Initialized { staker: Address, withdrawer: Address },
    /// Delegated; `deactivation_epoch` is `u64::MAX` until deactivation is
    /// requested, then the epoch of the request.
    Stake { staker: Address, withdrawer: Address, voter: Address, deactivation_epoch: u64 },
    /// The staking subsystem's rewards-pool state, never one of ours.
    RewardsPool,
}

/// What the host supplies beside the accounts: the epoch clock, the fixed
/// program addresses and, where an instruction reads one, the parsed state
/// of the user's stake record (`None` when its bytes do not parse).
#[derive(Clone, Debug)]
pub struct CallContext {
    pub current_epoch: u64,
    pub ids: ProgramIds,
    pub stake_record: Option<StakeRecordState>,
}

/// The mathematical model of a stake record's lifecycle state.
pub enum StakeRecordView {
    Uninitialized,
    Initialized { staker: Seq<u8>, withdrawer: Seq<u8> },
    Stake { staker: Seq<u8>, withdrawer: Seq<u8>, voter: Seq<u8>, deactivation_epoch: u64 },
    RewardsPool,
}

impl View for StakeRecordState {
    type V = StakeRecordView;

    open spec fn view(&self) -> StakeRecordView {
        match self {
            StakeRecordState::Uninitialized => StakeRecordView::Uninitialized,
            StakeRecordState::Initialized { staker, withdrawer } => StakeRecordView::Initialized {
                staker: staker@,
                withdrawer: withdrawer@,
            },
            StakeRecordState::Stake { staker, withdrawer, voter, deactivation_epoch } => {
                StakeRecordView::Stake {
                    staker: staker@,
                    withdrawer: withdrawer@,
                    voter: voter@,
                    deactivation_epoch: *deactivation_epoch,
                }
            },
            StakeRecordState::RewardsPool => StakeRecordView::RewardsPool,
        }
    }
}

/// The mathematical model of the host-supplied call context.
pub struct CallContextView {
    pub current_epoch: u64,
    pub token_program: Seq<u8>,
    pub stake_program: Seq<u8>,
    pub stake_record: Option<StakeRecordView>,
}

impl View for CallContext {
    type V = CallContextView;

    open spec fn view(&self) -> CallContextView {
        CallContextView {
            current_epoch: self.current_epoch,
            token_program: self.ids.token_program@,
            stake_program: self.ids.stake_program@,
            stake_record: match self.stake_record {
                Some(s) => Some(s@),
                None => None,
            },
        }
    }
}

/// One entry of a validator roster: its vote address and its live stake.
#[derive(Clone, Copy, Debug)]
pub struct ValidatorInfo {
    pub vote_account: Address,
    pub active_stake_lamports: u64,
}

/// A roster of validators with their live stake, the input of the
/// per-validator concentration cap.
#[derive(Clone, Debug)]
pub struct ValidatorList {
    pub validators: Vec<ValidatorInfo>,
}

} // verus!
