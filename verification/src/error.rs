//! The flat failure taxonomy.  Every handler aborts with one of these codes
//! and no partial mutation: effects are only ever produced on full success.

use vstd::prelude::*;

verus! {

/// Business-rule and derivation failures specific to the pool controller.
#[derive(Clone, Copy, Debug, PartialEq, Eq, Structural)]
pub enum StakePoolError {
    InvalidInstruction,
    InvalidFeePercentage,
    InvalidPoolName,
    InvalidMintAuthority,
    InvalidFeeAccount,
    StakeTooSmall,
    StakeTooLarge,
    PoolPaused,
    MathOverflow,
    InsufficientBalance,
    CooldownNotElapsed,
    InvalidOwner,
    UninitializedAccount,
    InvalidProgramAddress,
    InvalidAuthority,
    InvalidAccountOwner,
    UnstakeCooldownNotMet,
    CalculationFailure,
    AlreadyClaimedThisEpoch,
    NoRewardsToCollect,
    WrongStakeState,
    InvalidStakeAccountDelegation,
    InvalidWithdrawAuthority,
    InvalidStakeAccountAuthority,
    StakeNotDeactivated,
    CooldownNotPassed,
    InvalidStakeAuthority,
    ValidatorStakeLimitExceeded,
}

impl StakePoolError {
    /// The numeric code a failure is reported under at the call boundary:
    /// the variant's position in the declaration order.
    pub fn code(&self) -> (r: u32)
        ensures
            r == self.spec_code(),
    {
        match self {
            StakePoolError::InvalidInstruction => 0,
            StakePoolError::InvalidFeePercentage => 1,
            StakePoolError::InvalidPoolName => 2,
            StakePoolError::InvalidMintAuthority => 3,
            StakePoolError::InvalidFeeAccount => 4,
            StakePoolError::StakeTooSmall => 5,
            StakePoolError::StakeTooLarge => 6,
            StakePoolError::PoolPaused => 7,
            StakePoolError::MathOverflow => 8,
            StakePoolError::InsufficientBalance => 9,
            StakePoolError::CooldownNotElapsed => 10,
            StakePoolError::InvalidOwner => 11,
            StakePoolError::UninitializedAccount => 12,
            StakePoolError::InvalidProgramAddress => 13,
            StakePoolError::InvalidAuthority => 14,
            StakePoolError::InvalidAccountOwner => 15,
            StakePoolError::UnstakeCooldownNotMet => 16,
            StakePoolError::CalculationFailure => 17,
            StakePoolError::AlreadyClaimedThisEpoch => 18,
            StakePoolError::NoRewardsToCollect => 19,
            StakePoolError::WrongStakeState => 20,
            StakePoolError::InvalidStakeAccountDelegation => 21,
            StakePoolError::InvalidWithdrawAuthority => 22,
            StakePoolError::InvalidStakeAccountAuthority => 23,
            StakePoolError::StakeNotDeactivated => 24,
            StakePoolError::CooldownNotPassed => 25,
            StakePoolError::InvalidStakeAuthority => 26,
            StakePoolError::ValidatorStakeLimitExceeded => 27,
        }
    }

    /// Spec twin of [`Self::code`].
    pub open spec fn spec_code(self) -> u32 {
        match self {
            StakePoolError::InvalidInstruction => 0,
            StakePoolError::InvalidFeePercentage => 1,
            StakePoolError::InvalidPoolName => 2,
            StakePoolError::InvalidMintAuthority => 3,
            StakePoolError::InvalidFeeAccount => 4,
            StakePoolError::StakeTooSmall => 5,
            StakePoolError::StakeTooLarge => 6,
            StakePoolError::PoolPaused => 7,
            StakePoolError::MathOverflow => 8,
            StakePoolError::InsufficientBalance => 9,
            StakePoolError::CooldownNotElapsed => 10,
            StakePoolError::InvalidOwner => 11,
            StakePoolError::UninitializedAccount => 12,
            StakePoolError::InvalidProgramAddress => 13,
            StakePoolError::InvalidAuthority => 14,
            StakePoolError::InvalidAccountOwner => 15,
            StakePoolError::UnstakeCooldownNotMet => 16,
            StakePoolError::CalculationFailure => 17,
            StakePoolError::AlreadyClaimedThisEpoch => 18,
            StakePoolError::NoRewardsToCollect => 19,
            StakePoolError::WrongStakeState => 20,
            StakePoolError::InvalidStakeAccountDelegation => 21,
            StakePoolError::InvalidWithdrawAuthority => 22,
            StakePoolError::InvalidStakeAccountAuthority => 23,
            StakePoolError::StakeNotDeactivated => 24,
            StakePoolError::CooldownNotPassed => 25,
            StakePoolError::InvalidStakeAuthority => 26,
            StakePoolError::ValidatorStakeLimitExceeded => 27,
        }
    }
}

/// The full failure set a call can end with: the host-level faults the
/// controller raises directly, plus [`StakePoolError`] as the custom code.
#[derive(Clone, Copy, Debug, PartialEq, Eq, Structural)]
pub enum PoolError {
    /// A required signature was not presented.
    MissingRequiredSignature,
    /// A supplied account sits at an address other than its derived one.
    InvalidSeeds,
    /// The instruction payload did not decode.
    InvalidInstructionData,
    /// Fewer accounts were supplied than the instruction consumes.
    NotEnoughAccountKeys,
    /// The pool record has not been initialized.
    UninitializedAccount,
    /// An account's byte buffer is smaller than the record written to it.
    AccountDataTooSmall,
    /// An account's byte buffer did not parse as the expected record.
    InvalidAccountData,
    /// An account is owned by the wrong subsystem.
    IllegalOwner,
    /// A controller-specific failure.
    Custom(StakePoolError),
}

} // verus!
