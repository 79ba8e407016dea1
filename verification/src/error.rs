//! Why a contract call is refused.
use vstd::prelude::*;

verus! {

/// The staking contract's own refusals, each with the user error code that
/// the contract reverts with.
#[derive(Clone, Copy, PartialEq, Eq, Structural, Debug)]
pub enum Error {
    CannotStakeZero,
    CannotWithdrawZero,
    ProvidedRewardTooHigh,
    CannotWithdrawTheStakingToken,
    InCompletePreviousRewardsPeriod,
    OnlyRewardsDistributionContract,
    ZeroHash,
    ContractIsPaused,
    OnlyNominatedOwner,
    OnlyOwner,
    ReentrantCall,
}

impl Error {
    /// The user error code of the refusal.
    pub open spec fn spec_code(self) -> u16 {
        match self {
            Error::CannotStakeZero => 0,
            Error::CannotWithdrawZero => 1,
            Error::ProvidedRewardTooHigh => 2,
            Error::CannotWithdrawTheStakingToken => 3,
            Error::InCompletePreviousRewardsPeriod => 4,
            Error::OnlyRewardsDistributionContract => 5,
            Error::ZeroHash => 6,
            Error::ContractIsPaused => 7,
            Error::OnlyNominatedOwner => 8,
            Error::OnlyOwner => 9,
            Error::ReentrantCall => 10,
        }
    }

    /// The user error code of the refusal.
    pub fn code(&self) -> (r: u16)
        ensures
            r == self.spec_code(),
    {
        match self {
            Error::CannotStakeZero => 0,
            Error::CannotWithdrawZero => 1,
            Error::ProvidedRewardTooHigh => 2,
            Error::CannotWithdrawTheStakingToken => 3,
            Error::InCompletePreviousRewardsPeriod => 4,
            Error::OnlyRewardsDistributionContract => 5,
            Error::ZeroHash => 6,
            Error::ContractIsPaused => 7,
            Error::OnlyNominatedOwner => 8,
            Error::OnlyOwner => 9,
            Error::ReentrantCall => 10,
        }
    }
}

/// Every way in which a call of one of the contracts ends without effect.
#[derive(Clone, Copy, PartialEq, Eq, Structural, Debug)]
pub enum Revert {
    /// The contract reverts with one of its own errors.
    User(Error),
    /// A 256-bit addition, subtraction or multiplication left the range.
    ArithmeticOverflow,
    /// A 256-bit division by zero.
    DivisionByZero,
    /// A key that was to name a balance holder names neither an account nor a contract.
    UnexpectedKeyVariant,
    /// A key argument was expected to name a contract (`Key::Hash`) and did not.
    NotAContractKey,
    /// The stored hash of the contract itself is the zero hash.
    ZeroContractHash,
}

} // verus!
