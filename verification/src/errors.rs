//! Errors reported by the staking, donation and burn instructions.

use vstd::prelude::*;

verus! {

/// Refusals of the staking, donation and burn instructions.
#[derive(Clone, Copy, Debug, PartialEq, Eq)]
pub enum CustomError {
    /// No tokens available for buyback.
    NoTokensToBuyback,
    /// Voting period is not active.
    VotingNotActive,
    /// Voting period has not ended.
    VotingNotEnded,
    /// User not eligible for voting.
    VotingNotEligible,
    /// User has not staked any tokens.
    NoStakedTokens,
    /// User already voted.
    AlreadyVoted,
    /// Charity already finalized.
    CharityAlreadyFinalized,
    /// Invalid argument provided.
    InvalidArg,
    /// Program is halted.
    ProgramIsHalted,
    /// Staking period has not been met yet.
    StakingPeriodNotMet,
    /// Wrong staking package.
    WrongStakingPackage,
    /// Reward has already been claimed.
    RewardAlreadyClaimed,
    /// Already staked.
    AlreadyStaked,
    /// Already unstaked.
    AlreadyUnStaked,
    /// Wait period not over yet.
    WaitPeriodNotOverYet,
    /// Request unstake first.
    RequestUnstakeFirst,
    /// Unstake already requested.
    UnstakeAlreadyRequested,
    /// Invalid stake id.
    InvalidStakeId,
    /// Nothing to claim.
    NothingToClaim,
    /// Staking reward account has no balance.
    StakingRewardInsufficientBalance,
    /// Math error occurred.
    MathError,
    /// You don't have enough voting power.
    YouDontHaveEnoughVotingPower,
}

} // verus!
