//! CHAR Coin: the on-chain rules of staking, governance, charity voting,
//! fund distribution, burning and private-sale vesting, as pure state
//! transitions over plain account values.

use vstd::prelude::*;

pub mod burn;
pub mod donation;
pub mod errors;
pub mod governance;
pub mod laws;
pub mod marketing;
pub mod private_sale;
pub mod program;
pub mod rewards;
pub mod security;
pub mod staking;

pub use crate::errors::CustomError;
pub use crate::program::{
    buyback_burn_handler, cast_vote_handler, change_emergency_state_handler,
    claim_reward_handler, distribute_marketing_funds_handler, finalize_charity_vote_handler,
    finalize_proposal_handler, register_charity_handler, request_unstake_handler,
    set_reward_percentage_handler, stake_tokens_handler, submit_proposal_handler,
    unstake_tokens_handler, vote_on_proposal_handler,
};
use crate::staking::{LockupReward, StakingPool};

verus! {

/// A 32-byte account address.
#[derive(Clone, Copy, Debug, PartialEq, Eq)]
pub struct Address {
    pub bytes: [u8; 32],
}

impl Address {
    /// The all-zero address, which stands for "no account".
    pub open spec fn spec_is_default(self) -> bool {
        forall|i: int| 0 <= i < 32 ==> #[trigger] self.bytes@[i] == 0u8
    }

    /// Whether this is the all-zero address.
    pub fn is_default(&self) -> (r: bool)
        ensures
            r == self.spec_is_default(),
    {
        let mut i: usize = 0;
        while i < 32
            invariant
                0 <= i <= 32,
                self.bytes@.len() == 32,
                forall|j: int| 0 <= j < i ==> #[trigger] self.bytes@[j] == 0u8,
            decreases 32 - i,
        {
            if self.bytes[i] != 0 {
                return false;
            }
            i = i + 1;
        }
        true
    }
}

impl Default for Address {
    /// The all-zero address.
    fn default() -> (r: Address)
        ensures
            r.spec_is_default(),
    {
        Address { bytes: [0u8; 32] }
    }
}

/// `rate` thousandths of `amount`, rounded down.
pub open spec fn per_mille(amount: int, rate: int) -> int {
    amount * rate / 1000
}

/// Global configuration of CHAR Coin.
#[derive(Clone, Copy, Debug, PartialEq, Eq)]
pub struct Config {
    pub admin: Address,
    /// Reward system, monthly classification.
    pub monthly_top_tier_wallet: Address,
    pub monthly_charity_lottery_wallet: Address,
    /// Reward system, annual classification.
    pub annual_top_tier_wallet: Address,
    pub annual_charity_lottery_wallet: Address,
    /// Donation system, monthly classification.
    pub monthly_one_time_causes_wallet: Address,
    pub monthly_infinite_impact_causes_wallet: Address,
    /// Donation system, annual classification.
    pub annual_one_time_causes_wallet: Address,
    pub annual_infinite_impact_causes_wallet: Address,
    /// The CHAR funds wallet.
    pub chai_funds: Address,
    pub marketing_wallet_1: Address,
    pub marketing_wallet_2: Address,
    pub death_wallet: Address,
    /// The CHAR token fee wallet, which signs treasury releases.
    pub treasury_authority: Address,
    /// The mint of the CHAR token that all token accounts must hold.
    pub char_token_mint: Address,
    /// Emergency state: while set, the gated instructions are refused.
    pub halted: bool,
    pub next_proposal_id: u64,
    pub next_charity_id: u64,
    pub total_burned: u64,
    /// Minimum stake required to take part in governance.
    pub min_governance_stake: u64,
    /// Minimum time a user must have held the minimum stake to vote.
    pub min_stake_duration_voting: i64,
    /// Penalty on early unstaking, in tenths of a percent (100 = 10%).
    pub early_unstake_penalty: u64,
}

/// The account that holds the global configuration.
#[derive(Clone, Copy, Debug, PartialEq, Eq)]
pub struct ConfigAccount {
    pub config: Config,
}

/// Refusals of the program entry points.
#[derive(Clone, Copy, Debug, PartialEq, Eq)]
pub enum ErrorCode {
    /// An arithmetic error occurred.
    MathError,
    /// Unauthorized operation.
    Unauthorized,
    /// Invalid wallet configuration.
    InvalidConfiguration,
    /// Program is halted.
    ProgramIsHalted,
}

/// Any refusal of an instruction, whichever module raised it.
#[derive(Clone, Copy, Debug, PartialEq, Eq)]
pub enum CharcoinError {
    Code(ErrorCode),
    Custom(CustomError),
    Governance(crate::governance::GovernanceError),
    Vesting(crate::private_sale::VestingError),
}

/// Sets up the global configuration account with the given configuration.
pub fn initialize(config: Config) -> (account: ConfigAccount)
    ensures
        account.config == config,
{
    ConfigAccount { config }
}

/// Sets up the staking pool: its authority, mint and accounts, with nothing
/// staked, no reward issued, and four all-zero packages.
pub fn staking_initialize(
    authority: Address,
    token_mint: Address,
    pool_token_account: Address,
    staking_reward_account: Address,
    bump: u8,
) -> (pool: StakingPool)
    ensures
        pool.authority == authority,
        pool.token_mint == token_mint,
        pool.pool_token_account == pool_token_account,
        pool.staking_reward_account == staking_reward_account,
        pool.bump == bump,
        pool.total_staked == 0,
        pool.reward_issued == 0,
        pool.stake_lockup_reward_array@.len() == 4,
        forall|i: int|
            0 <= i < 4 ==> #[trigger] pool.stake_lockup_reward_array@[i] == (LockupReward {
                lockup_days: 0,
                reward_bps: 0,
                vote_power: 0,
            }),
{
    let empty = LockupReward { lockup_days: 0, reward_bps: 0, vote_power: 0 };
    StakingPool {
        authority,
        token_mint,
        pool_token_account,
        staking_reward_account,
        total_staked: 0,
        reward_issued: 0,
        bump,
        stake_lockup_reward_array: [empty, empty, empty, empty],
    }
}

/// Changes the governance and unstaking settings; every other setting is kept.
pub fn update_settings(
    config: &mut ConfigAccount,
    min_governance_stake: u64,
    min_stake_duration_voting: i64,
    early_unstake_penalty: u64,
)
    ensures
        final(config).config == (Config {
            min_governance_stake,
            min_stake_duration_voting,
            early_unstake_penalty,
            ..old(config).config
        }),
{
    config.config.min_governance_stake = min_governance_stake;
    config.config.min_stake_duration_voting = min_stake_duration_voting;
    config.config.early_unstake_penalty = early_unstake_penalty;
}

} // verus!
