//! Staking: lockup tiers, staking, unstake requests, unstaking with an
//! early-withdrawal penalty, and periodic reward claims.

use vstd::prelude::*;

use crate::errors::CustomError;
use crate::{Address, Config, ConfigAccount};

verus! {

broadcast use vstd::array::group_array_axioms;

/// Delay between an unstake request and the unstake itself: 48 hours, in
/// seconds.
pub const FOURTY_EIGHT_HOURS_IN_SECONDS: u32 = 172800;

/// Length of one lockup day, in seconds.
pub const ONE_DAY_IN_SECONDS: u32 = 86400;

/// One staking package: its lockup, its reward rate per lockup period and
/// its voting weight.
#[derive(Clone, Copy, Debug, PartialEq, Eq)]
pub struct LockupReward {
    /// Number of days of lockup.
    pub lockup_days: u16,
    /// Reward per completed lockup period, in tenths of a percent (50 = 5%).
    pub reward_bps: u16,
    /// Voting weight per staked token, in thousandths (500 = 0.5x).
    pub vote_power: u16,
}

/// The staking pool.
#[derive(Clone, Copy, Debug, PartialEq, Eq)]
pub struct StakingPool {
    pub authority: Address,
    pub token_mint: Address,
    pub pool_token_account: Address,
    pub staking_reward_account: Address,
    pub total_staked: u64,
    pub reward_issued: u64,
    pub bump: u8,
    pub stake_lockup_reward_array: [LockupReward; 4],
}

/// The account that signs reward payouts; it holds no data.
#[derive(Clone, Copy, Debug, PartialEq, Eq)]
pub struct StakingRewards {}

/// What a user holds in the pool, over all of their stakes.
#[derive(Clone, Copy, Debug, PartialEq, Eq)]
pub struct UserStakeInfo {
    pub authority: Address,
    pub staking_pool: Address,
    /// When the user's total stake first reached the governance minimum.
    pub eligible_at: u64,
    pub voting_power: u64,
    /// Total staked amount of the user.
    pub total_amount: u64,
    /// Total reward claimed by the user.
    pub reward_issued: u64,
    pub stake_count: u64,
    pub bump: u8,
    pub last_vote_time: u64,
}

/// One stake of a user.
#[derive(Clone, Copy, Debug, PartialEq, Eq)]
pub struct UserStakesEntry {
    pub stake_id: u64,
    pub amount: u64,
    pub staked_at: u64,
    pub lockup: u16,
    pub unstake_requested_at: u64,
    pub current_period: u64,
    pub unstaked_at: u64,
}

/// The tokens an unstake sends out of the pool: back to the user, and the
/// penalty to the staking reward account.
#[derive(Clone, Copy, Debug, PartialEq, Eq)]
pub struct UnstakePayout {
    pub amount_to_return: u64,
    pub fee: u64,
}

impl Default for LockupReward {
    /// The all-zero package of a fresh pool.
    fn default() -> (r: LockupReward)
        ensures
            r == (LockupReward { lockup_days: 0, reward_bps: 0, vote_power: 0 }),
    {
        LockupReward { lockup_days: 0, reward_bps: 0, vote_power: 0 }
    }
}

impl Default for UserStakeInfo {
    /// The all-zero record of a user who never staked.
    fn default() -> (r: UserStakeInfo)
        ensures
            r.authority.spec_is_default(),
            r.staking_pool.spec_is_default(),
            r.eligible_at == 0,
            r.voting_power == 0,
            r.total_amount == 0,
            r.reward_issued == 0,
            r.stake_count == 0,
            r.bump == 0,
            r.last_vote_time == 0,
    {
        UserStakeInfo {
            authority: Address::default(),
            staking_pool: Address::default(),
            eligible_at: 0,
            voting_power: 0,
            total_amount: 0,
            reward_issued: 0,
            stake_count: 0,
            bump: 0,
            last_vote_time: 0,
        }
    }
}

impl Default for UserStakesEntry {
    /// The all-zero entry of a stake not yet made.
    fn default() -> (r: UserStakesEntry)
        ensures
            r == (UserStakesEntry {
                stake_id: 0,
                amount: 0,
                staked_at: 0,
                lockup: 0,
                unstake_requested_at: 0,
                current_period: 0,
                unstaked_at: 0,
            }),
    {
        UserStakesEntry {
            stake_id: 0,
            amount: 0,
            staked_at: 0,
            lockup: 0,
            unstake_requested_at: 0,
            current_period: 0,
            unstaked_at: 0,
        }
    }
}

// ---------------------------------------------------------------------------
// Model
// ---------------------------------------------------------------------------

/// The first package at index `i` or later whose lockup is `lockup`.
pub open spec fn find_tier_from(tiers: Seq<LockupReward>, lockup: u16, i: int) -> Option<
    LockupReward,
>
    decreases tiers.len() - i,
{
    if i < 0 || i >= tiers.len() {
        None
    } else if tiers[i].lockup_days == lockup {
        Some(tiers[i])
    } else {
        find_tier_from(tiers, lockup, i + 1)
    }
}

/// The first package of the pool whose lockup is `lockup`.
pub open spec fn find_tier(pool: StakingPool, lockup: u16) -> Option<LockupReward> {
    find_tier_from(pool.stake_lockup_reward_array@, lockup, 0)
}

/// Voting weight of `amount` tokens at `vote_power` thousandths, truncated
/// to 64 bits.
pub open spec fn vote_weight(vote_power: u16, amount: u64) -> u64 {
    (vote_power as int * amount as int / 1000) as u64
}

/// `a - b`, or 0 where `b` is larger.
pub open spec fn saturating_diff(a: u64, b: u64) -> int {
    if a >= b {
        a - b
    } else {
        0
    }
}

/// Length of one lockup period of a stake, in seconds.
pub open spec fn min_staking_duration(lockup: u16) -> int {
    lockup as int * ONE_DAY_IN_SECONDS as int
}

/// Why a stake is refused, if it is.
pub open spec fn stake_error(
    pool: StakingPool,
    user_stake: UserStakesEntry,
    amount: u64,
    lockup: u16,
) -> Option<CustomError> {
    if amount == 0 {
        Some(CustomError::NoStakedTokens)
    } else if find_tier(pool, lockup) is None {
        Some(CustomError::WrongStakingPackage)
    } else if user_stake.amount != 0 {
        Some(CustomError::AlreadyStaked)
    } else if user_stake.unstaked_at != 0 {
        Some(CustomError::AlreadyUnStaked)
    } else {
        None
    }
}

/// An accepted stake whose bookkeeping would not fit in 64 bits.
pub open spec fn stake_overflows(
    pool: StakingPool,
    user: UserStakeInfo,
    amount: u64,
    lockup: u16,
) -> bool {
    ||| pool.total_staked + amount > u64::MAX
    ||| user.total_amount + amount > u64::MAX
    ||| user.stake_count + 1 > u64::MAX
    ||| user.voting_power + vote_weight(find_tier(pool, lockup).unwrap().vote_power, amount)
        > u64::MAX
}

/// The user's record after staking `amount` at `now`.
pub open spec fn user_after_stake(
    user: UserStakeInfo,
    authority: Address,
    pool_key: Address,
    bump: u8,
    min_governance_stake: u64,
    weight: u64,
    amount: u64,
    now: u64,
) -> UserStakeInfo {
    UserStakeInfo {
        authority,
        staking_pool: pool_key,
        bump,
        eligible_at: if user.total_amount < min_governance_stake && user.total_amount + amount
            >= min_governance_stake {
            now
        } else {
            user.eligible_at
        },
        total_amount: (user.total_amount + amount) as u64,
        stake_count: (user.stake_count + 1) as u64,
        voting_power: (user.voting_power + weight) as u64,
        ..user
    }
}

/// Why an unstake is refused, if it is.
pub open spec fn unstake_error(user_stake: UserStakesEntry, now: u64) -> Option<CustomError> {
    if user_stake.unstaked_at != 0 {
        Some(CustomError::AlreadyUnStaked)
    } else if user_stake.unstake_requested_at == 0 {
        Some(CustomError::RequestUnstakeFirst)
    } else if (now as int) < user_stake.unstake_requested_at
        + FOURTY_EIGHT_HOURS_IN_SECONDS as int {
        Some(CustomError::WaitPeriodNotOverYet)
    } else if user_stake.amount == 0 {
        Some(CustomError::NoStakedTokens)
    } else {
        None
    }
}

/// An unstake at `now` comes before the end of the stake's lockup.
pub open spec fn is_early_unstake(user_stake: UserStakesEntry, now: u64) -> bool {
    saturating_diff(now, user_stake.staked_at) < min_staking_duration(user_stake.lockup)
}

/// The penalty withheld on unstaking at `now`.
pub open spec fn unstake_fee(user_stake: UserStakesEntry, penalty: u64, now: u64) -> int {
    if is_early_unstake(user_stake, now) {
        user_stake.amount * penalty / 1000
    } else {
        0
    }
}

/// Inputs on which the unstake instruction aborts (an arithmetic overflow or
/// a stake whose package has been removed from the pool).
pub open spec fn unstake_aborts(
    pool: StakingPool,
    user: UserStakeInfo,
    user_stake: UserStakesEntry,
    penalty: u64,
    now: u64,
) -> bool {
    ||| (user_stake.unstaked_at == 0 && user_stake.unstake_requested_at != 0
        && user_stake.unstake_requested_at + FOURTY_EIGHT_HOURS_IN_SECONDS as int > u64::MAX)
    ||| (unstake_error(user_stake, now) is None && {
        ||| user.total_amount < user_stake.amount
        ||| pool.total_staked < user_stake.amount
        ||| (is_early_unstake(user_stake, now) && user_stake.amount * penalty > u64::MAX)
        ||| unstake_fee(user_stake, penalty, now) > user_stake.amount
        ||| find_tier(pool, user_stake.lockup) is None
    })
}

/// Time a stake has earned rewards for, as seen at `now`.
pub open spec fn claim_duration(user_stake: UserStakesEntry, now: u64) -> int {
    if user_stake.unstaked_at == 0 {
        saturating_diff(now, user_stake.staked_at)
    } else {
        saturating_diff(user_stake.unstaked_at, user_stake.staked_at)
    }
}

/// Number of whole lockup periods a stake has completed at `now`.
pub open spec fn periods_earned(user_stake: UserStakesEntry, now: u64) -> int {
    claim_duration(user_stake, now) / min_staking_duration(user_stake.lockup)
}

/// Periods completed at `now` and not yet paid.
pub open spec fn claimable_periods(user_stake: UserStakesEntry, now: u64) -> int {
    periods_earned(user_stake, now) - user_stake.current_period
}

/// Reward for the unpaid periods at `reward_bps` tenths of a percent each.
pub open spec fn claim_amount(user_stake: UserStakesEntry, reward_bps: u16, now: u64) -> int {
    claimable_periods(user_stake, now) * user_stake.amount * reward_bps / 1000
}

/// Why a reward claim is refused, if it is.
pub open spec fn claim_error(
    pool: StakingPool,
    user_stake: UserStakesEntry,
    reward_balance: u64,
    now: u64,
) -> Option<CustomError> {
    if reward_balance == 0 {
        Some(CustomError::StakingRewardInsufficientBalance)
    } else if user_stake.amount == 0 {
        Some(CustomError::NoStakedTokens)
    } else if pool.total_staked == 0 {
        Some(CustomError::NoStakedTokens)
    } else if claim_duration(user_stake, now) == 0 {
        Some(CustomError::NothingToClaim)
    } else if periods_earned(user_stake, now) <= user_stake.current_period {
        Some(CustomError::StakingPeriodNotMet)
    } else if find_tier(pool, user_stake.lockup) is None {
        Some(CustomError::WrongStakingPackage)
    } else if claim_amount(user_stake, find_tier(pool, user_stake.lockup).unwrap().reward_bps, now)
        == 0 {
        Some(CustomError::NothingToClaim)
    } else {
        None
    }
}

/// Inputs on which the claim instruction aborts (a lockup of zero days or
/// an arithmetic overflow).
pub open spec fn claim_aborts(
    pool: StakingPool,
    user: UserStakeInfo,
    user_stake: UserStakesEntry,
    reward_balance: u64,
    now: u64,
) -> bool {
    let reaches_division = reward_balance != 0 && user_stake.amount != 0 && pool.total_staked
        != 0 && claim_duration(user_stake, now) != 0;
    let reaches_product = reaches_division && user_stake.lockup != 0 && periods_earned(
        user_stake,
        now,
    ) > user_stake.current_period && find_tier(pool, user_stake.lockup) is Some;
    let bps = find_tier(pool, user_stake.lockup).unwrap().reward_bps;
    ||| (reaches_division && user_stake.lockup == 0)
    ||| (reaches_product && (claimable_periods(user_stake, now) * user_stake.amount > u64::MAX
        || claimable_periods(user_stake, now) * user_stake.amount * bps > u64::MAX))
    ||| (claim_error(pool, user_stake, reward_balance, now) is None && (pool.reward_issued
        + claim_amount(user_stake, bps, now) > u64::MAX || user.reward_issued + claim_amount(
        user_stake,
        bps,
        now,
    ) > u64::MAX))
}

/// A user may vote at `now`: their total stake reaches the governance
/// minimum, and it first did so at least `min_stake_duration_voting`
/// seconds ago.
pub open spec fn voting_eligible(user: UserStakeInfo, config: Config, now: u64) -> bool {
    &&& user.total_amount >= config.min_governance_stake
    &&& user.eligible_at > 0
    &&& now - user.eligible_at >= config.min_stake_duration_voting
}

/// The eligibility test aborts: it reaches the elapsed time and that time
/// is negative.
pub open spec fn eligibility_aborts(user: UserStakeInfo, config: Config, now: u64) -> bool {
    user.total_amount >= config.min_governance_stake && user.eligible_at > 0 && now
        < user.eligible_at
}

/// A stake has asked to be unstaked and has not been unstaked yet.
pub open spec fn unstake_pending(user_stake: UserStakesEntry) -> bool {
    user_stake.unstake_requested_at != 0 && user_stake.unstaked_at == 0
}

/// One of the stakes has an unstake request pending.
pub open spec fn has_pending_unstake(stakes: Seq<UserStakesEntry>) -> bool {
    exists|i: int| 0 <= i < stakes.len() && unstake_pending(#[trigger] stakes[i])
}

/// A stake is still in the pool and has not yet been held for
/// `min_duration` seconds at `now`.
pub open spec fn stake_unmatured(user_stake: UserStakesEntry, min_duration: i64, now: u64) -> bool {
    &&& user_stake.amount > 0
    &&& user_stake.unstaked_at == 0
    &&& !(now >= user_stake.staked_at && now - user_stake.staked_at >= min_duration)
}

/// The voting weight a stake was given when it was staked, while it has not
/// yet matured at `now` (that of its package in `tiers`); nothing once it
/// has matured, or without a package.
pub open spec fn unmatured_stake_weight(
    tiers: [LockupReward; 4],
    user_stake: UserStakesEntry,
    min_duration: i64,
    now: u64,
) -> int {
    if stake_unmatured(user_stake, min_duration, now) {
        match find_tier_from(tiers@, user_stake.lockup, 0) {
            Some(tier) => vote_weight(tier.vote_power, user_stake.amount) as int,
            None => 0,
        }
    } else {
        0
    }
}

/// The voting weight that a user's stakes not yet matured at `now` carry:
/// the sum over those stakes.
pub open spec fn unmatured_vote_weight(
    tiers: [LockupReward; 4],
    stakes: Seq<UserStakesEntry>,
    min_duration: i64,
    now: u64,
) -> int
    decreases stakes.len(),
{
    if stakes.len() == 0 {
        0
    } else {
        unmatured_vote_weight(tiers, stakes.drop_last(), min_duration, now)
            + unmatured_stake_weight(tiers, stakes.last(), min_duration, now)
    }
}

/// The amount a user's stakes still hold in the pool: the sum over those
/// not unstaked.
pub open spec fn active_total(stakes: Seq<UserStakesEntry>) -> int
    decreases stakes.len(),
{
    if stakes.len() == 0 {
        0
    } else {
        active_total(stakes.drop_last()) + if stakes.last().unstaked_at == 0 {
            stakes.last().amount as int
        } else {
            0
        }
    }
}

/// What stake_tokens does: its result and the accounts after it.
pub open spec fn stake_tokens_post(
    config: ConfigAccount,
    staking_pool0: StakingPool,
    user0: UserStakeInfo,
    user_stake0: UserStakesEntry,
    staking_pool1: StakingPool,
    user1: UserStakeInfo,
    user_stake1: UserStakesEntry,
    user_authority: Address,
    staking_pool_key: Address,
    user_bump: u8,
    amount: u64,
    lockup: u16,
    now: u64,
    r: Result<u64, CustomError>,
) -> bool {
    &&& (r is Err <==> stake_error(staking_pool0, user_stake0, amount, lockup) is Some)
    &&& (r matches Err(e) ==> {
        &&& Some(e) == stake_error(staking_pool0, user_stake0, amount, lockup)
        &&& staking_pool1 == staking_pool0
        &&& user1 == user0
        &&& user_stake1 == user_stake0
    })
    &&& (r matches Ok(moved) ==> {
        &&& moved == amount
        &&& staking_pool1 == (StakingPool {
            total_staked: (staking_pool0.total_staked + amount) as u64,
            ..staking_pool0
        })
        &&& user_stake1 == (UserStakesEntry {
            stake_id: user0.stake_count,
            amount,
            staked_at: now,
            lockup,
            ..user_stake0
        })
        &&& staking_pool1.total_staked == staking_pool0.total_staked + amount
        &&& user1.total_amount == user0.total_amount + amount
        &&& user1.stake_count == user0.stake_count + 1
        &&& user1.voting_power == user0.voting_power + vote_weight(
            find_tier(staking_pool0, lockup).unwrap().vote_power,
            amount,
        )
        &&& user1 == user_after_stake(
            user0,
            user_authority,
            staking_pool_key,
            user_bump,
            config.config.min_governance_stake,
            vote_weight(find_tier(staking_pool0, lockup).unwrap().vote_power, amount),
            amount,
            now,
        )
    })
}

/// Why an unstake request is refused, if it is.
pub open spec fn request_unstake_error(user_stake: UserStakesEntry) -> Option<CustomError> {
    if user_stake.amount == 0 {
        Some(CustomError::NoStakedTokens)
    } else if user_stake.unstake_requested_at != 0 {
        Some(CustomError::UnstakeAlreadyRequested)
    } else if user_stake.unstaked_at != 0 {
        Some(CustomError::AlreadyUnStaked)
    } else {
        None
    }
}

/// What request_unstake_tokens does: its result and the stake after it.
pub open spec fn request_unstake_post(
    user_stake0: UserStakesEntry,
    user_stake1: UserStakesEntry,
    now: u64,
    r: Result<(), CustomError>,
) -> bool {
    &&& (r is Err <==> request_unstake_error(user_stake0) is Some)
    &&& (r matches Err(e) ==> Some(e) == request_unstake_error(user_stake0) && user_stake1
        == user_stake0)
    &&& (r is Ok ==> user_stake1 == (UserStakesEntry {
        unstake_requested_at: now,
        ..user_stake0
    }))
}

/// What unstake_tokens does: its result and the accounts after it.
pub open spec fn unstake_tokens_post(
    config: ConfigAccount,
    staking_pool0: StakingPool,
    user0: UserStakeInfo,
    user_stake0: UserStakesEntry,
    staking_pool1: StakingPool,
    user1: UserStakeInfo,
    user_stake1: UserStakesEntry,
    now: u64,
    r: Result<UnstakePayout, CustomError>,
) -> bool {
    &&& (r is Err <==> unstake_error(user_stake0, now) is Some)
    &&& (r matches Err(e) ==> {
        &&& Some(e) == unstake_error(user_stake0, now)
        &&& staking_pool1 == staking_pool0
        &&& user1 == user0
        &&& user_stake1 == user_stake0
    })
    &&& (r matches Ok(payout) ==> {
        let amount = user_stake0.amount;
        let fee = unstake_fee(user_stake0, config.config.early_unstake_penalty, now);
        let weight = vote_weight(
            find_tier(staking_pool0, user_stake0.lockup).unwrap().vote_power,
            amount,
        );
        &&& payout.fee == fee
        &&& payout.amount_to_return == amount - fee
        &&& user_stake1 == (UserStakesEntry { unstaked_at: now, ..user_stake0 })
        &&& staking_pool1.total_staked == staking_pool0.total_staked - amount
        &&& user1.total_amount == user0.total_amount - amount
        &&& user1.voting_power == if user0.voting_power > weight {
            user0.voting_power - weight
        } else {
            user0.voting_power as int
        }
        &&& staking_pool1 == (StakingPool {
            total_staked: (staking_pool0.total_staked - amount) as u64,
            ..staking_pool0
        })
        &&& user1 == (UserStakeInfo {
            total_amount: (user0.total_amount - amount) as u64,
            voting_power: if user0.voting_power > weight {
                (user0.voting_power - weight) as u64
            } else {
                user0.voting_power
            },
            ..user0
        })
    })
}

/// What claim_reward does: its result and the accounts after it.
pub open spec fn claim_reward_post(
    staking_pool0: StakingPool,
    user0: UserStakeInfo,
    user_stake0: UserStakesEntry,
    staking_pool1: StakingPool,
    user1: UserStakeInfo,
    user_stake1: UserStakesEntry,
    reward_balance: u64,
    now: u64,
    r: Result<u64, CustomError>,
) -> bool {
    &&& (r is Err <==> claim_error(staking_pool0, user_stake0, reward_balance, now) is Some)
    &&& (r matches Err(e) ==> {
        &&& Some(e) == claim_error(staking_pool0, user_stake0, reward_balance, now)
        &&& staking_pool1 == staking_pool0
        &&& user1 == user0
        &&& user_stake1 == user_stake0
    })
    &&& (r matches Ok(reward) ==> {
        &&& reward == claim_amount(
            user_stake0,
            find_tier(staking_pool0, user_stake0.lockup).unwrap().reward_bps,
            now,
        )
        &&& user_stake1.current_period == periods_earned(user_stake0, now)
        &&& staking_pool1.reward_issued == staking_pool0.reward_issued + reward
        &&& user1.reward_issued == user0.reward_issued + reward
        &&& user_stake1 == (UserStakesEntry {
            current_period: periods_earned(user_stake0, now) as u64,
            ..user_stake0
        })
        &&& staking_pool1 == (StakingPool {
            reward_issued: (staking_pool0.reward_issued + reward) as u64,
            ..staking_pool0
        })
        &&& user1 == (UserStakeInfo {
            reward_issued: (user0.reward_issued + reward) as u64,
            ..user0
        })
    })
}

// ---------------------------------------------------------------------------
// Helpers
// ---------------------------------------------------------------------------

/// The first package of `tiers` whose lockup is `lockup`.
pub fn find_lockup_tier(tiers: &[LockupReward; 4], lockup: u16) -> (r: Option<LockupReward>)
    ensures
        r == find_tier_from(tiers@, lockup, 0),
{
    let mut i: usize = 0;
    while i < 4
        invariant
            0 <= i <= 4,
            tiers@.len() == 4,
            find_tier_from(tiers@, lockup, i as int) == find_tier_from(tiers@, lockup, 0),
        decreases 4 - i,
    {
        if tiers[i].lockup_days == lockup {
            return Some(tiers[i]);
        }
        i = i + 1;
    }
    None
}

/// Voting weight of `amount` tokens at `vote_power` thousandths, truncated
/// to 64 bits as the stake and unstake instructions do.
pub fn compute_vote_weight(vote_power: u16, amount: u64) -> (r: u64)
    ensures
        r == vote_weight(vote_power, amount),
{
    assert(vote_power as int * amount as int <= 0xffffu128 * 0xffff_ffff_ffff_ffffu128)
        by (nonlinear_arith);
    let product: u128 = vote_power as u128 * amount as u128;
    (product / 1000) as u64
}

/// Whether `user` may vote at `now` under `config`.
pub fn is_voting_eligible(user: &UserStakeInfo, config: &Config, now: u64) -> (r: bool)
    requires
        !eligibility_aborts(*user, *config, now),
    ensures
        r == voting_eligible(*user, *config, now),
{
    if user.total_amount < config.min_governance_stake {
        return false;
    }
    if user.eligible_at == 0 {
        return false;
    }
    let elapsed: u64 = now - user.eligible_at;
    (elapsed as i128) >= (config.min_stake_duration_voting as i128)
}

/// Whether one of `stakes` has an unstake request pending.
pub fn any_unstake_pending(stakes: &Vec<UserStakesEntry>) -> (r: bool)
    ensures
        r == has_pending_unstake(stakes@),
{
    let mut i: usize = 0;
    while i < stakes.len()
        invariant
            0 <= i <= stakes@.len(),
            forall|j: int| 0 <= j < i ==> !unstake_pending(#[trigger] stakes@[j]),
        decreases stakes.len() - i,
    {
        let e = &stakes[i];
        if e.unstake_requested_at != 0 && e.unstaked_at == 0 {
            assert(unstake_pending(stakes@[i as int]));
            return true;
        }
        i = i + 1;
    }
    false
}

/// The voting weight that `stakes` not yet held for `min_duration` seconds
/// at `now` carry under the packages `tiers`; `None` where it does not fit
/// in 64 bits.
pub fn compute_unmatured_vote_weight(
    tiers: &[LockupReward; 4],
    stakes: &Vec<UserStakesEntry>,
    min_duration: i64,
    now: u64,
) -> (r: Option<u64>)
    ensures
        r is None <==> unmatured_vote_weight(*tiers, stakes@, min_duration, now) > u64::MAX,
        r matches Some(w) ==> w == unmatured_vote_weight(*tiers, stakes@, min_duration, now),
{
    let mut total: u64 = 0;
    let mut i: usize = 0;
    while i < stakes.len()
        invariant
            0 <= i <= stakes@.len(),
            total == unmatured_vote_weight(*tiers, stakes@.take(i as int), min_duration, now),
        decreases stakes.len() - i,
    {
        let e = &stakes[i];
        assert(stakes@.take(i + 1).drop_last() =~= stakes@.take(i as int));
        let matured = now >= e.staked_at && ((now - e.staked_at) as i128) >= (
        min_duration as i128);
        let weight: u64 = if e.amount > 0 && e.unstaked_at == 0 && !matured {
            match find_lockup_tier(tiers, e.lockup) {
                Some(t) => compute_vote_weight(t.vote_power, e.amount),
                None => 0,
            }
        } else {
            0
        };
        proof {
            lemma_unmatured_vote_weight_monotone(*tiers, stakes@, (i + 1) as int, min_duration, now);
        }
        match total.checked_add(weight) {
            Some(t) => {
                total = t;
            },
            None => {
                return None;
            },
        }
        i = i + 1;
    }
    assert(stakes@.take(stakes@.len() as int) =~= stakes@);
    Some(total)
}

/// Each prefix of the stakes weighs at most what the whole weighs.
pub proof fn lemma_unmatured_vote_weight_monotone(
    tiers: [LockupReward; 4],
    stakes: Seq<UserStakesEntry>,
    k: int,
    min_duration: i64,
    now: u64,
)
    requires
        0 <= k <= stakes.len(),
    ensures
        0 <= unmatured_vote_weight(tiers, stakes.take(k), min_duration, now)
            <= unmatured_vote_weight(tiers, stakes, min_duration, now),
    decreases stakes.len(),
{
    if stakes.len() == 0 {
        assert(stakes.take(k) =~= stakes);
    } else if k == stakes.len() {
        assert(stakes.take(k) =~= stakes);
        lemma_unmatured_vote_weight_monotone(tiers, stakes.drop_last(), k - 1, min_duration, now);
    } else {
        assert(stakes.drop_last().take(k) =~= stakes.take(k));
        lemma_unmatured_vote_weight_monotone(tiers, stakes.drop_last(), k, min_duration, now);
    }
}

// ---------------------------------------------------------------------------
// Instructions
// ---------------------------------------------------------------------------

/// Stakes `amount` tokens in the package with lockup `lockup`, at time `now`.
///
/// On success the caller moves `amount` tokens from the user to the pool
/// (the returned value). On a refusal nothing changes.
pub fn stake_tokens(
    config: &ConfigAccount,
    staking_pool: &mut StakingPool,
    user: &mut UserStakeInfo,
    user_stake: &mut UserStakesEntry,
    user_authority: Address,
    staking_pool_key: Address,
    user_bump: u8,
    amount: u64,
    lockup: u16,
    now: u64,
) -> (r: Result<u64, CustomError>)
    requires
        stake_error(*old(staking_pool), *old(user_stake), amount, lockup) is None
            ==> !stake_overflows(*old(staking_pool), *old(user), amount, lockup),
    ensures
        stake_tokens_post(
            *config,
            *old(staking_pool),
            *old(user),
            *old(user_stake),
            *final(staking_pool),
            *final(user),
            *final(user_stake),
            user_authority,
            staking_pool_key,
            user_bump,
            amount,
            lockup,
            now,
            r,
        ),

{
    if amount == 0 {
        return Err(CustomError::NoStakedTokens);
    }
    let tier = find_lockup_tier(&staking_pool.stake_lockup_reward_array, lockup);
    let tier = match tier {
        Some(t) => t,
        None => {
            return Err(CustomError::WrongStakingPackage);
        },
    };
    if user_stake.amount != 0 {
        return Err(CustomError::AlreadyStaked);
    }
    if user_stake.unstaked_at != 0 {
        return Err(CustomError::AlreadyUnStaked);
    }
    user_stake.stake_id = user.stake_count;
    user_stake.amount = amount;
    user_stake.staked_at = now;
    user_stake.lockup = lockup;

    staking_pool.total_staked = staking_pool.total_staked + amount;

    user.authority = user_authority;
    user.staking_pool = staking_pool_key;
    user.bump = user_bump;
    let min_stake = config.config.min_governance_stake;
    if user.total_amount < min_stake && user.total_amount + amount >= min_stake {
        user.eligible_at = now;
    }
    user.total_amount = user.total_amount + amount;
    user.stake_count = user.stake_count + 1;

    let weight = compute_vote_weight(tier.vote_power, amount);
    user.voting_power = user.voting_power + weight;
    Ok(amount)
}

/// Records at `now` a request to unstake a stake.
pub fn request_unstake_tokens(user_stake: &mut UserStakesEntry, _stake_id: u64, now: u64) -> (r:
    Result<(), CustomError>)
    ensures
        request_unstake_post(
            *old(user_stake),
            *final(user_stake),
            now,
            r,
        ),

{
    if user_stake.amount == 0 {
        return Err(CustomError::NoStakedTokens);
    }
    if user_stake.unstake_requested_at != 0 {
        return Err(CustomError::UnstakeAlreadyRequested);
    }
    if user_stake.unstaked_at != 0 {
        return Err(CustomError::AlreadyUnStaked);
    }
    user_stake.unstake_requested_at = now;
    Ok(())
}

/// Unstakes a stake at `now`, once its unstake request has waited long
/// enough. Before the end of the lockup a penalty of `early_unstake_penalty`
/// thousandths of the stake is withheld.
///
/// On success the caller sends `amount_to_return` from the pool to the user
/// and, where it is not zero, `fee` to the staking reward account. On a
/// refusal nothing changes.
pub fn unstake_tokens(
    config: &ConfigAccount,
    staking_pool: &mut StakingPool,
    user: &mut UserStakeInfo,
    user_stake: &mut UserStakesEntry,
    _stake_id: u64,
    now: u64,
) -> (r: Result<UnstakePayout, CustomError>)
    requires
        !unstake_aborts(
            *old(staking_pool),
            *old(user),
            *old(user_stake),
            config.config.early_unstake_penalty,
            now,
        ),
    ensures
        unstake_tokens_post(
            *config,
            *old(staking_pool),
            *old(user),
            *old(user_stake),
            *final(staking_pool),
            *final(user),
            *final(user_stake),
            now,
            r,
        ),

{
    if user_stake.unstaked_at != 0 {
        return Err(CustomError::AlreadyUnStaked);
    }
    if user_stake.unstake_requested_at == 0 {
        return Err(CustomError::RequestUnstakeFirst);
    }
    if now < user_stake.unstake_requested_at + FOURTY_EIGHT_HOURS_IN_SECONDS as u64 {
        return Err(CustomError::WaitPeriodNotOverYet);
    }
    if user_stake.amount == 0 {
        return Err(CustomError::NoStakedTokens);
    }
    let amount = user_stake.amount;
    let min_staking_duration: u64 = user_stake.lockup as u64 * ONE_DAY_IN_SECONDS as u64;
    let staking_duration: u64 = now.saturating_sub(user_stake.staked_at);

    user_stake.unstaked_at = now;
    user.total_amount = user.total_amount - amount;
    staking_pool.total_staked = staking_pool.total_staked - amount;

    let mut fee: u64 = 0;
    if staking_duration < min_staking_duration {
        let penalty = config.config.early_unstake_penalty;
        fee = (amount * penalty) / 1000;
    }
    let amount_to_return = amount - fee;

    let tier = find_lockup_tier(&staking_pool.stake_lockup_reward_array, user_stake.lockup);
    let vote_power = match tier {
        Some(t) => t.vote_power,
        None => 0,
    };
    let weight = compute_vote_weight(vote_power, amount);
    if user.voting_power > weight {
        user.voting_power = user.voting_power - weight;
    }
    Ok(UnstakePayout { amount_to_return, fee })
}

/// Pays out at `now` the reward of the lockup periods a stake has completed
/// since its last claim. `reward_balance` is what the staking reward account
/// holds.
///
/// On success the caller sends the returned amount from the staking reward
/// account to the user. On a refusal nothing changes.
pub fn claim_reward(
    staking_pool: &mut StakingPool,
    user: &mut UserStakeInfo,
    user_stake: &mut UserStakesEntry,
    reward_balance: u64,
    _stake_id: u64,
    now: u64,
) -> (r: Result<u64, CustomError>)
    requires
        !claim_aborts(*old(staking_pool), *old(user), *old(user_stake), reward_balance, now),
    ensures
        claim_reward_post(
            *old(staking_pool),
            *old(user),
            *old(user_stake),
            *final(staking_pool),
            *final(user),
            *final(user_stake),
            reward_balance,
            now,
            r,
        ),

{
    if reward_balance == 0 {
        return Err(CustomError::StakingRewardInsufficientBalance);
    }
    if user_stake.amount == 0 {
        return Err(CustomError::NoStakedTokens);
    }
    if staking_pool.total_staked == 0 {
        return Err(CustomError::NoStakedTokens);
    }
    let min_staking_duration: u64 = user_stake.lockup as u64 * ONE_DAY_IN_SECONDS as u64;
    let staking_duration: u64 = if user_stake.unstaked_at == 0 {
        now.saturating_sub(user_stake.staked_at)
    } else {
        user_stake.unstaked_at.saturating_sub(user_stake.staked_at)
    };
    if staking_duration == 0 {
        return Err(CustomError::NothingToClaim);
    }
    let total_periods_earned: u64 = staking_duration / min_staking_duration;
    if total_periods_earned <= user_stake.current_period {
        return Err(CustomError::StakingPeriodNotMet);
    }
    let claimable: u64 = total_periods_earned - user_stake.current_period;
    let tier = find_lockup_tier(&staking_pool.stake_lockup_reward_array, user_stake.lockup);
    let reward_bps = match tier {
        Some(t) => t.reward_bps,
        None => {
            return Err(CustomError::WrongStakingPackage);
        },
    };
    let reward_amount: u64 = (claimable * user_stake.amount * reward_bps as u64) / 1000;
    if reward_amount == 0 {
        return Err(CustomError::NothingToClaim);
    }
    user_stake.current_period = total_periods_earned;
    staking_pool.reward_issued = staking_pool.reward_issued + reward_amount;
    user.reward_issued = user.reward_issued + reward_amount;
    Ok(reward_amount)
}

/// Replaces the pool's four staking packages; every other field is kept.
pub fn set_reward_percentage(
    staking_pool: &mut StakingPool,
    reward1: u16,
    lockup1: u16,
    vote_power1: u16,
    reward2: u16,
    lockup2: u16,
    vote_power2: u16,
    reward3: u16,
    lockup3: u16,
    vote_power3: u16,
    reward4: u16,
    lockup4: u16,
    vote_power4: u16,
)
    ensures
        final(staking_pool).stake_lockup_reward_array@ == seq![
            LockupReward { lockup_days: lockup1, reward_bps: reward1, vote_power: vote_power1 },
            LockupReward { lockup_days: lockup2, reward_bps: reward2, vote_power: vote_power2 },
            LockupReward { lockup_days: lockup3, reward_bps: reward3, vote_power: vote_power3 },
            LockupReward { lockup_days: lockup4, reward_bps: reward4, vote_power: vote_power4 },
        ],
        final(staking_pool).authority == old(staking_pool).authority,
        final(staking_pool).token_mint == old(staking_pool).token_mint,
        final(staking_pool).pool_token_account == old(staking_pool).pool_token_account,
        final(staking_pool).staking_reward_account == old(staking_pool).staking_reward_account,
        final(staking_pool).total_staked == old(staking_pool).total_staked,
        final(staking_pool).reward_issued == old(staking_pool).reward_issued,
        final(staking_pool).bump == old(staking_pool).bump,
{
    staking_pool.stake_lockup_reward_array[0] = LockupReward {
        lockup_days: lockup1,
        reward_bps: reward1,
        vote_power: vote_power1,
    };
    staking_pool.stake_lockup_reward_array[1] = LockupReward {
        lockup_days: lockup2,
        reward_bps: reward2,
        vote_power: vote_power2,
    };
    staking_pool.stake_lockup_reward_array[2] = LockupReward {
        lockup_days: lockup3,
        reward_bps: reward3,
        vote_power: vote_power3,
    };
    staking_pool.stake_lockup_reward_array[3] = LockupReward {
        lockup_days: lockup4,
        reward_bps: reward4,
        vote_power: vote_power4,
    };
}

} // verus!
