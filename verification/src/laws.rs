//! Properties that span several instructions or several calls.

use vstd::prelude::*;

use crate::burn::execute_buyback_post;
use crate::donation::{cast_vote_post, finalize_charity_vote_post, Charity, VoteRecord};
use crate::errors::CustomError;
use crate::governance::{
    vote_power_at, finalize_proposal_post, vote_on_proposal_post, GovernanceError, Proposal,
    ProposalFinalizedEvent, Vote, VoteCastEvent,
};
use crate::private_sale::{claim_tokens_post, TokensClaimedEvent, VestingAccount, VestingError};
use crate::rewards::{
    annual_donation_fund, char_fund, donation_system, donation_total, lemma_per_mille_bounds,
    monthly_donation_fund,
    reward_classification, reward_system, reward_wallet_share, staking_share,
};
use crate::staking::{
    active_total, has_pending_unstake, stake_unmatured, unmatured_stake_weight, unmatured_vote_weight, unstake_pending, claim_aborts, claim_duration, claim_reward_post, find_tier, min_staking_duration,
    periods_earned, request_unstake_post, stake_tokens_post, unstake_tokens_post, vote_weight,
    StakingPool, UnstakePayout, UserStakeInfo, UserStakesEntry, FOURTY_EIGHT_HOURS_IN_SECONDS,
};
use crate::{per_mille, Address, ConfigAccount};

verus! {

/// An unstake pays out exactly the staked amount: what returns to the user
/// and the penalty add up to the stake, and the penalty never exceeds it.
pub proof fn lemma_unstake_conserves_stake(
    config: ConfigAccount,
    staking_pool0: StakingPool,
    user0: UserStakeInfo,
    user_stake0: UserStakesEntry,
    staking_pool1: StakingPool,
    user1: UserStakeInfo,
    user_stake1: UserStakesEntry,
    now: u64,
    payout: UnstakePayout,
)
    requires
        unstake_tokens_post(
            config,
            staking_pool0,
            user0,
            user_stake0,
            staking_pool1,
            user1,
            user_stake1,
            now,
            Ok(payout),
        ),
    ensures
        payout.amount_to_return + payout.fee == user_stake0.amount,
        payout.fee <= user_stake0.amount,
        staking_pool0.total_staked - staking_pool1.total_staked == user_stake0.amount,
{
}

/// The pool's total and a user's total move together: an accepted stake,
/// an unstake, an unstake request or a reward claim changes both by the
/// same amount, so the part of the pool that other users hold is kept.
pub proof fn lemma_pool_and_user_totals_move_together(
    config: ConfigAccount,
    staking_pool0: StakingPool,
    user0: UserStakeInfo,
    user_stake0: UserStakesEntry,
    staking_pool1: StakingPool,
    user1: UserStakeInfo,
    user_stake1: UserStakesEntry,
    user_authority: Address,
    staking_pool_key: Address,
    user_bump: u8,
    amount: u64,
    lockup: u16,
    reward_balance: u64,
    now: u64,
    staked: Result<u64, CustomError>,
    unstaked: Result<UnstakePayout, CustomError>,
    claimed: Result<u64, CustomError>,
)
    ensures
        stake_tokens_post(
            config,
            staking_pool0,
            user0,
            user_stake0,
            staking_pool1,
            user1,
            user_stake1,
            user_authority,
            staking_pool_key,
            user_bump,
            amount,
            lockup,
            now,
            staked,
        ) ==> staking_pool1.total_staked - user1.total_amount == staking_pool0.total_staked
            - user0.total_amount,
        unstake_tokens_post(
            config,
            staking_pool0,
            user0,
            user_stake0,
            staking_pool1,
            user1,
            user_stake1,
            now,
            unstaked,
        ) ==> staking_pool1.total_staked - user1.total_amount == staking_pool0.total_staked
            - user0.total_amount,
        claim_reward_post(
            staking_pool0,
            user0,
            user_stake0,
            staking_pool1,
            user1,
            user_stake1,
            reward_balance,
            now,
            claimed,
        ) ==> staking_pool1.total_staked - user1.total_amount == staking_pool0.total_staked
            - user0.total_amount,
{
}

/// A stake that is accepted, then asked to be unstaked, then unstaked gives
/// the pool and the user their totals back. Unstaked at the end of its
/// lockup or later, it returns the whole stake with no penalty; and where
/// the user held some voting power before staking, that power is restored.
pub proof fn lemma_stake_unstake_round_trip(
    config: ConfigAccount,
    staking_pool0: StakingPool,
    user0: UserStakeInfo,
    user_stake0: UserStakesEntry,
    staking_pool1: StakingPool,
    user1: UserStakeInfo,
    user_stake1: UserStakesEntry,
    user_stake2: UserStakesEntry,
    staking_pool3: StakingPool,
    user3: UserStakeInfo,
    user_stake3: UserStakesEntry,
    user_authority: Address,
    staking_pool_key: Address,
    user_bump: u8,
    amount: u64,
    lockup: u16,
    staked_at: u64,
    requested_at: u64,
    unstaked_at: u64,
    payout: UnstakePayout,
)
    requires
        stake_tokens_post(
            config,
            staking_pool0,
            user0,
            user_stake0,
            staking_pool1,
            user1,
            user_stake1,
            user_authority,
            staking_pool_key,
            user_bump,
            amount,
            lockup,
            staked_at,
            Ok(amount),
        ),
        request_unstake_post(user_stake1, user_stake2, requested_at, Ok(())),
        unstake_tokens_post(
            config,
            staking_pool1,
            user1,
            user_stake2,
            staking_pool3,
            user3,
            user_stake3,
            unstaked_at,
            Ok(payout),
        ),
    ensures
        staking_pool3.total_staked == staking_pool0.total_staked,
        user3.total_amount == user0.total_amount,
        payout.amount_to_return + payout.fee == amount,
        unstaked_at >= staked_at + min_staking_duration(lockup) ==> payout.amount_to_return
            == amount && payout.fee == 0,
        user0.voting_power > 0 ==> user3.voting_power == user0.voting_power,
{
    let w = vote_weight(find_tier(staking_pool0, lockup).unwrap().vote_power, amount);
    assert(find_tier(staking_pool1, lockup) == find_tier(staking_pool0, lockup));
    assert(user1.voting_power == user0.voting_power + w);
}

/// No lockup period is paid twice: once a claim at `now` is paid, a claim
/// for the same stake at `now` or earlier is refused and changes nothing,
/// and the claimed period count only grows.
pub proof fn lemma_claim_pays_each_period_once(
    staking_pool0: StakingPool,
    user0: UserStakeInfo,
    user_stake0: UserStakesEntry,
    staking_pool1: StakingPool,
    user1: UserStakeInfo,
    user_stake1: UserStakesEntry,
    staking_pool2: StakingPool,
    user2: UserStakeInfo,
    user_stake2: UserStakesEntry,
    reward_balance: u64,
    now: u64,
    reward: u64,
    later_balance: u64,
    later: u64,
    r: Result<u64, CustomError>,
)
    requires
        !claim_aborts(staking_pool0, user0, user_stake0, reward_balance, now),
        claim_reward_post(
            staking_pool0,
            user0,
            user_stake0,
            staking_pool1,
            user1,
            user_stake1,
            reward_balance,
            now,
            Ok(reward),
        ),
        claim_reward_post(
            staking_pool1,
            user1,
            user_stake1,
            staking_pool2,
            user2,
            user_stake2,
            later_balance,
            later,
            r,
        ),
        later <= now,
    ensures
        user_stake1.current_period > user_stake0.current_period,
        r is Err,
        staking_pool2 == staking_pool1,
        user2 == user1,
        user_stake2 == user_stake1,
{
    assert(min_staking_duration(user_stake0.lockup) > 0);
    assert(claim_duration(user_stake1, later) <= claim_duration(user_stake0, now));
    vstd::arithmetic::div_mod::lemma_div_is_ordered(
        claim_duration(user_stake1, later),
        claim_duration(user_stake0, now),
        min_staking_duration(user_stake0.lockup),
    );
    assert(periods_earned(user_stake1, later) <= periods_earned(user_stake0, now));
}

/// The three treasury releases of one amount together pay out at most 90%
/// of it: 15% at most over the reward wallets, 60% at most over the
/// donation wallets and the CHAR funds, and 15% to staking rewards.
pub proof fn lemma_releases_within_total(total_amount: u64)
    ensures
        4 * reward_wallet_share(total_amount as int) * 1000 <= total_amount * 150,
        (2 * per_mille(monthly_donation_fund(total_amount as int), 500) + 2 * per_mille(
            annual_donation_fund(total_amount as int),
            500,
        ) + char_fund(total_amount as int)) * 1000 <= total_amount * 600,
        staking_share(total_amount as int) * 1000 <= total_amount * 150,
        (4 * reward_wallet_share(total_amount as int) + 2 * per_mille(
            monthly_donation_fund(total_amount as int),
            500,
        ) + 2 * per_mille(annual_donation_fund(total_amount as int), 500) + char_fund(
            total_amount as int,
        ) + staking_share(total_amount as int)) * 1000 <= total_amount * 900,
{
    let t = total_amount as int;
    lemma_per_mille_bounds(t, 750);
    lemma_per_mille_bounds(donation_total(t), 200);
    lemma_per_mille_bounds(reward_system(t), 500);
    lemma_per_mille_bounds(reward_classification(t), 500);
    lemma_per_mille_bounds(donation_total(t), 800);
    lemma_per_mille_bounds(donation_system(t), 800);
    lemma_per_mille_bounds(donation_system(t), 100);
    lemma_per_mille_bounds(monthly_donation_fund(t), 500);
    lemma_per_mille_bounds(annual_donation_fund(t), 500);
    lemma_per_mille_bounds(t, 150);
}

/// The marketing split never pays out more than the amount it splits.
pub proof fn lemma_marketing_split_within_total(total_amount: u64)
    ensures
        per_mille(total_amount as int, 425) + per_mille(total_amount as int, 425) + per_mille(
            total_amount as int,
            150,
        ) <= total_amount,
{
    lemma_per_mille_bounds(total_amount as int, 425);
    lemma_per_mille_bounds(total_amount as int, 150);
}

/// A vote record counts once: after a counted vote, voting again with the
/// same record is refused as a repeat and changes nothing.
pub proof fn lemma_proposal_vote_once(
    config: ConfigAccount,
    proposal0: Proposal,
    proposal1: Proposal,
    proposal2: Proposal,
    user: UserStakeInfo,
    staking_pool: StakingPool,
    user_stakes: Seq<UserStakesEntry>,
    vote0: Vote,
    vote1: Vote,
    vote2: Vote,
    voter: Address,
    proposal_id: u64,
    vote_choice: bool,
    now: u64,
    event: VoteCastEvent,
    again_voter: Address,
    again_choice: bool,
    again_now: u64,
    r: Result<VoteCastEvent, GovernanceError>,
)
    requires
        vote_on_proposal_post(
            config,
            proposal0,
            proposal1,
            user,
            staking_pool,
            user_stakes,
            vote0,
            vote1,
            voter,
            proposal_id,
            vote_choice,
            now,
            Ok(event),
        ),
        vote_on_proposal_post(
            config,
            proposal1,
            proposal2,
            user,
            staking_pool,
            user_stakes,
            vote1,
            vote2,
            again_voter,
            proposal_id,
            again_choice,
            again_now,
            r,
        ),
    ensures
        r == Err::<VoteCastEvent, GovernanceError>(GovernanceError::AlreadyVoted),
        proposal2 == proposal1,
        vote2 == vote1,
{
}

/// Votes stop at finalization: once a proposal is finalized, no vote at
/// that time or later is counted, and a second finalization is refused.
/// The outcome is approval exactly when the yes votes outweigh the no
/// votes.
pub proof fn lemma_finalized_proposal_is_closed(
    config: ConfigAccount,
    proposal0: Proposal,
    proposal1: Proposal,
    proposal2: Proposal,
    proposal3: Proposal,
    finalized_at: u64,
    event: ProposalFinalizedEvent,
    user: UserStakeInfo,
    staking_pool: StakingPool,
    user_stakes: Seq<UserStakesEntry>,
    vote0: Vote,
    vote1: Vote,
    voter: Address,
    proposal_id: u64,
    vote_choice: bool,
    vote_at: u64,
    vote_result: Result<VoteCastEvent, GovernanceError>,
    refinalize_at: u64,
    refinalize_result: Result<ProposalFinalizedEvent, GovernanceError>,
)
    requires
        finalize_proposal_post(proposal0, proposal1, finalized_at, Ok(event)),
        vote_on_proposal_post(
            config,
            proposal1,
            proposal2,
            user,
            staking_pool,
            user_stakes,
            vote0,
            vote1,
            voter,
            proposal_id,
            vote_choice,
            vote_at,
            vote_result,
        ),
        vote_at >= finalized_at,
        finalize_proposal_post(proposal1, proposal3, refinalize_at, refinalize_result),
        refinalize_at >= finalized_at,
    ensures
        vote_result is Err,
        proposal2 == proposal1,
        vote1 == vote0,
        refinalize_result == Err::<ProposalFinalizedEvent, GovernanceError>(
            GovernanceError::ProposalAlreadyFinalized,
        ),
        proposal3 == proposal1,
        (proposal1.status == crate::governance::ProposalStatus::Approved) <==> (proposal0.yes_votes
            > proposal0.no_votes),
{
}

/// A charity vote record counts once, and a finalized charity takes no
/// more votes and cannot be finalized again.
pub proof fn lemma_charity_vote_once_and_closed(
    config: ConfigAccount,
    charity0: Charity,
    charity1: Charity,
    charity2: Charity,
    charity_key: Address,
    vote_record0: VoteRecord,
    vote_record1: VoteRecord,
    vote_record2: VoteRecord,
    user0: UserStakeInfo,
    user1: UserStakeInfo,
    user2: UserStakeInfo,
    voter: Address,
    char_points: u64,
    now: u64,
    again_points: u64,
    again_now: u64,
    r: Result<(), CustomError>,
)
    requires
        cast_vote_post(
            config,
            charity0,
            charity1,
            charity_key,
            vote_record0,
            vote_record1,
            user0,
            user1,
            voter,
            char_points,
            now,
            Ok(()),
        ),
        cast_vote_post(
            config,
            charity1,
            charity2,
            charity_key,
            vote_record1,
            vote_record2,
            user1,
            user2,
            voter,
            again_points,
            again_now,
            r,
        ),
    ensures
        r is Err,
        charity2 == charity1,
        vote_record2 == vote_record1,
        user2 == user1,
        user1.voting_power == user0.voting_power - char_points,
        charity1.total_votes == charity0.total_votes + user0.voting_power,
{
}

/// A finalized charity takes no vote at that time or later, and cannot be
/// finalized again.
pub proof fn lemma_finalized_charity_is_closed(
    config: ConfigAccount,
    charity0: Charity,
    charity1: Charity,
    charity2: Charity,
    charity3: Charity,
    finalized_at: u64,
    charity_key: Address,
    vote_record0: VoteRecord,
    vote_record1: VoteRecord,
    user0: UserStakeInfo,
    user1: UserStakeInfo,
    voter: Address,
    char_points: u64,
    vote_at: u64,
    vote_result: Result<(), CustomError>,
    refinalize_at: u64,
    refinalize_result: Result<(), CustomError>,
)
    requires
        finalize_charity_vote_post(charity0, charity1, finalized_at, Ok(())),
        cast_vote_post(
            config,
            charity1,
            charity2,
            charity_key,
            vote_record0,
            vote_record1,
            user0,
            user1,
            voter,
            char_points,
            vote_at,
            vote_result,
        ),
        vote_at >= finalized_at,
        finalize_charity_vote_post(charity1, charity3, refinalize_at, refinalize_result),
        refinalize_at >= finalized_at,
    ensures
        vote_result is Err,
        charity2 == charity1,
        user1 == user0,
        refinalize_result == Err::<(), CustomError>(CustomError::CharityAlreadyFinalized),
        charity3 == charity1,
{
}

/// Vested tokens are claimed once: after a claim succeeds, every later
/// claim on the same account is refused as already claimed and changes
/// nothing.
pub proof fn lemma_vesting_claimed_once(
    vesting0: VestingAccount,
    vesting1: VestingAccount,
    vesting2: VestingAccount,
    claimed_at: i64,
    event: TokensClaimedEvent,
    later: i64,
    r: Result<TokensClaimedEvent, VestingError>,
)
    requires
        claim_tokens_post(vesting0, vesting1, claimed_at, Ok(event)),
        claim_tokens_post(vesting1, vesting2, later, r),
        later >= claimed_at,
    ensures
        event.claimed_amount == vesting0.locked_amount,
        r == Err::<TokensClaimedEvent, VestingError>(VestingError::AlreadyClaimed),
        vesting2 == vesting1,
{
}

/// Burns accumulate: two successful burns add both burned amounts to the
/// burn tracker.
pub proof fn lemma_burns_accumulate(
    config0: ConfigAccount,
    config1: ConfigAccount,
    config2: ConfigAccount,
    first: u64,
    second: u64,
    first_at: u64,
    second_at: u64,
    e1: crate::burn::BuybackBurnEvent,
    e2: crate::burn::BuybackBurnEvent,
)
    requires
        config0.config.total_burned + first + second <= u64::MAX,
        execute_buyback_post(config0, config1, first, first_at, Ok(e1)),
        execute_buyback_post(config1, config2, second, second_at, Ok(e2)),
    ensures
        config2.config.total_burned == config0.config.total_burned + first + second,
        e2.new_total_burned == config2.config.total_burned,
{
}

/// An unstake right after its request, before the waiting delay has
/// passed, is refused and changes nothing.
pub proof fn lemma_unstake_waits_after_request(
    config: ConfigAccount,
    staking_pool0: StakingPool,
    user0: UserStakeInfo,
    user_stake0: UserStakesEntry,
    user_stake1: UserStakesEntry,
    staking_pool2: StakingPool,
    user2: UserStakeInfo,
    user_stake2: UserStakesEntry,
    requested_at: u64,
    now: u64,
    r: Result<UnstakePayout, CustomError>,
)
    requires
        request_unstake_post(user_stake0, user_stake1, requested_at, Ok(())),
        requested_at != 0,
        (now as int) < requested_at + FOURTY_EIGHT_HOURS_IN_SECONDS as int,
        unstake_tokens_post(
            config,
            staking_pool0,
            user0,
            user_stake1,
            staking_pool2,
            user2,
            user_stake2,
            now,
            r,
        ),
    ensures
        r == Err::<UnstakePayout, CustomError>(CustomError::WaitPeriodNotOverYet),
        staking_pool2 == staking_pool0,
        user2 == user0,
        user_stake2 == user_stake1,
{
}

/// Once a stake is unstaked its rewards stop accruing: claims on the same
/// accounts at any two clocks give the same result and the same accounts,
/// and abort on the same inputs.
pub proof fn lemma_unstaked_claim_ignores_clock(
    staking_pool0: StakingPool,
    user0: UserStakeInfo,
    user_stake0: UserStakesEntry,
    reward_balance: u64,
    t1: u64,
    t2: u64,
    staking_pool1: StakingPool,
    user1: UserStakeInfo,
    user_stake1: UserStakesEntry,
    r1: Result<u64, CustomError>,
    staking_pool2: StakingPool,
    user2: UserStakeInfo,
    user_stake2: UserStakesEntry,
    r2: Result<u64, CustomError>,
)
    requires
        user_stake0.unstaked_at != 0,
        claim_reward_post(
            staking_pool0,
            user0,
            user_stake0,
            staking_pool1,
            user1,
            user_stake1,
            reward_balance,
            t1,
            r1,
        ),
        claim_reward_post(
            staking_pool0,
            user0,
            user_stake0,
            staking_pool2,
            user2,
            user_stake2,
            reward_balance,
            t2,
            r2,
        ),
    ensures
        claim_aborts(staking_pool0, user0, user_stake0, reward_balance, t1) == claim_aborts(
            staking_pool0,
            user0,
            user_stake0,
            reward_balance,
            t2,
        ),
        r1 == r2,
        staking_pool1 == staking_pool2,
        user1 == user2,
        user_stake1 == user_stake2,
{
    assert(claim_duration(user_stake0, t1) == claim_duration(user_stake0, t2));
}

/// A user's total is what their stakes still hold: where it was before, it
/// still is after an accepted stake (a new entry) or an unstake (of one of
/// the entries).
pub proof fn lemma_user_total_tracks_active_stakes(
    config: ConfigAccount,
    stakes: Seq<UserStakesEntry>,
    staking_pool0: StakingPool,
    user0: UserStakeInfo,
    user_stake0: UserStakesEntry,
    staking_pool1: StakingPool,
    user1: UserStakeInfo,
    user_stake1: UserStakesEntry,
    user_authority: Address,
    staking_pool_key: Address,
    user_bump: u8,
    amount: u64,
    lockup: u16,
    i: int,
    now: u64,
    payout: UnstakePayout,
)
    requires
        user0.total_amount == active_total(stakes),
    ensures
        stake_tokens_post(
            config,
            staking_pool0,
            user0,
            user_stake0,
            staking_pool1,
            user1,
            user_stake1,
            user_authority,
            staking_pool_key,
            user_bump,
            amount,
            lockup,
            now,
            Ok(amount),
        ) ==> user1.total_amount == active_total(stakes.push(user_stake1)),
        0 <= i < stakes.len() && stakes[i] == user_stake0 && unstake_tokens_post(
            config,
            staking_pool0,
            user0,
            user_stake0,
            staking_pool1,
            user1,
            user_stake1,
            now,
            Ok(payout),
        ) ==> user1.total_amount == active_total(stakes.update(i, user_stake1)),
{
    assert(stakes.push(user_stake1).drop_last() =~= stakes);
    if 0 <= i < stakes.len() {
        lemma_active_total_update(stakes, i, user_stake1);
    }
}

proof fn lemma_active_total_update(stakes: Seq<UserStakesEntry>, i: int, x: UserStakesEntry)
    requires
        0 <= i < stakes.len(),
    ensures
        active_total(stakes.update(i, x)) == active_total(stakes) - (if stakes[i].unstaked_at
            == 0 {
            stakes[i].amount as int
        } else {
            0
        }) + (if x.unstaked_at == 0 {
            x.amount as int
        } else {
            0
        }),
    decreases stakes.len(),
{
    let u = stakes.update(i, x);
    if i == stakes.len() - 1 {
        assert(u.drop_last() =~= stakes.drop_last());
    } else {
        assert(u.drop_last() =~= stakes.drop_last().update(i, x));
        lemma_active_total_update(stakes.drop_last(), i, x);
    }
}

/// Newly staked tokens do not vote: a stake raises its owner's voting power
/// by its weight, yet until it has been held for the minimum voting
/// duration a proposal vote weighs what it weighed before the stake.
pub proof fn lemma_new_stake_adds_no_vote_weight(
    config: ConfigAccount,
    staking_pool0: StakingPool,
    user0: UserStakeInfo,
    user_stake0: UserStakesEntry,
    staking_pool1: StakingPool,
    user1: UserStakeInfo,
    user_stake1: UserStakesEntry,
    user_authority: Address,
    staking_pool_key: Address,
    user_bump: u8,
    amount: u64,
    lockup: u16,
    staked_at: u64,
    stakes: Seq<UserStakesEntry>,
    vote_at: u64,
)
    requires
        stake_tokens_post(
            config,
            staking_pool0,
            user0,
            user_stake0,
            staking_pool1,
            user1,
            user_stake1,
            user_authority,
            staking_pool_key,
            user_bump,
            amount,
            lockup,
            staked_at,
            Ok(amount),
        ),
        stake_unmatured(user_stake1, config.config.min_stake_duration_voting, vote_at),
    ensures
        vote_power_at(config, staking_pool1, user1, stakes.push(user_stake1), vote_at)
            == vote_power_at(config, staking_pool0, user0, stakes, vote_at),
{
    assert(stakes.push(user_stake1).drop_last() =~= stakes);
    assert(staking_pool1.stake_lockup_reward_array == staking_pool0.stake_lockup_reward_array);
}

/// Where all of a voter's stakes have been held for the minimum voting
/// duration, a proposal vote weighs the voter's whole voting power.
pub proof fn lemma_matured_stakes_vote_full_power(
    config: ConfigAccount,
    staking_pool: StakingPool,
    user: UserStakeInfo,
    stakes: Seq<UserStakesEntry>,
    now: u64,
)
    requires
        forall|i: int|
            0 <= i < stakes.len() ==> !stake_unmatured(
                #[trigger] stakes[i],
                config.config.min_stake_duration_voting,
                now,
            ),
    ensures
        vote_power_at(config, staking_pool, user, stakes, now) == user.voting_power,
{
    lemma_no_unmatured_weight(
        staking_pool.stake_lockup_reward_array,
        stakes,
        config.config.min_stake_duration_voting,
        now,
    );
}

proof fn lemma_no_unmatured_weight(
    tiers: [crate::staking::LockupReward; 4],
    stakes: Seq<UserStakesEntry>,
    min_duration: i64,
    now: u64,
)
    requires
        forall|i: int|
            0 <= i < stakes.len() ==> !stake_unmatured(#[trigger] stakes[i], min_duration, now),
    ensures
        unmatured_vote_weight(tiers, stakes, min_duration, now) == 0,
    decreases stakes.len(),
{
    if stakes.len() > 0 {
        let rest = stakes.drop_last();
        assert forall|i: int| 0 <= i < rest.len() implies !stake_unmatured(
            #[trigger] rest[i],
            min_duration,
            now,
        ) by {
            assert(rest[i] == stakes[i]);
        }
        lemma_no_unmatured_weight(tiers, rest, min_duration, now);
        assert(!stake_unmatured(stakes[stakes.len() - 1], min_duration, now));
    }
}

/// A user who has asked to unstake one of their stakes cannot vote on a
/// proposal until that stake is unstaked: the vote is refused and nothing
/// changes.
pub proof fn lemma_no_vote_with_pending_unstake(
    config: ConfigAccount,
    proposal0: Proposal,
    proposal1: Proposal,
    user: UserStakeInfo,
    staking_pool: StakingPool,
    user_stakes: Seq<UserStakesEntry>,
    i: int,
    requested: UserStakesEntry,
    requested_at: u64,
    vote0: Vote,
    vote1: Vote,
    voter: Address,
    proposal_id: u64,
    vote_choice: bool,
    now: u64,
    r: Result<VoteCastEvent, GovernanceError>,
)
    requires
        0 <= i < user_stakes.len(),
        request_unstake_post(requested, user_stakes[i], requested_at, Ok(())),
        requested_at != 0,
        vote_on_proposal_post(
            config,
            proposal0,
            proposal1,
            user,
            staking_pool,
            user_stakes,
            vote0,
            vote1,
            voter,
            proposal_id,
            vote_choice,
            now,
            r,
        ),
    ensures
        r is Err,
        proposal1 == proposal0,
        vote1 == vote0,
{
    assert(unstake_pending(user_stakes[i]));
}


/// A stake that has been unstaked carries no fresh weight: adding an
/// unstaked entry anywhere among a voter's stakes changes nothing about a
/// proposal vote, neither its result nor the proposal or vote record after
/// it.
pub proof fn lemma_unstaked_entry_leaves_vote_unchanged(
    config: ConfigAccount,
    proposal0: Proposal,
    proposal_a: Proposal,
    proposal_b: Proposal,
    user: UserStakeInfo,
    staking_pool: StakingPool,
    stakes: Seq<UserStakesEntry>,
    i: int,
    gone: UserStakesEntry,
    vote0: Vote,
    vote_a: Vote,
    vote_b: Vote,
    voter: Address,
    proposal_id: u64,
    vote_choice: bool,
    now: u64,
    r_a: Result<VoteCastEvent, GovernanceError>,
    r_b: Result<VoteCastEvent, GovernanceError>,
)
    requires
        0 <= i <= stakes.len(),
        gone.unstaked_at != 0,
        vote_on_proposal_post(
            config,
            proposal0,
            proposal_a,
            user,
            staking_pool,
            stakes,
            vote0,
            vote_a,
            voter,
            proposal_id,
            vote_choice,
            now,
            r_a,
        ),
        vote_on_proposal_post(
            config,
            proposal0,
            proposal_b,
            user,
            staking_pool,
            stakes.insert(i, gone),
            vote0,
            vote_b,
            voter,
            proposal_id,
            vote_choice,
            now,
            r_b,
        ),
    ensures
        r_a == r_b,
        proposal_a == proposal_b,
        vote_a == vote_b,
{
    let tiers = staking_pool.stake_lockup_reward_array;
    let min = config.config.min_stake_duration_voting;
    lemma_unmatured_weight_insert(tiers, stakes, i, gone, min, now);
    lemma_pending_insert(stakes, i, gone);
    assert(unmatured_stake_weight(tiers, gone, min, now) == 0);
    assert(vote_power_at(config, staking_pool, user, stakes.insert(i, gone), now) == vote_power_at(
        config,
        staking_pool,
        user,
        stakes,
        now,
    ));
}

proof fn lemma_unmatured_weight_insert(
    tiers: [crate::staking::LockupReward; 4],
    stakes: Seq<UserStakesEntry>,
    i: int,
    x: UserStakesEntry,
    min_duration: i64,
    now: u64,
)
    requires
        0 <= i <= stakes.len(),
    ensures
        unmatured_vote_weight(tiers, stakes.insert(i, x), min_duration, now)
            == unmatured_vote_weight(tiers, stakes, min_duration, now) + unmatured_stake_weight(
            tiers,
            x,
            min_duration,
            now,
        ),
    decreases stakes.len(),
{
    let s = stakes.insert(i, x);
    if i == stakes.len() {
        assert(s.drop_last() =~= stakes);
    } else {
        assert(s.drop_last() =~= stakes.drop_last().insert(i, x));
        assert(s.last() == stakes.last());
        lemma_unmatured_weight_insert(tiers, stakes.drop_last(), i, x, min_duration, now);
    }
}

proof fn lemma_pending_insert(stakes: Seq<UserStakesEntry>, i: int, x: UserStakesEntry)
    requires
        0 <= i <= stakes.len(),
    ensures
        has_pending_unstake(stakes.insert(i, x)) <==> (has_pending_unstake(stakes)
            || unstake_pending(x)),
{
    let s = stakes.insert(i, x);
    if has_pending_unstake(s) {
        let j = choose|j: int| 0 <= j < s.len() && unstake_pending(#[trigger] s[j]);
        if j < i {
            assert(s[j] == stakes[j]);
        } else if j > i {
            assert(s[j] == stakes[j - 1]);
        }
    }
    if has_pending_unstake(stakes) {
        let j = choose|j: int| 0 <= j < stakes.len() && unstake_pending(#[trigger] stakes[j]);
        if j < i {
            assert(s[j] == stakes[j]);
        } else {
            assert(s[j + 1] == stakes[j]);
        }
    }
    if unstake_pending(x) {
        assert(s[i] == x);
    }
}

/// Where each of a voter's stakes has been unstaked, is empty, or has been
/// held for at least the minimum voting duration, a counted proposal vote
/// adds exactly the voter's voting power to the tally of its choice and
/// leaves the other tally as it was.
pub proof fn lemma_vote_adds_voting_power_without_fresh_stakes(
    config: ConfigAccount,
    proposal0: Proposal,
    proposal1: Proposal,
    user: UserStakeInfo,
    staking_pool: StakingPool,
    stakes: Seq<UserStakesEntry>,
    vote0: Vote,
    vote1: Vote,
    voter: Address,
    proposal_id: u64,
    vote_choice: bool,
    now: u64,
    event: VoteCastEvent,
)
    requires
        forall|k: int|
            0 <= k < stakes.len() ==> {
                ||| #[trigger] stakes[k].unstaked_at != 0
                ||| stakes[k].amount == 0
                ||| (now >= stakes[k].staked_at && now - stakes[k].staked_at
                    >= config.config.min_stake_duration_voting)
            },
        vote_on_proposal_post(
            config,
            proposal0,
            proposal1,
            user,
            staking_pool,
            stakes,
            vote0,
            vote1,
            voter,
            proposal_id,
            vote_choice,
            now,
            Ok(event),
        ),
    ensures
        vote_choice ==> proposal1.yes_votes == proposal0.yes_votes + user.voting_power
            && proposal1.no_votes == proposal0.no_votes,
        !vote_choice ==> proposal1.no_votes == proposal0.no_votes + user.voting_power
            && proposal1.yes_votes == proposal0.yes_votes,
{
    assert forall|k: int| 0 <= k < stakes.len() implies !stake_unmatured(
        #[trigger] stakes[k],
        config.config.min_stake_duration_voting,
        now,
    ) by {
        assert(stakes[k].unstaked_at != 0 || stakes[k].amount == 0 || (now >= stakes[k].staked_at
            && now - stakes[k].staked_at >= config.config.min_stake_duration_voting));
    }
    lemma_matured_stakes_vote_full_power(config, staking_pool, user, stakes, now);
}

/// Rewards accrue per period of the stake's own lockup: after a paid claim
/// the stake's period count is the number of whole `lockup`-day periods it
/// has been held (up to `now`, or up to its unstake), and the reward is the
/// package's rate on the stake for each period not paid before.
pub proof fn lemma_claim_counts_own_lockup_periods(
    staking_pool0: StakingPool,
    user0: UserStakeInfo,
    user_stake0: UserStakesEntry,
    staking_pool1: StakingPool,
    user1: UserStakeInfo,
    user_stake1: UserStakesEntry,
    reward_balance: u64,
    now: u64,
    reward: u64,
)
    requires
        user_stake0.lockup != 0,
        claim_reward_post(
            staking_pool0,
            user0,
            user_stake0,
            staking_pool1,
            user1,
            user_stake1,
            reward_balance,
            now,
            Ok(reward),
        ),
    ensures
        ({
            let end: int = if user_stake0.unstaked_at == 0 {
                now as int
            } else {
                user_stake0.unstaked_at as int
            };
            let held: int = if end >= user_stake0.staked_at {
                end - user_stake0.staked_at
            } else {
                0
            };
            let period: int = user_stake0.lockup as int * 86400;
            &&& user_stake1.current_period * period <= held
            &&& held < (user_stake1.current_period + 1) * period
        }),
        user_stake1.current_period > user_stake0.current_period,
        reward == (user_stake1.current_period - user_stake0.current_period) * user_stake0.amount
            * find_tier(staking_pool0, user_stake0.lockup).unwrap().reward_bps / 1000,
{
    let held = claim_duration(user_stake0, now);
    let period = min_staking_duration(user_stake0.lockup);
    let p = periods_earned(user_stake0, now);
    assert(period > 0);
    assert(held >= 0);
    assert(p * period <= held < (p + 1) * period) by (nonlinear_arith)
        requires
            period > 0,
            held >= 0,
            p == held / period,
    ;
}

/// A stake claimed for the first time exactly one lockup after it was
/// staked is paid one period: the package's rate on the stake, and its
/// period count becomes 1. The claim is paid wherever nothing else refuses
/// it (reward account, pool and package in order, and a reward above 0).
pub proof fn lemma_claim_after_one_lockup_pays_one_period(
    staking_pool0: StakingPool,
    user0: UserStakeInfo,
    user_stake0: UserStakesEntry,
    staking_pool1: StakingPool,
    user1: UserStakeInfo,
    user_stake1: UserStakesEntry,
    reward_balance: u64,
    now: u64,
    r: Result<u64, CustomError>,
)
    requires
        user_stake0.lockup != 0,
        user_stake0.unstaked_at == 0,
        user_stake0.current_period == 0,
        now == user_stake0.staked_at + user_stake0.lockup as int * 86400,
        claim_reward_post(
            staking_pool0,
            user0,
            user_stake0,
            staking_pool1,
            user1,
            user_stake1,
            reward_balance,
            now,
            r,
        ),
    ensures
        r is Ok ==> r == Ok::<u64, CustomError>(
            (user_stake0.amount * find_tier(staking_pool0, user_stake0.lockup).unwrap().reward_bps
                / 1000) as u64,
        ) && user_stake1.current_period == 1,
        (reward_balance != 0 && user_stake0.amount != 0 && staking_pool0.total_staked != 0
            && find_tier(staking_pool0, user_stake0.lockup) is Some && user_stake0.amount
            * find_tier(staking_pool0, user_stake0.lockup).unwrap().reward_bps / 1000 != 0)
            ==> r is Ok,
{
    let period = min_staking_duration(user_stake0.lockup);
    assert(claim_duration(user_stake0, now) == period);
    assert(period > 0);
    assert(period / period == 1) by (nonlinear_arith)
        requires
            period > 0,
    ;
    assert(periods_earned(user_stake0, now) == 1);
}

/// An unstake before the end of the stake's lockup withholds the penalty
/// that the configuration sets, in thousandths of the stake, and returns
/// the rest; an unstake at the end of the lockup or later withholds
/// nothing.
pub proof fn lemma_early_unstake_withholds_configured_penalty(
    config: ConfigAccount,
    staking_pool0: StakingPool,
    user0: UserStakeInfo,
    user_stake0: UserStakesEntry,
    staking_pool1: StakingPool,
    user1: UserStakeInfo,
    user_stake1: UserStakesEntry,
    now: u64,
    payout: UnstakePayout,
)
    requires
        unstake_tokens_post(
            config,
            staking_pool0,
            user0,
            user_stake0,
            staking_pool1,
            user1,
            user_stake1,
            now,
            Ok(payout),
        ),
    ensures
        ({
            let held: int = if now >= user_stake0.staked_at {
                now - user_stake0.staked_at
            } else {
                0
            };
            let lockup_seconds: int = user_stake0.lockup as int * 86400;
            let fee: int = user_stake0.amount * config.config.early_unstake_penalty / 1000;
            &&& held < lockup_seconds ==> payout.fee == fee && payout.amount_to_return
                == user_stake0.amount - fee
            &&& held >= lockup_seconds ==> payout.fee == 0 && payout.amount_to_return
                == user_stake0.amount
        }),
{
}

/// A stake that takes the user's total from below the governance minimum to
/// at least it starts the voting wait anew: eligibility dates from that
/// stake, whatever it was before. Any other accepted stake keeps the date.
pub proof fn lemma_crossing_governance_minimum_restarts_eligibility(
    config: ConfigAccount,
    staking_pool0: StakingPool,
    user0: UserStakeInfo,
    user_stake0: UserStakesEntry,
    staking_pool1: StakingPool,
    user1: UserStakeInfo,
    user_stake1: UserStakesEntry,
    user_authority: Address,
    staking_pool_key: Address,
    user_bump: u8,
    amount: u64,
    lockup: u16,
    now: u64,
)
    requires
        stake_tokens_post(
            config,
            staking_pool0,
            user0,
            user_stake0,
            staking_pool1,
            user1,
            user_stake1,
            user_authority,
            staking_pool_key,
            user_bump,
            amount,
            lockup,
            now,
            Ok(amount),
        ),
    ensures
        user0.total_amount < config.config.min_governance_stake && user0.total_amount + amount
            >= config.config.min_governance_stake ==> user1.eligible_at == now,
        !(user0.total_amount < config.config.min_governance_stake && user0.total_amount + amount
            >= config.config.min_governance_stake) ==> user1.eligible_at == user0.eligible_at,
{
}

/// A charity vote outside the charity's voting window is refused and
/// changes nothing; where no earlier check refuses it (points, voting
/// power, a repeat vote, a vote since the charity opened, eligibility), it
/// is refused as not active.
pub proof fn lemma_charity_vote_only_in_window(
    config: ConfigAccount,
    charity0: Charity,
    charity1: Charity,
    charity_key: Address,
    vote_record0: VoteRecord,
    vote_record1: VoteRecord,
    user0: UserStakeInfo,
    user1: UserStakeInfo,
    voter: Address,
    char_points: u64,
    now: u64,
    r: Result<(), CustomError>,
)
    requires
        now < charity0.start_time || now > charity0.end_time,
        cast_vote_post(
            config,
            charity0,
            charity1,
            charity_key,
            vote_record0,
            vote_record1,
            user0,
            user1,
            voter,
            char_points,
            now,
            r,
        ),
    ensures
        r is Err,
        charity1 == charity0,
        vote_record1 == vote_record0,
        user1 == user0,
        (char_points != 0 && char_points <= user0.voting_power && !vote_record0.voted
            && user0.last_vote_time < charity0.start_time && user0.total_amount
            >= config.config.min_governance_stake && user0.eligible_at > 0 && now
            - user0.eligible_at >= config.config.min_stake_duration_voting) ==> r == Err::<
            (),
            CustomError,
        >(CustomError::VotingNotActive),
{
}

/// A counted proposal vote was owed: the record had not voted, the id
/// matches, the voter holds the governance minimum and has held it for the
/// minimum voting duration, the voting period is open and no stake of the
/// voter waits on an unstake request. It adds to the tally of its choice at
/// most the voter's voting power, changes nothing else of the proposal, and
/// records the vote.
pub proof fn lemma_counted_vote_was_owed(
    config: ConfigAccount,
    proposal0: Proposal,
    proposal1: Proposal,
    user: UserStakeInfo,
    staking_pool: StakingPool,
    stakes: Seq<UserStakesEntry>,
    vote0: Vote,
    vote1: Vote,
    voter: Address,
    proposal_id: u64,
    vote_choice: bool,
    now: u64,
    event: VoteCastEvent,
)
    requires
        vote_on_proposal_post(
            config,
            proposal0,
            proposal1,
            user,
            staking_pool,
            stakes,
            vote0,
            vote1,
            voter,
            proposal_id,
            vote_choice,
            now,
            Ok(event),
        ),
    ensures
        !vote0.voted,
        proposal0.id == proposal_id,
        user.total_amount >= config.config.min_governance_stake,
        user.eligible_at > 0,
        now - user.eligible_at >= config.config.min_stake_duration_voting,
        now < proposal0.end_time,
        forall|k: int|
            0 <= k < stakes.len() ==> !(#[trigger] stakes[k].unstake_requested_at != 0
                && stakes[k].unstaked_at == 0),
        vote_choice ==> proposal1 == (Proposal { yes_votes: proposal1.yes_votes, ..proposal0 })
            && proposal0.yes_votes <= proposal1.yes_votes <= proposal0.yes_votes
            + user.voting_power,
        !vote_choice ==> proposal1 == (Proposal { no_votes: proposal1.no_votes, ..proposal0 })
            && proposal0.no_votes <= proposal1.no_votes <= proposal0.no_votes + user.voting_power,
        vote1 == (Vote {
            proposal_id,
            voter,
            amount_staked: user.total_amount,
            vote_choice,
            voted: true,
        }),
{
    assert forall|k: int| 0 <= k < stakes.len() implies !(#[trigger] stakes[k].unstake_requested_at
        != 0 && stakes[k].unstaked_at == 0) by {
        if unstake_pending(stakes[k]) {
            assert(has_pending_unstake(stakes));
        }
    }
    crate::staking::lemma_unmatured_vote_weight_monotone(
        staking_pool.stake_lockup_reward_array,
        stakes,
        stakes.len() as int,
        config.config.min_stake_duration_voting,
        now,
    );
    assert(stakes.take(stakes.len() as int) =~= stakes);
}

/// A counted charity vote was owed and is what the voter holds: points
/// above 0 and within the voting power, no earlier vote with the record or
/// since the charity opened, the governance minimum held for the minimum
/// voting duration, and the clock within the voting window. The charity
/// gains the voter's whole voting power, the voter spends the points, and
/// the record and the voter's last vote time are set.
pub proof fn lemma_counted_charity_vote_was_owed(
    config: ConfigAccount,
    charity0: Charity,
    charity1: Charity,
    charity_key: Address,
    vote_record0: VoteRecord,
    vote_record1: VoteRecord,
    user0: UserStakeInfo,
    user1: UserStakeInfo,
    voter: Address,
    char_points: u64,
    now: u64,
)
    requires
        cast_vote_post(
            config,
            charity0,
            charity1,
            charity_key,
            vote_record0,
            vote_record1,
            user0,
            user1,
            voter,
            char_points,
            now,
            Ok(()),
        ),
    ensures
        0 < char_points <= user0.voting_power,
        !vote_record0.voted,
        user0.last_vote_time < charity0.start_time,
        user0.total_amount >= config.config.min_governance_stake,
        user0.eligible_at > 0,
        now - user0.eligible_at >= config.config.min_stake_duration_voting,
        charity0.start_time <= now <= charity0.end_time,
        charity1.total_votes == charity0.total_votes + user0.voting_power,
        charity1.status == charity0.status,
        user1.voting_power == user0.voting_power - char_points,
        user1.last_vote_time == now,
        user1.total_amount == user0.total_amount,
        vote_record1.voted,
        vote_record1.voter == voter,
        vote_record1.vote_weight == user0.voting_power,
{
}

/// An accepted unstake was owed: the stake held tokens, was not unstaked
/// yet, and its request is at least 48 hours old. The stake is marked
/// unstaked at `now`, its amount leaves both the pool's and the user's
/// totals, and the user's voting power does not grow.
pub proof fn lemma_accepted_unstake_was_owed(
    config: ConfigAccount,
    staking_pool0: StakingPool,
    user0: UserStakeInfo,
    user_stake0: UserStakesEntry,
    staking_pool1: StakingPool,
    user1: UserStakeInfo,
    user_stake1: UserStakesEntry,
    now: u64,
    payout: UnstakePayout,
)
    requires
        unstake_tokens_post(
            config,
            staking_pool0,
            user0,
            user_stake0,
            staking_pool1,
            user1,
            user_stake1,
            now,
            Ok(payout),
        ),
    ensures
        user_stake0.amount != 0,
        user_stake0.unstaked_at == 0,
        user_stake0.unstake_requested_at != 0,
        now >= user_stake0.unstake_requested_at + 172800,
        user_stake1 == (UserStakesEntry { unstaked_at: now, ..user_stake0 }),
        staking_pool1.total_staked == staking_pool0.total_staked - user_stake0.amount,
        user1.total_amount == user0.total_amount - user_stake0.amount,
        user1.voting_power <= user0.voting_power,
        user1.eligible_at == user0.eligible_at,
{
}

/// A paid reward claim was owed: the reward account is not empty, the
/// stake and the pool hold tokens, and the reward is above 0. The reward is
/// added to what the pool and the user have been issued, and the stake
/// changes in its period count only.
pub proof fn lemma_paid_claim_was_owed(
    staking_pool0: StakingPool,
    user0: UserStakeInfo,
    user_stake0: UserStakesEntry,
    staking_pool1: StakingPool,
    user1: UserStakeInfo,
    user_stake1: UserStakesEntry,
    reward_balance: u64,
    now: u64,
    reward: u64,
)
    requires
        claim_reward_post(
            staking_pool0,
            user0,
            user_stake0,
            staking_pool1,
            user1,
            user_stake1,
            reward_balance,
            now,
            Ok(reward),
        ),
    ensures
        reward_balance != 0,
        user_stake0.amount != 0,
        staking_pool0.total_staked != 0,
        reward > 0,
        staking_pool1.reward_issued == staking_pool0.reward_issued + reward,
        user1.reward_issued == user0.reward_issued + reward,
        user_stake1 == (UserStakesEntry { current_period: user_stake1.current_period, ..user_stake0 }),
        staking_pool1.total_staked == staking_pool0.total_staked,
        user1.total_amount == user0.total_amount,
        user1.voting_power == user0.voting_power,
{
}

/// An accepted stake was owed and takes the first package with its lockup:
/// the amount is above 0, the entry is fresh, and a package with that
/// lockup exists. The entry records the amount, the time and the lockup,
/// both totals grow by the amount, and the voting power grows by the
/// package's weight on the amount, in thousandths.
pub proof fn lemma_accepted_stake_takes_first_package(
    config: ConfigAccount,
    staking_pool0: StakingPool,
    user0: UserStakeInfo,
    user_stake0: UserStakesEntry,
    staking_pool1: StakingPool,
    user1: UserStakeInfo,
    user_stake1: UserStakesEntry,
    user_authority: Address,
    staking_pool_key: Address,
    user_bump: u8,
    amount: u64,
    lockup: u16,
    now: u64,
)
    requires
        stake_tokens_post(
            config,
            staking_pool0,
            user0,
            user_stake0,
            staking_pool1,
            user1,
            user_stake1,
            user_authority,
            staking_pool_key,
            user_bump,
            amount,
            lockup,
            now,
            Ok(amount),
        ),
    ensures
        amount != 0,
        user_stake0.amount == 0,
        user_stake0.unstaked_at == 0,
        user_stake1.amount == amount,
        user_stake1.staked_at == now,
        user_stake1.lockup == lockup,
        user_stake1.stake_id == user0.stake_count,
        staking_pool1.total_staked == staking_pool0.total_staked + amount,
        user1.total_amount == user0.total_amount + amount,
        user1.stake_count == user0.stake_count + 1,
        exists|j: int|
            0 <= j < 4 && #[trigger] staking_pool0.stake_lockup_reward_array[j].lockup_days
                == lockup && (forall|m: int|
                0 <= m < j ==> staking_pool0.stake_lockup_reward_array[m].lockup_days != lockup)
                && user1.voting_power == user0.voting_power + (
            staking_pool0.stake_lockup_reward_array[j].vote_power as int * amount as int / 1000) as u64,
{
    let tiers = staking_pool0.stake_lockup_reward_array@;
    let j = lemma_find_tier_first(tiers, lockup, 0);
    assert(tiers[j] == staking_pool0.stake_lockup_reward_array[j]);
    assert forall|m: int| 0 <= m < j implies staking_pool0.stake_lockup_reward_array[m].lockup_days
        != lockup by {
        assert(tiers[m] == staking_pool0.stake_lockup_reward_array[m]);
    }
}

/// Where a package is found from index `i` on, it is the first one at or
/// after `i` whose lockup matches.
proof fn lemma_find_tier_first(
    tiers: Seq<crate::staking::LockupReward>,
    lockup: u16,
    i: int,
) -> (j: int)
    requires
        0 <= i,
        crate::staking::find_tier_from(tiers, lockup, i) is Some,
    ensures
        i <= j < tiers.len(),
        tiers[j].lockup_days == lockup,
        crate::staking::find_tier_from(tiers, lockup, i) == Some(tiers[j]),
        forall|m: int| i <= m < j ==> tiers[m].lockup_days != lockup,
    decreases tiers.len() - i,
{
    if tiers[i].lockup_days == lockup {
        i
    } else {
        lemma_find_tier_first(tiers, lockup, i + 1)
    }
}

} // verus!
