//! The program's entry points. Every entry point but the emergency switch
//! and the package settings is refused while the program is halted; the
//! others hand on to the instruction of their module.

use vstd::prelude::*;

use crate::burn::{execute_buyback, execute_buyback_post, BuybackBurnEvent};
use crate::donation::{
    cast_vote, cast_vote_aborts, cast_vote_post, finalize_charity_vote,
    finalize_charity_vote_post, register_charity, register_charity_post, registration_valid,
    Charity, VoteRecord,
};
use crate::errors::CustomError;
use crate::governance::{
    finalize_proposal, finalize_proposal_post, submit_proposal, submit_proposal_post,
    vote_aborts, vote_on_proposal, vote_on_proposal_post, GovernanceError, Proposal,
    ProposalFinalizedEvent, ProposalSubmittedEvent, Vote, VoteCastEvent,
};
use crate::marketing::{distribute_marketing_funds, MarketingFundDistributionEvent};
use crate::security::change_emergency_state;
use crate::staking::{
    claim_aborts, claim_reward, claim_reward_post, request_unstake_post, request_unstake_tokens,
    set_reward_percentage, stake_error, stake_overflows, stake_tokens, stake_tokens_post,
    unstake_aborts, unstake_tokens, unstake_tokens_post, LockupReward, StakingPool,
    UnstakePayout, UserStakeInfo, UserStakesEntry,
};
use crate::{per_mille, Address, CharcoinError, Config, ConfigAccount, ErrorCode};

verus! {

/// The refusal of an entry point while the program is halted.
pub open spec fn halted_refusal<T>() -> Result<T, CharcoinError> {
    Err(CharcoinError::Code(ErrorCode::ProgramIsHalted))
}

/// A staking, donation or burn outcome as an entry point reports it.
pub open spec fn lift_custom<T>(r: Result<T, CustomError>) -> Result<T, CharcoinError> {
    match r {
        Ok(v) => Ok(v),
        Err(e) => Err(CharcoinError::Custom(e)),
    }
}

/// The staking, donation or burn outcome behind an entry point's report.
pub open spec fn lower_custom<T>(r: Result<T, CharcoinError>) -> Result<T, CustomError> {
    match r {
        Ok(v) => Ok(v),
        Err(CharcoinError::Custom(e)) => Err(e),
        Err(_) => Err(CustomError::MathError),
    }
}

/// A governance outcome as an entry point reports it.
pub open spec fn lift_governance<T>(r: Result<T, GovernanceError>) -> Result<T, CharcoinError> {
    match r {
        Ok(v) => Ok(v),
        Err(e) => Err(CharcoinError::Governance(e)),
    }
}

/// The governance outcome behind an entry point's report.
pub open spec fn lower_governance<T>(r: Result<T, CharcoinError>) -> Result<T, GovernanceError> {
    match r {
        Ok(v) => Ok(v),
        Err(CharcoinError::Governance(e)) => Err(e),
        Err(_) => Err(GovernanceError::MathError),
    }
}

/// Stakes tokens; see [`stake_tokens`]. Refused while halted.
pub fn stake_tokens_handler(
    config: &ConfigAccount,
    staking_pool: &mut StakingPool,
    user: &mut UserStakeInfo,
    user_stake: &mut UserStakesEntry,
    user_authority: Address,
    staking_pool_key: Address,
    user_bump: u8,
    amount: u64,
    lockup: u16,
    now: u64,
) -> (r: Result<u64, CharcoinError>)
    requires
        !config.config.halted && stake_error(*old(staking_pool), *old(user_stake), amount, lockup)
            is None ==> !stake_overflows(*old(staking_pool), *old(user), amount, lockup),
    ensures
        config.config.halted ==> {
            &&& r == halted_refusal::<u64>()
            &&& *final(staking_pool) == *old(staking_pool)
            &&& *final(user) == *old(user)
            &&& *final(user_stake) == *old(user_stake)
        },
        !config.config.halted ==> {
            &&& r == lift_custom(lower_custom(r))
            &&& stake_tokens_post(
                *config,
                *old(staking_pool),
                *old(user),
                *old(user_stake),
                *final(staking_pool),
                *final(user),
                *final(user_stake),
                user_authority,
                staking_pool_key,
                user_bump,
                amount,
                lockup,
                now,
                lower_custom(r),
            )
        },
{
    if config.config.halted {
        return Err(CharcoinError::Code(ErrorCode::ProgramIsHalted));
    }
    match stake_tokens(
        config,
        staking_pool,
        user,
        user_stake,
        user_authority,
        staking_pool_key,
        user_bump,
        amount,
        lockup,
        now,
    ) {
        Ok(v) => Ok(v),
        Err(e) => Err(CharcoinError::Custom(e)),
    }
}

/// Unstakes a stake; see [`unstake_tokens`]. Refused while halted.
pub fn unstake_tokens_handler(
    config: &ConfigAccount,
    staking_pool: &mut StakingPool,
    user: &mut UserStakeInfo,
    user_stake: &mut UserStakesEntry,
    index: u64,
    now: u64,
) -> (r: Result<UnstakePayout, CharcoinError>)
    requires
        !config.config.halted ==> !unstake_aborts(
            *old(staking_pool),
            *old(user),
            *old(user_stake),
            config.config.early_unstake_penalty,
            now,
        ),
    ensures
        config.config.halted ==> {
            &&& r == halted_refusal::<UnstakePayout>()
            &&& *final(staking_pool) == *old(staking_pool)
            &&& *final(user) == *old(user)
            &&& *final(user_stake) == *old(user_stake)
        },
        !config.config.halted ==> {
            &&& r == lift_custom(lower_custom(r))
            &&& unstake_tokens_post(
                *config,
                *old(staking_pool),
                *old(user),
                *old(user_stake),
                *final(staking_pool),
                *final(user),
                *final(user_stake),
                now,
                lower_custom(r),
            )
        },
{
    if config.config.halted {
        return Err(CharcoinError::Code(ErrorCode::ProgramIsHalted));
    }
    match unstake_tokens(config, staking_pool, user, user_stake, index, now) {
        Ok(v) => Ok(v),
        Err(e) => Err(CharcoinError::Custom(e)),
    }
}

/// Requests an unstake; see [`request_unstake_tokens`]. Refused while
/// halted.
pub fn request_unstake_handler(
    config: &ConfigAccount,
    user_stake: &mut UserStakesEntry,
    index: u64,
    now: u64,
) -> (r: Result<(), CharcoinError>)
    ensures
        config.config.halted ==> r == halted_refusal::<()>() && *final(user_stake) == *old(user_stake),
        !config.config.halted ==> {
            &&& r == lift_custom(lower_custom(r))
            &&& request_unstake_post(*old(user_stake), *final(user_stake), now, lower_custom(r))
        },
{
    if config.config.halted {
        return Err(CharcoinError::Code(ErrorCode::ProgramIsHalted));
    }
    match request_unstake_tokens(user_stake, index, now) {
        Ok(v) => Ok(v),
        Err(e) => Err(CharcoinError::Custom(e)),
    }
}

/// Claims a staking reward; see [`claim_reward`]. Refused while halted.
pub fn claim_reward_handler(
    config: &ConfigAccount,
    staking_pool: &mut StakingPool,
    user: &mut UserStakeInfo,
    user_stake: &mut UserStakesEntry,
    reward_balance: u64,
    index: u64,
    now: u64,
) -> (r: Result<u64, CharcoinError>)
    requires
        !config.config.halted ==> !claim_aborts(
            *old(staking_pool),
            *old(user),
            *old(user_stake),
            reward_balance,
            now,
        ),
    ensures
        config.config.halted ==> {
            &&& r == halted_refusal::<u64>()
            &&& *final(staking_pool) == *old(staking_pool)
            &&& *final(user) == *old(user)
            &&& *final(user_stake) == *old(user_stake)
        },
        !config.config.halted ==> {
            &&& r == lift_custom(lower_custom(r))
            &&& claim_reward_post(
                *old(staking_pool),
                *old(user),
                *old(user_stake),
                *final(staking_pool),
                *final(user),
                *final(user_stake),
                reward_balance,
                now,
                lower_custom(r),
            )
        },
{
    if config.config.halted {
        return Err(CharcoinError::Code(ErrorCode::ProgramIsHalted));
    }
    match claim_reward(staking_pool, user, user_stake, reward_balance, index, now) {
        Ok(v) => Ok(v),
        Err(e) => Err(CharcoinError::Custom(e)),
    }
}

/// Burns the burn wallet's balance; see [`execute_buyback`]. Refused while
/// halted.
pub fn buyback_burn_handler(config: &mut ConfigAccount, burn_wallet_balance: u64, now: u64) -> (r:
    Result<BuybackBurnEvent, CharcoinError>)
    requires
        !old(config).config.halted && burn_wallet_balance > 0 ==> old(config).config.total_burned
            + burn_wallet_balance <= u64::MAX,
    ensures
        old(config).config.halted ==> r == halted_refusal::<BuybackBurnEvent>() && *final(config)
            == *old(config),
        !old(config).config.halted ==> {
            &&& r == lift_custom(lower_custom(r))
            &&& execute_buyback_post(
                *old(config),
                *final(config),
                burn_wallet_balance,
                now,
                lower_custom(r),
            )
        },
{
    if config.config.halted {
        return Err(CharcoinError::Code(ErrorCode::ProgramIsHalted));
    }
    match execute_buyback(config, burn_wallet_balance, now) {
        Ok(v) => Ok(v),
        Err(e) => Err(CharcoinError::Custom(e)),
    }
}

/// Submits a proposal; see [`submit_proposal`]. Refused while halted.
pub fn submit_proposal_handler(
    config: &mut ConfigAccount,
    creator: Address,
    title: String,
    description: String,
    duration: u64,
    now: u64,
) -> (r: Result<(Proposal, ProposalSubmittedEvent), CharcoinError>)
    requires
        !old(config).config.halted ==> now + duration <= u64::MAX && old(config).config.next_proposal_id + 1 <= u64::MAX,
    ensures
        old(config).config.halted ==> r == halted_refusal::<(Proposal, ProposalSubmittedEvent)>()
            && *final(config) == *old(config),
        !old(config).config.halted ==> (r matches Ok(v) && submit_proposal_post(
            *old(config),
            *final(config),
            creator,
            title,
            description,
            duration,
            now,
            v,
        )),
{
    if config.config.halted {
        return Err(CharcoinError::Code(ErrorCode::ProgramIsHalted));
    }
    Ok(submit_proposal(config, creator, title, description, duration, now))
}

/// Votes on a proposal; see [`vote_on_proposal`]. Refused while halted.
pub fn vote_on_proposal_handler(
    config: &ConfigAccount,
    proposal: &mut Proposal,
    user: &UserStakeInfo,
    staking_pool: &StakingPool,
    user_stakes: &Vec<UserStakesEntry>,
    user_vote_account: &mut Vote,
    voter: Address,
    proposal_id: u64,
    vote_choice: bool,
    now: u64,
) -> (r: Result<VoteCastEvent, CharcoinError>)
    requires
        !config.config.halted ==> !vote_aborts(
            *config,
            *old(proposal),
            *user,
            *old(user_vote_account),
            proposal_id,
            now,
        ),
    ensures
        config.config.halted ==> {
            &&& r == halted_refusal::<VoteCastEvent>()
            &&& *final(proposal) == *old(proposal)
            &&& *final(user_vote_account) == *old(user_vote_account)
        },
        !config.config.halted ==> {
            &&& r == lift_governance(lower_governance(r))
            &&& vote_on_proposal_post(
                *config,
                *old(proposal),
                *final(proposal),
                *user,
                *staking_pool,
                user_stakes@,
                *old(user_vote_account),
                *final(user_vote_account),
                voter,
                proposal_id,
                vote_choice,
                now,
                lower_governance(r),
            )
        },
{
    if config.config.halted {
        return Err(CharcoinError::Code(ErrorCode::ProgramIsHalted));
    }
    match vote_on_proposal(
        config,
        proposal,
        user,
        staking_pool,
        user_stakes,
        user_vote_account,
        voter,
        proposal_id,
        vote_choice,
        now,
    ) {
        Ok(v) => Ok(v),
        Err(e) => Err(CharcoinError::Governance(e)),
    }
}

/// Finalizes a proposal; see [`finalize_proposal`]. Refused while halted.
pub fn finalize_proposal_handler(
    config: &ConfigAccount,
    proposal: &mut Proposal,
    proposal_id: u64,
    now: u64,
) -> (r: Result<ProposalFinalizedEvent, CharcoinError>)
    ensures
        config.config.halted ==> r == halted_refusal::<ProposalFinalizedEvent>() && *final(proposal) == *old(proposal),
        !config.config.halted ==> {
            &&& r == lift_governance(lower_governance(r))
            &&& finalize_proposal_post(*old(proposal), *final(proposal), now, lower_governance(r))
        },
{
    if config.config.halted {
        return Err(CharcoinError::Code(ErrorCode::ProgramIsHalted));
    }
    match finalize_proposal(proposal, proposal_id, now) {
        Ok(v) => Ok(v),
        Err(e) => Err(CharcoinError::Governance(e)),
    }
}

/// Sets or clears the emergency halt. It is the one entry point, with the
/// package settings, that works while halted.
pub fn change_emergency_state_handler(config: &mut ConfigAccount, state: bool)
    ensures
        final(config).config == (Config { halted: state, ..old(config).config }),
{
    change_emergency_state(config, state)
}

/// Registers a charity; see [`register_charity`]. Refused while halted.
pub fn register_charity_handler(
    config: &mut ConfigAccount,
    registrar: Address,
    title: String,
    wallet: Address,
    start_time: u64,
    end_time: u64,
) -> (r: Result<Charity, CharcoinError>)
    requires
        !old(config).config.halted && registration_valid(wallet, start_time, end_time) ==> old(config).config.next_charity_id + 1 <= u64::MAX,
    ensures
        old(config).config.halted ==> r == halted_refusal::<Charity>() && *final(config) == *old(config),
        !old(config).config.halted ==> {
            &&& r == lift_custom(lower_custom(r))
            &&& register_charity_post(
                *old(config),
                *final(config),
                registrar,
                title,
                wallet,
                start_time,
                end_time,
                lower_custom(r),
            )
        },
{
    if config.config.halted {
        return Err(CharcoinError::Code(ErrorCode::ProgramIsHalted));
    }
    match register_charity(config, registrar, title, wallet, start_time, end_time) {
        Ok(v) => Ok(v),
        Err(e) => Err(CharcoinError::Custom(e)),
    }
}

/// Casts a vote for a charity; see [`cast_vote`]. Refused while halted.
pub fn cast_vote_handler(
    config: &ConfigAccount,
    charity: &mut Charity,
    charity_key: Address,
    vote_record: &mut VoteRecord,
    user: &mut UserStakeInfo,
    voter: Address,
    charity_id: u64,
    char_points: u64,
    now: u64,
) -> (r: Result<(), CharcoinError>)
    requires
        !config.config.halted ==> !cast_vote_aborts(
            config.config,
            *old(charity),
            *old(vote_record),
            *old(user),
            char_points,
            now,
        ),
    ensures
        config.config.halted ==> {
            &&& r == halted_refusal::<()>()
            &&& *final(charity) == *old(charity)
            &&& *final(vote_record) == *old(vote_record)
            &&& *final(user) == *old(user)
        },
        !config.config.halted ==> {
            &&& r == lift_custom(lower_custom(r))
            &&& cast_vote_post(
                *config,
                *old(charity),
                *final(charity),
                charity_key,
                *old(vote_record),
                *final(vote_record),
                *old(user),
                *final(user),
                voter,
                char_points,
                now,
                lower_custom(r),
            )
        },
{
    if config.config.halted {
        return Err(CharcoinError::Code(ErrorCode::ProgramIsHalted));
    }
    match cast_vote(
        config,
        charity,
        charity_key,
        vote_record,
        user,
        voter,
        charity_id,
        char_points,
        now,
    ) {
        Ok(v) => Ok(v),
        Err(e) => Err(CharcoinError::Custom(e)),
    }
}

/// Finalizes a charity's voting; see [`finalize_charity_vote`]. Refused
/// while halted.
pub fn finalize_charity_vote_handler(
    config: &ConfigAccount,
    charity: &mut Charity,
    charity_id: u64,
    now: u64,
) -> (r: Result<(), CharcoinError>)
    ensures
        config.config.halted ==> r == halted_refusal::<()>() && *final(charity) == *old(charity),
        !config.config.halted ==> {
            &&& r == lift_custom(lower_custom(r))
            &&& finalize_charity_vote_post(*old(charity), *final(charity), now, lower_custom(r))
        },
{
    if config.config.halted {
        return Err(CharcoinError::Code(ErrorCode::ProgramIsHalted));
    }
    match finalize_charity_vote(charity, charity_id, now) {
        Ok(v) => Ok(v),
        Err(e) => Err(CharcoinError::Custom(e)),
    }
}

/// Splits marketing funds; see [`distribute_marketing_funds`]. Refused
/// while halted.
pub fn distribute_marketing_funds_handler(
    config: &ConfigAccount,
    total_amount: u64,
    now: i64,
) -> (r: Result<MarketingFundDistributionEvent, CharcoinError>)
    requires
        !config.config.halted ==> total_amount * 425 <= u64::MAX,
    ensures
        config.config.halted ==> r == halted_refusal::<MarketingFundDistributionEvent>(),
        !config.config.halted ==> (r matches Ok(event) && {
            &&& event.marketing_wallet_1_amount == per_mille(total_amount as int, 425)
            &&& event.marketing_wallet_2_amount == per_mille(total_amount as int, 425)
            &&& event.death_wallet_amount == per_mille(total_amount as int, 150)
            &&& event.timestamp == now
        }),
{
    if config.config.halted {
        return Err(CharcoinError::Code(ErrorCode::ProgramIsHalted));
    }
    Ok(distribute_marketing_funds(total_amount, now))
}

/// Replaces the pool's four staking packages; see
/// [`set_reward_percentage`]. It works while halted.
pub fn set_reward_percentage_handler(
    staking_pool: &mut StakingPool,
    reward1: u16,
    lockup1: u16,
    vote_power1: u16,
    reward2: u16,
    lockup2: u16,
    vote_power2: u16,
    reward3: u16,
    lockup3: u16,
    vote_power3: u16,
    reward4: u16,
    lockup4: u16,
    vote_power4: u16,
)
    ensures
        final(staking_pool).stake_lockup_reward_array@ == seq![
            LockupReward { lockup_days: lockup1, reward_bps: reward1, vote_power: vote_power1 },
            LockupReward { lockup_days: lockup2, reward_bps: reward2, vote_power: vote_power2 },
            LockupReward { lockup_days: lockup3, reward_bps: reward3, vote_power: vote_power3 },
            LockupReward { lockup_days: lockup4, reward_bps: reward4, vote_power: vote_power4 },
        ],
        final(staking_pool).authority == old(staking_pool).authority,
        final(staking_pool).token_mint == old(staking_pool).token_mint,
        final(staking_pool).pool_token_account == old(staking_pool).pool_token_account,
        final(staking_pool).staking_reward_account == old(staking_pool).staking_reward_account,
        final(staking_pool).total_staked == old(staking_pool).total_staked,
        final(staking_pool).reward_issued == old(staking_pool).reward_issued,
        final(staking_pool).bump == old(staking_pool).bump,
{
    set_reward_percentage(
        staking_pool,
        reward1,
        lockup1,
        vote_power1,
        reward2,
        lockup2,
        vote_power2,
        reward3,
        lockup3,
        vote_power3,
        reward4,
        lockup4,
        vote_power4,
    )
}

} // verus!
