//! DAO governance: proposals, stake-weighted votes and finalization.

use vstd::prelude::*;

use crate::staking::{
    any_unstake_pending, compute_unmatured_vote_weight, eligibility_aborts, has_pending_unstake,
    is_voting_eligible, unmatured_vote_weight, voting_eligible, StakingPool, UserStakeInfo,
    UserStakesEntry,
};
use crate::{Address, Config, ConfigAccount};

verus! {

/// Where a proposal stands.
#[derive(Clone, Copy, Debug, PartialEq, Eq)]
pub enum ProposalStatus {
    Active,
    Approved,
    Rejected,
}

/// A governance proposal.
#[derive(Clone, Debug, PartialEq, Eq)]
pub struct Proposal {
    /// Unique proposal id.
    pub id: u64,
    pub creator: Address,
    pub title: String,
    pub description: String,
    /// Total weighted yes votes.
    pub yes_votes: u64,
    /// Total weighted no votes.
    pub no_votes: u64,
    pub status: ProposalStatus,
    /// Voting deadline (unix timestamp).
    pub end_time: u64,
}

/// A user's vote on one proposal.
#[derive(Clone, Copy, Debug, PartialEq, Eq)]
pub struct Vote {
    pub proposal_id: u64,
    pub voter: Address,
    /// Staked tokens of the voter when voting.
    pub amount_staked: u64,
    /// true for yes, false for no.
    pub vote_choice: bool,
    /// Whether the user has voted.
    pub voted: bool,
}

/// Emitted when a proposal is finalized.
#[derive(Clone, Copy, Debug, PartialEq, Eq)]
pub struct ProposalFinalizedEvent {
    pub proposal_id: u64,
    pub status: ProposalStatus,
    pub yes_votes: u64,
    pub no_votes: u64,
    pub timestamp: u64,
}

/// Emitted when a proposal is submitted.
#[derive(Clone, Debug, PartialEq, Eq)]
pub struct ProposalSubmittedEvent {
    pub proposal_creator: Address,
    pub proposal_title: String,
    pub timestamp: u64,
}

/// Emitted when a vote is cast.
#[derive(Clone, Copy, Debug, PartialEq, Eq)]
pub struct VoteCastEvent {
    pub proposal_id: u64,
    pub vote_choice: bool,
    pub amount_staked: u64,
    pub yes_votes: u64,
    pub no_votes: u64,
    pub timestamp: u64,
}

/// Refusals of the governance instructions.
#[derive(Clone, Copy, Debug, PartialEq, Eq)]
pub enum GovernanceError {
    /// Voting period has ended.
    VotingPeriodEnded,
    /// Voting period is still active.
    VotingStillActive,
    /// Math error occurred.
    MathError,
    /// Unauthorized operation.
    Unauthorized,
    /// Invalid number of multisig owners.
    InvalidOwners,
    /// Invalid approval threshold.
    InvalidThreshold,
    /// Withdrawal proposal already executed.
    AlreadyExecuted,
    /// Insufficient approvals for withdrawal execution.
    InsufficientApprovals,
    /// User is not eligible to vote.
    VotingNotEligible,
    /// User has not staked any tokens.
    NoStakedTokens,
    /// User already voted.
    AlreadyVoted,
    /// Duplicate owner.
    DuplicateOwner,
    /// Proposal already finalized.
    ProposalAlreadyFinalized,
    /// Invalid proposal id.
    InvalidProposalId,
}

impl Default for Vote {
    /// The all-zero vote record of a user who has not voted.
    fn default() -> (r: Vote)
        ensures
            r.proposal_id == 0,
            r.voter.spec_is_default(),
            r.amount_staked == 0,
            !r.vote_choice,
            !r.voted,
    {
        Vote {
            proposal_id: 0,
            voter: Address::default(),
            amount_staked: 0,
            vote_choice: false,
            voted: false,
        }
    }
}

/// The weight a user's vote carries at `now`: the user's voting power (which
/// each stake raised when it was staked, and charity votes spend), less the
/// weight of the stakes not yet held for the minimum voting duration; never
/// below nothing.
pub open spec fn vote_power_at(
    config: ConfigAccount,
    staking_pool: StakingPool,
    user: UserStakeInfo,
    user_stakes: Seq<UserStakesEntry>,
    now: u64,
) -> int {
    let fresh = unmatured_vote_weight(
        staking_pool.stake_lockup_reward_array,
        user_stakes,
        config.config.min_stake_duration_voting,
        now,
    );
    if user.voting_power > fresh {
        user.voting_power - fresh
    } else {
        0
    }
}

/// Why a vote is refused, if it is. A voter with an unstake request pending
/// on any of their stakes may not vote.
pub open spec fn vote_error(
    config: ConfigAccount,
    proposal: Proposal,
    user: UserStakeInfo,
    staking_pool: StakingPool,
    user_stakes: Seq<UserStakesEntry>,
    vote_account: Vote,
    proposal_id: u64,
    vote_choice: bool,
    now: u64,
) -> Option<GovernanceError> {
    let power = vote_power_at(config, staking_pool, user, user_stakes, now);
    if vote_account.voted {
        Some(GovernanceError::AlreadyVoted)
    } else if proposal.id != proposal_id {
        Some(GovernanceError::InvalidProposalId)
    } else if !voting_eligible(user, config.config, now) {
        Some(GovernanceError::VotingNotEligible)
    } else if has_pending_unstake(user_stakes) {
        Some(GovernanceError::VotingNotEligible)
    } else if now >= proposal.end_time {
        Some(GovernanceError::VotingPeriodEnded)
    } else if vote_choice && proposal.yes_votes + power > u64::MAX {
        Some(GovernanceError::MathError)
    } else if !vote_choice && proposal.no_votes + power > u64::MAX {
        Some(GovernanceError::MathError)
    } else {
        None
    }
}

/// Inputs on which the vote instruction aborts: the eligibility test sees a
/// negative elapsed time.
pub open spec fn vote_aborts(
    config: ConfigAccount,
    proposal: Proposal,
    user: UserStakeInfo,
    vote_account: Vote,
    proposal_id: u64,
    now: u64,
) -> bool {
    !vote_account.voted && proposal.id == proposal_id && eligibility_aborts(
        user,
        config.config,
        now,
    )
}

/// The proposal after a counted vote: the vote's weight is added to the
/// tally of its choice.
pub open spec fn proposal_after_vote(proposal: Proposal, vote_choice: bool, power: u64) -> Proposal {
    if vote_choice {
        Proposal { yes_votes: (proposal.yes_votes + power) as u64, ..proposal }
    } else {
        Proposal { no_votes: (proposal.no_votes + power) as u64, ..proposal }
    }
}

/// The outcome of a proposal with these tallies.
pub open spec fn outcome(yes_votes: u64, no_votes: u64) -> ProposalStatus {
    if yes_votes > no_votes {
        ProposalStatus::Approved
    } else {
        ProposalStatus::Rejected
    }
}

/// What submit_proposal does: the new proposal, its event, and the
/// configuration after it.
pub open spec fn submit_proposal_post(
    config0: ConfigAccount,
    config1: ConfigAccount,
    creator: Address,
    title: String,
    description: String,
    duration: u64,
    now: u64,
    r: (Proposal, ProposalSubmittedEvent),
) -> bool {
    &&& r.0 == (Proposal {
        id: config0.config.next_proposal_id,
        creator,
        title,
        description,
        yes_votes: 0,
        no_votes: 0,
        status: ProposalStatus::Active,
        end_time: (now + duration) as u64,
    })
    &&& r.0.end_time == now + duration
    &&& config1.config.next_proposal_id == config0.config.next_proposal_id + 1
    &&& r.1 == (ProposalSubmittedEvent {
        proposal_creator: creator,
        proposal_title: title,
        timestamp: now,
    })
    &&& config1.config == (Config {
        next_proposal_id: (config0.config.next_proposal_id + 1) as u64,
        ..config0.config
    })
}

/// What vote_on_proposal does: its result and the accounts after it.
pub open spec fn vote_on_proposal_post(
    config: ConfigAccount,
    proposal0: Proposal,
    proposal1: Proposal,
    user: UserStakeInfo,
    staking_pool: StakingPool,
    user_stakes: Seq<UserStakesEntry>,
    vote0: Vote,
    vote1: Vote,
    voter: Address,
    proposal_id: u64,
    vote_choice: bool,
    now: u64,
    r: Result<VoteCastEvent, GovernanceError>,
) -> bool {
    let error = vote_error(
        config,
        proposal0,
        user,
        staking_pool,
        user_stakes,
        vote0,
        proposal_id,
        vote_choice,
        now,
    );
    let power = vote_power_at(config, staking_pool, user, user_stakes, now);
    &&& (r is Err <==> error is Some)
    &&& (r matches Err(e) ==> Some(e) == error && proposal1 == proposal0 && vote1 == vote0)
    &&& (r matches Ok(event) ==> {
        &&& proposal1 == proposal_after_vote(proposal0, vote_choice, power as u64)
        &&& vote_choice ==> proposal1.yes_votes == proposal0.yes_votes + power
        &&& !vote_choice ==> proposal1.no_votes == proposal0.no_votes + power
        &&& vote1 == (Vote {
            proposal_id,
            voter,
            amount_staked: user.total_amount,
            vote_choice,
            voted: true,
        })
        &&& event == (VoteCastEvent {
            proposal_id,
            vote_choice,
            amount_staked: user.total_amount,
            yes_votes: proposal1.yes_votes,
            no_votes: proposal1.no_votes,
            timestamp: now,
        })
    })
}

/// Why a finalization is refused, if it is.
pub open spec fn finalize_proposal_error(proposal: Proposal, now: u64) -> Option<GovernanceError> {
    if now < proposal.end_time {
        Some(GovernanceError::VotingStillActive)
    } else if proposal.status != ProposalStatus::Active {
        Some(GovernanceError::ProposalAlreadyFinalized)
    } else {
        None
    }
}

/// What finalize_proposal does: its result and the proposal after it.
pub open spec fn finalize_proposal_post(
    proposal0: Proposal,
    proposal1: Proposal,
    now: u64,
    r: Result<ProposalFinalizedEvent, GovernanceError>,
) -> bool {
    &&& (r is Err <==> finalize_proposal_error(proposal0, now) is Some)
    &&& (r matches Err(e) ==> Some(e) == finalize_proposal_error(proposal0, now) && proposal1
        == proposal0)
    &&& (r matches Ok(event) ==> {
        &&& proposal1 == (Proposal {
            status: outcome(proposal0.yes_votes, proposal0.no_votes),
            ..proposal0
        })
        &&& event == (ProposalFinalizedEvent {
            proposal_id: proposal0.id,
            status: proposal1.status,
            yes_votes: proposal0.yes_votes,
            no_votes: proposal0.no_votes,
            timestamp: now,
        })
    })
}

/// Submits at `now` a proposal open for `duration` seconds. It takes the
/// next proposal id, which advances.
pub fn submit_proposal(
    config: &mut ConfigAccount,
    creator: Address,
    title: String,
    description: String,
    duration: u64,
    now: u64,
) -> (r: (Proposal, ProposalSubmittedEvent))
    requires
        now + duration <= u64::MAX,
        old(config).config.next_proposal_id + 1 <= u64::MAX,
    ensures
        submit_proposal_post(
            *old(config),
            *final(config),
            creator,
            title,
            description,
            duration,
            now,
            r,
        ),

{
    let event = ProposalSubmittedEvent {
        proposal_creator: creator,
        proposal_title: title.clone(),
        timestamp: now,
    };
    let proposal = Proposal {
        id: config.config.next_proposal_id,
        creator,
        title,
        description,
        yes_votes: 0,
        no_votes: 0,
        status: ProposalStatus::Active,
        end_time: now + duration,
    };
    config.config.next_proposal_id = config.config.next_proposal_id + 1;
    (proposal, event)
}

/// Casts at `now` the vote `vote_choice` of `voter` on a proposal.
/// `user_stakes` are the voter's stakes. The vote weighs the voter's voting
/// power less the weight of the stakes held for less than
/// `min_stake_duration_voting` seconds, so that newly staked tokens do not
/// vote; a voter with an unstake request pending is refused. On a refusal
/// nothing changes.
pub fn vote_on_proposal(
    config: &ConfigAccount,
    proposal: &mut Proposal,
    user: &UserStakeInfo,
    staking_pool: &StakingPool,
    user_stakes: &Vec<UserStakesEntry>,
    user_vote_account: &mut Vote,
    voter: Address,
    proposal_id: u64,
    vote_choice: bool,
    now: u64,
) -> (r: Result<VoteCastEvent, GovernanceError>)
    requires
        !vote_aborts(*config, *old(proposal), *user, *old(user_vote_account), proposal_id, now),
    ensures
        vote_on_proposal_post(
            *config,
            *old(proposal),
            *final(proposal),
            *user,
            *staking_pool,
            user_stakes@,
            *old(user_vote_account),
            *final(user_vote_account),
            voter,
            proposal_id,
            vote_choice,
            now,
            r,
        ),

{
    if user_vote_account.voted {
        return Err(GovernanceError::AlreadyVoted);
    }
    if proposal.id != proposal_id {
        return Err(GovernanceError::InvalidProposalId);
    }
    if !is_voting_eligible(user, &config.config, now) {
        return Err(GovernanceError::VotingNotEligible);
    }
    if any_unstake_pending(user_stakes) {
        return Err(GovernanceError::VotingNotEligible);
    }
    if now >= proposal.end_time {
        return Err(GovernanceError::VotingPeriodEnded);
    }
    let voting_amount: u64 = match compute_unmatured_vote_weight(
        &staking_pool.stake_lockup_reward_array,
        user_stakes,
        config.config.min_stake_duration_voting,
        now,
    ) {
        Some(fresh) => if user.voting_power > fresh {
            user.voting_power - fresh
        } else {
            0
        },
        None => 0,
    };
    if vote_choice {
        match proposal.yes_votes.checked_add(voting_amount) {
            Some(v) => {
                proposal.yes_votes = v;
            },
            None => {
                return Err(GovernanceError::MathError);
            },
        }
    } else {
        match proposal.no_votes.checked_add(voting_amount) {
            Some(v) => {
                proposal.no_votes = v;
            },
            None => {
                return Err(GovernanceError::MathError);
            },
        }
    }
    user_vote_account.voted = true;
    user_vote_account.proposal_id = proposal_id;
    user_vote_account.voter = voter;
    user_vote_account.amount_staked = user.total_amount;
    user_vote_account.vote_choice = vote_choice;
    Ok(
        VoteCastEvent {
            proposal_id,
            vote_choice,
            amount_staked: user.total_amount,
            yes_votes: proposal.yes_votes,
            no_votes: proposal.no_votes,
            timestamp: now,
        },
    )
}

/// Finalizes at `now` a proposal whose voting period is over: it is
/// approved when it has more yes than no votes, else rejected. A proposal is
/// finalized once. On a refusal nothing changes.
pub fn finalize_proposal(proposal: &mut Proposal, _proposal_id: u64, now: u64) -> (r: Result<
    ProposalFinalizedEvent,
    GovernanceError,
>)
    ensures
        finalize_proposal_post(
            *old(proposal),
            *final(proposal),
            now,
            r,
        ),

{
    if now < proposal.end_time {
        return Err(GovernanceError::VotingStillActive);
    }
    match proposal.status {
        ProposalStatus::Active => {},
        _ => {
            return Err(GovernanceError::ProposalAlreadyFinalized);
        },
    }
    if proposal.yes_votes > proposal.no_votes {
        proposal.status = ProposalStatus::Approved;
    } else {
        proposal.status = ProposalStatus::Rejected;
    }
    Ok(
        ProposalFinalizedEvent {
            proposal_id: proposal.id,
            status: proposal.status,
            yes_votes: proposal.yes_votes,
            no_votes: proposal.no_votes,
            timestamp: now,
        },
    )
}

} // verus!
