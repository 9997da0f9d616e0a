//! Charity donation voting: registration, weighted votes, finalization.

use vstd::prelude::*;

use crate::errors::CustomError;
use crate::staking::{eligibility_aborts, is_voting_eligible, voting_eligible, UserStakeInfo};
use crate::{Address, Config, ConfigAccount};

verus! {

/// Where a charity's voting stands.
#[derive(Clone, Copy, Debug, PartialEq, Eq)]
pub enum CharityStatus {
    Active,
    Finalized,
}

/// A charity registered for donation voting.
#[derive(Clone, Debug, PartialEq, Eq)]
pub struct Charity {
    /// Unique charity id.
    pub id: u64,
    pub title: String,
    pub wallet: Address,
    /// Total weighted votes received.
    pub total_votes: u64,
    /// Voting start time (unix timestamp).
    pub start_time: u64,
    /// Voting end time (unix timestamp).
    pub end_time: u64,
    pub status: CharityStatus,
    /// The administrator of the charity.
    pub admin: Address,
}

/// A user's vote for one charity.
#[derive(Clone, Copy, Debug, PartialEq, Eq)]
pub struct VoteRecord {
    pub charity: Address,
    pub voter: Address,
    /// Voting weight counted for the charity.
    pub vote_weight: u64,
    pub voted: bool,
}

impl Default for VoteRecord {
    /// The all-zero record of a user who has not voted for the charity.
    fn default() -> (r: VoteRecord)
        ensures
            r.charity.spec_is_default(),
            r.voter.spec_is_default(),
            r.vote_weight == 0,
            !r.voted,
    {
        VoteRecord {
            charity: Address::default(),
            voter: Address::default(),
            vote_weight: 0,
            voted: false,
        }
    }
}

/// A registration is accepted: both times are set and the wallet is not the
/// all-zero address.
pub open spec fn registration_valid(wallet: Address, start_time: u64, end_time: u64) -> bool {
    start_time != 0 && end_time != 0 && !wallet.spec_is_default()
}

/// Why a vote for a charity is refused, if it is.
pub open spec fn cast_vote_error(
    config: Config,
    charity: Charity,
    vote_record: VoteRecord,
    user: UserStakeInfo,
    char_points: u64,
    now: u64,
) -> Option<CustomError> {
    if char_points == 0 {
        Some(CustomError::InvalidArg)
    } else if char_points > user.voting_power {
        Some(CustomError::YouDontHaveEnoughVotingPower)
    } else if vote_record.voted {
        Some(CustomError::AlreadyVoted)
    } else if user.last_vote_time >= charity.start_time {
        Some(CustomError::VotingNotEligible)
    } else if !voting_eligible(user, config, now) {
        Some(CustomError::VotingNotEligible)
    } else if !(now >= charity.start_time && now <= charity.end_time) {
        Some(CustomError::VotingNotActive)
    } else if charity.total_votes + user.voting_power > u64::MAX {
        Some(CustomError::MathError)
    } else {
        None
    }
}

/// Inputs on which the charity vote aborts: the eligibility test sees a
/// negative elapsed time.
pub open spec fn cast_vote_aborts(
    config: Config,
    charity: Charity,
    vote_record: VoteRecord,
    user: UserStakeInfo,
    char_points: u64,
    now: u64,
) -> bool {
    &&& char_points != 0
    &&& char_points <= user.voting_power
    &&& !vote_record.voted
    &&& user.last_vote_time < charity.start_time
    &&& eligibility_aborts(user, config, now)
}

/// What register_charity does: its result and the configuration after it.
pub open spec fn register_charity_post(
    config0: ConfigAccount,
    config1: ConfigAccount,
    registrar: Address,
    title: String,
    wallet: Address,
    start_time: u64,
    end_time: u64,
    r: Result<Charity, CustomError>,
) -> bool {
    &&& (r is Ok <==> registration_valid(wallet, start_time, end_time))
    &&& (r matches Err(e) ==> e == CustomError::InvalidArg && config1 == config0)
    &&& (r matches Ok(charity) ==> {
        &&& charity == (Charity {
            id: config0.config.next_charity_id,
            title,
            wallet,
            total_votes: 0,
            start_time,
            end_time,
            status: CharityStatus::Active,
            admin: registrar,
        })
        &&& config1.config.next_charity_id == config0.config.next_charity_id + 1
        &&& config1.config == (Config {
            next_charity_id: (config0.config.next_charity_id + 1) as u64,
            ..config0.config
        })
    })
}

/// What cast_vote does: its result and the accounts after it.
pub open spec fn cast_vote_post(
    config: ConfigAccount,
    charity0: Charity,
    charity1: Charity,
    charity_key: Address,
    vote_record0: VoteRecord,
    vote_record1: VoteRecord,
    user0: UserStakeInfo,
    user1: UserStakeInfo,
    voter: Address,
    char_points: u64,
    now: u64,
    r: Result<(), CustomError>,
) -> bool {
    let error = cast_vote_error(config.config, charity0, vote_record0, user0, char_points, now);
    &&& (r is Err <==> error is Some)
    &&& (r matches Err(e) ==> {
        &&& Some(e) == error
        &&& charity1 == charity0
        &&& vote_record1 == vote_record0
        &&& user1 == user0
    })
    &&& (r is Ok ==> {
        &&& user1.voting_power == user0.voting_power - char_points
        &&& charity1.total_votes == charity0.total_votes + user0.voting_power
        &&& user1 == (UserStakeInfo {
            last_vote_time: now,
            voting_power: (user0.voting_power - char_points) as u64,
            ..user0
        })
        &&& vote_record1 == (VoteRecord {
            charity: charity_key,
            voter,
            vote_weight: user0.voting_power,
            voted: true,
        })
        &&& charity1 == (Charity {
            total_votes: (charity0.total_votes + user0.voting_power) as u64,
            ..charity0
        })
    })
}

/// Why a charity finalization is refused, if it is.
pub open spec fn finalize_charity_error(charity: Charity, now: u64) -> Option<CustomError> {
    if now <= charity.end_time {
        Some(CustomError::VotingNotEnded)
    } else if charity.status != CharityStatus::Active {
        Some(CustomError::CharityAlreadyFinalized)
    } else {
        None
    }
}

/// What finalize_charity_vote does: its result and the charity after it.
pub open spec fn finalize_charity_vote_post(
    charity0: Charity,
    charity1: Charity,
    now: u64,
    r: Result<(), CustomError>,
) -> bool {
    &&& (r is Err <==> finalize_charity_error(charity0, now) is Some)
    &&& (r matches Err(e) ==> Some(e) == finalize_charity_error(charity0, now) && charity1
        == charity0)
    &&& (r is Ok ==> charity1 == (Charity { status: CharityStatus::Finalized, ..charity0 }))
}

/// Registers a charity whose voting runs from `start_time` to `end_time`,
/// administered by `registrar`. It takes the next charity id, which
/// advances. On a refusal the configuration is unchanged.
pub fn register_charity(
    config: &mut ConfigAccount,
    registrar: Address,
    title: String,
    wallet: Address,
    start_time: u64,
    end_time: u64,
) -> (r: Result<Charity, CustomError>)
    requires
        registration_valid(wallet, start_time, end_time) ==> old(config).config.next_charity_id + 1
            <= u64::MAX,
    ensures
        register_charity_post(
            *old(config),
            *final(config),
            registrar,
            title,
            wallet,
            start_time,
            end_time,
            r,
        ),

{
    if start_time == 0 {
        return Err(CustomError::InvalidArg);
    }
    if end_time == 0 {
        return Err(CustomError::InvalidArg);
    }
    if wallet.is_default() {
        return Err(CustomError::InvalidArg);
    }
    let charity = Charity {
        id: config.config.next_charity_id,
        title,
        wallet,
        total_votes: 0,
        start_time,
        end_time,
        status: CharityStatus::Active,
        admin: registrar,
    };
    config.config.next_charity_id = config.config.next_charity_id + 1;
    Ok(charity)
}

/// Casts at `now` the vote of `voter` for a charity. The charity receives
/// the voter's whole voting power, and `char_points` of that power are
/// spent. On a refusal nothing changes.
pub fn cast_vote(
    config: &ConfigAccount,
    charity: &mut Charity,
    charity_key: Address,
    vote_record: &mut VoteRecord,
    user: &mut UserStakeInfo,
    voter: Address,
    _charity_id: u64,
    char_points: u64,
    now: u64,
) -> (r: Result<(), CustomError>)
    requires
        !cast_vote_aborts(
            config.config,
            *old(charity),
            *old(vote_record),
            *old(user),
            char_points,
            now,
        ),
    ensures
        cast_vote_post(
            *config,
            *old(charity),
            *final(charity),
            charity_key,
            *old(vote_record),
            *final(vote_record),
            *old(user),
            *final(user),
            voter,
            char_points,
            now,
            r,
        ),

{
    if char_points == 0 {
        return Err(CustomError::InvalidArg);
    }
    if char_points > user.voting_power {
        return Err(CustomError::YouDontHaveEnoughVotingPower);
    }
    if vote_record.voted {
        return Err(CustomError::AlreadyVoted);
    }
    if user.last_vote_time >= charity.start_time {
        return Err(CustomError::VotingNotEligible);
    }
    if !is_voting_eligible(user, &config.config, now) {
        return Err(CustomError::VotingNotEligible);
    }
    if !(now >= charity.start_time && now <= charity.end_time) {
        return Err(CustomError::VotingNotActive);
    }
    let vote_weight = user.voting_power;
    let new_total = match charity.total_votes.checked_add(vote_weight) {
        Some(t) => t,
        None => {
            return Err(CustomError::MathError);
        },
    };
    user.last_vote_time = now;
    user.voting_power = user.voting_power - char_points;
    vote_record.charity = charity_key;
    vote_record.voter = voter;
    vote_record.vote_weight = vote_weight;
    vote_record.voted = true;
    charity.total_votes = new_total;
    Ok(())
}

/// Finalizes at `now` a charity whose voting period has ended. A charity
/// is finalized once. On a refusal nothing changes.
pub fn finalize_charity_vote(charity: &mut Charity, _charity_id: u64, now: u64) -> (r: Result<
    (),
    CustomError,
>)
    ensures
        finalize_charity_vote_post(
            *old(charity),
            *final(charity),
            now,
            r,
        ),

{
    if now <= charity.end_time {
        return Err(CustomError::VotingNotEnded);
    }
    match charity.status {
        CharityStatus::Active => {},
        CharityStatus::Finalized => {
            return Err(CustomError::CharityAlreadyFinalized);
        },
    }
    charity.status = CharityStatus::Finalized;
    Ok(())
}

} // verus!
