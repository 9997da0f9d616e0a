use charcoin::burn::{execute_buyback, BuybackBurnEvent};
use charcoin::donation::{register_charity, VoteRecord};
use charcoin::governance::{submit_proposal, GovernanceError, Vote};
use charcoin::marketing::{change_marketing_wallet, distribute_marketing_funds, MarketingFundDistributionEvent};
use charcoin::private_sale::{
    claim_tokens, deposit_funds, initialize_vesting, FundsDepositedEvent, TokensClaimedEvent,
    VestingAccount, VestingError, NINETY_DAYS,
};
use charcoin::rewards::{release_donations, release_rewards, release_staking_char_funds, DonationsRelease, RewardsRelease};
use charcoin::security::change_emergency_state;
use charcoin::staking::{set_reward_percentage, UserStakeInfo, UserStakesEntry};
use charcoin::{
    buyback_burn_handler, cast_vote_handler, change_emergency_state_handler, claim_reward_handler,
    distribute_marketing_funds_handler, finalize_charity_vote_handler, finalize_proposal_handler,
    initialize, register_charity_handler, request_unstake_handler, set_reward_percentage_handler,
    stake_tokens_handler, staking_initialize, submit_proposal_handler, unstake_tokens_handler,
    update_settings, vote_on_proposal_handler, Address, CharcoinError, Config, ConfigAccount,
    CustomError, ErrorCode,
};

fn addr(n: u8) -> Address {
    Address { bytes: [n; 32] }
}

fn base_config() -> Config {
    Config {
        admin: addr(1),
        monthly_top_tier_wallet: addr(2),
        monthly_charity_lottery_wallet: addr(3),
        annual_top_tier_wallet: addr(4),
        annual_charity_lottery_wallet: addr(5),
        monthly_one_time_causes_wallet: addr(6),
        monthly_infinite_impact_causes_wallet: addr(7),
        annual_one_time_causes_wallet: addr(8),
        annual_infinite_impact_causes_wallet: addr(9),
        chai_funds: addr(10),
        marketing_wallet_1: addr(11),
        marketing_wallet_2: addr(12),
        death_wallet: addr(13),
        treasury_authority: addr(14),
        char_token_mint: addr(15),
        halted: false,
        next_proposal_id: 0,
        next_charity_id: 0,
        total_burned: 0,
        min_governance_stake: 100,
        min_stake_duration_voting: 15,
        early_unstake_penalty: 100,
    }
}

#[test]
fn address_default_is_all_zero() {
    assert!(Address::default().is_default());
    assert_eq!(Address::default(), Address { bytes: [0; 32] });
    let mut a = Address::default();
    a.bytes[31] = 1;
    assert!(!a.is_default());
    assert!(!addr(3).is_default());
}

#[test]
fn initialize_and_settings() {
    let mut acct = initialize(base_config());
    assert_eq!(acct.config, base_config());
    update_settings(&mut acct, 500, 86400, 150);
    let mut expected = base_config();
    expected.min_governance_stake = 500;
    expected.min_stake_duration_voting = 86400;
    expected.early_unstake_penalty = 150;
    assert_eq!(acct.config, expected);
    change_marketing_wallet(&mut acct, addr(90), addr(91));
    expected.marketing_wallet_1 = addr(90);
    expected.marketing_wallet_2 = addr(91);
    assert_eq!(acct.config, expected);
    change_emergency_state(&mut acct, true);
    expected.halted = true;
    assert_eq!(acct.config, expected);
}

#[test]
fn release_rewards_split() {
    assert_eq!(
        release_rewards(1_000_000),
        RewardsRelease { monthly_top_tier: 37_500, monthly_charity_lottery: 37_500, annual_top_tier: 37_500, annual_charity_lottery: 37_500 }
    );
    // each step rounds down: 999 -> 749 -> 149 -> 74 -> 37
    assert_eq!(
        release_rewards(999),
        RewardsRelease { monthly_top_tier: 37, monthly_charity_lottery: 37, annual_top_tier: 37, annual_charity_lottery: 37 }
    );
    assert_eq!(release_rewards(0), RewardsRelease { monthly_top_tier: 0, monthly_charity_lottery: 0, annual_top_tier: 0, annual_charity_lottery: 0 });
}

#[test]
fn release_donations_split() {
    assert_eq!(
        release_donations(1_000_000),
        DonationsRelease {
            monthly_one_time_causes: 240_000,
            monthly_infinite_impact_causes: 240_000,
            annual_one_time_causes: 30_000,
            annual_infinite_impact_causes: 30_000,
            char_fund: 60_000,
        }
    );
    // 999 -> 749 -> 599 -> monthly 479, annual 59, char 59
    assert_eq!(
        release_donations(999),
        DonationsRelease {
            monthly_one_time_causes: 239,
            monthly_infinite_impact_causes: 239,
            annual_one_time_causes: 29,
            annual_infinite_impact_causes: 29,
            char_fund: 59,
        }
    );
}

#[test]
fn release_staking_share() {
    assert_eq!(release_staking_char_funds(1_000_000), 150_000);
    assert_eq!(release_staking_char_funds(999), 149);
}

#[test]
fn releases_stay_within_ninety_percent() {
    for total in [0u64, 1, 7, 999, 1000, 123_456_789, u64::MAX / 750] {
        let r = release_rewards(total);
        let d = release_donations(total);
        let s = release_staking_char_funds(total);
        let sum = r.monthly_top_tier as u128 + r.monthly_charity_lottery as u128 + r.annual_top_tier as u128
            + r.annual_charity_lottery as u128 + d.monthly_one_time_causes as u128
            + d.monthly_infinite_impact_causes as u128 + d.annual_one_time_causes as u128
            + d.annual_infinite_impact_causes as u128 + d.char_fund as u128 + s as u128;
        assert!(sum * 1000 <= total as u128 * 900);
    }
}

#[test]
fn marketing_split() {
    assert_eq!(
        distribute_marketing_funds(1000, 77),
        MarketingFundDistributionEvent { marketing_wallet_1_amount: 425, marketing_wallet_2_amount: 425, death_wallet_amount: 150, timestamp: 77 }
    );
    let e = distribute_marketing_funds(7, 1);
    assert_eq!((e.marketing_wallet_1_amount, e.marketing_wallet_2_amount, e.death_wallet_amount), (2, 2, 1));
    let e = distribute_marketing_funds(u64::MAX / 425, 1);
    assert!(e.marketing_wallet_1_amount as u128 + e.marketing_wallet_2_amount as u128 + e.death_wallet_amount as u128 <= (u64::MAX / 425) as u128);
}

#[test]
fn burns_accumulate() {
    let mut acct = initialize(base_config());
    assert_eq!(execute_buyback(&mut acct, 0, 5), Err(CustomError::NoTokensToBuyback));
    assert_eq!(acct.config.total_burned, 0);
    assert_eq!(execute_buyback(&mut acct, 40, 6), Ok(BuybackBurnEvent { tokens_bought: 40, new_total_burned: 40, timestamp: 6 }));
    assert_eq!(execute_buyback(&mut acct, 2, 7), Ok(BuybackBurnEvent { tokens_bought: 2, new_total_burned: 42, timestamp: 7 }));
    assert_eq!(acct.config.total_burned, 42);
}

#[test]
fn vesting_claimed_once_after_ninety_days() {
    assert_eq!(NINETY_DAYS, 7_776_000);
    let (mut v, event) = initialize_vesting(addr(80), 5000, 1000);
    assert_eq!(v, VestingAccount { investor: addr(80), locked_amount: 5000, start_time: 1000, claimed: false });
    assert_eq!(event.start_time, 1000);
    assert_eq!(event.locked_amount, 5000);
    assert_eq!(deposit_funds(addr(80), 12), FundsDepositedEvent { investor: addr(80), deposit_amount: 12 });
    assert_eq!(claim_tokens(&mut v, 1000 + NINETY_DAYS - 1), Err(VestingError::VestingPeriodNotCompleted));
    assert!(!v.claimed);
    assert_eq!(
        claim_tokens(&mut v, 1000 + NINETY_DAYS),
        Ok(TokensClaimedEvent { investor: addr(80), claimed_amount: 5000, claim_time: 1000 + NINETY_DAYS })
    );
    assert!(v.claimed);
    assert_eq!(claim_tokens(&mut v, 1000 + 2 * NINETY_DAYS), Err(VestingError::AlreadyClaimed));
    let (mut empty, _) = initialize_vesting(addr(81), 0, 0);
    assert_eq!(claim_tokens(&mut empty, NINETY_DAYS), Err(VestingError::InsufficientFunds));
}

#[test]
fn halted_program_refuses_gated_entry_points() {
    let mut halted = initialize(base_config());
    change_emergency_state_handler(&mut halted, true);
    assert!(halted.config.halted);
    let refused = CharcoinError::Code(ErrorCode::ProgramIsHalted);

    let mut pool = staking_initialize(addr(20), addr(15), addr(21), addr(22), 1);
    set_reward_percentage_handler(&mut pool, 50, 30, 500, 0, 0, 0, 0, 0, 0, 0, 0, 0);
    assert_eq!(pool.stake_lockup_reward_array[0].lockup_days, 30);
    let pool0 = pool;
    let mut user = UserStakeInfo::default();
    let mut entry = UserStakesEntry::default();
    assert_eq!(stake_tokens_handler(&halted, &mut pool, &mut user, &mut entry, addr(30), addr(31), 1, 100, 30, 5), Err(refused));
    assert_eq!(request_unstake_handler(&halted, &mut entry, 0, 5), Err(refused));
    assert_eq!(unstake_tokens_handler(&halted, &mut pool, &mut user, &mut entry, 0, 5), Err(refused));
    assert_eq!(claim_reward_handler(&halted, &mut pool, &mut user, &mut entry, 10, 0, 5), Err(refused));
    assert_eq!((pool, user, entry), (pool0, UserStakeInfo::default(), UserStakesEntry::default()));

    let before = halted;
    assert_eq!(buyback_burn_handler(&mut halted, 10, 5), Err(refused));
    assert_eq!(submit_proposal_handler(&mut halted, addr(50), "t".to_string(), "d".to_string(), 10, 5), Err(refused));
    assert_eq!(register_charity_handler(&mut halted, addr(70), "c".to_string(), addr(71), 1, 2), Err(refused));
    assert_eq!(halted, before);
    assert_eq!(distribute_marketing_funds_handler(&halted, 1000, 5), Err(refused));

    let mut open = initialize(base_config());
    let (mut proposal, _) = submit_proposal(&mut open, addr(50), "t".to_string(), "d".to_string(), 10, 5);
    let mut charity = register_charity(&mut open, addr(70), "c".to_string(), addr(71), 1, 2).unwrap();
    let proposal0 = proposal.clone();
    let charity0 = charity.clone();
    let mut vote = Vote::default();
    let mut rec = VoteRecord::default();
    assert_eq!(vote_on_proposal_handler(&halted, &mut proposal, &user, &pool, &vec![], &mut vote, addr(60), 0, true, 6), Err(refused));
    assert_eq!(finalize_proposal_handler(&halted, &mut proposal, 0, 100), Err(refused));
    assert_eq!(cast_vote_handler(&halted, &mut charity, addr(72), &mut rec, &mut user, addr(60), 0, 1, 1), Err(refused));
    assert_eq!(finalize_charity_vote_handler(&halted, &mut charity, 0, 100), Err(refused));
    assert_eq!(proposal, proposal0);
    assert_eq!(charity, charity0);
    assert_eq!(vote, Vote::default());
    assert_eq!(rec, VoteRecord::default());

    change_emergency_state_handler(&mut halted, false);
    assert!(!halted.config.halted);
    assert_eq!(finalize_proposal_handler(&halted, &mut proposal, 0, 100).map(|e| e.proposal_id), Ok(0));
}

#[test]
fn open_program_hands_on_to_instructions() {
    let mut acct = initialize(base_config());
    let mut pool = staking_initialize(addr(20), addr(15), addr(21), addr(22), 1);
    set_reward_percentage(&mut pool, 50, 30, 500, 100, 90, 1000, 0, 0, 0, 0, 0, 0);
    let mut user = UserStakeInfo::default();
    let mut entry = UserStakesEntry::default();
    assert_eq!(stake_tokens_handler(&acct, &mut pool, &mut user, &mut entry, addr(30), addr(31), 1, 0, 30, 5), Err(CharcoinError::Custom(CustomError::NoStakedTokens)));
    assert_eq!(stake_tokens_handler(&acct, &mut pool, &mut user, &mut entry, addr(30), addr(31), 1, 1000, 30, 5), Ok(1000));
    let day = 86400;
    assert_eq!(request_unstake_handler(&acct, &mut entry, 0, 31 * day), Ok(()));
    assert_eq!(claim_reward_handler(&acct, &mut pool, &mut user, &mut entry, 10, 0, 31 * day), Ok(50));
    let payout = unstake_tokens_handler(&acct, &mut pool, &mut user, &mut entry, 0, 33 * day).unwrap();
    assert_eq!((payout.amount_to_return, payout.fee), (1000, 0));
    assert_eq!(buyback_burn_handler(&mut acct, 9, 50).map(|e| e.new_total_burned), Ok(9));
    let (mut proposal, _) = submit_proposal_handler(&mut acct, addr(50), "t".to_string(), "d".to_string(), 100, 5).unwrap();
    let mut vote = Vote::default();
    // 14 tokens at 0.5x, staked at time 1: weight 7
    let voter_stakes = vec![{ let mut e = UserStakesEntry::default(); e.amount = 14; e.staked_at = 1; e.lockup = 30; e }];
    let voter = { let mut u = UserStakeInfo::default(); u.total_amount = 100; u.eligible_at = 1; u.voting_power = 7; u };
    assert_eq!(vote_on_proposal_handler(&acct, &mut proposal, &voter, &pool, &voter_stakes, &mut vote, addr(60), 1, true, 20), Err(CharcoinError::Governance(GovernanceError::InvalidProposalId)));
    assert_eq!(vote_on_proposal_handler(&acct, &mut proposal, &voter, &pool, &voter_stakes, &mut vote, addr(60), 0, true, 20).map(|e| e.yes_votes), Ok(7));
    assert_eq!(finalize_proposal_handler(&acct, &mut proposal, 0, 105).map(|e| e.yes_votes), Ok(7));
    let mut charity = register_charity_handler(&mut acct, addr(70), "c".to_string(), addr(71), 10, 20).unwrap();
    assert_eq!(charity.id, 0);
    let mut rec = VoteRecord::default();
    let mut v2 = voter;
    assert_eq!(cast_vote_handler(&acct, &mut charity, addr(72), &mut rec, &mut v2, addr(60), 0, 3, 16), Ok(()));
    assert_eq!(v2.voting_power, 4);
    assert_eq!(finalize_charity_vote_handler(&acct, &mut charity, 0, 20), Err(CharcoinError::Custom(CustomError::VotingNotEnded)));
    assert_eq!(finalize_charity_vote_handler(&acct, &mut charity, 0, 21), Ok(()));
    assert_eq!(distribute_marketing_funds_handler(&acct, 1000, 3).map(|e| e.death_wallet_amount), Ok(150));
}
