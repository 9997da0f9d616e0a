use charcoin::staking::{
    claim_reward, compute_vote_weight, find_lockup_tier, request_unstake_tokens,
    set_reward_percentage, stake_tokens, unstake_tokens, LockupReward, StakingPool,
    UnstakePayout, UserStakeInfo, UserStakesEntry,
};
use charcoin::{staking_initialize, Address, Config, ConfigAccount, CustomError};

fn addr(n: u8) -> Address {
    Address { bytes: [n; 32] }
}

fn config(min_stake: u64, penalty: u64) -> ConfigAccount {
    ConfigAccount {
        config: Config {
            admin: addr(1),
            monthly_top_tier_wallet: addr(2),
            monthly_charity_lottery_wallet: addr(3),
            annual_top_tier_wallet: addr(4),
            annual_charity_lottery_wallet: addr(5),
            monthly_one_time_causes_wallet: addr(6),
            monthly_infinite_impact_causes_wallet: addr(7),
            annual_one_time_causes_wallet: addr(8),
            annual_infinite_impact_causes_wallet: addr(9),
            chai_funds: addr(10),
            marketing_wallet_1: addr(11),
            marketing_wallet_2: addr(12),
            death_wallet: addr(13),
            treasury_authority: addr(14),
            char_token_mint: addr(15),
            halted: false,
            next_proposal_id: 0,
            next_charity_id: 0,
            total_burned: 0,
            min_governance_stake: min_stake,
            min_stake_duration_voting: 15,
            early_unstake_penalty: penalty,
        },
    }
}

fn tier(lockup_days: u16, reward_bps: u16, vote_power: u16) -> LockupReward {
    LockupReward { lockup_days, reward_bps, vote_power }
}

fn pool() -> StakingPool {
    let mut p = staking_initialize(addr(20), addr(15), addr(21), addr(22), 254);
    set_reward_percentage(&mut p, 50, 30, 500, 100, 90, 1000, 200, 180, 1500, 300, 360, 2000);
    p
}

#[test]
fn staking_initialize_starts_empty() {
    let p = staking_initialize(addr(20), addr(15), addr(21), addr(22), 254);
    assert_eq!(p.authority, addr(20));
    assert_eq!(p.token_mint, addr(15));
    assert_eq!(p.pool_token_account, addr(21));
    assert_eq!(p.staking_reward_account, addr(22));
    assert_eq!(p.bump, 254);
    assert_eq!(p.total_staked, 0);
    assert_eq!(p.reward_issued, 0);
    assert_eq!(p.stake_lockup_reward_array, [tier(0, 0, 0); 4]);
}

#[test]
fn set_reward_percentage_replaces_packages_only() {
    let mut p = staking_initialize(addr(20), addr(15), addr(21), addr(22), 254);
    p.total_staked = 77;
    set_reward_percentage(&mut p, 50, 30, 500, 100, 90, 1000, 200, 180, 1500, 1, 2, 3);
    assert_eq!(
        p.stake_lockup_reward_array,
        [tier(30, 50, 500), tier(90, 100, 1000), tier(180, 200, 1500), tier(2, 1, 3)]
    );
    assert_eq!(p.total_staked, 77);
    assert_eq!(p.authority, addr(20));
}

#[test]
fn find_lockup_tier_takes_first_match() {
    let tiers = [tier(30, 1, 1), tier(90, 2, 2), tier(30, 3, 3), tier(0, 0, 0)];
    assert_eq!(find_lockup_tier(&tiers, 30), Some(tier(30, 1, 1)));
    assert_eq!(find_lockup_tier(&tiers, 90), Some(tier(90, 2, 2)));
    assert_eq!(find_lockup_tier(&tiers, 45), None);
}

#[test]
fn vote_weight_formula_and_truncation() {
    assert_eq!(compute_vote_weight(500, 1000), 500);
    assert_eq!(compute_vote_weight(1500, 999), 1498);
    assert_eq!(compute_vote_weight(0, 1_000_000), 0);
    let expected = ((65535u128 * u64::MAX as u128) / 1000) as u64;
    assert_eq!(compute_vote_weight(65535, u64::MAX), expected);
}

#[test]
fn stake_accepted_updates_pool_user_and_entry() {
    let cfg = config(100, 100);
    let mut p = pool();
    let mut user = UserStakeInfo::default();
    let mut entry = UserStakesEntry::default();
    let r = stake_tokens(&cfg, &mut p, &mut user, &mut entry, addr(30), addr(31), 7, 1000, 30, 10);
    assert_eq!(r, Ok(1000));
    assert_eq!(p.total_staked, 1000);
    assert_eq!(entry.stake_id, 0);
    assert_eq!(entry.amount, 1000);
    assert_eq!(entry.staked_at, 10);
    assert_eq!(entry.lockup, 30);
    assert_eq!(user.authority, addr(30));
    assert_eq!(user.staking_pool, addr(31));
    assert_eq!(user.bump, 7);
    assert_eq!(user.total_amount, 1000);
    assert_eq!(user.stake_count, 1);
    assert_eq!(user.voting_power, 500);
    assert_eq!(user.eligible_at, 10);
}

#[test]
fn stake_eligibility_set_only_when_crossing_minimum() {
    let cfg = config(1000, 100);
    let mut p = pool();
    let mut user = UserStakeInfo::default();
    let mut e1 = UserStakesEntry::default();
    stake_tokens(&cfg, &mut p, &mut user, &mut e1, addr(30), addr(31), 7, 400, 90, 5).unwrap();
    assert_eq!(user.eligible_at, 0);
    let mut e2 = UserStakesEntry::default();
    stake_tokens(&cfg, &mut p, &mut user, &mut e2, addr(30), addr(31), 7, 600, 90, 8).unwrap();
    assert_eq!(user.eligible_at, 8);
    assert_eq!(e2.stake_id, 1);
    let mut e3 = UserStakesEntry::default();
    stake_tokens(&cfg, &mut p, &mut user, &mut e3, addr(30), addr(31), 7, 50, 90, 20).unwrap();
    assert_eq!(user.eligible_at, 8);
    assert_eq!(user.total_amount, 1050);
    assert_eq!(user.voting_power, 1050);
    assert_eq!(p.total_staked, 1050);
}

#[test]
fn stake_refusals_change_nothing() {
    let cfg = config(100, 100);
    let p0 = pool();
    let u0 = UserStakeInfo::default();
    let e0 = UserStakesEntry::default();

    let (mut p, mut u, mut e) = (p0, u0, e0);
    let r = stake_tokens(&cfg, &mut p, &mut u, &mut e, addr(30), addr(31), 7, 0, 30, 10);
    assert_eq!(r, Err(CustomError::NoStakedTokens));
    assert_eq!((p, u, e), (p0, u0, e0));

    let r = stake_tokens(&cfg, &mut p, &mut u, &mut e, addr(30), addr(31), 7, 10, 45, 10);
    assert_eq!(r, Err(CustomError::WrongStakingPackage));
    assert_eq!((p, u, e), (p0, u0, e0));

    let mut busy = e0;
    busy.amount = 5;
    let r = stake_tokens(&cfg, &mut p, &mut u, &mut busy, addr(30), addr(31), 7, 10, 30, 10);
    assert_eq!(r, Err(CustomError::AlreadyStaked));

    let mut done = e0;
    done.unstaked_at = 3;
    let r = stake_tokens(&cfg, &mut p, &mut u, &mut done, addr(30), addr(31), 7, 10, 30, 10);
    assert_eq!(r, Err(CustomError::AlreadyUnStaked));
    assert_eq!((p, u), (p0, u0));
}

fn staked(amount: u64, lockup: u16, at: u64) -> (ConfigAccount, StakingPool, UserStakeInfo, UserStakesEntry) {
    let cfg = config(100, 100);
    let mut p = pool();
    let mut user = UserStakeInfo::default();
    let mut entry = UserStakesEntry::default();
    stake_tokens(&cfg, &mut p, &mut user, &mut entry, addr(30), addr(31), 7, amount, lockup, at)
        .unwrap();
    (cfg, p, user, entry)
}

#[test]
fn request_unstake_cases() {
    let mut e = UserStakesEntry::default();
    assert_eq!(request_unstake_tokens(&mut e, 0, 5), Err(CustomError::NoStakedTokens));
    e.amount = 10;
    assert_eq!(request_unstake_tokens(&mut e, 0, 5), Ok(()));
    assert_eq!(e.unstake_requested_at, 5);
    assert_eq!(request_unstake_tokens(&mut e, 0, 9), Err(CustomError::UnstakeAlreadyRequested));
    assert_eq!(e.unstake_requested_at, 5);
    let mut gone = UserStakesEntry::default();
    gone.amount = 10;
    gone.unstaked_at = 4;
    assert_eq!(request_unstake_tokens(&mut gone, 0, 9), Err(CustomError::AlreadyUnStaked));
}

const DAY: u64 = 86400;
const WAIT: u64 = 172800;

#[test]
fn unstake_refusals() {
    let (cfg, mut p, mut u, mut e) = staked(1000, 30, 10);
    let (p0, u0, e0) = (p, u, e);
    assert_eq!(unstake_tokens(&cfg, &mut p, &mut u, &mut e, 0, 50), Err(CustomError::RequestUnstakeFirst));
    request_unstake_tokens(&mut e, 0, 40).unwrap();
    let e1 = e;
    // 48 hours must pass after the request
    assert_eq!(unstake_tokens(&cfg, &mut p, &mut u, &mut e, 0, 42), Err(CustomError::WaitPeriodNotOverYet));
    assert_eq!(unstake_tokens(&cfg, &mut p, &mut u, &mut e, 0, 40 + WAIT - 1), Err(CustomError::WaitPeriodNotOverYet));
    assert_eq!((p, u, e), (p0, u0, e1));
    let mut empty = UserStakesEntry::default();
    empty.unstake_requested_at = 3;
    assert_eq!(unstake_tokens(&cfg, &mut p, &mut u, &mut empty, 0, 3 + WAIT), Err(CustomError::NoStakedTokens));
    let mut gone = e0;
    gone.unstaked_at = 1;
    assert_eq!(unstake_tokens(&cfg, &mut p, &mut u, &mut gone, 0, 50), Err(CustomError::AlreadyUnStaked));
    assert_eq!(e0.unstaked_at, 0);
    assert!(unstake_tokens(&cfg, &mut p, &mut u, &mut e, 0, 40 + WAIT).is_ok());
}

#[test]
fn early_unstake_pays_penalty() {
    // a 30-day stake unstaked on day 10 pays the 10% penalty
    let (cfg, mut p, mut u, mut e) = staked(1000, 30, 0);
    request_unstake_tokens(&mut e, 0, 8 * DAY).unwrap();
    let r = unstake_tokens(&cfg, &mut p, &mut u, &mut e, 0, 10 * DAY);
    assert_eq!(r, Ok(UnstakePayout { amount_to_return: 900, fee: 100 }));
    assert_eq!(e.unstaked_at, 10 * DAY);
    assert_eq!(p.total_staked, 0);
    assert_eq!(u.total_amount, 0);
    // the user had no voting power before staking, so the weight stays
    assert_eq!(u.voting_power, 500);
}

#[test]
fn unstake_one_second_before_lockup_end_is_early() {
    let (cfg, mut p, mut u, mut e) = staked(1000, 30, 0);
    request_unstake_tokens(&mut e, 0, DAY).unwrap();
    let r = unstake_tokens(&cfg, &mut p, &mut u, &mut e, 0, 30 * DAY - 1);
    assert_eq!(r, Ok(UnstakePayout { amount_to_return: 900, fee: 100 }));
}

#[test]
fn late_unstake_returns_everything() {
    let (cfg, mut p, mut u, mut e) = staked(1000, 30, 0);
    request_unstake_tokens(&mut e, 0, 28 * DAY).unwrap();
    let r = unstake_tokens(&cfg, &mut p, &mut u, &mut e, 0, 30 * DAY);
    assert_eq!(r, Ok(UnstakePayout { amount_to_return: 1000, fee: 0 }));
}

#[test]
fn stake_unstake_round_trip_restores_totals_and_voting_power() {
    let cfg = config(100, 100);
    let mut p = pool();
    let mut u = UserStakeInfo::default();
    let mut first = UserStakesEntry::default();
    stake_tokens(&cfg, &mut p, &mut u, &mut first, addr(30), addr(31), 7, 2000, 90, 1).unwrap();
    let (p0, u0) = (p, u);
    let mut e = UserStakesEntry::default();
    stake_tokens(&cfg, &mut p, &mut u, &mut e, addr(30), addr(31), 7, 1000, 30, 10).unwrap();
    request_unstake_tokens(&mut e, 1, 30 * DAY).unwrap();
    let payout = unstake_tokens(&cfg, &mut p, &mut u, &mut e, 1, 32 * DAY).unwrap();
    assert_eq!(payout, UnstakePayout { amount_to_return: 1000, fee: 0 });
    assert_eq!(p.total_staked, p0.total_staked);
    assert_eq!(u.total_amount, u0.total_amount);
    assert_eq!(u.voting_power, u0.voting_power);
}

#[test]
fn pool_and_user_totals_move_together() {
    let cfg = config(100, 100);
    let mut p = pool();
    p.total_staked = 5000; // held by other users
    let mut u = UserStakeInfo::default();
    let mut e = UserStakesEntry::default();
    let others = |p: &StakingPool, u: &UserStakeInfo| p.total_staked - u.total_amount;
    stake_tokens(&cfg, &mut p, &mut u, &mut e, addr(30), addr(31), 7, 1000, 30, 0).unwrap();
    assert_eq!(others(&p, &u), 5000);
    claim_reward(&mut p, &mut u, &mut e, 10, 0, 30 * DAY).unwrap();
    assert_eq!(others(&p, &u), 5000);
    request_unstake_tokens(&mut e, 0, 31 * DAY).unwrap();
    unstake_tokens(&cfg, &mut p, &mut u, &mut e, 0, 32 * DAY).unwrap_err();
    unstake_tokens(&cfg, &mut p, &mut u, &mut e, 0, 33 * DAY).unwrap();
    assert_eq!(others(&p, &u), 5000);
    assert_eq!(p.total_staked, 5000);
}

#[test]
fn claim_refusals() {
    let (_cfg, p, u, e) = staked(1000, 30, 0);
    let check = |mut p: StakingPool, mut u: UserStakeInfo, mut e: UserStakesEntry, bal: u64, now: u64| {
        let before = (p, u, e);
        let r = claim_reward(&mut p, &mut u, &mut e, bal, 0, now);
        assert_eq!((p, u, e), before);
        r
    };
    assert_eq!(check(p, u, e, 0, 100 * DAY), Err(CustomError::StakingRewardInsufficientBalance));
    let mut no_amount = e;
    no_amount.amount = 0;
    assert_eq!(check(p, u, no_amount, 5, 100 * DAY), Err(CustomError::NoStakedTokens));
    let mut empty_pool = p;
    empty_pool.total_staked = 0;
    assert_eq!(check(empty_pool, u, e, 5, 100 * DAY), Err(CustomError::NoStakedTokens));
    assert_eq!(check(p, u, e, 5, 0), Err(CustomError::NothingToClaim));
    assert_eq!(check(p, u, e, 5, 30 * DAY - 1), Err(CustomError::StakingPeriodNotMet));
    let mut changed = p;
    set_reward_percentage(&mut changed, 50, 31, 500, 100, 90, 1000, 200, 180, 1500, 300, 360, 2000);
    assert_eq!(check(changed, u, e, 5, 100 * DAY), Err(CustomError::WrongStakingPackage));
    let mut zero_rate = p;
    set_reward_percentage(&mut zero_rate, 0, 30, 500, 100, 90, 1000, 200, 180, 1500, 300, 360, 2000);
    assert_eq!(check(zero_rate, u, e, 5, 100 * DAY), Err(CustomError::NothingToClaim));
}

#[test]
fn claim_pays_each_period_once() {
    let (_cfg, mut p, mut u, mut e) = staked(1000, 30, 0);
    // sixty days of a 30-day, 5% stake: two periods
    assert_eq!(claim_reward(&mut p, &mut u, &mut e, 1_000_000, 0, 60 * DAY), Ok(100));
    assert_eq!(e.current_period, 2);
    assert_eq!(p.reward_issued, 100);
    assert_eq!(u.reward_issued, 100);
    assert_eq!(claim_reward(&mut p, &mut u, &mut e, 1_000_000, 0, 60 * DAY), Err(CustomError::StakingPeriodNotMet));
    assert_eq!(claim_reward(&mut p, &mut u, &mut e, 1_000_000, 0, 90 * DAY - 1), Err(CustomError::StakingPeriodNotMet));
    assert_eq!(claim_reward(&mut p, &mut u, &mut e, 1_000_000, 0, 90 * DAY), Ok(50));
    assert_eq!(e.current_period, 3);
    assert_eq!(p.reward_issued, 150);
    assert_eq!(u.reward_issued, 150);
}

#[test]
fn claim_after_unstake_counts_until_unstake() {
    let (cfg, mut p, mut u, mut e) = staked(1000, 30, 0);
    let mut other = UserStakesEntry::default();
    let mut other_user = UserStakeInfo::default();
    stake_tokens(&cfg, &mut p, &mut other_user, &mut other, addr(40), addr(31), 7, 10, 30, 0).unwrap();
    request_unstake_tokens(&mut e, 0, 59 * DAY).unwrap();
    unstake_tokens(&cfg, &mut p, &mut u, &mut e, 0, 61 * DAY).unwrap();
    // two periods until the unstake on day 61, however late the claim
    let (p0, u0, e0) = (p, u, e);
    let mut copy = (p0, u0, e0);
    assert_eq!(claim_reward(&mut copy.0, &mut copy.1, &mut copy.2, 1_000_000, 0, 5000 * DAY), Ok(100));
    assert_eq!(claim_reward(&mut p, &mut u, &mut e, 1_000_000, 0, 1000 * DAY), Ok(100));
    assert_eq!((p, u, e), copy);
    assert_eq!(claim_reward(&mut p, &mut u, &mut e, 1_000_000, 0, 2000 * DAY), Err(CustomError::StakingPeriodNotMet));
}

#[test]
fn user_total_is_what_active_stakes_hold() {
    let cfg = config(100, 100);
    let mut p = pool();
    let mut u = UserStakeInfo::default();
    let mut entries = vec![UserStakesEntry::default(), UserStakesEntry::default(), UserStakesEntry::default()];
    let amounts = [300u64, 500, 700];
    for i in 0..3 {
        stake_tokens(&cfg, &mut p, &mut u, &mut entries[i], addr(30), addr(31), 7, amounts[i], 30, 0).unwrap();
    }
    let active = |es: &Vec<UserStakesEntry>| es.iter().filter(|e| e.unstaked_at == 0).map(|e| e.amount).sum::<u64>();
    assert_eq!(u.total_amount, active(&entries));
    request_unstake_tokens(&mut entries[1], 1, 31 * DAY).unwrap();
    unstake_tokens(&cfg, &mut p, &mut u, &mut entries[1], 1, 33 * DAY).unwrap();
    assert_eq!(u.total_amount, active(&entries));
    assert_eq!(u.total_amount, 1000);
    assert_eq!(p.total_staked, 1000);
}
