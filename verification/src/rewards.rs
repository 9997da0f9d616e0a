//! Treasury releases: the reward classifications, the donation
//! classifications and the staking rewards, each a fixed share of the
//! released amount.

use vstd::prelude::*;

use crate::per_mille;

verus! {

/// Amounts a reward release sends to the four reward wallets.
#[derive(Clone, Copy, Debug, PartialEq, Eq)]
pub struct RewardsRelease {
    pub monthly_top_tier: u64,
    pub monthly_charity_lottery: u64,
    pub annual_top_tier: u64,
    pub annual_charity_lottery: u64,
}

/// Amounts a donation release sends to the four cause wallets and the CHAR
/// funds wallet.
#[derive(Clone, Copy, Debug, PartialEq, Eq)]
pub struct DonationsRelease {
    pub monthly_one_time_causes: u64,
    pub monthly_infinite_impact_causes: u64,
    pub annual_one_time_causes: u64,
    pub annual_infinite_impact_causes: u64,
    pub char_fund: u64,
}

/// The donation ecosystem's 75% of a release.
pub open spec fn donation_total(total: int) -> int {
    per_mille(total, 750)
}

/// The reward system's 20% of the donation ecosystem.
pub open spec fn reward_system(total: int) -> int {
    per_mille(donation_total(total), 200)
}

/// Each of the monthly and annual reward classifications: 50% of the
/// reward system.
pub open spec fn reward_classification(total: int) -> int {
    per_mille(reward_system(total), 500)
}

/// Each reward wallet's 50% of its classification.
pub open spec fn reward_wallet_share(total: int) -> int {
    per_mille(reward_classification(total), 500)
}

/// The donation system's 80% of the donation ecosystem.
pub open spec fn donation_system(total: int) -> int {
    per_mille(donation_total(total), 800)
}

/// The monthly donation fund: 80% of the donation system.
pub open spec fn monthly_donation_fund(total: int) -> int {
    per_mille(donation_system(total), 800)
}

/// The annual donation fund: 10% of the donation system.
pub open spec fn annual_donation_fund(total: int) -> int {
    per_mille(donation_system(total), 100)
}

/// The CHAR funds' 10% of the donation system.
pub open spec fn char_fund(total: int) -> int {
    per_mille(donation_system(total), 100)
}

/// The staking rewards' 15% of a release.
pub open spec fn staking_share(total: int) -> int {
    per_mille(total, 150)
}

/// A share of at most the whole is at most the amount, and rounding down
/// never rounds up.
pub proof fn lemma_per_mille_bounds(amount: int, rate: int)
    requires
        0 <= amount,
        0 <= rate <= 1000,
    ensures
        0 <= per_mille(amount, rate) <= amount,
        per_mille(amount, rate) * 1000 <= amount * rate,
{
    assert(0 <= amount * rate <= amount * 1000) by (nonlinear_arith)
        requires
            0 <= amount,
            0 <= rate <= 1000,
    ;
}

/// Splits a release of `total_amount` over the reward system: 75% of it is
/// the donation ecosystem, 20% of that the reward system, split evenly into
/// a monthly and an annual classification, each split evenly between its
/// top-tier and charity-lottery wallets. Every step rounds down.
///
/// The caller transfers each amount from the treasury to its wallet.
pub fn release_rewards(total_amount: u64) -> (r: RewardsRelease)
    requires
        total_amount * 750 <= u64::MAX,
    ensures
        r.monthly_top_tier == reward_wallet_share(total_amount as int),
        r.monthly_charity_lottery == reward_wallet_share(total_amount as int),
        r.annual_top_tier == reward_wallet_share(total_amount as int),
        r.annual_charity_lottery == reward_wallet_share(total_amount as int),
{
    proof {
        lemma_per_mille_bounds(total_amount as int, 750);
        lemma_per_mille_bounds(donation_total(total_amount as int), 200);
        lemma_per_mille_bounds(reward_system(total_amount as int), 500);
        lemma_per_mille_bounds(reward_classification(total_amount as int), 500);
    }
    let donation_total = total_amount * 750 / 1000;
    let reward_system = donation_total * 200 / 1000;
    let monthly_reward_classification = reward_system * 500 / 1000;
    let monthly_top_tier = monthly_reward_classification * 500 / 1000;
    let monthly_charity_lottery = monthly_reward_classification * 500 / 1000;
    let annual_reward_classification = reward_system * 500 / 1000;
    let annual_top_tier = annual_reward_classification * 500 / 1000;
    let annual_charity_lottery = annual_reward_classification * 500 / 1000;
    RewardsRelease { monthly_top_tier, monthly_charity_lottery, annual_top_tier, annual_charity_lottery }
}

/// Splits a release of `total_amount` over the donation system: 75% of it
/// is the donation ecosystem and 80% of that the donation system, of which
/// 80% is the monthly fund, 10% the annual fund and 10% the CHAR funds; each
/// fund is split evenly between its one-time and infinite-impact causes.
/// Every step rounds down.
///
/// The caller transfers each amount from the treasury to its wallet.
pub fn release_donations(total_amount: u64) -> (r: DonationsRelease)
    requires
        total_amount * 750 <= u64::MAX,
    ensures
        r.monthly_one_time_causes == per_mille(monthly_donation_fund(total_amount as int), 500),
        r.monthly_infinite_impact_causes == per_mille(
            monthly_donation_fund(total_amount as int),
            500,
        ),
        r.annual_one_time_causes == per_mille(annual_donation_fund(total_amount as int), 500),
        r.annual_infinite_impact_causes == per_mille(
            annual_donation_fund(total_amount as int),
            500,
        ),
        r.char_fund == char_fund(total_amount as int),
{
    proof {
        lemma_per_mille_bounds(total_amount as int, 750);
        lemma_per_mille_bounds(donation_total(total_amount as int), 800);
        lemma_per_mille_bounds(donation_system(total_amount as int), 800);
        lemma_per_mille_bounds(donation_system(total_amount as int), 100);
        lemma_per_mille_bounds(monthly_donation_fund(total_amount as int), 500);
        lemma_per_mille_bounds(annual_donation_fund(total_amount as int), 500);
    }
    let donation_total = total_amount * 750 / 1000;
    let donation_system = donation_total * 800 / 1000;
    let monthly_donation_fund = donation_system * 800 / 1000;
    let annual_donation_fund = donation_system * 100 / 1000;
    let char_fund = donation_system * 100 / 1000;
    let monthly_one_time_causes = monthly_donation_fund * 500 / 1000;
    let monthly_infinite_impact_causes = monthly_donation_fund * 500 / 1000;
    let annual_one_time_causes = annual_donation_fund * 500 / 1000;
    let annual_infinite_impact_causes = annual_donation_fund * 500 / 1000;
    DonationsRelease {
        monthly_one_time_causes,
        monthly_infinite_impact_causes,
        annual_one_time_causes,
        annual_infinite_impact_causes,
        char_fund,
    }
}

/// The staking rewards' share of a release of `total_amount`: 15%, rounded
/// down. The caller transfers it from the treasury to the staking reward
/// account.
pub fn release_staking_char_funds(total_amount: u64) -> (r: u64)
    requires
        total_amount * 150 <= u64::MAX,
    ensures
        r == staking_share(total_amount as int),
{
    total_amount * 150 / 1000
}

} // verus!
