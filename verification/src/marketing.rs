//! Marketing fund distribution: 42.5% to each of two marketing wallets and
//! 15% burned.

use vstd::prelude::*;

use crate::{per_mille, Address, Config, ConfigAccount};

verus! {

/// Emitted when marketing funds are distributed.
#[derive(Clone, Copy, Debug, PartialEq, Eq)]
pub struct MarketingFundDistributionEvent {
    pub marketing_wallet_1_amount: u64,
    pub marketing_wallet_2_amount: u64,
    pub death_wallet_amount: u64,
    pub timestamp: i64,
}

/// Splits `total_amount` at `now`: 42.5% to marketing wallet 1, 42.5% to
/// marketing wallet 2 and 15% burned, each rounded down.
///
/// The caller transfers the two wallet amounts from the source account and
/// burns `death_wallet_amount` from it.
pub fn distribute_marketing_funds(total_amount: u64, now: i64) -> (r:
    MarketingFundDistributionEvent)
    requires
        total_amount * 425 <= u64::MAX,
    ensures
        r.marketing_wallet_1_amount == per_mille(total_amount as int, 425),
        r.marketing_wallet_2_amount == per_mille(total_amount as int, 425),
        r.death_wallet_amount == per_mille(total_amount as int, 150),
        r.timestamp == now,
{
    let total = total_amount;
    let amount_wallet1 = (total * 425) / 1000;
    let amount_wallet2 = (total * 425) / 1000;
    let amount_death = (total * 150) / 1000;
    MarketingFundDistributionEvent {
        marketing_wallet_1_amount: amount_wallet1,
        marketing_wallet_2_amount: amount_wallet2,
        death_wallet_amount: amount_death,
        timestamp: now,
    }
}

/// Replaces the two marketing wallets; every other setting is kept.
pub fn change_marketing_wallet(
    config: &mut ConfigAccount,
    marketing_wallet_1: Address,
    marketing_wallet_2: Address,
)
    ensures
        final(config).config == (Config {
            marketing_wallet_1,
            marketing_wallet_2,
            ..old(config).config
        }),
{
    config.config.marketing_wallet_1 = marketing_wallet_1;
    config.config.marketing_wallet_2 = marketing_wallet_2;
}

} // verus!
