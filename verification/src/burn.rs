//! Buyback and burn: the burn wallet's whole balance is burned and counted.

use vstd::prelude::*;

use crate::{Config, ConfigAccount};

pub use crate::errors::CustomError;

verus! {

/// Emitted when tokens are burned.
#[derive(Clone, Copy, Debug, PartialEq, Eq)]
pub struct BuybackBurnEvent {
    pub tokens_bought: u64,
    pub new_total_burned: u64,
    pub timestamp: u64,
}

/// What execute_buyback does: its result and the configuration after it.
pub open spec fn execute_buyback_post(
    config0: ConfigAccount,
    config1: ConfigAccount,
    burn_wallet_balance: u64,
    now: u64,
    r: Result<BuybackBurnEvent, CustomError>,
) -> bool {
    &&& (r is Err <==> burn_wallet_balance == 0)
    &&& (r matches Err(e) ==> e == CustomError::NoTokensToBuyback && config1 == config0)
    &&& (r matches Ok(event) ==> {
        &&& config1.config.total_burned == config0.config.total_burned + burn_wallet_balance
        &&& config1.config == (Config {
            total_burned: (config0.config.total_burned + burn_wallet_balance) as u64,
            ..config0.config
        })
        &&& event == (BuybackBurnEvent {
            tokens_bought: burn_wallet_balance,
            new_total_burned: config1.config.total_burned,
            timestamp: now,
        })
    })
}

/// Burns at `now` the whole balance `burn_wallet_balance` of the burn
/// wallet and adds it to the burn tracker.
///
/// On success the caller burns `tokens_bought` tokens of the burn wallet.
/// An empty burn wallet is refused, and then nothing changes.
pub fn execute_buyback(config: &mut ConfigAccount, burn_wallet_balance: u64, now: u64) -> (r:
    Result<BuybackBurnEvent, CustomError>)
    requires
        burn_wallet_balance > 0 ==> old(config).config.total_burned + burn_wallet_balance
            <= u64::MAX,
    ensures
        execute_buyback_post(
            *old(config),
            *final(config),
            burn_wallet_balance,
            now,
            r,
        ),

{
    let tokens_to_buy = burn_wallet_balance;
    if tokens_to_buy == 0 {
        return Err(CustomError::NoTokensToBuyback);
    }
    config.config.total_burned = config.config.total_burned + tokens_to_buy;
    Ok(
        BuybackBurnEvent {
            tokens_bought: tokens_to_buy,
            new_total_burned: config.config.total_burned,
            timestamp: now,
        },
    )
}

} // verus!
