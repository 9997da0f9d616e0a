//! Private-sale vesting: tokens locked for ninety days, then claimed once.

use vstd::prelude::*;

use crate::Address;

verus! {

/// Ninety days, in seconds.
pub const NINETY_DAYS: i64 = 90 * 24 * 3600;

/// A private-sale investor's locked tokens.
#[derive(Clone, Copy, Debug, PartialEq, Eq)]
pub struct VestingAccount {
    pub investor: Address,
    pub locked_amount: u64,
    pub start_time: i64,
    pub claimed: bool,
}

/// Emitted when a vesting account is set up.
#[derive(Clone, Copy, Debug, PartialEq, Eq)]
pub struct VestingInitializedEvent {
    pub investor: Address,
    pub locked_amount: u64,
    pub start_time: i64,
}

/// Emitted when an investor deposits funds into the sale vault.
#[derive(Clone, Copy, Debug, PartialEq, Eq)]
pub struct FundsDepositedEvent {
    pub investor: Address,
    pub deposit_amount: u64,
}

/// Emitted when an investor claims vested tokens.
#[derive(Clone, Copy, Debug, PartialEq, Eq)]
pub struct TokensClaimedEvent {
    pub investor: Address,
    pub claimed_amount: u64,
    pub claim_time: i64,
}

/// Refusals of the vesting instructions.
#[derive(Clone, Copy, Debug, PartialEq, Eq)]
pub enum VestingError {
    /// Vesting period is not yet complete.
    VestingPeriodNotCompleted,
    /// Tokens have already been claimed.
    AlreadyClaimed,
    /// Insufficient funds in vesting account.
    InsufficientFunds,
}

/// Why a claim is refused, if it is.
pub open spec fn claim_tokens_error(vesting: VestingAccount, now: i64) -> Option<VestingError> {
    if now < vesting.start_time + NINETY_DAYS {
        Some(VestingError::VestingPeriodNotCompleted)
    } else if vesting.claimed {
        Some(VestingError::AlreadyClaimed)
    } else if vesting.locked_amount == 0 {
        Some(VestingError::InsufficientFunds)
    } else {
        None
    }
}

/// What claim_tokens does: its result and the vesting account after it.
pub open spec fn claim_tokens_post(
    vesting0: VestingAccount,
    vesting1: VestingAccount,
    now: i64,
    r: Result<TokensClaimedEvent, VestingError>,
) -> bool {
    &&& (r is Err <==> claim_tokens_error(vesting0, now) is Some)
    &&& (r matches Err(e) ==> Some(e) == claim_tokens_error(vesting0, now) && vesting1 == vesting0)
    &&& (r matches Ok(event) ==> {
        &&& vesting1 == (VestingAccount { claimed: true, ..vesting0 })
        &&& event == (TokensClaimedEvent {
            investor: vesting0.investor,
            claimed_amount: vesting0.locked_amount,
            claim_time: now,
        })
    })
}

/// Locks `locked_amount` for `investor` from `now` on.
pub fn initialize_vesting(investor: Address, locked_amount: u64, now: i64) -> (r: (
    VestingAccount,
    VestingInitializedEvent,
))
    ensures
        r.0 == (VestingAccount { investor, locked_amount, start_time: now, claimed: false }),
        r.1 == (VestingInitializedEvent { investor, locked_amount, start_time: now }),
{
    let vesting = VestingAccount { investor, locked_amount, start_time: now, claimed: false };
    (vesting, VestingInitializedEvent { investor, locked_amount, start_time: now })
}

/// Records a deposit of `deposit_amount` by `investor`; the caller moves
/// the funds from the investor's account into the sale vault.
pub fn deposit_funds(investor: Address, deposit_amount: u64) -> (r: FundsDepositedEvent)
    ensures
        r == (FundsDepositedEvent { investor, deposit_amount }),
{
    FundsDepositedEvent { investor, deposit_amount }
}

/// Claims at `now` the vested tokens, once ninety days have passed since the
/// start of vesting. A vesting account is claimed once.
///
/// On success the caller moves the locked amount (`claimed_amount`) of sale
/// tokens from the vault to the investor. On a refusal nothing changes.
pub fn claim_tokens(vesting: &mut VestingAccount, now: i64) -> (r: Result<
    TokensClaimedEvent,
    VestingError,
>)
    requires
        old(vesting).start_time + NINETY_DAYS <= i64::MAX,
    ensures
        claim_tokens_post(*old(vesting), *final(vesting), now, r),
{
    if now < vesting.start_time + NINETY_DAYS {
        return Err(VestingError::VestingPeriodNotCompleted);
    }
    if vesting.claimed {
        return Err(VestingError::AlreadyClaimed);
    }
    if vesting.locked_amount == 0 {
        return Err(VestingError::InsufficientFunds);
    }
    vesting.claimed = true;
    Ok(
        TokensClaimedEvent {
            investor: vesting.investor,
            claimed_amount: vesting.locked_amount,
            claim_time: now,
        },
    )
}

} // verus!
