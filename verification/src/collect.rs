//! The `Collect` payout math.
//!
//! Once the pool is settled, a holder of winning outcome tokens redeems
//! them for a pro-rata share of both escrows: `reward` winning tokens out
//! of `circulation` outstanding pairs buy `reward * escrow / circulation`
//! of each escrow, with integer truncation.  Both of the collector's
//! outcome-token balances are burned, the losing side's with them.  The
//! payout uses the escrow balances at the time of the call, so earlier
//! collectors receive proportionally more of any residual dust.

use vstd::prelude::*;
use crate::error::BettingPoolError;

verus! {

/// The exact amounts one `Collect` moves.
///
/// `long_payout` leaves the long escrow for the collector's long-collateral
/// account and `short_payout` leaves the short escrow for the collector's
/// short-collateral account; `burn_long` and `burn_short` are the
/// collector's entire outcome-token balances, burned on both sides.  A
/// collector without winning tokens gets an all-zero plan: the operation
/// is a no-op.
#[derive(Clone, Copy, PartialEq, Eq, Structural, Debug)]
pub struct CollectPlan {
    /// Whether the winning balance was the long-side one.
    pub winner_long: bool,
    /// The collector's winning-token balance.
    pub reward: u64,
    /// Collateral released from the long escrow to the collector.
    pub long_payout: u64,
    /// Collateral released from the short escrow to the collector.
    pub short_payout: u64,
    /// Long tokens burned from the collector.
    pub burn_long: u64,
    /// Short tokens burned from the collector.
    pub burn_short: u64,
    /// The pool's circulation after the collection.
    pub new_circulation: u64,
}

/// The plan of one collection, for a collector whose long- and short-token
/// balances are `long_balance` and `short_balance`, where `winner_long` and
/// `winner_short` say which of the two accounts is denominated in the
/// winning mint, and the escrows hold `long_escrow_amount` and
/// `short_escrow_amount` out of `circulation` outstanding pairs.
///
/// Unless exactly one side matches the winning mint the collector's
/// holdings are not redeemable: `TokenNotFoundInPool`.  A zero winning
/// balance is a no-op.  Otherwise a payout product past 64 bits fails with
/// `ExpectedAmountMismatch`, and a reward above the circulation with
/// `InvalidSupply`; products are checked before the circulation is.
pub open spec fn spec_compute_collect(
    circulation: u64,
    winner_long: bool,
    winner_short: bool,
    long_balance: u64,
    short_balance: u64,
    long_escrow_amount: u64,
    short_escrow_amount: u64,
) -> Result<CollectPlan, BettingPoolError> {
    if winner_long == winner_short {
        Err(BettingPoolError::TokenNotFoundInPool)
    } else {
        let reward: u64 = if winner_long { long_balance } else { short_balance };
        if reward == 0 {
            Ok(CollectPlan {
                winner_long,
                reward: 0,
                long_payout: 0,
                short_payout: 0,
                burn_long: 0,
                burn_short: 0,
                new_circulation: circulation,
            })
        } else if reward * long_escrow_amount > u64::MAX
            || reward * short_escrow_amount > u64::MAX {
            Err(BettingPoolError::ExpectedAmountMismatch)
        } else if reward > circulation {
            Err(BettingPoolError::InvalidSupply)
        } else {
            Ok(CollectPlan {
                winner_long,
                reward,
                long_payout: ((reward * long_escrow_amount) / (circulation as int)) as u64,
                short_payout: ((reward * short_escrow_amount) / (circulation as int)) as u64,
                burn_long: long_balance,
                burn_short: short_balance,
                new_circulation: (circulation - reward) as u64,
            })
        }
    }
}

/// Computes the plan of one collection.  See [`spec_compute_collect`] for
/// the payout formula and the failures.
pub fn compute_collect(
    circulation: u64,
    winner_long: bool,
    winner_short: bool,
    long_balance: u64,
    short_balance: u64,
    long_escrow_amount: u64,
    short_escrow_amount: u64,
) -> (r: Result<CollectPlan, BettingPoolError>)
    ensures
        r == spec_compute_collect(
            circulation,
            winner_long,
            winner_short,
            long_balance,
            short_balance,
            long_escrow_amount,
            short_escrow_amount,
        ),
{
    if winner_long == winner_short {
        return Err(BettingPoolError::TokenNotFoundInPool);
    }
    let reward: u64 = if winner_long { long_balance } else { short_balance };
    if reward == 0 {
        return Ok(CollectPlan {
            winner_long,
            reward: 0,
            long_payout: 0,
            short_payout: 0,
            burn_long: 0,
            burn_short: 0,
            new_circulation: circulation,
        });
    }
    let long_product = match reward.checked_mul(long_escrow_amount) {
        Some(x) => x,
        None => { return Err(BettingPoolError::ExpectedAmountMismatch); },
    };
    let short_product = match reward.checked_mul(short_escrow_amount) {
        Some(x) => x,
        None => { return Err(BettingPoolError::ExpectedAmountMismatch); },
    };
    if reward > circulation {
        return Err(BettingPoolError::InvalidSupply);
    }
    Ok(CollectPlan {
        winner_long,
        reward,
        long_payout: long_product / circulation,
        short_payout: short_product / circulation,
        burn_long: long_balance,
        burn_short: short_balance,
        new_circulation: circulation - reward,
    })
}

} // verus!
