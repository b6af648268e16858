//! The `Trade` netting algebra.
//!
//! A trade moves the buyer's net outcome-token position by `+size` and the
//! seller's by `-size`, settling the cash legs at the agreed `buy_price`
//! and `sell_price`.  Against their existing opposite inventory — the
//! buyer's short-token balance `n_b` and the seller's long-token balance
//! `n_s` — the trade falls into one of four netting regimes, discriminated
//! by `(n_b >= size, n_s >= size)`.  `compute_trade` turns the regime into
//! an exact plan of burns, mints, escrow releases and escrow deposits; the
//! processor only carries the plan out.

use vstd::prelude::*;
use crate::error::BettingPoolError;

verus! {

/// The four netting regimes of a trade.
#[derive(Clone, Copy, PartialEq, Eq, Structural, Debug)]
pub enum TradeRegime {
    /// Both parties unwind opposite inventory: `n_b >= size, n_s >= size`.
    BothClose,
    /// Both parties flip sides: `n_b < size, n_s < size`.
    BothOpen,
    /// The buyer closes fully, the seller opens: `n_b >= size, n_s < size`.
    BuyerCloses,
    /// The buyer opens, the seller closes fully: `n_b < size, n_s >= size`.
    BuyerOpens,
}

/// The exact amounts a trade moves, all in unsigned 64-bit units.
///
/// Token flows: `buyer_burn` short tokens leave the buyer's short-token
/// account and `seller_burn` long tokens leave the seller's long-token
/// account; `buyer_mint` long tokens enter the buyer's long-token account
/// and `seller_mint` short tokens enter the seller's short-token account.
/// Cash flows: `buyer_release` leaves the short escrow for the buyer's
/// short-collateral account and `seller_release` leaves the long escrow for
/// the seller's long-collateral account; `buyer_deposit` moves from the
/// buyer's long-collateral account into the long escrow and
/// `seller_deposit` from the seller's short-collateral account into the
/// short escrow.
#[derive(Clone, Copy, PartialEq, Eq, Structural, Debug)]
pub struct TradePlan {
    /// The regime the trade fell into.
    pub regime: TradeRegime,
    /// Short tokens burned from the buyer.
    pub buyer_burn: u64,
    /// Long tokens burned from the seller.
    pub seller_burn: u64,
    /// Long tokens minted to the buyer.
    pub buyer_mint: u64,
    /// Short tokens minted to the seller.
    pub seller_mint: u64,
    /// Collateral released from the short escrow to the buyer.
    pub buyer_release: u64,
    /// Collateral released from the long escrow to the seller.
    pub seller_release: u64,
    /// Collateral deposited by the buyer into the long escrow.
    pub buyer_deposit: u64,
    /// Collateral deposited by the seller into the short escrow.
    pub seller_deposit: u64,
    /// The pool's circulation after the trade.
    pub new_circulation: u64,
}

/// The plan of a trade of `size` at `buy_price`/`sell_price`, against a
/// buyer holding `n_b` short tokens and a seller holding `n_s` long tokens,
/// on a pool with `circulation` outstanding pairs.
///
/// Fails with `ExpectedAmountMismatch` where a product of a quantity and a
/// price does not fit in 64 bits, and with `InvalidSupply` where the
/// circulation count cannot take the net change (a decrement below zero, or
/// an increment past the 64-bit range).  Products are checked before the
/// circulation is.
pub open spec fn spec_compute_trade(
    circulation: u64,
    size: u64,
    buy_price: u64,
    sell_price: u64,
    n_b: u64,
    n_s: u64,
) -> Result<TradePlan, BettingPoolError> {
    let n = size as int;
    if n_b >= size && n_s >= size {
        if n * buy_price > u64::MAX || n * sell_price > u64::MAX {
            Err(BettingPoolError::ExpectedAmountMismatch)
        } else if size > circulation {
            Err(BettingPoolError::InvalidSupply)
        } else {
            Ok(TradePlan {
                regime: TradeRegime::BothClose,
                buyer_burn: size,
                seller_burn: size,
                buyer_mint: 0,
                seller_mint: 0,
                buyer_release: (n * buy_price) as u64,
                seller_release: (n * sell_price) as u64,
                buyer_deposit: 0,
                seller_deposit: 0,
                new_circulation: (circulation - size) as u64,
            })
        }
    } else if n_b < size && n_s < size {
        if n_b * buy_price > u64::MAX || n_s * sell_price > u64::MAX
            || (n - n_b) * buy_price > u64::MAX || (n - n_s) * sell_price > u64::MAX {
            Err(BettingPoolError::ExpectedAmountMismatch)
        } else if n > n_b + n_s && circulation + (n - n_b - n_s) > u64::MAX {
            Err(BettingPoolError::InvalidSupply)
        } else if n <= n_b + n_s && n_b + n_s - n > circulation {
            Err(BettingPoolError::InvalidSupply)
        } else {
            Ok(TradePlan {
                regime: TradeRegime::BothOpen,
                buyer_burn: n_b,
                seller_burn: n_s,
                buyer_mint: (n - n_b) as u64,
                seller_mint: (n - n_s) as u64,
                buyer_release: (n_b * buy_price) as u64,
                seller_release: (n_s * sell_price) as u64,
                buyer_deposit: ((n - n_b) * buy_price) as u64,
                seller_deposit: ((n - n_s) * sell_price) as u64,
                new_circulation: (circulation + n - n_b - n_s) as u64,
            })
        }
    } else if n_b >= size {
        if n * buy_price > u64::MAX || n_s * sell_price > u64::MAX
            || (n - n_s) * sell_price > u64::MAX {
            Err(BettingPoolError::ExpectedAmountMismatch)
        } else if n_s > circulation {
            Err(BettingPoolError::InvalidSupply)
        } else {
            Ok(TradePlan {
                regime: TradeRegime::BuyerCloses,
                buyer_burn: size,
                seller_burn: n_s,
                buyer_mint: 0,
                seller_mint: (n - n_s) as u64,
                buyer_release: (n * buy_price) as u64,
                seller_release: (n_s * sell_price) as u64,
                buyer_deposit: 0,
                seller_deposit: ((n - n_s) * sell_price) as u64,
                new_circulation: (circulation - n_s) as u64,
            })
        }
    } else {
        if n_b * buy_price > u64::MAX || n * sell_price > u64::MAX
            || (n - n_b) * buy_price > u64::MAX {
            Err(BettingPoolError::ExpectedAmountMismatch)
        } else if n_b > circulation {
            Err(BettingPoolError::InvalidSupply)
        } else {
            Ok(TradePlan {
                regime: TradeRegime::BuyerOpens,
                buyer_burn: n_b,
                seller_burn: size,
                buyer_mint: (n - n_b) as u64,
                seller_mint: 0,
                buyer_release: (n_b * buy_price) as u64,
                seller_release: (n * sell_price) as u64,
                buyer_deposit: ((n - n_b) * buy_price) as u64,
                seller_deposit: 0,
                new_circulation: (circulation - n_b) as u64,
            })
        }
    }
}

/// Computes the plan of one trade.  See [`spec_compute_trade`] for the
/// regimes, the amounts and the failures.
pub fn compute_trade(
    circulation: u64,
    size: u64,
    buy_price: u64,
    sell_price: u64,
    n_b: u64,
    n_s: u64,
) -> (r: Result<TradePlan, BettingPoolError>)
    ensures
        r == spec_compute_trade(circulation, size, buy_price, sell_price, n_b, n_s),
{
    let n = size;
    if n_b >= n && n_s >= n {
        let buyer_release = match n.checked_mul(buy_price) {
            Some(x) => x,
            None => { return Err(BettingPoolError::ExpectedAmountMismatch); },
        };
        let seller_release = match n.checked_mul(sell_price) {
            Some(x) => x,
            None => { return Err(BettingPoolError::ExpectedAmountMismatch); },
        };
        if n > circulation {
            return Err(BettingPoolError::InvalidSupply);
        }
        Ok(TradePlan {
            regime: TradeRegime::BothClose,
            buyer_burn: n,
            seller_burn: n,
            buyer_mint: 0,
            seller_mint: 0,
            buyer_release,
            seller_release,
            buyer_deposit: 0,
            seller_deposit: 0,
            new_circulation: circulation - n,
        })
    } else if n_b < n && n_s < n {
        let buyer_release = match n_b.checked_mul(buy_price) {
            Some(x) => x,
            None => { return Err(BettingPoolError::ExpectedAmountMismatch); },
        };
        let seller_release = match n_s.checked_mul(sell_price) {
            Some(x) => x,
            None => { return Err(BettingPoolError::ExpectedAmountMismatch); },
        };
        let buyer_deposit = match (n - n_b).checked_mul(buy_price) {
            Some(x) => x,
            None => { return Err(BettingPoolError::ExpectedAmountMismatch); },
        };
        let seller_deposit = match (n - n_s).checked_mul(sell_price) {
            Some(x) => x,
            None => { return Err(BettingPoolError::ExpectedAmountMismatch); },
        };
        // n > n_b + n_s, stated without letting the sum overflow
        let new_circulation: u64 = if n - n_b > n_s {
            match circulation.checked_add((n - n_b) - n_s) {
                Some(x) => x,
                None => { return Err(BettingPoolError::InvalidSupply); },
            }
        } else {
            let down = n_s - (n - n_b);
            if down > circulation {
                return Err(BettingPoolError::InvalidSupply);
            }
            circulation - down
        };
        Ok(TradePlan {
            regime: TradeRegime::BothOpen,
            buyer_burn: n_b,
            seller_burn: n_s,
            buyer_mint: n - n_b,
            seller_mint: n - n_s,
            buyer_release,
            seller_release,
            buyer_deposit,
            seller_deposit,
            new_circulation,
        })
    } else if n_b >= n {
        let buyer_release = match n.checked_mul(buy_price) {
            Some(x) => x,
            None => { return Err(BettingPoolError::ExpectedAmountMismatch); },
        };
        let seller_release = match n_s.checked_mul(sell_price) {
            Some(x) => x,
            None => { return Err(BettingPoolError::ExpectedAmountMismatch); },
        };
        let seller_deposit = match (n - n_s).checked_mul(sell_price) {
            Some(x) => x,
            None => { return Err(BettingPoolError::ExpectedAmountMismatch); },
        };
        if n_s > circulation {
            return Err(BettingPoolError::InvalidSupply);
        }
        Ok(TradePlan {
            regime: TradeRegime::BuyerCloses,
            buyer_burn: n,
            seller_burn: n_s,
            buyer_mint: 0,
            seller_mint: n - n_s,
            buyer_release,
            seller_release,
            buyer_deposit: 0,
            seller_deposit,
            new_circulation: circulation - n_s,
        })
    } else {
        let buyer_release = match n_b.checked_mul(buy_price) {
            Some(x) => x,
            None => { return Err(BettingPoolError::ExpectedAmountMismatch); },
        };
        let seller_release = match n.checked_mul(sell_price) {
            Some(x) => x,
            None => { return Err(BettingPoolError::ExpectedAmountMismatch); },
        };
        let buyer_deposit = match (n - n_b).checked_mul(buy_price) {
            Some(x) => x,
            None => { return Err(BettingPoolError::ExpectedAmountMismatch); },
        };
        if n_b > circulation {
            return Err(BettingPoolError::InvalidSupply);
        }
        Ok(TradePlan {
            regime: TradeRegime::BuyerOpens,
            buyer_burn: n_b,
            seller_burn: n,
            buyer_mint: n - n_b,
            seller_mint: 0,
            buyer_release,
            seller_release,
            buyer_deposit,
            seller_deposit: 0,
            new_circulation: circulation - n_b,
        })
    }
}

} // verus!
