//! The `Collect` payout math: pro-rata shares, truncation, and no-ops.

use betting_pool::collect::{compute_collect, CollectPlan};
use betting_pool::BettingPoolError;

#[test]
fn winner_takes_pro_rata_share() {
    // Carol holds all 10 winning long tokens; both escrows hold 100.
    let plan = compute_collect(10, true, false, 10, 0, 100, 100).unwrap();
    assert_eq!(
        plan,
        CollectPlan {
            winner_long: true,
            reward: 10,
            long_payout: 100,
            short_payout: 100,
            burn_long: 10,
            burn_short: 0,
            new_circulation: 0,
        }
    );
}

#[test]
fn loser_with_no_winning_tokens_is_a_no_op() {
    // Alice holds 5 short tokens but long won: her winning balance is 0.
    let plan = compute_collect(10, true, false, 0, 5, 100, 100).unwrap();
    assert_eq!(plan.reward, 0);
    assert_eq!(plan.long_payout, 0);
    assert_eq!(plan.short_payout, 0);
    assert_eq!(plan.burn_long, 0);
    assert_eq!(plan.burn_short, 0);
    assert_eq!(plan.new_circulation, 10);
}

#[test]
fn collecting_twice_is_a_no_op() {
    // After the first collection burned both balances, a second call by
    // the same collector finds a zero winning balance.
    let first = compute_collect(10, true, false, 4, 3, 100, 100).unwrap();
    assert_eq!(first.reward, 4);
    assert_eq!(first.burn_long, 4);
    assert_eq!(first.burn_short, 3);
    let second = compute_collect(
        first.new_circulation,
        true,
        false,
        4 - first.burn_long,
        3 - first.burn_short,
        100 - first.long_payout,
        100 - first.short_payout,
    )
    .unwrap();
    assert_eq!(second.reward, 0);
    assert_eq!(second.long_payout, 0);
    assert_eq!(second.burn_long, 0);
    assert_eq!(second.new_circulation, first.new_circulation);
}

#[test]
fn ambiguous_winner_is_rejected() {
    assert_eq!(
        compute_collect(10, true, true, 5, 5, 100, 100),
        Err(BettingPoolError::TokenNotFoundInPool)
    );
    assert_eq!(
        compute_collect(10, false, false, 5, 5, 100, 100),
        Err(BettingPoolError::TokenNotFoundInPool)
    );
}

#[test]
fn truncation_dust_flows_to_later_collectors() {
    // Escrow 10, circulation 3, three collectors of one token each:
    // payouts 3, 3 and 4 sum exactly to the escrow.
    let mut escrow: u64 = 10;
    let mut circulation: u64 = 3;
    let mut total: u64 = 0;
    for _ in 0..3 {
        let plan = compute_collect(circulation, true, false, 1, 0, escrow, 0).unwrap();
        escrow -= plan.long_payout;
        circulation = plan.new_circulation;
        total += plan.long_payout;
    }
    assert_eq!(total, 10);
    assert_eq!(escrow, 0);
    assert_eq!(circulation, 0);
}

#[test]
fn payout_overflow_is_rejected() {
    let big: u64 = 1 << 40;
    assert_eq!(
        compute_collect(big, true, false, big, 0, big, 0),
        Err(BettingPoolError::ExpectedAmountMismatch)
    );
}

#[test]
fn reward_past_circulation_is_rejected() {
    assert_eq!(
        compute_collect(3, true, false, 5, 0, 10, 10),
        Err(BettingPoolError::InvalidSupply)
    );
}
