//! The market model and the laws the pool obeys.
//!
//! The model tracks the quantities a sequence of operations moves: the
//! pool's circulation count, the two outcome-token supplies, and the two
//! escrow balances.  The laws are proved over [`crate::trade::spec_compute_trade`]
//! and [`crate::collect::spec_compute_collect`], the very functions the
//! processors' contracts are stated with.

use vstd::prelude::*;
use vstd::arithmetic::div_mod::{
    lemma_div_is_ordered, lemma_div_multiples_vanish, lemma_div_pos_is_pos,
};
use vstd::arithmetic::mul::lemma_mul_inequality;
use crate::accounts::LoadedAccount;
use crate::collect::{CollectPlan, spec_compute_collect};
use crate::error::BettingPoolError;
use crate::keys::Pubkey;
use crate::processor::{spec_process_settle, spec_process_trade};
use crate::state::BettingPool;
use crate::trade::spec_compute_trade;

verus! {

/// The observable quantities of one market.
pub struct MarketModel {
    /// The pool's bookkeeping count of outstanding long/short pairs.
    pub circulation: int,
    /// The total minted supply of the long outcome token.
    pub long_supply: int,
    /// The total minted supply of the short outcome token.
    pub short_supply: int,
    /// The balance of the long-side escrow account.
    pub long_escrow: int,
    /// The balance of the short-side escrow account.
    pub short_escrow: int,
}

/// One trade as the market sees it: the agreed size and prices, and the
/// two balances that pick the netting regime — the buyer's short-token
/// balance and the seller's long-token balance at trade time.
pub struct TradeEvent {
    /// The number of outcome-token pairs the trade moves.
    pub size: u64,
    /// The buyer-side price per unit.
    pub buy_price: u64,
    /// The seller-side price per unit.
    pub sell_price: u64,
    /// The buyer's short-token balance, the inventory it can close.
    pub buyer_short: u64,
    /// The seller's long-token balance, the inventory it can close.
    pub seller_long: u64,
}

/// The market as `Initialize` leaves it: nothing minted, nothing escrowed.
pub open spec fn market_init() -> MarketModel {
    MarketModel { circulation: 0, long_supply: 0, short_supply: 0, long_escrow: 0, short_escrow: 0 }
}

/// An event the host could deliver: neither party holds more inventory
/// than the side's minted supply.
pub open spec fn event_feasible(m: MarketModel, e: TradeEvent) -> bool {
    e.buyer_short <= m.short_supply && e.seller_long <= m.long_supply
}

/// Supply conservation: the long supply, the short supply and the pool's
/// circulation count are one number, within the 64-bit range.
pub open spec fn conservation(m: MarketModel) -> bool {
    m.long_supply == m.circulation && m.short_supply == m.circulation && 0 <= m.circulation
        <= u64::MAX
}

/// Escrow accounting at a uniform price: each escrow holds exactly the
/// price of every open position on its side, `price * circulation`.
pub open spec fn escrow_accounting(m: MarketModel, price: u64) -> bool {
    m.long_escrow == price * m.circulation && m.short_escrow == price * m.circulation
}

/// The market after one trade: the plan's burns, mints, releases and
/// deposits applied.  A trade the pool refuses moves nothing.
pub open spec fn trade_step(m: MarketModel, e: TradeEvent) -> MarketModel {
    match spec_compute_trade(
        m.circulation as u64,
        e.size,
        e.buy_price,
        e.sell_price,
        e.buyer_short,
        e.seller_long,
    ) {
        Err(_) => m,
        Ok(plan) => MarketModel {
            circulation: plan.new_circulation as int,
            long_supply: m.long_supply - plan.seller_burn + plan.buyer_mint,
            short_supply: m.short_supply - plan.buyer_burn + plan.seller_mint,
            long_escrow: m.long_escrow - plan.seller_release + plan.buyer_deposit,
            short_escrow: m.short_escrow - plan.buyer_release + plan.seller_deposit,
        },
    }
}

/// The market after a sequence of trades, applied in order.
pub open spec fn apply_trades(m: MarketModel, events: Seq<TradeEvent>) -> MarketModel
    decreases events.len(),
{
    if events.len() == 0 {
        m
    } else {
        apply_trades(trade_step(m, events[0]), events.subrange(1, events.len() as int))
    }
}

/// One trade preserves supply conservation: however the four netting
/// regimes burn and mint, the two supplies move together and land exactly
/// on the new circulation count.
pub proof fn lemma_trade_step_conservation(m: MarketModel, e: TradeEvent)
    requires
        conservation(m),
    ensures
        conservation(trade_step(m, e)),
{
}

/// Any sequence of trades on a conserving market leaves it conserving.
pub proof fn lemma_trades_preserve_conservation(m: MarketModel, events: Seq<TradeEvent>)
    requires
        conservation(m),
    ensures
        conservation(apply_trades(m, events)),
    decreases events.len(),
{
    if events.len() > 0 {
        lemma_trade_step_conservation(m, events[0]);
        lemma_trades_preserve_conservation(
            trade_step(m, events[0]),
            events.subrange(1, events.len() as int),
        );
    }
}

/// After any sequence of trades on a freshly initialized pool, the long
/// supply, the short supply and the circulation count are one number.
pub proof fn lemma_trade_sequence_conservation(events: Seq<TradeEvent>)
    ensures
        conservation(apply_trades(market_init(), events)),
{
    lemma_trades_preserve_conservation(market_init(), events);
}

/// One trade at a uniform price preserves escrow accounting: each escrow
/// moves by the price of exactly the positions the trade opened or closed
/// on its side.
pub proof fn lemma_trade_step_escrow_accounting(m: MarketModel, e: TradeEvent, price: u64)
    requires
        conservation(m),
        escrow_accounting(m, price),
        e.buy_price == price,
        e.sell_price == price,
    ensures
        escrow_accounting(trade_step(m, e), price),
{
    let c = m.circulation as u64;
    match spec_compute_trade(c, e.size, price, price, e.buyer_short, e.seller_long) {
        Err(_) => {},
        Ok(plan) => {
            let n = e.size as int;
            let n_b = e.buyer_short as int;
            let n_s = e.seller_long as int;
            let p = price as int;
            assert(p * (c - n) == p * (c as int) - p * n) by (nonlinear_arith);
            assert(p * (c + n - n_b - n_s) == p * (c as int) - p * n_b - p * n_s + p * n) by (
            nonlinear_arith);
            assert(p * (c - n_s) == p * (c as int) - p * n_s) by (nonlinear_arith);
            assert(p * (c - n_b) == p * (c as int) - p * n_b) by (nonlinear_arith);
            assert((n - n_b) * p == n * p - n_b * p) by (nonlinear_arith);
            assert((n - n_s) * p == n * p - n_s * p) by (nonlinear_arith);
            assert(n * p == p * n) by (nonlinear_arith);
            assert(n_b * p == p * n_b) by (nonlinear_arith);
            assert(n_s * p == p * n_s) by (nonlinear_arith);
            assert(p * plan.new_circulation == p * (c as int) - p * (c as int)
                + p * plan.new_circulation);
        },
    }
}

/// Any sequence of trades at one price keeps each escrow holding exactly
/// `price * circulation`: the sum, over the open positions of its side, of
/// the price each was opened at.
pub proof fn lemma_trades_preserve_escrow_accounting(
    m: MarketModel,
    events: Seq<TradeEvent>,
    price: u64,
)
    requires
        conservation(m),
        escrow_accounting(m, price),
        forall|i: int|
            0 <= i < events.len() ==> #[trigger] events[i].buy_price == price
                && events[i].sell_price == price,
    ensures
        escrow_accounting(apply_trades(m, events), price),
    decreases events.len(),
{
    if events.len() > 0 {
        lemma_trade_step_conservation(m, events[0]);
        lemma_trade_step_escrow_accounting(m, events[0], price);
        lemma_trades_preserve_escrow_accounting(
            trade_step(m, events[0]),
            events.subrange(1, events.len() as int),
            price,
        );
    }
}

/// After any sequence of trades at one uniform price on a freshly
/// initialized pool, each escrow holds exactly `price * circulation`: the
/// sum, over the open positions of its side, of the price each position
/// was opened at.
pub proof fn lemma_trade_sequence_escrow_accounting(events: Seq<TradeEvent>, price: u64)
    requires
        forall|i: int|
            0 <= i < events.len() ==> #[trigger] events[i].buy_price == price
                && events[i].sell_price == price,
    ensures
        escrow_accounting(apply_trades(market_init(), events), price),
{
    lemma_trades_preserve_escrow_accounting(market_init(), events, price);
}

/// A feasible trade on a conserving market never fails on a supply
/// decrement: the only supply failure left is a circulation count past the
/// 64-bit range, which only the both-open regime can ask for.
pub proof fn lemma_trade_step_no_supply_underflow(m: MarketModel, e: TradeEvent)
    requires
        conservation(m),
        event_feasible(m, e),
    ensures
        spec_compute_trade(
            m.circulation as u64,
            e.size,
            e.buy_price,
            e.sell_price,
            e.buyer_short,
            e.seller_long,
        ) == Err::<crate::trade::TradePlan, BettingPoolError>(BettingPoolError::InvalidSupply)
            ==> e.buyer_short < e.size && e.seller_long < e.size && m.circulation + e.size
            - e.buyer_short - e.seller_long > u64::MAX,
{
}

/// Once `Settle` has succeeded, every subsequent `Trade` on the written
/// pool record fails with `AlreadySettled`, whatever its accounts and
/// arguments.
pub proof fn lemma_settle_locks_trade(
    settle_accounts: Seq<LoadedAccount>,
    settled_pool: BettingPool,
    effects: Seq<crate::accounts::TokenEffect>,
    trade_accounts: Seq<LoadedAccount>,
    program_id: Pubkey,
    token_program_id: Pubkey,
    size: u64,
    buy_price: u64,
    sell_price: u64,
)
    requires
        spec_process_settle(settle_accounts) == Ok::<_, BettingPoolError>((settled_pool, effects)),
        trade_accounts.len() >= 18,
        trade_accounts[0].data@ == settled_pool.spec_serialize(),
    ensures
        spec_process_trade(
            program_id,
            token_program_id,
            trade_accounts,
            size,
            buy_price,
            sell_price,
        ) == Err::<(BettingPool, Seq<crate::accounts::TokenEffect>), BettingPoolError>(
            BettingPoolError::AlreadySettled,
        ),
{
    crate::state::lemma_pool_serialize_len(settled_pool);
    crate::state::lemma_pool_round_trip(settled_pool);
    assert(trade_accounts[0].data@.subrange(0, 233) =~= settled_pool.spec_serialize());
    assert(BettingPool::spec_from_account(trade_accounts[0]) == Some(settled_pool));
    assert(settled_pool.settled);
}

/// The sum of a sequence of rewards.
pub open spec fn sum_rewards(rewards: Seq<int>) -> int
    decreases rewards.len(),
{
    if rewards.len() == 0 {
        0
    } else {
        rewards[0] + sum_rewards(rewards.subrange(1, rewards.len() as int))
    }
}

/// What is left of one escrow after a sequence of collections, each
/// taking the truncated pro-rata payout `reward * escrow / circulation`
/// of the balance at the time of its own call, the circulation falling by
/// each reward in turn.
pub open spec fn escrow_after_collects(escrow: int, circulation: int, rewards: Seq<int>) -> int
    decreases rewards.len(),
{
    if rewards.len() == 0 {
        escrow
    } else {
        escrow_after_collects(
            escrow - (rewards[0] * escrow) / circulation,
            circulation - rewards[0],
            rewards.subrange(1, rewards.len() as int),
        )
    }
}

/// One successful collection with a positive reward pays exactly the
/// truncated pro-rata shares the escrow stream model takes, and lowers
/// the circulation by the reward.
pub proof fn lemma_collect_step_matches_stream(
    circulation: u64,
    winner_long: bool,
    winner_short: bool,
    long_balance: u64,
    short_balance: u64,
    long_escrow_amount: u64,
    short_escrow_amount: u64,
    plan: CollectPlan,
)
    requires
        spec_compute_collect(
            circulation,
            winner_long,
            winner_short,
            long_balance,
            short_balance,
            long_escrow_amount,
            short_escrow_amount,
        ) == Ok::<CollectPlan, BettingPoolError>(plan),
        plan.reward > 0,
    ensures
        plan.long_payout == (plan.reward * long_escrow_amount) / (circulation as int),
        plan.short_payout == (plan.reward * short_escrow_amount) / (circulation as int),
        plan.new_circulation == circulation - plan.reward,
        plan.reward <= circulation,
{
}

/// Each step of the escrow stream takes a payout between zero and the
/// whole remaining balance.
proof fn lemma_payout_bounds(escrow: int, circulation: int, reward: int)
    requires
        0 <= escrow,
        1 <= reward <= circulation,
    ensures
        0 <= (reward * escrow) / circulation <= escrow,
{
    lemma_div_pos_is_pos(reward * escrow, circulation);
    lemma_mul_inequality(reward, circulation, escrow);
    lemma_div_is_ordered(reward * escrow, circulation * escrow, circulation);
    lemma_div_multiples_vanish(escrow, circulation);
    assert(circulation * escrow == (reward * escrow - reward * escrow) + circulation * escrow);
}

/// Collections by every holder of winning tokens drain the winning-side
/// escrow completely: the truncation dust each early collector leaves
/// behind stays in the escrow and flows to the later ones, and the last
/// collector's pro-rata share is the exact remainder.  The payouts
/// therefore sum to the escrow balance at settle time.
pub proof fn lemma_collects_drain_escrow(escrow: int, circulation: int, rewards: Seq<int>)
    requires
        0 <= escrow,
        1 <= circulation,
        forall|i: int| 0 <= i < rewards.len() ==> 1 <= #[trigger] rewards[i],
        sum_rewards(rewards) == circulation,
    ensures
        escrow_after_collects(escrow, circulation, rewards) == 0,
    decreases rewards.len(),
{
    assert(rewards.len() > 0);
    let r0 = rewards[0];
    let tail = rewards.subrange(1, rewards.len() as int);
    assert(sum_rewards(rewards) == r0 + sum_rewards(tail));
    lemma_sum_rewards_nonnegative(tail);
    assert(r0 <= circulation);
    lemma_payout_bounds(escrow, circulation, r0);
    let escrow1 = escrow - (r0 * escrow) / circulation;
    if rewards.len() == 1 {
        assert(r0 == circulation);
        lemma_div_multiples_vanish(escrow, circulation);
        assert(circulation * escrow == r0 * escrow);
        assert(escrow1 == 0);
        assert(tail.len() == 0);
        assert(escrow_after_collects(escrow1, circulation - r0, tail) == escrow1);
        assert(escrow_after_collects(escrow, circulation, rewards) == escrow1);
    } else {
        assert(tail.len() > 0);
        assert(sum_rewards(tail) >= 1) by {
            assert(tail[0] >= 1);
            lemma_sum_rewards_nonnegative(tail.subrange(1, tail.len() as int));
        }
        lemma_collects_drain_escrow(escrow1, circulation - r0, tail);
    }
}

/// The sum of a sequence of non-negative rewards is non-negative.
proof fn lemma_sum_rewards_nonnegative(rewards: Seq<int>)
    requires
        forall|i: int| 0 <= i < rewards.len() ==> 1 <= #[trigger] rewards[i],
    ensures
        sum_rewards(rewards) >= 0,
    decreases rewards.len(),
{
    if rewards.len() > 0 {
        lemma_sum_rewards_nonnegative(rewards.subrange(1, rewards.len() as int));
    }
}

/// A second collection by the same collector is a no-op: the first one
/// burned both of the collector's balances, so the winning balance the
/// second one finds is zero, whatever the escrows hold by then.
pub proof fn lemma_collect_twice_noop(
    circulation: u64,
    winner_long: bool,
    winner_short: bool,
    long_balance: u64,
    short_balance: u64,
    long_escrow_amount: u64,
    short_escrow_amount: u64,
    later_long_escrow: u64,
    later_short_escrow: u64,
    plan: CollectPlan,
)
    requires
        spec_compute_collect(
            circulation,
            winner_long,
            winner_short,
            long_balance,
            short_balance,
            long_escrow_amount,
            short_escrow_amount,
        ) == Ok::<CollectPlan, BettingPoolError>(plan),
    ensures
        spec_compute_collect(
            plan.new_circulation,
            winner_long,
            winner_short,
            (long_balance - plan.burn_long) as u64,
            (short_balance - plan.burn_short) as u64,
            later_long_escrow,
            later_short_escrow,
        ) == Ok::<CollectPlan, BettingPoolError>(
            CollectPlan {
                winner_long,
                reward: 0,
                long_payout: 0,
                short_payout: 0,
                burn_long: 0,
                burn_short: 0,
                new_circulation: plan.new_circulation,
            },
        ),
{
}

} // verus!
