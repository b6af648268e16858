//! A binary-outcome prediction pool: a deterministic state machine that lets
//! two counterparties exchange long/short outcome tokens at negotiated
//! prices, holds their collateral in segregated escrows, and, once the
//! outcome is settled by an authority, pays out the winning side from the
//! combined escrowed collateral.
//!
//! The pool state machine and the four transaction processors
//! (`Initialize`, `Trade`, `Settle`, `Collect`) are verified: each processor
//! is a total function from the loaded account buffers and the instruction
//! payload to either an error or a new pool record together with the exact
//! sequence of token-module sub-calls to issue.  A thin host harness performs
//! the sub-calls; the decisions all live here.

pub mod accounts;
pub mod collect;
pub mod error;
pub mod instruction;
pub mod keys;
pub mod model;
pub mod processor;
pub mod spl;
pub mod state;
pub mod trade;
pub mod validation;

pub use accounts::LoadedAccount;
pub use accounts::TokenEffect;
pub use collect::CollectPlan;
pub use error::BettingPoolError;
pub use instruction::BettingPoolInstruction;
pub use instruction::TradeArgs;
pub use keys::Pubkey;
pub use processor::Outcome;
pub use processor::Processor;
pub use state::BettingPool;
pub use trade::TradePlan;
pub use trade::TradeRegime;
