//! End-to-end runs of the four processors, with account buffers packed by
//! the real token module and addresses derived by the real host function.

#![allow(deprecated)]

use betting_pool::{
    BettingPool, BettingPoolError, BettingPoolInstruction, LoadedAccount, Processor, Pubkey,
    TokenEffect, TradeArgs,
};
use solana_program::program_option::COption;
use solana_program::program_pack::Pack;
use solana_program::pubkey::Pubkey as HostKey;
use spl_token::state::{Account as HostTokenAccount, AccountState, Mint as HostMint};

fn lk(k: &HostKey) -> Pubkey {
    Pubkey::from_bytes(&k.to_bytes())
}

fn host(tag: u8) -> HostKey {
    HostKey::new_from_array([tag; 32])
}

fn packed_token_account(mint: &HostKey, owner: &HostKey, amount: u64) -> Vec<u8> {
    let account = HostTokenAccount {
        mint: *mint,
        owner: *owner,
        amount,
        delegate: COption::None,
        state: AccountState::Initialized,
        is_native: COption::None,
        delegated_amount: 0,
        close_authority: COption::None,
    };
    let mut buf = vec![0u8; HostTokenAccount::LEN];
    HostTokenAccount::pack(account, &mut buf).unwrap();
    buf
}

fn packed_mint(authority: &HostKey) -> Vec<u8> {
    let mint = HostMint {
        mint_authority: COption::Some(*authority),
        supply: 0,
        decimals: 0,
        is_initialized: true,
        freeze_authority: COption::None,
    };
    let mut buf = vec![0u8; HostMint::LEN];
    HostMint::pack(mint, &mut buf).unwrap();
    buf
}

fn acct(key: &HostKey, owner: &HostKey, signer: bool, data: Vec<u8>) -> LoadedAccount {
    LoadedAccount { key: lk(key), owner: lk(owner), is_signer: signer, data }
}

/// The fixed cast and derived addresses of one test market.
struct Market {
    program: HostKey,
    token_program: HostKey,
    long_mint: HostKey,
    short_mint: HostKey,
    long_escrow_mint: HostKey,
    short_escrow_mint: HostKey,
    long_escrow: HostKey,
    short_escrow: HostKey,
    mint_authority: HostKey,
    escrow_authority: HostKey,
    buyer: HostKey,
    seller: HostKey,
}

impl Market {
    fn new() -> Market {
        let program = host(7);
        let token_program = host(8);
        let long_mint = host(1);
        let short_mint = host(2);
        let (escrow_authority, _) = HostKey::find_program_address(
            &[
                long_mint.as_ref(),
                short_mint.as_ref(),
                token_program.as_ref(),
                program.as_ref(),
            ],
            &program,
        );
        Market {
            program,
            token_program,
            long_mint,
            short_mint,
            long_escrow_mint: host(3),
            short_escrow_mint: host(4),
            long_escrow: host(5),
            short_escrow: host(6),
            mint_authority: host(9),
            escrow_authority,
            buyer: host(10),
            seller: host(11),
        }
    }

    fn pool(&self, circulation: u64) -> BettingPool {
        BettingPool {
            circulation,
            settled: false,
            winning_side_pubkey: Pubkey::zero(),
            long_escrow_mint_account_pubkey: lk(&self.long_escrow_mint),
            short_escrow_mint_account_pubkey: lk(&self.short_escrow_mint),
            long_escrow_account_pubkey: lk(&self.long_escrow),
            short_escrow_account_pubkey: lk(&self.short_escrow),
            long_mint_account_pubkey: lk(&self.long_mint),
            short_mint_account_pubkey: lk(&self.short_mint),
        }
    }

    /// The eighteen `Trade` accounts, with the given pool record and the
    /// two inventory balances that pick the netting regime.
    fn trade_accounts(
        &self,
        pool: &BettingPool,
        buyer_short: u64,
        seller_long: u64,
    ) -> Vec<LoadedAccount> {
        vec![
            acct(&host(20), &self.program, false, pool.serialize()),
            acct(&self.long_escrow, &self.token_program, false, Vec::new()),
            acct(&self.short_escrow, &self.token_program, false, Vec::new()),
            acct(&self.long_mint, &self.token_program, false, packed_mint(&self.mint_authority)),
            acct(&self.short_mint, &self.token_program, false, packed_mint(&self.mint_authority)),
            acct(&self.buyer, &self.program, true, Vec::new()),
            acct(&self.seller, &self.program, true, Vec::new()),
            acct(
                &host(21),
                &self.token_program,
                false,
                packed_token_account(&self.long_escrow_mint, &self.buyer, 1000),
            ),
            acct(
                &host(22),
                &self.token_program,
                false,
                packed_token_account(&self.short_escrow_mint, &self.buyer, 1000),
            ),
            acct(
                &host(23),
                &self.token_program,
                false,
                packed_token_account(&self.long_escrow_mint, &self.seller, 1000),
            ),
            acct(
                &host(24),
                &self.token_program,
                false,
                packed_token_account(&self.short_escrow_mint, &self.seller, 1000),
            ),
            acct(
                &host(25),
                &self.token_program,
                false,
                packed_token_account(&self.long_mint, &self.buyer, 0),
            ),
            acct(
                &host(26),
                &self.token_program,
                false,
                packed_token_account(&self.short_mint, &self.buyer, buyer_short),
            ),
            acct(
                &host(27),
                &self.token_program,
                false,
                packed_token_account(&self.long_mint, &self.seller, seller_long),
            ),
            acct(
                &host(28),
                &self.token_program,
                false,
                packed_token_account(&self.short_mint, &self.seller, 0),
            ),
            acct(&self.mint_authority, &self.program, true, Vec::new()),
            acct(&self.escrow_authority, &self.program, false, Vec::new()),
            acct(&self.token_program, &self.program, false, Vec::new()),
        ]
    }

    fn run_trade(
        &self,
        accounts: &Vec<LoadedAccount>,
        size: u64,
        price: u64,
    ) -> Result<betting_pool::Outcome, BettingPoolError> {
        let data = BettingPoolInstruction::Trade(TradeArgs {
            size,
            buy_price: price,
            sell_price: price,
        })
        .try_to_vec();
        Processor::process(&lk(&self.program), &lk(&self.token_program), accounts, &data)
    }
}

#[test]
fn trade_both_open_issues_all_eight_sub_calls() {
    let m = Market::new();
    let pool = m.pool(0);
    let accounts = m.trade_accounts(&pool, 0, 0);
    let outcome = m.run_trade(&accounts, 5, 10).unwrap();
    assert_eq!(outcome.pool.circulation, 5);
    assert_eq!(outcome.pool.settled, false);
    let effects = outcome.effects;
    assert_eq!(effects.len(), 8);
    assert_eq!(
        effects[0],
        TokenEffect::Burn {
            account: lk(&host(26)),
            mint: lk(&m.short_mint),
            authority: lk(&m.buyer),
            amount: 0,
        }
    );
    assert_eq!(
        effects[2],
        TokenEffect::MintTo {
            mint: lk(&m.long_mint),
            destination: lk(&host(25)),
            authority: lk(&m.mint_authority),
            amount: 5,
        }
    );
    assert_eq!(
        effects[3],
        TokenEffect::MintTo {
            mint: lk(&m.short_mint),
            destination: lk(&host(28)),
            authority: lk(&m.mint_authority),
            amount: 5,
        }
    );
    assert_eq!(
        effects[6],
        TokenEffect::Transfer {
            source: lk(&host(21)),
            destination: lk(&m.long_escrow),
            authority: lk(&m.buyer),
            amount: 50,
        }
    );
    assert_eq!(
        effects[7],
        TokenEffect::Transfer {
            source: lk(&host(24)),
            destination: lk(&m.short_escrow),
            authority: lk(&m.seller),
            amount: 50,
        }
    );
}

#[test]
fn open_then_close_round_trip_returns_to_zero() {
    let m = Market::new();
    // Alice buys 5 from Bob on a fresh pool.
    let first = m
        .run_trade(&m.trade_accounts(&m.pool(0), 0, 0), 5, 10)
        .unwrap();
    assert_eq!(first.pool.circulation, 5);
    // Roles reversed: Bob (buyer, holding 5 short) buys his 5 back from
    // Alice (seller, holding 5 long); both sides close completely.
    let accounts = m.trade_accounts(&first.pool, 5, 5);
    let second = m.run_trade(&accounts, 5, 10).unwrap();
    assert_eq!(second.pool.circulation, 0);
    let effects = second.effects;
    assert_eq!(effects.len(), 4);
    assert_eq!(
        effects[0],
        TokenEffect::Burn {
            account: lk(&host(26)),
            mint: lk(&m.short_mint),
            authority: lk(&m.buyer),
            amount: 5,
        }
    );
    assert_eq!(
        effects[1],
        TokenEffect::Burn {
            account: lk(&host(27)),
            mint: lk(&m.long_mint),
            authority: lk(&m.seller),
            amount: 5,
        }
    );
    match effects[2] {
        TokenEffect::TransferSigned { source, destination, amount, .. } => {
            assert_eq!(source, lk(&m.short_escrow));
            assert_eq!(destination, lk(&host(22)));
            assert_eq!(amount, 50);
        }
        _ => panic!("expected a signed escrow release"),
    }
    match effects[3] {
        TokenEffect::TransferSigned { source, destination, amount, .. } => {
            assert_eq!(source, lk(&m.long_escrow));
            assert_eq!(destination, lk(&host(23)));
            assert_eq!(amount, 50);
        }
        _ => panic!("expected a signed escrow release"),
    }
}

#[test]
fn trade_on_settled_pool_fails() {
    let m = Market::new();
    let mut pool = m.pool(5);
    pool.settled = true;
    pool.winning_side_pubkey = lk(&m.long_mint);
    let accounts = m.trade_accounts(&pool, 0, 0);
    assert_eq!(
        m.run_trade(&accounts, 5, 10).err(),
        Some(BettingPoolError::AlreadySettled)
    );
}

#[test]
fn trade_with_wrong_collateral_mint_fails() {
    let m = Market::new();
    let pool = m.pool(0);
    let mut accounts = m.trade_accounts(&pool, 0, 0);
    // The buyer's long-collateral position holds a short-escrow-mint account.
    accounts[7] = acct(
        &host(21),
        &m.token_program,
        false,
        packed_token_account(&m.short_escrow_mint, &m.buyer, 1000),
    );
    assert_eq!(
        m.run_trade(&accounts, 5, 10).err(),
        Some(BettingPoolError::DifferentCollateralUsed)
    );
}

#[test]
fn trade_with_wrong_escrow_authority_fails() {
    let m = Market::new();
    let pool = m.pool(0);
    let mut accounts = m.trade_accounts(&pool, 0, 0);
    accounts[16] = acct(&host(42), &m.program, false, Vec::new());
    assert_eq!(
        m.run_trade(&accounts, 5, 10).err(),
        Some(BettingPoolError::PublicKeyMismatch)
    );
}

#[test]
fn trade_with_foreign_token_account_owner_fails() {
    let m = Market::new();
    let pool = m.pool(0);
    let mut accounts = m.trade_accounts(&pool, 0, 0);
    // The buyer hands in someone else's short-token account.
    accounts[12] = acct(
        &host(26),
        &m.token_program,
        false,
        packed_token_account(&m.short_mint, &m.seller, 0),
    );
    assert_eq!(m.run_trade(&accounts, 5, 10).err(), Some(BettingPoolError::InvalidOwner));
}

fn settle_accounts(m: &Market, pool: &BettingPool, signer: &HostKey, is_signer: bool) -> Vec<
    LoadedAccount,
> {
    vec![
        acct(&host(20), &m.program, false, pool.serialize()),
        acct(&m.long_mint, &m.token_program, false, packed_mint(&m.mint_authority)),
        acct(signer, &m.program, is_signer, Vec::new()),
    ]
}

fn run_settle(
    m: &Market,
    accounts: &Vec<LoadedAccount>,
) -> Result<betting_pool::Outcome, BettingPoolError> {
    let data = BettingPoolInstruction::Settle.try_to_vec();
    Processor::process(&lk(&m.program), &lk(&m.token_program), accounts, &data)
}

#[test]
fn settle_records_the_winner() {
    let m = Market::new();
    let pool = m.pool(10);
    let accounts = settle_accounts(&m, &pool, &m.mint_authority, true);
    let outcome = run_settle(&m, &accounts).unwrap();
    assert!(outcome.pool.settled);
    assert_eq!(outcome.pool.winning_side_pubkey, lk(&m.long_mint));
    assert_eq!(outcome.pool.circulation, 10);
    assert!(outcome.effects.is_empty());
    // Settling again with the same winner is a no-op.
    let again = settle_accounts(&m, &outcome.pool, &m.mint_authority, true);
    let repeat = run_settle(&m, &again).unwrap();
    assert_eq!(repeat.pool, outcome.pool);
    // A trade after settlement is refused.
    let trade = m.trade_accounts(&outcome.pool, 0, 0);
    assert_eq!(m.run_trade(&trade, 1, 10).err(), Some(BettingPoolError::AlreadySettled));
}

#[test]
fn settle_by_stranger_fails() {
    let m = Market::new();
    let pool = m.pool(10);
    let accounts = settle_accounts(&m, &pool, &host(42), true);
    assert_eq!(run_settle(&m, &accounts).err(), Some(BettingPoolError::NotMintAuthority));
}

#[test]
fn settle_without_signature_fails() {
    let m = Market::new();
    let pool = m.pool(10);
    let accounts = settle_accounts(&m, &pool, &m.mint_authority, false);
    assert_eq!(run_settle(&m, &accounts).err(), Some(BettingPoolError::NotMintAuthority));
}

#[test]
fn settle_with_foreign_mint_fails() {
    let m = Market::new();
    let pool = m.pool(10);
    let mut accounts = settle_accounts(&m, &pool, &m.mint_authority, true);
    accounts[1] = acct(&host(42), &m.token_program, false, packed_mint(&m.mint_authority));
    assert_eq!(run_settle(&m, &accounts).err(), Some(BettingPoolError::InvalidWinner));
}

#[test]
fn settle_other_side_after_settlement_fails() {
    let m = Market::new();
    let mut pool = m.pool(10);
    pool.settled = true;
    pool.winning_side_pubkey = lk(&m.short_mint);
    let accounts = settle_accounts(&m, &pool, &m.mint_authority, true);
    assert_eq!(run_settle(&m, &accounts).err(), Some(BettingPoolError::AlreadySettled));
}

/// The thirteen `Collect` accounts for one collector.
fn collect_accounts(
    m: &Market,
    pool: &BettingPool,
    collector: &HostKey,
    long_tokens: u64,
    short_tokens: u64,
    long_escrow_balance: u64,
    short_escrow_balance: u64,
) -> Vec<LoadedAccount> {
    vec![
        acct(&host(20), &m.program, false, pool.serialize()),
        acct(collector, &m.program, true, Vec::new()),
        acct(
            &host(31),
            &m.token_program,
            false,
            packed_token_account(&m.long_mint, collector, long_tokens),
        ),
        acct(
            &host(32),
            &m.token_program,
            false,
            packed_token_account(&m.short_mint, collector, short_tokens),
        ),
        acct(
            &host(33),
            &m.token_program,
            false,
            packed_token_account(&m.long_escrow_mint, collector, 0),
        ),
        acct(
            &host(34),
            &m.token_program,
            false,
            packed_token_account(&m.short_escrow_mint, collector, 0),
        ),
        acct(&m.long_mint, &m.token_program, false, packed_mint(&m.mint_authority)),
        acct(&m.short_mint, &m.token_program, false, packed_mint(&m.mint_authority)),
        acct(&m.mint_authority, &m.program, true, Vec::new()),
        acct(
            &m.long_escrow,
            &m.token_program,
            false,
            packed_token_account(&m.long_escrow_mint, &m.escrow_authority, long_escrow_balance),
        ),
        acct(
            &m.short_escrow,
            &m.token_program,
            false,
            packed_token_account(&m.short_escrow_mint, &m.escrow_authority, short_escrow_balance),
        ),
        acct(&m.escrow_authority, &m.program, false, Vec::new()),
        acct(&m.token_program, &m.program, false, Vec::new()),
    ]
}

fn run_collect(
    m: &Market,
    accounts: &Vec<LoadedAccount>,
) -> Result<betting_pool::Outcome, BettingPoolError> {
    let data = BettingPoolInstruction::Collect.try_to_vec();
    Processor::process(&lk(&m.program), &lk(&m.token_program), accounts, &data)
}

#[test]
fn collect_pays_the_winning_holder() {
    let m = Market::new();
    let mut pool = m.pool(10);
    pool.settled = true;
    pool.winning_side_pubkey = lk(&m.long_mint);
    // Carol holds all 10 winning long tokens; both escrows hold 100.
    let carol = host(12);
    let accounts = collect_accounts(&m, &pool, &carol, 10, 0, 100, 100);
    let outcome = run_collect(&m, &accounts).unwrap();
    assert_eq!(outcome.pool.circulation, 0);
    let effects = outcome.effects;
    assert_eq!(effects.len(), 4);
    match effects[0] {
        TokenEffect::TransferSigned { source, destination, amount, .. } => {
            assert_eq!(source, lk(&m.long_escrow));
            assert_eq!(destination, lk(&host(33)));
            assert_eq!(amount, 100);
        }
        _ => panic!("expected a signed escrow release"),
    }
    match effects[1] {
        TokenEffect::TransferSigned { source, destination, amount, .. } => {
            assert_eq!(source, lk(&m.short_escrow));
            assert_eq!(destination, lk(&host(34)));
            assert_eq!(amount, 100);
        }
        _ => panic!("expected a signed escrow release"),
    }
    assert_eq!(
        effects[2],
        TokenEffect::Burn {
            account: lk(&host(31)),
            mint: lk(&m.long_mint),
            authority: lk(&carol),
            amount: 10,
        }
    );
    assert_eq!(
        effects[3],
        TokenEffect::Burn {
            account: lk(&host(32)),
            mint: lk(&m.short_mint),
            authority: lk(&carol),
            amount: 0,
        }
    );
}

#[test]
fn collect_without_winning_tokens_is_a_no_op() {
    let m = Market::new();
    let mut pool = m.pool(10);
    pool.settled = true;
    pool.winning_side_pubkey = lk(&m.long_mint);
    // Alice holds 5 losing short tokens and no long ones.
    let alice = host(13);
    let accounts = collect_accounts(&m, &pool, &alice, 0, 5, 100, 100);
    let outcome = run_collect(&m, &accounts).unwrap();
    assert_eq!(outcome.pool, pool);
    assert!(outcome.effects.is_empty());
}

#[test]
fn collect_before_settlement_fails() {
    let m = Market::new();
    let pool = m.pool(10);
    let accounts = collect_accounts(&m, &pool, &host(12), 10, 0, 100, 100);
    assert_eq!(run_collect(&m, &accounts).err(), Some(BettingPoolError::BetNotSettled));
}

#[test]
fn process_rejects_unknown_payload() {
    let m = Market::new();
    let accounts: Vec<LoadedAccount> = Vec::new();
    let r = Processor::process(&lk(&m.program), &lk(&m.token_program), &accounts, &[9]);
    assert_eq!(r.err(), Some(BettingPoolError::InvalidInstruction));
}

#[test]
fn trade_with_wrong_outcome_token_mint_fails() {
    let m = Market::new();
    let pool = m.pool(0);
    let mut accounts = m.trade_accounts(&pool, 0, 0);
    // The buyer's long-token position holds an account of a foreign mint.
    accounts[11] = acct(
        &host(25),
        &m.token_program,
        false,
        packed_token_account(&m.long_escrow_mint, &m.buyer, 0),
    );
    assert_eq!(
        m.run_trade(&accounts, 5, 10).err(),
        Some(BettingPoolError::IncorrectPoolMint)
    );
}

#[test]
fn trade_with_missing_accounts_fails() {
    let m = Market::new();
    let pool = m.pool(0);
    let mut accounts = m.trade_accounts(&pool, 0, 0);
    accounts.truncate(10);
    assert_eq!(
        m.run_trade(&accounts, 5, 10).err(),
        Some(BettingPoolError::ExpectedAccount)
    );
}

#[test]
fn trade_with_corrupt_pool_record_fails() {
    let m = Market::new();
    let pool = m.pool(0);
    let mut accounts = m.trade_accounts(&pool, 0, 0);
    let mut data = pool.serialize();
    data[8] = 7;
    accounts[0] = acct(&host(20), &m.program, false, data);
    assert_eq!(
        m.run_trade(&accounts, 5, 10).err(),
        Some(BettingPoolError::AccountNotInitialized)
    );
}
