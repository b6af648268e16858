//! End-to-end runs of `Initialize` with real derived addresses.

#![allow(deprecated)]

use betting_pool::{
    BettingPool, BettingPoolError, BettingPoolInstruction, LoadedAccount, Processor, Pubkey,
    TokenEffect,
};
use solana_program::program_option::COption;
use solana_program::program_pack::Pack;
use solana_program::pubkey::Pubkey as HostKey;
use spl_token::state::Mint as HostMint;

fn lk(k: &HostKey) -> Pubkey {
    Pubkey::from_bytes(&k.to_bytes())
}

fn host(tag: u8) -> HostKey {
    HostKey::new_from_array([tag; 32])
}

fn packed_mint(authority: &HostKey) -> Vec<u8> {
    let mint = HostMint {
        mint_authority: COption::Some(*authority),
        supply: 0,
        decimals: 0,
        is_initialized: true,
        freeze_authority: COption::None,
    };
    let mut buf = vec![0u8; HostMint::LEN];
    HostMint::pack(mint, &mut buf).unwrap();
    buf
}

fn acct(key: &HostKey, owner: &HostKey, signer: bool, data: Vec<u8>) -> LoadedAccount {
    LoadedAccount { key: lk(key), owner: lk(owner), is_signer: signer, data }
}

struct Setup {
    program: HostKey,
    token_program: HostKey,
    long_mint: HostKey,
    short_mint: HostKey,
    long_escrow_mint: HostKey,
    short_escrow_mint: HostKey,
    mint_authority: HostKey,
    update_authority: HostKey,
    long_escrow: HostKey,
    long_escrow_bump: u8,
    short_escrow: HostKey,
    short_escrow_bump: u8,
    pool_key: HostKey,
    pool_bump: u8,
    escrow_authority: HostKey,
}

impl Setup {
    fn new() -> Setup {
        let program = host(7);
        let token_program = host(8);
        let long_mint = host(1);
        let short_mint = host(2);
        let (long_escrow, long_escrow_bump) = HostKey::find_program_address(
            &[long_mint.as_ref(), token_program.as_ref(), program.as_ref()],
            &program,
        );
        let (short_escrow, short_escrow_bump) = HostKey::find_program_address(
            &[short_mint.as_ref(), token_program.as_ref(), program.as_ref()],
            &program,
        );
        let (pool_key, pool_bump) = HostKey::find_program_address(
            &[long_mint.as_ref(), short_mint.as_ref(), program.as_ref()],
            &program,
        );
        let (escrow_authority, _) = HostKey::find_program_address(
            &[
                long_mint.as_ref(),
                short_mint.as_ref(),
                token_program.as_ref(),
                program.as_ref(),
            ],
            &program,
        );
        Setup {
            program,
            token_program,
            long_mint,
            short_mint,
            long_escrow_mint: host(3),
            short_escrow_mint: host(4),
            mint_authority: host(9),
            update_authority: host(10),
            long_escrow,
            long_escrow_bump,
            short_escrow,
            short_escrow_bump,
            pool_key,
            pool_bump,
            escrow_authority,
        }
    }

    fn accounts(&self) -> Vec<LoadedAccount> {
        vec![
            acct(&self.pool_key, &self.program, false, Vec::new()),
            acct(&self.long_escrow_mint, &self.token_program, false, Vec::new()),
            acct(&self.short_escrow_mint, &self.token_program, false, Vec::new()),
            acct(&self.long_escrow, &self.program, false, Vec::new()),
            acct(&self.short_escrow, &self.program, false, Vec::new()),
            acct(&self.long_mint, &self.token_program, false, packed_mint(&self.mint_authority)),
            acct(&self.short_mint, &self.token_program, false, packed_mint(&self.mint_authority)),
            acct(&self.mint_authority, &self.program, false, Vec::new()),
            acct(&self.update_authority, &self.program, true, Vec::new()),
            acct(&self.token_program, &self.program, false, Vec::new()),
            acct(&host(41), &self.program, false, Vec::new()),
            acct(&host(42), &self.program, false, Vec::new()),
        ]
    }

    fn run(&self, accounts: &Vec<LoadedAccount>) -> Result<betting_pool::Outcome, BettingPoolError> {
        let data = BettingPoolInstruction::InitializeBettingPool.try_to_vec();
        Processor::process(&lk(&self.program), &lk(&self.token_program), accounts, &data)
    }
}

#[test]
fn initialize_records_identities_and_creates_escrows() {
    let s = Setup::new();
    let outcome = s.run(&s.accounts()).unwrap();
    let pool = outcome.pool;
    assert_eq!(pool.circulation, 0);
    assert_eq!(pool.settled, false);
    assert_eq!(pool.winning_side_pubkey, Pubkey::zero());
    assert_eq!(pool.long_mint_account_pubkey, lk(&s.long_mint));
    assert_eq!(pool.short_mint_account_pubkey, lk(&s.short_mint));
    assert_eq!(pool.long_escrow_mint_account_pubkey, lk(&s.long_escrow_mint));
    assert_eq!(pool.short_escrow_mint_account_pubkey, lk(&s.short_escrow_mint));
    assert_eq!(pool.long_escrow_account_pubkey, lk(&s.long_escrow));
    assert_eq!(pool.short_escrow_account_pubkey, lk(&s.short_escrow));
    let effects = outcome.effects;
    assert_eq!(effects.len(), 7);
    assert_eq!(
        effects[0],
        TokenEffect::CreateEscrowAccount {
            target: lk(&s.long_escrow),
            mint: lk(&s.long_mint),
            space: 165,
            bump: s.long_escrow_bump,
        }
    );
    assert_eq!(
        effects[1],
        TokenEffect::InitializeAccount {
            account: lk(&s.long_escrow),
            mint: lk(&s.long_escrow_mint),
            owner: lk(&s.update_authority),
        }
    );
    assert_eq!(
        effects[2],
        TokenEffect::CreateEscrowAccount {
            target: lk(&s.short_escrow),
            mint: lk(&s.short_mint),
            space: 165,
            bump: s.short_escrow_bump,
        }
    );
    assert_eq!(
        effects[4],
        TokenEffect::SetAuthority {
            account: lk(&s.long_escrow),
            new_authority: lk(&s.escrow_authority),
            current_authority: lk(&s.update_authority),
        }
    );
    assert_eq!(
        effects[6],
        TokenEffect::CreatePoolAccount {
            target: lk(&s.pool_key),
            space: 233,
            bump: s.pool_bump,
        }
    );
}

#[test]
fn initialize_with_wrong_pool_key_commits_nothing() {
    let s = Setup::new();
    let mut accounts = s.accounts();
    accounts[0] = acct(&host(50), &s.program, false, Vec::new());
    assert_eq!(s.run(&accounts).err(), Some(BettingPoolError::InvalidPoolKey));
}

#[test]
fn initialize_with_wrong_escrow_address_fails() {
    let s = Setup::new();
    let mut accounts = s.accounts();
    accounts[3] = acct(&host(51), &s.program, false, Vec::new());
    assert_eq!(s.run(&accounts).err(), Some(BettingPoolError::PublicKeyMismatch));
}

#[test]
fn initialize_without_update_signature_fails() {
    let s = Setup::new();
    let mut accounts = s.accounts();
    accounts[8] = acct(&s.update_authority, &s.program, false, Vec::new());
    assert_eq!(s.run(&accounts).err(), Some(BettingPoolError::InvalidAuthorityAccount));
}

#[test]
fn initialize_with_uninitialized_mint_fails() {
    let s = Setup::new();
    let mut accounts = s.accounts();
    accounts[5] = acct(&s.long_mint, &s.token_program, false, Vec::new());
    assert_eq!(s.run(&accounts).err(), Some(BettingPoolError::Uninitialized));
}

#[test]
fn initialize_with_stranger_mint_authority_fails() {
    let s = Setup::new();
    let mut accounts = s.accounts();
    accounts[7] = acct(&host(52), &s.program, false, Vec::new());
    assert_eq!(s.run(&accounts).err(), Some(BettingPoolError::NotMintAuthority));
}

#[test]
fn initialize_with_wrong_token_program_fails() {
    let s = Setup::new();
    let mut accounts = s.accounts();
    accounts[9] = acct(&host(53), &s.program, false, Vec::new());
    assert_eq!(s.run(&accounts).err(), Some(BettingPoolError::IncorrectTokenProgramId));
}

#[test]
fn initialize_with_mint_owned_elsewhere_fails() {
    let s = Setup::new();
    let mut accounts = s.accounts();
    accounts[5] = acct(&s.long_mint, &s.program, false, packed_mint(&s.mint_authority));
    assert_eq!(s.run(&accounts).err(), Some(BettingPoolError::IncorrectOwner));
}
