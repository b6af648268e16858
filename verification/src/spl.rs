//! The library's view of the token module and of address derivation.
//!
//! The pool logic reads token accounts and mints through the token module's
//! own unpacking, and derives escrow addresses through the host's
//! program-derived-address function.  Each outside call sits behind one
//! trusted wrapper; what a call returns is given a name
//! (`token_account_of`, `mint_of`, `pda_of`), and everything the processors
//! state is proved over those names.

use vstd::prelude::*;
use solana_program::program_pack::Pack;
use crate::keys::Pubkey;

verus! {

/// What the token module reads out of a token-account buffer: the mint,
/// the owning party, the balance, and whether the account is initialized;
/// `None` where the buffer is not a token account.
pub uninterp spec fn token_account_of(data: Seq<u8>) -> Option<(Seq<u8>, Seq<u8>, u64, bool)>;

/// What the token module reads out of a mint buffer: the mint authority,
/// if any, and whether the mint is initialized; `None` where the buffer is
/// not a mint.
pub uninterp spec fn mint_of(data: Seq<u8>) -> Option<(Option<Seq<u8>>, bool)>;

/// The host's program-derived address for a seed list and a program: a
/// 32-byte off-curve identity and the bump byte that disambiguates it, or
/// `None` in the statistically improbable case that no bump yields one
/// (or where a seed is over the host's limits).
pub uninterp spec fn pda_of(seeds: Seq<Seq<u8>>, program: Seq<u8>) -> Option<(Seq<u8>, u8)>;

/// Relies on `spl_token::state::Account::unpack_unchecked`: parses a
/// 165-byte token-account buffer; the mint, owner, amount and account
/// state are functions of the bytes alone.
#[verifier::external_body]
#[allow(deprecated)]
fn unpack_token_account(data: &Vec<u8>) -> (r: Option<(Vec<u8>, Vec<u8>, u64, bool)>)
    ensures
        match r {
            Some(t) => token_account_of(data@) == Some((t.0@, t.1@, t.2, t.3))
                && t.0@.len() == 32
                && t.1@.len() == 32,
            None => token_account_of(data@) is None,
        },
{
    match spl_token::state::Account::unpack_unchecked(data.as_slice()) {
        Ok(a) => {
            let initialized = match a.state {
                spl_token::state::AccountState::Uninitialized => false,
                _ => true,
            };
            Some((a.mint.to_bytes().to_vec(), a.owner.to_bytes().to_vec(), a.amount, initialized))
        },
        Err(_) => None,
    }
}

/// Relies on `spl_token::state::Mint::unpack_unchecked`: parses an 82-byte
/// mint buffer; the mint authority and the initialized flag are functions
/// of the bytes alone.
#[verifier::external_body]
#[allow(deprecated)]
fn unpack_mint(data: &Vec<u8>) -> (r: Option<(Option<Vec<u8>>, bool)>)
    ensures
        match r {
            Some(m) => mint_of(data@) == Some((
                match m.0 {
                    Some(a) => Some(a@),
                    None => None,
                },
                m.1,
            )) && (m.0 matches Some(a) ==> a@.len() == 32),
            None => mint_of(data@) is None,
        },
{
    match spl_token::state::Mint::unpack_unchecked(data.as_slice()) {
        Ok(m) => {
            let authority = match m.mint_authority {
                solana_program::program_option::COption::Some(k) => Some(k.to_bytes().to_vec()),
                solana_program::program_option::COption::None => None,
            };
            Some((authority, m.is_initialized))
        },
        Err(_) => None,
    }
}

/// Relies on `solana_program::pubkey::Pubkey::try_find_program_address`:
/// the derived address and bump are functions of the seeds and the program
/// alone; the derived address is 32 bytes.
#[verifier::external_body]
fn find_program_address(seeds: &Vec<Vec<u8>>, program_id: &Vec<u8>) -> (r: Option<(Vec<u8>, u8)>)
    requires
        program_id@.len() == 32,
    ensures
        match r {
            Some(p) => pda_of(seeds.deep_view(), program_id@) == Some((p.0@, p.1))
                && p.0@.len() == 32,
            None => pda_of(seeds.deep_view(), program_id@) is None,
        },
{
    let seed_refs: Vec<&[u8]> = seeds.iter().map(|s| s.as_slice()).collect();
    let program = match solana_program::pubkey::Pubkey::try_from(program_id.as_slice()) {
        Ok(p) => p,
        Err(_) => { return None; },
    };
    match solana_program::pubkey::Pubkey::try_find_program_address(&seed_refs, &program) {
        Some((key, bump)) => Some((key.to_bytes().to_vec(), bump)),
        None => None,
    }
}

/// Relies on `spl_token::state::Account::LEN`: a packed token account is
/// 165 bytes.
#[verifier::external_body]
#[allow(deprecated)]
pub(crate) fn spl_token_account_len() -> (r: u64)
    ensures
        r == 165,
{
    spl_token::state::Account::LEN as u64
}

/// A token account as the pool logic reads it.
#[derive(Clone, Copy, Debug)]
pub struct TokenAccountInfo {
    /// The mint the account's balance is denominated in.
    pub mint: Pubkey,
    /// The party that owns the account.
    pub owner: Pubkey,
    /// The account's balance.
    pub amount: u64,
    /// Whether the account is initialized.
    pub initialized: bool,
}

/// A mint as the pool logic reads it.
#[derive(Clone, Copy, Debug)]
pub struct MintInfo {
    /// The principal allowed to mint and burn, if any.
    pub authority: Option<Pubkey>,
    /// Whether the mint is initialized.
    pub initialized: bool,
}

/// The token account held in a buffer, as [`token_account_of`] reads it,
/// with the two identities in their 32-byte canonical form.
pub open spec fn spec_parse_token_account(data: Seq<u8>) -> Option<TokenAccountInfo> {
    match token_account_of(data) {
        Some(t) => Some(TokenAccountInfo {
            mint: Pubkey::spec_from_bytes(t.0),
            owner: Pubkey::spec_from_bytes(t.1),
            amount: t.2,
            initialized: t.3,
        }),
        None => None,
    }
}

/// The mint held in a buffer, as [`mint_of`] reads it.
pub open spec fn spec_parse_mint(data: Seq<u8>) -> Option<MintInfo> {
    match mint_of(data) {
        Some(m) => Some(MintInfo {
            authority: match m.0 {
                Some(a) => Some(Pubkey::spec_from_bytes(a)),
                None => None,
            },
            initialized: m.1,
        }),
        None => None,
    }
}

/// Reads a token account out of an account buffer.
pub fn parse_token_account(data: &Vec<u8>) -> (r: Option<TokenAccountInfo>)
    ensures
        r == spec_parse_token_account(data@),
{
    match unpack_token_account(data) {
        Some(t) => {
            let mint = Pubkey::from_bytes(t.0.as_slice());
            let owner = Pubkey::from_bytes(t.1.as_slice());
            Some(TokenAccountInfo { mint, owner, amount: t.2, initialized: t.3 })
        },
        None => None,
    }
}

/// Reads a mint out of an account buffer.
pub fn parse_mint(data: &Vec<u8>) -> (r: Option<MintInfo>)
    ensures
        r == spec_parse_mint(data@),
{
    match unpack_mint(data) {
        Some(m) => {
            let authority = match m.0 {
                Some(a) => Some(Pubkey::from_bytes(a.as_slice())),
                None => None,
            };
            Some(MintInfo { authority, initialized: m.1 })
        },
        None => None,
    }
}

/// The derived escrow authority of a pool: the program-derived address for
/// the seeds `[long_mint, short_mint, token_program, program]`.
pub open spec fn spec_escrow_authority(
    long_mint: Pubkey,
    short_mint: Pubkey,
    token_program: Pubkey,
    program: Pubkey,
) -> Option<(Pubkey, u8)> {
    match pda_of(
        seq![
            long_mint.spec_bytes(),
            short_mint.spec_bytes(),
            token_program.spec_bytes(),
            program.spec_bytes(),
        ],
        program.spec_bytes(),
    ) {
        Some(p) => Some((Pubkey::spec_from_bytes(p.0), p.1)),
        None => None,
    }
}

/// Derives the escrow authority of a pool.
pub fn derive_escrow_authority(
    long_mint: &Pubkey,
    short_mint: &Pubkey,
    token_program: &Pubkey,
    program: &Pubkey,
) -> (r: Option<(Pubkey, u8)>)
    ensures
        r == spec_escrow_authority(*long_mint, *short_mint, *token_program, *program),
{
    let mut seeds: Vec<Vec<u8>> = Vec::new();
    seeds.push(long_mint.to_bytes());
    seeds.push(short_mint.to_bytes());
    seeds.push(token_program.to_bytes());
    seeds.push(program.to_bytes());
    proof {
        assert(seeds.deep_view() =~~= seq![
            long_mint.spec_bytes(),
            short_mint.spec_bytes(),
            token_program.spec_bytes(),
            program.spec_bytes(),
        ]);
    }
    match find_program_address(&seeds, &program.to_bytes()) {
        Some(p) => Some((Pubkey::from_bytes(p.0.as_slice()), p.1)),
        None => None,
    }
}

/// The derived address of one side's escrow account: the program-derived
/// address for the seeds `[outcome_mint, token_program, program]`.
pub open spec fn spec_escrow_account_key(
    outcome_mint: Pubkey,
    token_program: Pubkey,
    program: Pubkey,
) -> Option<(Pubkey, u8)> {
    match pda_of(
        seq![outcome_mint.spec_bytes(), token_program.spec_bytes(), program.spec_bytes()],
        program.spec_bytes(),
    ) {
        Some(p) => Some((Pubkey::spec_from_bytes(p.0), p.1)),
        None => None,
    }
}

/// Derives the address of one side's escrow account.
pub fn derive_escrow_account_key(
    outcome_mint: &Pubkey,
    token_program: &Pubkey,
    program: &Pubkey,
) -> (r: Option<(Pubkey, u8)>)
    ensures
        r == spec_escrow_account_key(*outcome_mint, *token_program, *program),
{
    let mut seeds: Vec<Vec<u8>> = Vec::new();
    seeds.push(outcome_mint.to_bytes());
    seeds.push(token_program.to_bytes());
    seeds.push(program.to_bytes());
    proof {
        assert(seeds.deep_view() =~~= seq![
            outcome_mint.spec_bytes(),
            token_program.spec_bytes(),
            program.spec_bytes(),
        ]);
    }
    match find_program_address(&seeds, &program.to_bytes()) {
        Some(p) => Some((Pubkey::from_bytes(p.0.as_slice()), p.1)),
        None => None,
    }
}

/// The derived address of the pool account itself: the program-derived
/// address for the seeds `[long_mint, short_mint, program]`.
pub open spec fn spec_pool_key(
    long_mint: Pubkey,
    short_mint: Pubkey,
    program: Pubkey,
) -> Option<(Pubkey, u8)> {
    match pda_of(
        seq![long_mint.spec_bytes(), short_mint.spec_bytes(), program.spec_bytes()],
        program.spec_bytes(),
    ) {
        Some(p) => Some((Pubkey::spec_from_bytes(p.0), p.1)),
        None => None,
    }
}

/// Derives the address of the pool account.
pub fn derive_pool_key(long_mint: &Pubkey, short_mint: &Pubkey, program: &Pubkey) -> (r: Option<
    (Pubkey, u8),
>)
    ensures
        r == spec_pool_key(*long_mint, *short_mint, *program),
{
    let mut seeds: Vec<Vec<u8>> = Vec::new();
    seeds.push(long_mint.to_bytes());
    seeds.push(short_mint.to_bytes());
    seeds.push(program.to_bytes());
    proof {
        assert(seeds.deep_view() =~~= seq![
            long_mint.spec_bytes(),
            short_mint.spec_bytes(),
            program.spec_bytes(),
        ]);
    }
    match find_program_address(&seeds, &program.to_bytes()) {
        Some(p) => Some((Pubkey::from_bytes(p.0.as_slice()), p.1)),
        None => None,
    }
}

} // verus!
