//! Pure predicates over loaded accounts.
//!
//! Each processor runs these checks, in a fixed order, before it emits any
//! sub-call; the first failing check's error aborts the transaction.

use vstd::prelude::*;
use crate::accounts::LoadedAccount;
use crate::error::BettingPoolError;
use crate::keys::Pubkey;
use crate::spl::{MintInfo, TokenAccountInfo, parse_mint, parse_token_account};
use crate::spl::{spec_parse_mint, spec_parse_token_account};

verus! {

/// Requires two keys to be the same identity, else `PublicKeyMismatch`.
pub fn assert_keys_equal(a: Pubkey, b: Pubkey) -> (r: Result<(), BettingPoolError>)
    ensures
        r is Ok <==> a == b,
        r is Err ==> r == Err::<(), BettingPoolError>(BettingPoolError::PublicKeyMismatch),
{
    if a == b {
        Ok(())
    } else {
        Err(BettingPoolError::PublicKeyMismatch)
    }
}

/// Requires an account to be owned by the program `owner`, else
/// `IncorrectOwner`.
pub fn assert_owned_by(a: &LoadedAccount, owner: &Pubkey) -> (r: Result<(), BettingPoolError>)
    ensures
        r is Ok <==> a.owner == *owner,
        r is Err ==> r == Err::<(), BettingPoolError>(BettingPoolError::IncorrectOwner),
{
    if a.owner == *owner {
        Ok(())
    } else {
        Err(BettingPoolError::IncorrectOwner)
    }
}

/// The token account held in a loaded account, or `Uninitialized` where
/// the buffer is no token account or an uninitialized one.
pub open spec fn spec_initialized_token_account(a: LoadedAccount) -> Result<
    TokenAccountInfo,
    BettingPoolError,
> {
    match spec_parse_token_account(a.data@) {
        Some(t) => if t.initialized {
            Ok(t)
        } else {
            Err(BettingPoolError::Uninitialized)
        },
        None => Err(BettingPoolError::Uninitialized),
    }
}

/// Requires an account to hold an initialized token account and reads it.
pub fn assert_initialized_token_account(a: &LoadedAccount) -> (r: Result<
    TokenAccountInfo,
    BettingPoolError,
>)
    ensures
        r == spec_initialized_token_account(*a),
{
    match parse_token_account(&a.data) {
        Some(t) => if t.initialized {
            Ok(t)
        } else {
            Err(BettingPoolError::Uninitialized)
        },
        None => Err(BettingPoolError::Uninitialized),
    }
}

/// The mint held in a loaded account, or `Uninitialized` where the buffer
/// is no mint or an uninitialized one.
pub open spec fn spec_initialized_mint(a: LoadedAccount) -> Result<MintInfo, BettingPoolError> {
    match spec_parse_mint(a.data@) {
        Some(m) => if m.initialized {
            Ok(m)
        } else {
            Err(BettingPoolError::Uninitialized)
        },
        None => Err(BettingPoolError::Uninitialized),
    }
}

/// Requires an account to hold an initialized mint and reads it.
pub fn assert_initialized_mint(a: &LoadedAccount) -> (r: Result<MintInfo, BettingPoolError>)
    ensures
        r == spec_initialized_mint(*a),
{
    match parse_mint(&a.data) {
        Some(m) => if m.initialized {
            Ok(m)
        } else {
            Err(BettingPoolError::Uninitialized)
        },
        None => Err(BettingPoolError::Uninitialized),
    }
}

/// Whether a mint names `authority` as its mint authority, and the error
/// when it does not: `InvalidMintAuthority` for a mint with no authority
/// at all, `NotMintAuthority` for one with another.
pub open spec fn spec_mint_authority_check(mint: MintInfo, authority: Pubkey) -> Result<
    (),
    BettingPoolError,
> {
    match mint.authority {
        Some(k) => if k == authority {
            Ok(())
        } else {
            Err(BettingPoolError::NotMintAuthority)
        },
        None => Err(BettingPoolError::InvalidMintAuthority),
    }
}

/// Requires `authority` to be the mint authority of `mint`.
pub fn assert_mint_authority_matches_mint(mint: &MintInfo, authority: &Pubkey) -> (r: Result<
    (),
    BettingPoolError,
>)
    ensures
        r == spec_mint_authority_check(*mint, *authority),
{
    match mint.authority {
        Some(k) => if k == *authority {
            Ok(())
        } else {
            Err(BettingPoolError::NotMintAuthority)
        },
        None => Err(BettingPoolError::InvalidMintAuthority),
    }
}

} // verus!
