//! The four transaction processors.
//!
//! Each processor is a total function from the program's identity, the
//! token module's identity, the ordered list of loaded accounts and the
//! instruction's arguments to either an error or an [`Outcome`]: the new
//! pool record and the exact ordered list of token-module sub-calls to
//! issue.  The host performs the sub-calls, writes the serialized record
//! back into the pool account, and commits or discards the transaction as
//! a whole; a processor that returns an error commits nothing.

use vstd::prelude::*;
use crate::accounts::{LoadedAccount, TokenEffect};
use crate::error::BettingPoolError;
use crate::keys::Pubkey;
use crate::spl::{
    derive_escrow_account_key, derive_escrow_authority, derive_pool_key, spec_escrow_account_key,
    spec_escrow_authority, spec_pool_key, spl_token_account_len,
};
use crate::state::BettingPool;
use crate::validation::{
    assert_initialized_mint, assert_initialized_token_account, assert_keys_equal,
    assert_mint_authority_matches_mint, assert_owned_by, spec_initialized_mint,
    spec_initialized_token_account, spec_mint_authority_check,
};

verus! {

/// What a successful processor call commits: the new pool record, to be
/// serialized into the pool account, and the sub-calls to issue, in order.
pub struct Outcome {
    /// The pool record after the operation.
    pub pool: BettingPool,
    /// The token-module sub-calls to issue, in order.
    pub effects: Vec<TokenEffect>,
}

/// Whether an executable result carries exactly the pool and effects of a
/// specified one.
pub open spec fn outcome_matches(
    r: Result<Outcome, BettingPoolError>,
    s: Result<(BettingPool, Seq<TokenEffect>), BettingPoolError>,
) -> bool {
    match (r, s) {
        (Ok(o), Ok(p)) => o.pool == p.0 && o.effects@ == p.1,
        (Err(e), Err(f)) => e == f,
        _ => false,
    }
}

/// The effects of a successful `Initialize`, in issue order: create and
/// initialize each escrow account, hand both to the derived escrow
/// authority, then create the pool account.
pub open spec fn spec_initialize_effects(
    accounts: Seq<LoadedAccount>,
    bump_long: u8,
    bump_short: u8,
    bump_pool: u8,
    escrow_authority: Pubkey,
) -> Seq<TokenEffect> {
    seq![
        TokenEffect::CreateEscrowAccount {
            target: accounts[3].key,
            mint: accounts[5].key,
            space: 165,
            bump: bump_long,
        },
        TokenEffect::InitializeAccount {
            account: accounts[3].key,
            mint: accounts[1].key,
            owner: accounts[8].key,
        },
        TokenEffect::CreateEscrowAccount {
            target: accounts[4].key,
            mint: accounts[6].key,
            space: 165,
            bump: bump_short,
        },
        TokenEffect::InitializeAccount {
            account: accounts[4].key,
            mint: accounts[2].key,
            owner: accounts[8].key,
        },
        TokenEffect::SetAuthority {
            account: accounts[3].key,
            new_authority: escrow_authority,
            current_authority: accounts[8].key,
        },
        TokenEffect::SetAuthority {
            account: accounts[4].key,
            new_authority: escrow_authority,
            current_authority: accounts[8].key,
        },
        TokenEffect::CreatePoolAccount { target: accounts[0].key, space: 233, bump: bump_pool },
    ]
}

/// The `Initialize` transition.
///
/// Accounts, in order: pool, long escrow mint, short escrow mint, long
/// escrow account (to be created), short escrow account (to be created),
/// long outcome mint, short outcome mint, mint authority, update authority
/// (signer, payer), token module, system module, rent sysvar.
///
/// Both outcome mints must be initialized, owned by the token module and
/// under the one mint authority; the update authority must sign; the two
/// escrow addresses and the pool address must match their derivations.
/// On success the pool record is zeroed with the six identities recorded,
/// and the seven creation sub-calls are issued.
pub open spec fn spec_process_initialize(
    program_id: Pubkey,
    token_program_id: Pubkey,
    accounts: Seq<LoadedAccount>,
) -> Result<(BettingPool, Seq<TokenEffect>), BettingPoolError> {
    if accounts.len() < 12 {
        Err(BettingPoolError::ExpectedAccount)
    } else if accounts[9].key != token_program_id {
        Err(BettingPoolError::IncorrectTokenProgramId)
    } else {
        match spec_initialized_mint(accounts[5]) {
            Err(e) => Err(e),
            Ok(long_mint) => match spec_initialized_mint(accounts[6]) {
                Err(e) => Err(e),
                Ok(short_mint) => match spec_mint_authority_check(long_mint, accounts[7].key) {
                    Err(e) => Err(e),
                    Ok(_) => match spec_mint_authority_check(short_mint, accounts[7].key) {
                        Err(e) => Err(e),
                        Ok(_) => if accounts[5].owner != token_program_id
                            || accounts[6].owner != token_program_id {
                            Err(BettingPoolError::IncorrectOwner)
                        } else if !accounts[8].is_signer {
                            Err(BettingPoolError::InvalidAuthorityAccount)
                        } else {
                            spec_process_initialize_derived(program_id, token_program_id, accounts)
                        },
                    },
                },
            },
        }
    }
}

/// The derivation tail of `Initialize`: the three address derivations,
/// their comparisons, and the successful outcome.
pub open spec fn spec_process_initialize_derived(
    program_id: Pubkey,
    token_program_id: Pubkey,
    accounts: Seq<LoadedAccount>,
) -> Result<(BettingPool, Seq<TokenEffect>), BettingPoolError> {
    match spec_escrow_account_key(accounts[5].key, token_program_id, program_id) {
        None => Err(BettingPoolError::InvalidProgramAddress),
        Some((long_escrow_key, bump_long)) => if long_escrow_key != accounts[3].key {
            Err(BettingPoolError::PublicKeyMismatch)
        } else {
            match spec_escrow_account_key(accounts[6].key, token_program_id, program_id) {
                None => Err(BettingPoolError::InvalidProgramAddress),
                Some((short_escrow_key, bump_short)) => if short_escrow_key != accounts[4].key {
                    Err(BettingPoolError::PublicKeyMismatch)
                } else {
                    match spec_pool_key(accounts[5].key, accounts[6].key, program_id) {
                        None => Err(BettingPoolError::InvalidProgramAddress),
                        Some((pool_key, bump_pool)) => if pool_key != accounts[0].key {
                            Err(BettingPoolError::InvalidPoolKey)
                        } else {
                            match spec_escrow_authority(
                                accounts[5].key,
                                accounts[6].key,
                                token_program_id,
                                program_id,
                            ) {
                                None => Err(BettingPoolError::InvalidProgramAddress),
                                Some((escrow_authority, _bump)) => Ok(
                                    (
                                        BettingPool {
                                            circulation: 0,
                                            settled: false,
                                            winning_side_pubkey: Pubkey::spec_zero(),
                                            long_escrow_mint_account_pubkey: accounts[1].key,
                                            short_escrow_mint_account_pubkey: accounts[2].key,
                                            long_escrow_account_pubkey: accounts[3].key,
                                            short_escrow_account_pubkey: accounts[4].key,
                                            long_mint_account_pubkey: accounts[5].key,
                                            short_mint_account_pubkey: accounts[6].key,
                                        },
                                        spec_initialize_effects(
                                            accounts,
                                            bump_long,
                                            bump_short,
                                            bump_pool,
                                            escrow_authority,
                                        ),
                                    ),
                                ),
                            }
                        },
                    }
                },
            }
        },
    }
}

/// Creates a pool and its two escrows.  See [`spec_process_initialize`].
pub fn process_initialize_betting_pool(
    program_id: &Pubkey,
    token_program_id: &Pubkey,
    accounts: &Vec<LoadedAccount>,
) -> (r: Result<Outcome, BettingPoolError>)
    ensures
        outcome_matches(r, spec_process_initialize(*program_id, *token_program_id, accounts@)),
{
    if accounts.len() < 12 {
        return Err(BettingPoolError::ExpectedAccount);
    }
    if accounts[9].key != *token_program_id {
        return Err(BettingPoolError::IncorrectTokenProgramId);
    }
    let long_mint = assert_initialized_mint(&accounts[5])?;
    let short_mint = assert_initialized_mint(&accounts[6])?;
    assert_mint_authority_matches_mint(&long_mint, &accounts[7].key)?;
    assert_mint_authority_matches_mint(&short_mint, &accounts[7].key)?;
    assert_owned_by(&accounts[5], token_program_id)?;
    assert_owned_by(&accounts[6], token_program_id)?;
    if !accounts[8].is_signer {
        return Err(BettingPoolError::InvalidAuthorityAccount);
    }
    let (long_escrow_key, bump_long) =
        match derive_escrow_account_key(&accounts[5].key, token_program_id, program_id) {
        Some(p) => p,
        None => { return Err(BettingPoolError::InvalidProgramAddress); },
    };
    if long_escrow_key != accounts[3].key {
        return Err(BettingPoolError::PublicKeyMismatch);
    }
    let (short_escrow_key, bump_short) =
        match derive_escrow_account_key(&accounts[6].key, token_program_id, program_id) {
        Some(p) => p,
        None => { return Err(BettingPoolError::InvalidProgramAddress); },
    };
    if short_escrow_key != accounts[4].key {
        return Err(BettingPoolError::PublicKeyMismatch);
    }
    let (pool_key, bump_pool) =
        match derive_pool_key(&accounts[5].key, &accounts[6].key, program_id) {
        Some(p) => p,
        None => { return Err(BettingPoolError::InvalidProgramAddress); },
    };
    if pool_key != accounts[0].key {
        return Err(BettingPoolError::InvalidPoolKey);
    }
    let (escrow_authority, _bump) = match derive_escrow_authority(
        &accounts[5].key,
        &accounts[6].key,
        token_program_id,
        program_id,
    ) {
        Some(p) => p,
        None => { return Err(BettingPoolError::InvalidProgramAddress); },
    };
    let escrow_space = spl_token_account_len();
    let mut effects: Vec<TokenEffect> = Vec::new();
    effects.push(TokenEffect::CreateEscrowAccount {
        target: accounts[3].key,
        mint: accounts[5].key,
        space: escrow_space,
        bump: bump_long,
    });
    effects.push(TokenEffect::InitializeAccount {
        account: accounts[3].key,
        mint: accounts[1].key,
        owner: accounts[8].key,
    });
    effects.push(TokenEffect::CreateEscrowAccount {
        target: accounts[4].key,
        mint: accounts[6].key,
        space: escrow_space,
        bump: bump_short,
    });
    effects.push(TokenEffect::InitializeAccount {
        account: accounts[4].key,
        mint: accounts[2].key,
        owner: accounts[8].key,
    });
    effects.push(TokenEffect::SetAuthority {
        account: accounts[3].key,
        new_authority: escrow_authority,
        current_authority: accounts[8].key,
    });
    effects.push(TokenEffect::SetAuthority {
        account: accounts[4].key,
        new_authority: escrow_authority,
        current_authority: accounts[8].key,
    });
    effects.push(TokenEffect::CreatePoolAccount {
        target: accounts[0].key,
        space: 233,
        bump: bump_pool,
    });
    let pool = BettingPool {
        circulation: 0,
        settled: false,
        winning_side_pubkey: Pubkey::zero(),
        long_escrow_mint_account_pubkey: accounts[1].key,
        short_escrow_mint_account_pubkey: accounts[2].key,
        long_escrow_account_pubkey: accounts[3].key,
        short_escrow_account_pubkey: accounts[4].key,
        long_mint_account_pubkey: accounts[5].key,
        short_mint_account_pubkey: accounts[6].key,
    };
    proof {
        assert(effects@ =~= spec_initialize_effects(
            accounts@,
            bump_long,
            bump_short,
            bump_pool,
            escrow_authority,
        ));
    }
    Ok(Outcome { pool, effects })
}

/// The effects of a successful `Collect` with a positive reward, in issue
/// order: the two pro-rata escrow releases, then the burn of both of the
/// collector's outcome-token balances.
pub open spec fn spec_collect_effects(
    accounts: Seq<LoadedAccount>,
    plan: crate::collect::CollectPlan,
    bump: u8,
) -> Seq<TokenEffect> {
    seq![
        TokenEffect::TransferSigned {
            source: accounts[9].key,
            destination: accounts[4].key,
            authority: accounts[11].key,
            amount: plan.long_payout,
            bump,
        },
        TokenEffect::TransferSigned {
            source: accounts[10].key,
            destination: accounts[5].key,
            authority: accounts[11].key,
            amount: plan.short_payout,
            bump,
        },
        TokenEffect::Burn {
            account: accounts[2].key,
            mint: accounts[6].key,
            authority: accounts[1].key,
            amount: plan.burn_long,
        },
        TokenEffect::Burn {
            account: accounts[3].key,
            mint: accounts[7].key,
            authority: accounts[1].key,
            amount: plan.burn_short,
        },
    ]
}

/// The account and key checks of `Collect`, after the pool is read and
/// the accounts parse: every collector-side account is owned by the
/// collector, the mints and escrows are the pool's, the collateral
/// accounts are denominated in the escrow currencies, and the escrow
/// authority matches its derivation.
pub open spec fn spec_collect_checks(
    pool: BettingPool,
    accounts: Seq<LoadedAccount>,
    long_mint: crate::spl::MintInfo,
    short_mint: crate::spl::MintInfo,
    collector_long_token: crate::spl::TokenAccountInfo,
    collector_short_token: crate::spl::TokenAccountInfo,
    collector_long_collateral: crate::spl::TokenAccountInfo,
    collector_short_collateral: crate::spl::TokenAccountInfo,
    token_program_id: Pubkey,
    derived_escrow_authority: Pubkey,
) -> Result<(), BettingPoolError> {
    match spec_mint_authority_check(long_mint, accounts[8].key) {
        Err(e) => Err(e),
        Ok(_) => match spec_mint_authority_check(short_mint, accounts[8].key) {
            Err(e) => Err(e),
            Ok(_) => if accounts[6].owner != token_program_id
                || accounts[7].owner != token_program_id {
                Err(BettingPoolError::IncorrectOwner)
            } else if collector_long_token.owner != accounts[1].key
                || collector_short_token.owner != accounts[1].key
                || collector_long_collateral.owner != accounts[1].key
                || collector_short_collateral.owner != accounts[1].key {
                Err(BettingPoolError::InvalidOwner)
            } else if derived_escrow_authority != accounts[11].key {
                Err(BettingPoolError::PublicKeyMismatch)
            } else if accounts[6].key != pool.long_mint_account_pubkey
                || accounts[7].key != pool.short_mint_account_pubkey {
                Err(BettingPoolError::PublicKeyMismatch)
            } else if accounts[10].key != pool.short_escrow_account_pubkey
                || accounts[9].key != pool.long_escrow_account_pubkey {
                Err(BettingPoolError::PublicKeyMismatch)
            } else if collector_long_token.mint != pool.long_mint_account_pubkey
                || collector_short_token.mint != pool.short_mint_account_pubkey {
                Err(BettingPoolError::IncorrectPoolMint)
            } else if collector_long_collateral.mint != pool.long_escrow_mint_account_pubkey
                || collector_short_collateral.mint != pool.short_escrow_mint_account_pubkey {
                Err(BettingPoolError::DifferentCollateralUsed)
            } else {
                Ok(())
            },
        },
    }
}

/// The `Collect` transition.
///
/// Accounts, in order: pool, collector, collector's long-token account,
/// collector's short-token account, collector's long-collateral account,
/// collector's short-collateral account, long mint, short mint, mint
/// authority, long escrow account, short escrow account, escrow
/// authority, token module.
///
/// The pool must be settled; all mints and escrows must match what the
/// pool recorded, the collector-side accounts must be the collector's, and
/// the escrow authority must match its derivation.  The payout and burns
/// follow [`crate::collect::spec_compute_collect`] on the collector's
/// balances and the escrow balances at the time of the call; a zero
/// winning balance is a no-op.
pub open spec fn spec_process_collect(
    program_id: Pubkey,
    token_program_id: Pubkey,
    accounts: Seq<LoadedAccount>,
) -> Result<(BettingPool, Seq<TokenEffect>), BettingPoolError> {
    if accounts.len() < 13 {
        Err(BettingPoolError::ExpectedAccount)
    } else {
        match BettingPool::spec_from_account(accounts[0]) {
            None => Err(BettingPoolError::AccountNotInitialized),
            Some(pool) => if !pool.settled {
                Err(BettingPoolError::BetNotSettled)
            } else if accounts[12].key != token_program_id {
                Err(BettingPoolError::IncorrectTokenProgramId)
            } else {
                match (
                    spec_initialized_mint(accounts[6]),
                    spec_initialized_mint(accounts[7]),
                    spec_initialized_token_account(accounts[2]),
                    spec_initialized_token_account(accounts[3]),
                    spec_initialized_token_account(accounts[4]),
                    spec_initialized_token_account(accounts[5]),
                    spec_initialized_token_account(accounts[9]),
                    spec_initialized_token_account(accounts[10]),
                ) {
                    (Err(e), _, _, _, _, _, _, _) => Err(e),
                    (_, Err(e), _, _, _, _, _, _) => Err(e),
                    (_, _, Err(e), _, _, _, _, _) => Err(e),
                    (_, _, _, Err(e), _, _, _, _) => Err(e),
                    (_, _, _, _, Err(e), _, _, _) => Err(e),
                    (_, _, _, _, _, Err(e), _, _) => Err(e),
                    (_, _, _, _, _, _, Err(e), _) => Err(e),
                    (_, _, _, _, _, _, _, Err(e)) => Err(e),
                    (
                        Ok(long_mint),
                        Ok(short_mint),
                        Ok(collector_long_token),
                        Ok(collector_short_token),
                        Ok(collector_long_collateral),
                        Ok(collector_short_collateral),
                        Ok(long_escrow),
                        Ok(short_escrow),
                    ) => match spec_escrow_authority(
                        accounts[6].key,
                        accounts[7].key,
                        token_program_id,
                        program_id,
                    ) {
                        None => Err(BettingPoolError::InvalidProgramAddress),
                        Some((derived_escrow_authority, bump)) => match spec_collect_checks(
                            pool,
                            accounts,
                            long_mint,
                            short_mint,
                            collector_long_token,
                            collector_short_token,
                            collector_long_collateral,
                            collector_short_collateral,
                            token_program_id,
                            derived_escrow_authority,
                        ) {
                            Err(e) => Err(e),
                            Ok(_) => {
                                let winner_long = collector_long_token.mint
                                    == pool.winning_side_pubkey;
                                let winner_short = collector_short_token.mint
                                    == pool.winning_side_pubkey;
                                match crate::collect::spec_compute_collect(
                                    pool.circulation,
                                    winner_long,
                                    winner_short,
                                    collector_long_token.amount,
                                    collector_short_token.amount,
                                    long_escrow.amount,
                                    short_escrow.amount,
                                ) {
                                    Err(e) => Err(e),
                                    Ok(plan) => if plan.reward == 0 {
                                        Ok((pool, Seq::empty()))
                                    } else {
                                        Ok(
                                            (
                                                BettingPool {
                                                    circulation: plan.new_circulation,
                                                    ..pool
                                                },
                                                spec_collect_effects(accounts, plan, bump),
                                            ),
                                        )
                                    },
                                }
                            },
                        },
                    },
                }
            },
        }
    }
}

/// Pays a holder of winning tokens out of the escrows.  See
/// [`spec_process_collect`].
pub fn process_collect(
    program_id: &Pubkey,
    token_program_id: &Pubkey,
    accounts: &Vec<LoadedAccount>,
) -> (r: Result<Outcome, BettingPoolError>)
    ensures
        outcome_matches(r, spec_process_collect(*program_id, *token_program_id, accounts@)),
{
    if accounts.len() < 13 {
        return Err(BettingPoolError::ExpectedAccount);
    }
    let pool = BettingPool::from_account_info(&accounts[0])?;
    if !pool.settled {
        return Err(BettingPoolError::BetNotSettled);
    }
    if accounts[12].key != *token_program_id {
        return Err(BettingPoolError::IncorrectTokenProgramId);
    }
    let long_mint = assert_initialized_mint(&accounts[6])?;
    let short_mint = assert_initialized_mint(&accounts[7])?;
    let collector_long_token = assert_initialized_token_account(&accounts[2])?;
    let collector_short_token = assert_initialized_token_account(&accounts[3])?;
    let collector_long_collateral = assert_initialized_token_account(&accounts[4])?;
    let collector_short_collateral = assert_initialized_token_account(&accounts[5])?;
    let long_escrow = assert_initialized_token_account(&accounts[9])?;
    let short_escrow = assert_initialized_token_account(&accounts[10])?;
    let (derived_escrow_authority, bump) = match derive_escrow_authority(
        &accounts[6].key,
        &accounts[7].key,
        token_program_id,
        program_id,
    ) {
        Some(p) => p,
        None => { return Err(BettingPoolError::InvalidProgramAddress); },
    };
    assert_mint_authority_matches_mint(&long_mint, &accounts[8].key)?;
    assert_mint_authority_matches_mint(&short_mint, &accounts[8].key)?;
    if accounts[6].owner != *token_program_id || accounts[7].owner != *token_program_id {
        return Err(BettingPoolError::IncorrectOwner);
    }
    if collector_long_token.owner != accounts[1].key
        || collector_short_token.owner != accounts[1].key
        || collector_long_collateral.owner != accounts[1].key
        || collector_short_collateral.owner != accounts[1].key {
        return Err(BettingPoolError::InvalidOwner);
    }
    assert_keys_equal(derived_escrow_authority, accounts[11].key)?;
    if accounts[6].key != pool.long_mint_account_pubkey
        || accounts[7].key != pool.short_mint_account_pubkey {
        return Err(BettingPoolError::PublicKeyMismatch);
    }
    if accounts[10].key != pool.short_escrow_account_pubkey
        || accounts[9].key != pool.long_escrow_account_pubkey {
        return Err(BettingPoolError::PublicKeyMismatch);
    }
    if collector_long_token.mint != pool.long_mint_account_pubkey
        || collector_short_token.mint != pool.short_mint_account_pubkey {
        return Err(BettingPoolError::IncorrectPoolMint);
    }
    if collector_long_collateral.mint != pool.long_escrow_mint_account_pubkey
        || collector_short_collateral.mint != pool.short_escrow_mint_account_pubkey {
        return Err(BettingPoolError::DifferentCollateralUsed);
    }
    let winner_long = collector_long_token.mint == pool.winning_side_pubkey;
    let winner_short = collector_short_token.mint == pool.winning_side_pubkey;
    let plan = crate::collect::compute_collect(
        pool.circulation,
        winner_long,
        winner_short,
        collector_long_token.amount,
        collector_short_token.amount,
        long_escrow.amount,
        short_escrow.amount,
    )?;
    if plan.reward == 0 {
        return Ok(Outcome { pool, effects: Vec::new() });
    }
    let mut effects: Vec<TokenEffect> = Vec::new();
    effects.push(TokenEffect::TransferSigned {
        source: accounts[9].key,
        destination: accounts[4].key,
        authority: accounts[11].key,
        amount: plan.long_payout,
        bump,
    });
    effects.push(TokenEffect::TransferSigned {
        source: accounts[10].key,
        destination: accounts[5].key,
        authority: accounts[11].key,
        amount: plan.short_payout,
        bump,
    });
    effects.push(TokenEffect::Burn {
        account: accounts[2].key,
        mint: accounts[6].key,
        authority: accounts[1].key,
        amount: plan.burn_long,
    });
    effects.push(TokenEffect::Burn {
        account: accounts[3].key,
        mint: accounts[7].key,
        authority: accounts[1].key,
        amount: plan.burn_short,
    });
    proof {
        assert(effects@ =~= spec_collect_effects(accounts@, plan, bump));
    }
    Ok(Outcome { pool: BettingPool { circulation: plan.new_circulation, ..pool }, effects })
}

/// The effects of a successful `Trade`, in issue order.
///
/// All four regimes burn first, then mint, then release from the escrows,
/// then deposit into them: the buyer's short tokens burn from the buyer's
/// short-token account against the short mint and the seller's long tokens
/// from the seller's long-token account against the long mint; new long
/// tokens mint to the buyer's long-token account and new short tokens to
/// the seller's short-token account; releases leave the short escrow for
/// the buyer's short-collateral account and the long escrow for the
/// seller's long-collateral account; deposits move from the buyer's
/// long-collateral account into the long escrow and from the seller's
/// short-collateral account into the short escrow.  Sub-calls a regime
/// does not need are not issued.
pub open spec fn spec_trade_effects(
    accounts: Seq<LoadedAccount>,
    plan: crate::trade::TradePlan,
    bump: u8,
) -> Seq<TokenEffect> {
    let burn_buyer = TokenEffect::Burn {
        account: accounts[12].key,
        mint: accounts[4].key,
        authority: accounts[5].key,
        amount: plan.buyer_burn,
    };
    let burn_seller = TokenEffect::Burn {
        account: accounts[13].key,
        mint: accounts[3].key,
        authority: accounts[6].key,
        amount: plan.seller_burn,
    };
    let mint_buyer = TokenEffect::MintTo {
        mint: accounts[3].key,
        destination: accounts[11].key,
        authority: accounts[15].key,
        amount: plan.buyer_mint,
    };
    let mint_seller = TokenEffect::MintTo {
        mint: accounts[4].key,
        destination: accounts[14].key,
        authority: accounts[15].key,
        amount: plan.seller_mint,
    };
    let release_buyer = TokenEffect::TransferSigned {
        source: accounts[2].key,
        destination: accounts[8].key,
        authority: accounts[16].key,
        amount: plan.buyer_release,
        bump,
    };
    let release_seller = TokenEffect::TransferSigned {
        source: accounts[1].key,
        destination: accounts[9].key,
        authority: accounts[16].key,
        amount: plan.seller_release,
        bump,
    };
    let deposit_buyer = TokenEffect::Transfer {
        source: accounts[7].key,
        destination: accounts[1].key,
        authority: accounts[5].key,
        amount: plan.buyer_deposit,
    };
    let deposit_seller = TokenEffect::Transfer {
        source: accounts[10].key,
        destination: accounts[2].key,
        authority: accounts[6].key,
        amount: plan.seller_deposit,
    };
    match plan.regime {
        crate::trade::TradeRegime::BothClose => seq![
            burn_buyer,
            burn_seller,
            release_buyer,
            release_seller,
        ],
        crate::trade::TradeRegime::BothOpen => seq![
            burn_buyer,
            burn_seller,
            mint_buyer,
            mint_seller,
            release_buyer,
            release_seller,
            deposit_buyer,
            deposit_seller,
        ],
        crate::trade::TradeRegime::BuyerCloses => seq![
            burn_buyer,
            burn_seller,
            mint_seller,
            release_buyer,
            release_seller,
            deposit_seller,
        ],
        crate::trade::TradeRegime::BuyerOpens => seq![
            burn_seller,
            burn_buyer,
            mint_buyer,
            release_buyer,
            release_seller,
            deposit_buyer,
        ],
    }
}

/// The account and key checks of `Trade`, after the pool is read and the
/// accounts parse: the mints are the pool's and under the one mint
/// authority, every party-side account belongs to its party, the outcome
/// token accounts and collateral accounts are denominated correctly, and
/// the escrow authority matches its derivation.
pub open spec fn spec_trade_checks(
    pool: BettingPool,
    accounts: Seq<LoadedAccount>,
    long_mint: crate::spl::MintInfo,
    short_mint: crate::spl::MintInfo,
    buyer_long_token: crate::spl::TokenAccountInfo,
    buyer_short_token: crate::spl::TokenAccountInfo,
    seller_long_token: crate::spl::TokenAccountInfo,
    seller_short_token: crate::spl::TokenAccountInfo,
    buyer_long_collateral: crate::spl::TokenAccountInfo,
    buyer_short_collateral: crate::spl::TokenAccountInfo,
    seller_long_collateral: crate::spl::TokenAccountInfo,
    seller_short_collateral: crate::spl::TokenAccountInfo,
    token_program_id: Pubkey,
    derived_escrow_authority: Pubkey,
) -> Result<(), BettingPoolError> {
    match spec_mint_authority_check(long_mint, accounts[15].key) {
        Err(e) => Err(e),
        Ok(_) => match spec_mint_authority_check(short_mint, accounts[15].key) {
            Err(e) => Err(e),
            Ok(_) => if accounts[3].owner != token_program_id
                || accounts[4].owner != token_program_id {
                Err(BettingPoolError::IncorrectOwner)
            } else if buyer_long_token.owner != accounts[5].key
                || buyer_short_token.owner != accounts[5].key
                || seller_long_token.owner != accounts[6].key
                || seller_short_token.owner != accounts[6].key
                || buyer_long_collateral.owner != accounts[5].key
                || buyer_short_collateral.owner != accounts[5].key
                || seller_long_collateral.owner != accounts[6].key
                || seller_short_collateral.owner != accounts[6].key {
                Err(BettingPoolError::InvalidOwner)
            } else if derived_escrow_authority != accounts[16].key {
                Err(BettingPoolError::PublicKeyMismatch)
            } else if accounts[3].key != pool.long_mint_account_pubkey
                || accounts[4].key != pool.short_mint_account_pubkey {
                Err(BettingPoolError::PublicKeyMismatch)
            } else if accounts[2].key != pool.short_escrow_account_pubkey
                || accounts[1].key != pool.long_escrow_account_pubkey {
                Err(BettingPoolError::PublicKeyMismatch)
            } else if buyer_long_token.mint != pool.long_mint_account_pubkey
                || buyer_short_token.mint != pool.short_mint_account_pubkey
                || seller_long_token.mint != pool.long_mint_account_pubkey
                || seller_short_token.mint != pool.short_mint_account_pubkey {
                Err(BettingPoolError::IncorrectPoolMint)
            } else if buyer_long_collateral.mint != pool.long_escrow_mint_account_pubkey
                || buyer_short_collateral.mint != pool.short_escrow_mint_account_pubkey
                || seller_long_collateral.mint != pool.long_escrow_mint_account_pubkey
                || seller_short_collateral.mint != pool.short_escrow_mint_account_pubkey {
                Err(BettingPoolError::DifferentCollateralUsed)
            } else {
                Ok(())
            },
        },
    }
}

/// The `Trade` transition.
///
/// Accounts, in order: pool, long escrow account, short escrow account,
/// long mint, short mint, buyer, seller, buyer's long-collateral account,
/// buyer's short-collateral account, seller's long-collateral account,
/// seller's short-collateral account, buyer's long-token account, buyer's
/// short-token account, seller's long-token account, seller's short-token
/// account, mint authority, escrow authority, token module.
///
/// A settled pool refuses every trade with `AlreadySettled`.  Otherwise,
/// after the checks of [`spec_trade_checks`], the trade falls into one of
/// the four netting regimes of [`crate::trade::spec_compute_trade`],
/// driven by the buyer's short-token balance and the seller's long-token
/// balance, and the plan's burns, mints, releases and deposits are issued
/// as [`spec_trade_effects`] lists them.
pub open spec fn spec_process_trade(
    program_id: Pubkey,
    token_program_id: Pubkey,
    accounts: Seq<LoadedAccount>,
    size: u64,
    buy_price: u64,
    sell_price: u64,
) -> Result<(BettingPool, Seq<TokenEffect>), BettingPoolError> {
    if accounts.len() < 18 {
        Err(BettingPoolError::ExpectedAccount)
    } else {
        match BettingPool::spec_from_account(accounts[0]) {
            None => Err(BettingPoolError::AccountNotInitialized),
            Some(pool) => if pool.settled {
                Err(BettingPoolError::AlreadySettled)
            } else if accounts[17].key != token_program_id {
                Err(BettingPoolError::IncorrectTokenProgramId)
            } else {
                match (
                    spec_initialized_mint(accounts[3]),
                    spec_initialized_mint(accounts[4]),
                    spec_initialized_token_account(accounts[11]),
                    spec_initialized_token_account(accounts[12]),
                    spec_initialized_token_account(accounts[13]),
                    spec_initialized_token_account(accounts[14]),
                ) {
                    (Err(e), _, _, _, _, _) => Err(e),
                    (_, Err(e), _, _, _, _) => Err(e),
                    (_, _, Err(e), _, _, _) => Err(e),
                    (_, _, _, Err(e), _, _) => Err(e),
                    (_, _, _, _, Err(e), _) => Err(e),
                    (_, _, _, _, _, Err(e)) => Err(e),
                    (
                        Ok(long_mint),
                        Ok(short_mint),
                        Ok(buyer_long_token),
                        Ok(buyer_short_token),
                        Ok(seller_long_token),
                        Ok(seller_short_token),
                    ) => match (
                        spec_initialized_token_account(accounts[7]),
                        spec_initialized_token_account(accounts[8]),
                        spec_initialized_token_account(accounts[9]),
                        spec_initialized_token_account(accounts[10]),
                    ) {
                        (Err(e), _, _, _) => Err(e),
                        (_, Err(e), _, _) => Err(e),
                        (_, _, Err(e), _) => Err(e),
                        (_, _, _, Err(e)) => Err(e),
                        (
                            Ok(buyer_long_collateral),
                            Ok(buyer_short_collateral),
                            Ok(seller_long_collateral),
                            Ok(seller_short_collateral),
                        ) => match spec_escrow_authority(
                            accounts[3].key,
                            accounts[4].key,
                            token_program_id,
                            program_id,
                        ) {
                            None => Err(BettingPoolError::InvalidProgramAddress),
                            Some((derived_escrow_authority, bump)) => match spec_trade_checks(
                                pool,
                                accounts,
                                long_mint,
                                short_mint,
                                buyer_long_token,
                                buyer_short_token,
                                seller_long_token,
                                seller_short_token,
                                buyer_long_collateral,
                                buyer_short_collateral,
                                seller_long_collateral,
                                seller_short_collateral,
                                token_program_id,
                                derived_escrow_authority,
                            ) {
                                Err(e) => Err(e),
                                Ok(_) => match crate::trade::spec_compute_trade(
                                    pool.circulation,
                                    size,
                                    buy_price,
                                    sell_price,
                                    buyer_short_token.amount,
                                    seller_long_token.amount,
                                ) {
                                    Err(e) => Err(e),
                                    Ok(plan) => Ok(
                                        (
                                            BettingPool {
                                                circulation: plan.new_circulation,
                                                ..pool
                                            },
                                            spec_trade_effects(accounts, plan, bump),
                                        ),
                                    ),
                                },
                            },
                        },
                    },
                }
            },
        }
    }
}

/// Trades `size` outcome-token pairs between a buyer and a seller.  See
/// [`spec_process_trade`].
pub fn process_trade(
    program_id: &Pubkey,
    token_program_id: &Pubkey,
    accounts: &Vec<LoadedAccount>,
    size: u64,
    buy_price: u64,
    sell_price: u64,
) -> (r: Result<Outcome, BettingPoolError>)
    ensures
        outcome_matches(
            r,
            spec_process_trade(
                *program_id,
                *token_program_id,
                accounts@,
                size,
                buy_price,
                sell_price,
            ),
        ),
{
    if accounts.len() < 18 {
        return Err(BettingPoolError::ExpectedAccount);
    }
    let pool = BettingPool::from_account_info(&accounts[0])?;
    if pool.settled {
        return Err(BettingPoolError::AlreadySettled);
    }
    if accounts[17].key != *token_program_id {
        return Err(BettingPoolError::IncorrectTokenProgramId);
    }
    let long_mint = assert_initialized_mint(&accounts[3])?;
    let short_mint = assert_initialized_mint(&accounts[4])?;
    let buyer_long_token = assert_initialized_token_account(&accounts[11])?;
    let buyer_short_token = assert_initialized_token_account(&accounts[12])?;
    let seller_long_token = assert_initialized_token_account(&accounts[13])?;
    let seller_short_token = assert_initialized_token_account(&accounts[14])?;
    let buyer_long_collateral = assert_initialized_token_account(&accounts[7])?;
    let buyer_short_collateral = assert_initialized_token_account(&accounts[8])?;
    let seller_long_collateral = assert_initialized_token_account(&accounts[9])?;
    let seller_short_collateral = assert_initialized_token_account(&accounts[10])?;
    let (derived_escrow_authority, bump) = match derive_escrow_authority(
        &accounts[3].key,
        &accounts[4].key,
        token_program_id,
        program_id,
    ) {
        Some(p) => p,
        None => { return Err(BettingPoolError::InvalidProgramAddress); },
    };
    assert_mint_authority_matches_mint(&long_mint, &accounts[15].key)?;
    assert_mint_authority_matches_mint(&short_mint, &accounts[15].key)?;
    if accounts[3].owner != *token_program_id || accounts[4].owner != *token_program_id {
        return Err(BettingPoolError::IncorrectOwner);
    }
    if buyer_long_token.owner != accounts[5].key || buyer_short_token.owner != accounts[5].key
        || seller_long_token.owner != accounts[6].key
        || seller_short_token.owner != accounts[6].key
        || buyer_long_collateral.owner != accounts[5].key
        || buyer_short_collateral.owner != accounts[5].key
        || seller_long_collateral.owner != accounts[6].key
        || seller_short_collateral.owner != accounts[6].key {
        return Err(BettingPoolError::InvalidOwner);
    }
    assert_keys_equal(derived_escrow_authority, accounts[16].key)?;
    if accounts[3].key != pool.long_mint_account_pubkey
        || accounts[4].key != pool.short_mint_account_pubkey {
        return Err(BettingPoolError::PublicKeyMismatch);
    }
    if accounts[2].key != pool.short_escrow_account_pubkey
        || accounts[1].key != pool.long_escrow_account_pubkey {
        return Err(BettingPoolError::PublicKeyMismatch);
    }
    if buyer_long_token.mint != pool.long_mint_account_pubkey
        || buyer_short_token.mint != pool.short_mint_account_pubkey
        || seller_long_token.mint != pool.long_mint_account_pubkey
        || seller_short_token.mint != pool.short_mint_account_pubkey {
        return Err(BettingPoolError::IncorrectPoolMint);
    }
    if buyer_long_collateral.mint != pool.long_escrow_mint_account_pubkey
        || buyer_short_collateral.mint != pool.short_escrow_mint_account_pubkey
        || seller_long_collateral.mint != pool.long_escrow_mint_account_pubkey
        || seller_short_collateral.mint != pool.short_escrow_mint_account_pubkey {
        return Err(BettingPoolError::DifferentCollateralUsed);
    }
    let plan = crate::trade::compute_trade(
        pool.circulation,
        size,
        buy_price,
        sell_price,
        buyer_short_token.amount,
        seller_long_token.amount,
    )?;
    let burn_buyer = TokenEffect::Burn {
        account: accounts[12].key,
        mint: accounts[4].key,
        authority: accounts[5].key,
        amount: plan.buyer_burn,
    };
    let burn_seller = TokenEffect::Burn {
        account: accounts[13].key,
        mint: accounts[3].key,
        authority: accounts[6].key,
        amount: plan.seller_burn,
    };
    let mint_buyer = TokenEffect::MintTo {
        mint: accounts[3].key,
        destination: accounts[11].key,
        authority: accounts[15].key,
        amount: plan.buyer_mint,
    };
    let mint_seller = TokenEffect::MintTo {
        mint: accounts[4].key,
        destination: accounts[14].key,
        authority: accounts[15].key,
        amount: plan.seller_mint,
    };
    let release_buyer = TokenEffect::TransferSigned {
        source: accounts[2].key,
        destination: accounts[8].key,
        authority: accounts[16].key,
        amount: plan.buyer_release,
        bump,
    };
    let release_seller = TokenEffect::TransferSigned {
        source: accounts[1].key,
        destination: accounts[9].key,
        authority: accounts[16].key,
        amount: plan.seller_release,
        bump,
    };
    let deposit_buyer = TokenEffect::Transfer {
        source: accounts[7].key,
        destination: accounts[1].key,
        authority: accounts[5].key,
        amount: plan.buyer_deposit,
    };
    let deposit_seller = TokenEffect::Transfer {
        source: accounts[10].key,
        destination: accounts[2].key,
        authority: accounts[6].key,
        amount: plan.seller_deposit,
    };
    let mut effects: Vec<TokenEffect> = Vec::new();
    match plan.regime {
        crate::trade::TradeRegime::BothClose => {
            effects.push(burn_buyer);
            effects.push(burn_seller);
            effects.push(release_buyer);
            effects.push(release_seller);
        },
        crate::trade::TradeRegime::BothOpen => {
            effects.push(burn_buyer);
            effects.push(burn_seller);
            effects.push(mint_buyer);
            effects.push(mint_seller);
            effects.push(release_buyer);
            effects.push(release_seller);
            effects.push(deposit_buyer);
            effects.push(deposit_seller);
        },
        crate::trade::TradeRegime::BuyerCloses => {
            effects.push(burn_buyer);
            effects.push(burn_seller);
            effects.push(mint_seller);
            effects.push(release_buyer);
            effects.push(release_seller);
            effects.push(deposit_seller);
        },
        crate::trade::TradeRegime::BuyerOpens => {
            effects.push(burn_seller);
            effects.push(burn_buyer);
            effects.push(mint_buyer);
            effects.push(release_buyer);
            effects.push(release_seller);
            effects.push(deposit_buyer);
        },
    }
    proof {
        assert(effects@ =~= spec_trade_effects(accounts@, plan, bump));
    }
    Ok(Outcome { pool: BettingPool { circulation: plan.new_circulation, ..pool }, effects })
}

/// The `Settle` transition.
///
/// Accounts, in order: pool, winning mint, update authority (signer).
/// The signer must be the mint authority recorded on the winning mint, and
/// the winning mint one of the pool's two outcome mints.  Settling an
/// already settled pool again with the same winner is a no-op; with the
/// other side it fails with `AlreadySettled`.  No sub-calls are issued.
pub open spec fn spec_process_settle(accounts: Seq<LoadedAccount>) -> Result<
    (BettingPool, Seq<TokenEffect>),
    BettingPoolError,
> {
    if accounts.len() < 3 {
        Err(BettingPoolError::ExpectedAccount)
    } else {
        let pool_account = accounts[0];
        let winning_mint_account = accounts[1];
        let update_authority = accounts[2];
        match BettingPool::spec_from_account(pool_account) {
            None => Err(BettingPoolError::AccountNotInitialized),
            Some(pool) => match spec_initialized_mint(winning_mint_account) {
                Err(e) => Err(e),
                Ok(winning_mint) => if !update_authority.is_signer {
                    Err(BettingPoolError::NotMintAuthority)
                } else {
                    match spec_mint_authority_check(winning_mint, update_authority.key) {
                        Err(e) => Err(e),
                        Ok(_) => if winning_mint_account.key != pool.long_mint_account_pubkey
                            && winning_mint_account.key != pool.short_mint_account_pubkey {
                            Err(BettingPoolError::InvalidWinner)
                        } else if pool.settled {
                            if pool.winning_side_pubkey == winning_mint_account.key {
                                Ok((pool, Seq::empty()))
                            } else {
                                Err(BettingPoolError::AlreadySettled)
                            }
                        } else {
                            Ok((
                                BettingPool {
                                    settled: true,
                                    winning_side_pubkey: winning_mint_account.key,
                                    ..pool
                                },
                                Seq::empty(),
                            ))
                        },
                    }
                },
            },
        }
    }
}

/// Settles the pool on a winning mint.  See [`spec_process_settle`].
pub fn process_settle(_program_id: &Pubkey, accounts: &Vec<LoadedAccount>) -> (r: Result<
    Outcome,
    BettingPoolError,
>)
    ensures
        outcome_matches(r, spec_process_settle(accounts@)),
{
    if accounts.len() < 3 {
        return Err(BettingPoolError::ExpectedAccount);
    }
    let pool = BettingPool::from_account_info(&accounts[0])?;
    let winning_mint = assert_initialized_mint(&accounts[1])?;
    if !accounts[2].is_signer {
        return Err(BettingPoolError::NotMintAuthority);
    }
    assert_mint_authority_matches_mint(&winning_mint, &accounts[2].key)?;
    if accounts[1].key != pool.long_mint_account_pubkey
        && accounts[1].key != pool.short_mint_account_pubkey {
        return Err(BettingPoolError::InvalidWinner);
    }
    if pool.settled {
        if pool.winning_side_pubkey == accounts[1].key {
            return Ok(Outcome { pool, effects: Vec::new() });
        }
        return Err(BettingPoolError::AlreadySettled);
    }
    Ok(Outcome {
        pool: BettingPool { settled: true, winning_side_pubkey: accounts[1].key, ..pool },
        effects: Vec::new(),
    })
}

/// One whole transaction: the payload decoded, then the named operation.
pub open spec fn spec_process(
    program_id: Pubkey,
    token_program_id: Pubkey,
    accounts: Seq<LoadedAccount>,
    instruction_data: Seq<u8>,
) -> Result<(BettingPool, Seq<TokenEffect>), BettingPoolError> {
    match crate::instruction::BettingPoolInstruction::spec_decode(instruction_data) {
        None => Err(BettingPoolError::InvalidInstruction),
        Some(i) => match i {
            crate::instruction::BettingPoolInstruction::InitializeBettingPool =>
                spec_process_initialize(program_id, token_program_id, accounts),
            crate::instruction::BettingPoolInstruction::Trade(a) => spec_process_trade(
                program_id,
                token_program_id,
                accounts,
                a.size,
                a.buy_price,
                a.sell_price,
            ),
            crate::instruction::BettingPoolInstruction::Settle => spec_process_settle(accounts),
            crate::instruction::BettingPoolInstruction::Collect => spec_process_collect(
                program_id,
                token_program_id,
                accounts,
            ),
        },
    }
}

/// The instruction dispatcher.
pub struct Processor;

impl Processor {
    /// Runs one transaction: decodes the opcode-tagged payload and hands
    /// the account list to the named operation.  See [`spec_process`].
    pub fn process(
        program_id: &Pubkey,
        token_program_id: &Pubkey,
        accounts: &Vec<LoadedAccount>,
        instruction_data: &[u8],
    ) -> (r: Result<Outcome, BettingPoolError>)
        ensures
            outcome_matches(
                r,
                spec_process(*program_id, *token_program_id, accounts@, instruction_data@),
            ),
    {
        let instruction = crate::instruction::BettingPoolInstruction::try_from_slice(
            instruction_data,
        )?;
        match instruction {
            crate::instruction::BettingPoolInstruction::InitializeBettingPool =>
                process_initialize_betting_pool(program_id, token_program_id, accounts),
            crate::instruction::BettingPoolInstruction::Trade(a) => process_trade(
                program_id,
                token_program_id,
                accounts,
                a.size,
                a.buy_price,
                a.sell_price,
            ),
            crate::instruction::BettingPoolInstruction::Settle => process_settle(
                program_id,
                accounts,
            ),
            crate::instruction::BettingPoolInstruction::Collect => process_collect(
                program_id,
                token_program_id,
                accounts,
            ),
        }
    }
}

} // verus!
