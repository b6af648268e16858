//! The error taxonomy of the pool program.
//!
//! Every failure of a processor terminates the transaction with one of these
//! values; none is recovered locally.  Each variant has a stable numeric
//! ordinal, its position in the declaration order, which the host surfaces
//! to the caller as a numeric custom error.

use vstd::prelude::*;

verus! {

/// Everything a pool transaction can fail with.
#[derive(Clone, Copy, PartialEq, Eq, Structural, Debug)]
pub enum BettingPoolError {
    /// The instruction payload did not decode.
    InvalidInstruction,
    /// A product of a size and a price does not fit in 64 bits.
    ExpectedAmountMismatch,
    /// An account key is not one the instruction accepts.
    InvalidAccountKeys,
    /// The instruction was handed fewer accounts than it needs.
    ExpectedAccount,
    /// The outcome mints handed in are not usable as a long/short pair.
    InvalidMints,
    /// An account that must be initialized is not.
    Uninitialized,
    /// An account that must be fresh is already in use.
    AlreadyInUse,
    /// The pool account does not hold a pool record.
    AccountNotInitialized,
    /// A created account would not be rent-exempt.
    NotRentExempt,
    /// A supply decrement exceeds the outstanding circulation.
    InvalidSupply,
    /// An account is not owned by the program that must own it.
    IncorrectOwner,
    /// A token account is not owned by the party that must own it.
    InvalidOwner,
    /// The signer is not the mint authority of the mint in question.
    NotMintAuthority,
    /// The mint in question has no mint authority at all.
    InvalidMintAuthority,
    /// The account supplied as an authority cannot act as one.
    InvalidAuthorityAccount,
    /// The mint's freeze authority is not the expected one.
    InvalidFreezeAuthority,
    /// Two keys that must be equal differ.
    PublicKeyMismatch,
    /// The pool account's key does not match its derived address.
    InvalidPoolKey,
    /// No valid program-derived address exists for the seeds.
    InvalidProgramAddress,
    /// A token account's mint is not the pool's outcome mint for that side.
    IncorrectPoolMint,
    /// The token-module account handed in is not the token module.
    IncorrectTokenProgramId,
    /// The pool is already settled.
    AlreadySettled,
    /// The pool is not settled yet.
    BetNotSettled,
    /// The declared winner is neither of the pool's outcome mints.
    InvalidWinner,
    /// The collector's accounts hold no identifiable winning side.
    TokenNotFoundInPool,
    /// A party's collateral account cannot cover its leg.
    InsufficientFunds,
    /// A party's margin does not support the position.
    InsufficientMargin,
    /// A collateral account is denominated in the wrong escrow currency.
    DifferentCollateralUsed,
    /// The transfer would leave a position liquidatable.
    WouldBeLiquidated,
    /// The transfer happens outside the allowed window.
    InvalidTransferTime,
}

impl BettingPoolError {
    /// The stable numeric ordinal of this variant.
    pub open spec fn spec_code(self) -> u32 {
        match self {
            BettingPoolError::InvalidInstruction => 0,
            BettingPoolError::ExpectedAmountMismatch => 1,
            BettingPoolError::InvalidAccountKeys => 2,
            BettingPoolError::ExpectedAccount => 3,
            BettingPoolError::InvalidMints => 4,
            BettingPoolError::Uninitialized => 5,
            BettingPoolError::AlreadyInUse => 6,
            BettingPoolError::AccountNotInitialized => 7,
            BettingPoolError::NotRentExempt => 8,
            BettingPoolError::InvalidSupply => 9,
            BettingPoolError::IncorrectOwner => 10,
            BettingPoolError::InvalidOwner => 11,
            BettingPoolError::NotMintAuthority => 12,
            BettingPoolError::InvalidMintAuthority => 13,
            BettingPoolError::InvalidAuthorityAccount => 14,
            BettingPoolError::InvalidFreezeAuthority => 15,
            BettingPoolError::PublicKeyMismatch => 16,
            BettingPoolError::InvalidPoolKey => 17,
            BettingPoolError::InvalidProgramAddress => 18,
            BettingPoolError::IncorrectPoolMint => 19,
            BettingPoolError::IncorrectTokenProgramId => 20,
            BettingPoolError::AlreadySettled => 21,
            BettingPoolError::BetNotSettled => 22,
            BettingPoolError::InvalidWinner => 23,
            BettingPoolError::TokenNotFoundInPool => 24,
            BettingPoolError::InsufficientFunds => 25,
            BettingPoolError::InsufficientMargin => 26,
            BettingPoolError::DifferentCollateralUsed => 27,
            BettingPoolError::WouldBeLiquidated => 28,
            BettingPoolError::InvalidTransferTime => 29,
        }
    }

    /// Returns the stable numeric ordinal of this variant.
    pub fn code(&self) -> (r: u32)
        ensures
            r == self.spec_code(),
    {
        match self {
            BettingPoolError::InvalidInstruction => 0,
            BettingPoolError::ExpectedAmountMismatch => 1,
            BettingPoolError::InvalidAccountKeys => 2,
            BettingPoolError::ExpectedAccount => 3,
            BettingPoolError::InvalidMints => 4,
            BettingPoolError::Uninitialized => 5,
            BettingPoolError::AlreadyInUse => 6,
            BettingPoolError::AccountNotInitialized => 7,
            BettingPoolError::NotRentExempt => 8,
            BettingPoolError::InvalidSupply => 9,
            BettingPoolError::IncorrectOwner => 10,
            BettingPoolError::InvalidOwner => 11,
            BettingPoolError::NotMintAuthority => 12,
            BettingPoolError::InvalidMintAuthority => 13,
            BettingPoolError::InvalidAuthorityAccount => 14,
            BettingPoolError::InvalidFreezeAuthority => 15,
            BettingPoolError::PublicKeyMismatch => 16,
            BettingPoolError::InvalidPoolKey => 17,
            BettingPoolError::InvalidProgramAddress => 18,
            BettingPoolError::IncorrectPoolMint => 19,
            BettingPoolError::IncorrectTokenProgramId => 20,
            BettingPoolError::AlreadySettled => 21,
            BettingPoolError::BetNotSettled => 22,
            BettingPoolError::InvalidWinner => 23,
            BettingPoolError::TokenNotFoundInPool => 24,
            BettingPoolError::InsufficientFunds => 25,
            BettingPoolError::InsufficientMargin => 26,
            BettingPoolError::DifferentCollateralUsed => 27,
            BettingPoolError::WouldBeLiquidated => 28,
            BettingPoolError::InvalidTransferTime => 29,
        }
    }
}

} // verus!
