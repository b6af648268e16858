//! Models of the externally loaded accounts and of the emitted sub-calls.
//!
//! The host hands each transaction an ordered list of loaded account
//! buffers.  A processor reads them, decides, and returns the new pool
//! record together with the exact ordered list of token-module sub-calls to
//! issue; the host performs the sub-calls and commits or discards the whole
//! transaction atomically.

use vstd::prelude::*;
use crate::keys::Pubkey;

verus! {

/// One externally loaded account, as the host hands it to a processor.
pub struct LoadedAccount {
    /// The account's address.
    pub key: Pubkey,
    /// The program that owns the account.
    pub owner: Pubkey,
    /// Whether the account signed the transaction.
    pub is_signer: bool,
    /// The account's data buffer.
    pub data: Vec<u8>,
}

/// One token-module sub-call, in the order the processor issues it.
///
/// `CreateEscrowAccount` and `CreatePoolAccount` go to the system-level
/// account creator; every other variant goes to the token module.  A
/// `TransferSigned` is authorized by the derived escrow authority, whose
/// seeds are the pool's outcome mints, the token module and the program,
/// closed with the bump byte.
#[derive(Clone, Copy, PartialEq, Eq, Structural, Debug)]
pub enum TokenEffect {
    /// Create `target` at the address derived from
    /// `[mint, token_program, program]` and the bump byte, `space` bytes
    /// large and rent-exempt, paid by the update authority.
    CreateEscrowAccount { target: Pubkey, mint: Pubkey, space: u64, bump: u8 },
    /// Create `target` at the address derived from
    /// `[long_mint, short_mint, program]` and the bump byte, `space` bytes
    /// large and rent-exempt, paid by the update authority.
    CreatePoolAccount { target: Pubkey, space: u64, bump: u8 },
    /// Initialize `account` as a token account of `mint` owned by `owner`.
    InitializeAccount { account: Pubkey, mint: Pubkey, owner: Pubkey },
    /// Reassign ownership of `account` from `current_authority` to
    /// `new_authority`.
    SetAuthority { account: Pubkey, new_authority: Pubkey, current_authority: Pubkey },
    /// Mint `amount` tokens of `mint` into `destination`.
    MintTo { mint: Pubkey, destination: Pubkey, authority: Pubkey, amount: u64 },
    /// Burn `amount` tokens of `mint` held in `account`.
    Burn { account: Pubkey, mint: Pubkey, authority: Pubkey, amount: u64 },
    /// Transfer `amount` from `source` to `destination`, authorized by the
    /// owning party.  A zero amount is a no-op for the token module.
    Transfer { source: Pubkey, destination: Pubkey, authority: Pubkey, amount: u64 },
    /// Transfer `amount` from an escrow to `destination`, signed for the
    /// derived escrow authority with the bump byte.  A zero amount is a
    /// no-op for the token module.
    TransferSigned { source: Pubkey, destination: Pubkey, authority: Pubkey, amount: u64, bump: u8 },
}

} // verus!
