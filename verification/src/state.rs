//! The persistent pool record, its invariants and its on-disk form.
//!
//! One `BettingPool` exists per market.  It is created and zero-initialized
//! by `Initialize`, mutated only by `Trade`, `Settle` and `Collect`, and
//! never deleted.  Its byte form is fixed and position-for-position:
//! `circulation` (8 bytes little-endian), `settled` (1 byte, 0 or 1),
//! then seven 32-byte identities, 233 bytes in all.  A pool account may
//! reserve trailing bytes beyond the record but never fewer.

use vstd::prelude::*;
use vstd::bytes::*;
use vstd::slice::slice_subrange;
use crate::keys::Pubkey;
use crate::accounts::LoadedAccount;
use crate::error::BettingPoolError;

verus! {

/// The length in bytes of a serialized pool record.
pub const POOL_LEN: usize = 233;

/// The persistent record of one market.
#[derive(Clone, Copy, PartialEq, Eq, Structural, Debug)]
pub struct BettingPool {
    /// Total outstanding outcome-token pairs: long supply and short supply
    /// are always equal to each other and to this count.
    pub circulation: u64,
    /// False until `Settle` runs; locks `Trade` once true.
    pub settled: bool,
    /// Zero until `Settle`; thereafter one of the two outcome mints.
    pub winning_side_pubkey: Pubkey,
    /// The collateral mint of the long side.
    pub long_escrow_mint_account_pubkey: Pubkey,
    /// The collateral mint of the short side.
    pub short_escrow_mint_account_pubkey: Pubkey,
    /// The pool's escrow holding the long side's collateral.
    pub long_escrow_account_pubkey: Pubkey,
    /// The pool's escrow holding the short side's collateral.
    pub short_escrow_account_pubkey: Pubkey,
    /// The long outcome-token mint.
    pub long_mint_account_pubkey: Pubkey,
    /// The short outcome-token mint.
    pub short_mint_account_pubkey: Pubkey,
}

impl BettingPool {
    /// The fixed byte form of this record.
    pub open spec fn spec_serialize(self) -> Seq<u8> {
        spec_u64_to_le_bytes(self.circulation)
            + seq![if self.settled { 1u8 } else { 0u8 }]
            + self.winning_side_pubkey.spec_bytes()
            + self.long_escrow_mint_account_pubkey.spec_bytes()
            + self.short_escrow_mint_account_pubkey.spec_bytes()
            + self.long_escrow_account_pubkey.spec_bytes()
            + self.short_escrow_account_pubkey.spec_bytes()
            + self.long_mint_account_pubkey.spec_bytes()
            + self.short_mint_account_pubkey.spec_bytes()
    }

    /// The record read from a 233-byte buffer, or `None` where the buffer
    /// has the wrong length or a `settled` byte that is neither 0 nor 1.
    pub open spec fn spec_deserialize(s: Seq<u8>) -> Option<BettingPool> {
        if s.len() != 233 {
            None
        } else if s[8] != 0 && s[8] != 1 {
            None
        } else {
            Some(BettingPool {
                circulation: spec_u64_from_le_bytes(s.subrange(0, 8)),
                settled: s[8] == 1,
                winning_side_pubkey: Pubkey::spec_from_bytes(s.subrange(9, 41)),
                long_escrow_mint_account_pubkey: Pubkey::spec_from_bytes(s.subrange(41, 73)),
                short_escrow_mint_account_pubkey: Pubkey::spec_from_bytes(s.subrange(73, 105)),
                long_escrow_account_pubkey: Pubkey::spec_from_bytes(s.subrange(105, 137)),
                short_escrow_account_pubkey: Pubkey::spec_from_bytes(s.subrange(137, 169)),
                long_mint_account_pubkey: Pubkey::spec_from_bytes(s.subrange(169, 201)),
                short_mint_account_pubkey: Pubkey::spec_from_bytes(s.subrange(201, 233)),
            })
        }
    }

    /// Writes the fixed 233-byte form of this record.
    pub fn serialize(&self) -> (r: Vec<u8>)
        ensures
            r@ == self.spec_serialize(),
            r@.len() == 233,
    {
        let mut r = u64_to_le_bytes(self.circulation);
        r.push(if self.settled { 1u8 } else { 0u8 });
        let mut b = self.winning_side_pubkey.to_bytes();
        r.append(&mut b);
        let mut b = self.long_escrow_mint_account_pubkey.to_bytes();
        r.append(&mut b);
        let mut b = self.short_escrow_mint_account_pubkey.to_bytes();
        r.append(&mut b);
        let mut b = self.long_escrow_account_pubkey.to_bytes();
        r.append(&mut b);
        let mut b = self.short_escrow_account_pubkey.to_bytes();
        r.append(&mut b);
        let mut b = self.long_mint_account_pubkey.to_bytes();
        r.append(&mut b);
        let mut b = self.short_mint_account_pubkey.to_bytes();
        r.append(&mut b);
        proof {
            assert(r@ =~= self.spec_serialize());
            lemma_pool_serialize_len(*self);
        }
        r
    }

    /// Reads a record from exactly one serialized pool, 233 bytes.
    pub fn try_from_slice(v: &[u8]) -> (r: Result<BettingPool, BettingPoolError>)
        ensures
            match r {
                Ok(p) => BettingPool::spec_deserialize(v@) == Some(p),
                Err(e) => BettingPool::spec_deserialize(v@) is None
                    && e == BettingPoolError::AccountNotInitialized,
            },
    {
        if v.len() != POOL_LEN {
            return Err(BettingPoolError::AccountNotInitialized);
        }
        let settled_byte = *vstd::slice::slice_index_get(v, 8);
        if settled_byte != 0 && settled_byte != 1 {
            return Err(BettingPoolError::AccountNotInitialized);
        }
        let circulation = u64_from_le_bytes(slice_subrange(v, 0, 8));
        let winning_side_pubkey = Pubkey::from_bytes(slice_subrange(v, 9, 41));
        let long_escrow_mint_account_pubkey = Pubkey::from_bytes(slice_subrange(v, 41, 73));
        let short_escrow_mint_account_pubkey = Pubkey::from_bytes(slice_subrange(v, 73, 105));
        let long_escrow_account_pubkey = Pubkey::from_bytes(slice_subrange(v, 105, 137));
        let short_escrow_account_pubkey = Pubkey::from_bytes(slice_subrange(v, 137, 169));
        let long_mint_account_pubkey = Pubkey::from_bytes(slice_subrange(v, 169, 201));
        let short_mint_account_pubkey = Pubkey::from_bytes(slice_subrange(v, 201, 233));
        Ok(BettingPool {
            circulation,
            settled: settled_byte == 1,
            winning_side_pubkey,
            long_escrow_mint_account_pubkey,
            short_escrow_mint_account_pubkey,
            long_escrow_account_pubkey,
            short_escrow_account_pubkey,
            long_mint_account_pubkey,
            short_mint_account_pubkey,
        })
    }

    /// The record held in a loaded pool account: the first 233 bytes of its
    /// data, which may reserve trailing bytes beyond the record.
    pub open spec fn spec_from_account(a: LoadedAccount) -> Option<BettingPool> {
        if a.data@.len() < 233 {
            None
        } else {
            BettingPool::spec_deserialize(a.data@.subrange(0, 233))
        }
    }

    /// Reads the pool record out of a loaded pool account.
    pub fn from_account_info(a: &LoadedAccount) -> (r: Result<BettingPool, BettingPoolError>)
        ensures
            match r {
                Ok(p) => BettingPool::spec_from_account(*a) == Some(p),
                Err(e) => BettingPool::spec_from_account(*a) is None
                    && e == BettingPoolError::AccountNotInitialized,
            },
    {
        if a.data.len() < POOL_LEN {
            return Err(BettingPoolError::AccountNotInitialized);
        }
        BettingPool::try_from_slice(slice_subrange(a.data.as_slice(), 0, POOL_LEN))
    }

    /// Adds `n` newly minted outcome-token pairs to the circulation count.
    pub fn increment_supply(&mut self, n: u64)
        requires
            old(self).circulation + n <= u64::MAX,
        ensures
            final(self).circulation == old(self).circulation + n,
            *final(self) == (BettingPool { circulation: final(self).circulation, ..*old(self) }),
    {
        self.circulation = self.circulation + n;
    }

    /// Removes `n` burned outcome-token pairs from the circulation count.
    /// Fails with `InvalidSupply`, leaving the record unchanged, exactly
    /// when `n` exceeds the circulation.
    pub fn decrement_supply(&mut self, n: u64) -> (r: Result<(), BettingPoolError>)
        ensures
            n > old(self).circulation ==> r == Err::<(), BettingPoolError>(
                BettingPoolError::InvalidSupply,
            ) && *final(self) == *old(self),
            n <= old(self).circulation ==> (r is Ok),
            n <= old(self).circulation ==> final(self).circulation == old(self).circulation - n
                && *final(self) == (BettingPool {
                circulation: final(self).circulation,
                ..*old(self)
            }),
    {
        if self.circulation < n {
            return Err(BettingPoolError::InvalidSupply);
        }
        self.circulation = self.circulation - n;
        Ok(())
    }
}

/// A serialized pool record is 233 bytes long.
pub proof fn lemma_pool_serialize_len(p: BettingPool)
    ensures
        p.spec_serialize().len() == 233,
{
    lemma_auto_spec_u64_to_from_le_bytes();
}

/// Serializing a record and reading it back yields the record itself; the
/// bytes of a re-serialization are therefore identical to the first.
pub proof fn lemma_pool_round_trip(p: BettingPool)
    ensures
        BettingPool::spec_deserialize(p.spec_serialize()) == Some(p),
{
    lemma_auto_spec_u64_to_from_le_bytes();
    let s = p.spec_serialize();
    assert(s.len() == 233);
    assert(s.subrange(0, 8) =~= spec_u64_to_le_bytes(p.circulation));
    assert(s[8] == if p.settled { 1u8 } else { 0u8 });
    assert(s.subrange(9, 41) =~= p.winning_side_pubkey.spec_bytes());
    assert(s.subrange(41, 73) =~= p.long_escrow_mint_account_pubkey.spec_bytes());
    assert(s.subrange(73, 105) =~= p.short_escrow_mint_account_pubkey.spec_bytes());
    assert(s.subrange(105, 137) =~= p.long_escrow_account_pubkey.spec_bytes());
    assert(s.subrange(137, 169) =~= p.short_escrow_account_pubkey.spec_bytes());
    assert(s.subrange(169, 201) =~= p.long_mint_account_pubkey.spec_bytes());
    assert(s.subrange(201, 233) =~= p.short_mint_account_pubkey.spec_bytes());
    p.winning_side_pubkey.lemma_from_to_bytes();
    p.long_escrow_mint_account_pubkey.lemma_from_to_bytes();
    p.short_escrow_mint_account_pubkey.lemma_from_to_bytes();
    p.long_escrow_account_pubkey.lemma_from_to_bytes();
    p.short_escrow_account_pubkey.lemma_from_to_bytes();
    p.long_mint_account_pubkey.lemma_from_to_bytes();
    p.short_mint_account_pubkey.lemma_from_to_bytes();
}

/// Reading a valid 233-byte buffer and serializing the record again yields
/// the buffer itself: the byte form is canonical.
pub proof fn lemma_pool_round_trip_bytes(s: Seq<u8>)
    requires
        BettingPool::spec_deserialize(s) is Some,
    ensures
        BettingPool::spec_deserialize(s)->Some_0.spec_serialize() == s,
{
    lemma_auto_spec_u64_to_from_le_bytes();
    let p = BettingPool::spec_deserialize(s)->Some_0;
    Pubkey::lemma_to_from_bytes(s.subrange(9, 41));
    Pubkey::lemma_to_from_bytes(s.subrange(41, 73));
    Pubkey::lemma_to_from_bytes(s.subrange(73, 105));
    Pubkey::lemma_to_from_bytes(s.subrange(105, 137));
    Pubkey::lemma_to_from_bytes(s.subrange(137, 169));
    Pubkey::lemma_to_from_bytes(s.subrange(169, 201));
    Pubkey::lemma_to_from_bytes(s.subrange(201, 233));
    assert(spec_u64_to_le_bytes(spec_u64_from_le_bytes(s.subrange(0, 8))) == s.subrange(0, 8));
    assert(p.spec_serialize() =~= s);
}

} // verus!
