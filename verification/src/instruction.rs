//! The instruction envelope: a tagged union, little-endian, no padding.
//!
//! The tag is a single byte: 0 `InitializeBettingPool`, 1 `Trade`,
//! 2 `Settle`, 3 `Collect`.  `Trade` is followed by three little-endian
//! 64-bit unsigned integers in the order `size`, `buy_price`, `sell_price`.
//! Decoding consumes the whole payload; anything else is
//! `InvalidInstruction`.

use vstd::prelude::*;
use vstd::bytes::*;
use vstd::slice::slice_subrange;
use crate::error::BettingPoolError;

verus! {

/// The arguments of a `Trade` instruction.
#[derive(Clone, Copy, PartialEq, Eq, Structural, Debug)]
pub struct TradeArgs {
    /// The number of outcome-token pairs the trade moves.
    pub size: u64,
    /// What the buyer pays per unit of long exposure added, and what a
    /// short-reducer receives per unit.
    pub buy_price: u64,
    /// The symmetric price for the seller side.
    pub sell_price: u64,
}

/// One decoded transaction payload.
#[derive(Clone, Copy, PartialEq, Eq, Structural, Debug)]
pub enum BettingPoolInstruction {
    /// Create a pool and its two escrows.
    InitializeBettingPool,
    /// Move a buyer's and a seller's positions by the traded size.
    Trade(TradeArgs),
    /// Declare the winning outcome mint and lock trading.
    Settle,
    /// Pay a holder of winning tokens out of the escrows.
    Collect,
}

impl BettingPoolInstruction {
    /// The exact byte form of this payload.
    pub open spec fn spec_encode(self) -> Seq<u8> {
        match self {
            BettingPoolInstruction::InitializeBettingPool => seq![0u8],
            BettingPoolInstruction::Trade(a) => seq![1u8] + spec_u64_to_le_bytes(a.size)
                + spec_u64_to_le_bytes(a.buy_price) + spec_u64_to_le_bytes(a.sell_price),
            BettingPoolInstruction::Settle => seq![2u8],
            BettingPoolInstruction::Collect => seq![3u8],
        }
    }

    /// The payload read from a byte buffer, or `None` where the tag is
    /// unknown or the length is not exactly the variant's own.
    pub open spec fn spec_decode(s: Seq<u8>) -> Option<BettingPoolInstruction> {
        if s.len() == 0 {
            None
        } else if s[0] == 0 && s.len() == 1 {
            Some(BettingPoolInstruction::InitializeBettingPool)
        } else if s[0] == 1 && s.len() == 25 {
            Some(BettingPoolInstruction::Trade(TradeArgs {
                size: spec_u64_from_le_bytes(s.subrange(1, 9)),
                buy_price: spec_u64_from_le_bytes(s.subrange(9, 17)),
                sell_price: spec_u64_from_le_bytes(s.subrange(17, 25)),
            }))
        } else if s[0] == 2 && s.len() == 1 {
            Some(BettingPoolInstruction::Settle)
        } else if s[0] == 3 && s.len() == 1 {
            Some(BettingPoolInstruction::Collect)
        } else {
            None
        }
    }

    /// Writes the exact byte form of this payload.
    pub fn try_to_vec(&self) -> (r: Vec<u8>)
        ensures
            r@ == self.spec_encode(),
    {
        match self {
            BettingPoolInstruction::InitializeBettingPool => {
                let mut r: Vec<u8> = Vec::new();
                r.push(0u8);
                proof {
                    assert(r@ =~= self.spec_encode());
                }
                r
            },
            BettingPoolInstruction::Trade(a) => {
                let mut r: Vec<u8> = Vec::new();
                r.push(1u8);
                let mut b = u64_to_le_bytes(a.size);
                r.append(&mut b);
                let mut b = u64_to_le_bytes(a.buy_price);
                r.append(&mut b);
                let mut b = u64_to_le_bytes(a.sell_price);
                r.append(&mut b);
                proof {
                    assert(r@ =~= self.spec_encode());
                }
                r
            },
            BettingPoolInstruction::Settle => {
                let mut r: Vec<u8> = Vec::new();
                r.push(2u8);
                proof {
                    assert(r@ =~= self.spec_encode());
                }
                r
            },
            BettingPoolInstruction::Collect => {
                let mut r: Vec<u8> = Vec::new();
                r.push(3u8);
                proof {
                    assert(r@ =~= self.spec_encode());
                }
                r
            },
        }
    }

    /// Reads a payload, consuming the whole buffer.  Fails with
    /// `InvalidInstruction` exactly where no payload has this byte form.
    pub fn try_from_slice(v: &[u8]) -> (r: Result<BettingPoolInstruction, BettingPoolError>)
        ensures
            match r {
                Ok(i) => BettingPoolInstruction::spec_decode(v@) == Some(i),
                Err(e) => BettingPoolInstruction::spec_decode(v@) is None
                    && e == BettingPoolError::InvalidInstruction,
            },
    {
        if v.len() == 0 {
            return Err(BettingPoolError::InvalidInstruction);
        }
        let tag = *vstd::slice::slice_index_get(v, 0);
        if tag == 0 && v.len() == 1 {
            Ok(BettingPoolInstruction::InitializeBettingPool)
        } else if tag == 1 && v.len() == 25 {
            let size = u64_from_le_bytes(slice_subrange(v, 1, 9));
            let buy_price = u64_from_le_bytes(slice_subrange(v, 9, 17));
            let sell_price = u64_from_le_bytes(slice_subrange(v, 17, 25));
            Ok(BettingPoolInstruction::Trade(TradeArgs { size, buy_price, sell_price }))
        } else if tag == 2 && v.len() == 1 {
            Ok(BettingPoolInstruction::Settle)
        } else if tag == 3 && v.len() == 1 {
            Ok(BettingPoolInstruction::Collect)
        } else {
            Err(BettingPoolError::InvalidInstruction)
        }
    }
}

/// Encoding a payload and reading it back yields the payload itself.
pub proof fn lemma_instruction_round_trip(i: BettingPoolInstruction)
    ensures
        BettingPoolInstruction::spec_decode(i.spec_encode()) == Some(i),
{
    lemma_auto_spec_u64_to_from_le_bytes();
    let s = i.spec_encode();
    match i {
        BettingPoolInstruction::Trade(a) => {
            assert(s.len() == 25);
            assert(s.subrange(1, 9) =~= spec_u64_to_le_bytes(a.size));
            assert(s.subrange(9, 17) =~= spec_u64_to_le_bytes(a.buy_price));
            assert(s.subrange(17, 25) =~= spec_u64_to_le_bytes(a.sell_price));
        },
        _ => {},
    }
}

} // verus!
