//! 32-byte identities (public keys, mint addresses, derived addresses).
//!
//! An identity is opaque to the pool logic: it is only stored, compared and
//! serialized.  It is held as four 64-bit words; its canonical byte form is
//! the little-endian bytes of the four words in order, 32 bytes in all.

use vstd::prelude::*;
use vstd::bytes::*;
use vstd::slice::slice_subrange;

verus! {

/// A 32-byte identity, stored as four little-endian 64-bit words.
#[derive(Clone, Copy, PartialEq, Eq, Structural, Debug)]
pub struct Pubkey {
    pub w0: u64,
    pub w1: u64,
    pub w2: u64,
    pub w3: u64,
}

impl Pubkey {
    /// The canonical 32-byte form of this identity.
    pub open spec fn spec_bytes(self) -> Seq<u8> {
        spec_u64_to_le_bytes(self.w0) + spec_u64_to_le_bytes(self.w1)
            + spec_u64_to_le_bytes(self.w2) + spec_u64_to_le_bytes(self.w3)
    }

    /// The all-zero identity, used before a field is assigned.
    pub open spec fn spec_zero() -> Pubkey {
        Pubkey { w0: 0, w1: 0, w2: 0, w3: 0 }
    }

    /// Builds the all-zero identity.
    pub fn zero() -> (r: Pubkey)
        ensures
            r == Pubkey::spec_zero(),
    {
        Pubkey { w0: 0, w1: 0, w2: 0, w3: 0 }
    }

    /// The identity whose canonical form is the 32-byte sequence `s`.
    pub open spec fn spec_from_bytes(s: Seq<u8>) -> Pubkey {
        Pubkey {
            w0: spec_u64_from_le_bytes(s.subrange(0, 8)),
            w1: spec_u64_from_le_bytes(s.subrange(8, 16)),
            w2: spec_u64_from_le_bytes(s.subrange(16, 24)),
            w3: spec_u64_from_le_bytes(s.subrange(24, 32)),
        }
    }

    /// Reads an identity back from its canonical 32-byte form.
    pub fn from_bytes(v: &[u8]) -> (r: Pubkey)
        requires
            v@.len() == 32,
        ensures
            r.spec_bytes() == v@,
            r == Pubkey::spec_from_bytes(v@),
    {
        let w0 = u64_from_le_bytes(slice_subrange(v, 0, 8));
        let w1 = u64_from_le_bytes(slice_subrange(v, 8, 16));
        let w2 = u64_from_le_bytes(slice_subrange(v, 16, 24));
        let w3 = u64_from_le_bytes(slice_subrange(v, 24, 32));
        let r = Pubkey { w0, w1, w2, w3 };
        proof {
            lemma_auto_spec_u64_to_from_le_bytes();
            assert(r.spec_bytes() =~= v@);
        }
        r
    }

    /// Reading the canonical bytes back yields the same identity.
    pub proof fn lemma_from_to_bytes(self)
        ensures
            Pubkey::spec_from_bytes(self.spec_bytes()) == self,
    {
        lemma_auto_spec_u64_to_from_le_bytes();
        assert(self.spec_bytes().subrange(0, 8) =~= spec_u64_to_le_bytes(self.w0));
        assert(self.spec_bytes().subrange(8, 16) =~= spec_u64_to_le_bytes(self.w1));
        assert(self.spec_bytes().subrange(16, 24) =~= spec_u64_to_le_bytes(self.w2));
        assert(self.spec_bytes().subrange(24, 32) =~= spec_u64_to_le_bytes(self.w3));
    }

    /// Writing an identity read from 32 bytes yields those bytes again.
    pub proof fn lemma_to_from_bytes(s: Seq<u8>)
        requires
            s.len() == 32,
        ensures
            Pubkey::spec_from_bytes(s).spec_bytes() == s,
    {
        lemma_auto_spec_u64_to_from_le_bytes();
        let k = Pubkey::spec_from_bytes(s);
        assert(spec_u64_to_le_bytes(k.w0) == s.subrange(0, 8));
        assert(spec_u64_to_le_bytes(k.w1) == s.subrange(8, 16));
        assert(spec_u64_to_le_bytes(k.w2) == s.subrange(16, 24));
        assert(spec_u64_to_le_bytes(k.w3) == s.subrange(24, 32));
        assert(k.spec_bytes() =~= s);
    }

    /// Writes the canonical 32-byte form of this identity.
    pub fn to_bytes(&self) -> (r: Vec<u8>)
        ensures
            r@ == self.spec_bytes(),
            r@.len() == 32,
    {
        let mut r = u64_to_le_bytes(self.w0);
        let mut b1 = u64_to_le_bytes(self.w1);
        let mut b2 = u64_to_le_bytes(self.w2);
        let mut b3 = u64_to_le_bytes(self.w3);
        r.append(&mut b1);
        r.append(&mut b2);
        r.append(&mut b3);
        proof {
            lemma_auto_spec_u64_to_from_le_bytes();
            assert(r@ =~= self.spec_bytes());
        }
        r
    }
}

} // verus!
