//! Digests: the fixed-width values by which headers, blocks, transactions
//! and outputs are named, and the commitment a header makes to the
//! transactions of its block.

use crate::uint::U256;
use vstd::prelude::*;
use vstd::std_specs::cmp::PartialEqSpecImpl;

verus! {

/// A 256-bit digest. Read as a number it is big-endian, like the
/// proof-of-work target it is measured against.
#[derive(Clone, Copy, Debug, Eq)]
pub struct Hash(pub U256);

impl Hash {
    /// The digest read as an unsigned integer.
    pub open spec fn value(self) -> nat {
        self.0.value()
    }

    /// Whether this is the all-zero sentinel that stands in for the
    /// predecessor of the first block.
    pub open spec fn is_zero(self) -> bool {
        self.0.is_zero()
    }

    /// Whether the digest, as a number, does not exceed `target`.
    pub open spec fn meets(self, target: U256) -> bool {
        self.value() <= target.value()
    }

    /// The all-zero sentinel.
    pub fn zero() -> (r: Hash)
        ensures
            r.is_zero(),
    {
        Hash(U256::zero())
    }

    /// The digest made of these 32 bytes.
    pub fn from_bytes(bytes: [u8; 32]) -> (r: Hash)
        ensures
            r.0.bytes == bytes,
    {
        Hash(U256::from_be_bytes(bytes))
    }

    /// The 32 bytes of the digest.
    pub fn as_bytes(&self) -> (bytes: [u8; 32])
        ensures
            bytes == self.0.bytes,
    {
        self.0.to_be_bytes()
    }

    /// Whether the digest, as a number, does not exceed `target`.
    pub fn matches_target(&self, target: U256) -> (r: bool)
        ensures
            r == self.meets(target),
    {
        self.0.le(&target)
    }
}

impl PartialEq for Hash {
    /// Two digests are equal when all their bytes are.
    fn eq(&self, other: &Hash) -> (r: bool) {
        self.0 == other.0
    }
}

impl PartialEqSpecImpl for Hash {
    open spec fn obeys_eq_spec() -> bool {
        true
    }

    open spec fn eq_spec(&self, other: &Hash) -> bool {
        *self == *other
    }
}

/// Only one digest is all zero.
pub proof fn lemma_zero_is_unique(a: Hash, b: Hash)
    requires
        b.is_zero(),
    ensures
        a.is_zero() <==> a == b,
{
    if a.is_zero() {
        assert(a.0.bytes =~= b.0.bytes);
    }
}

/// The commitment of a header to the ordered transactions of its block.
#[derive(Clone, Copy, Debug, Eq)]
pub struct MerkleRoot(pub Hash);

impl PartialEq for MerkleRoot {
    /// Two commitments are equal when their digests are.
    fn eq(&self, other: &MerkleRoot) -> (r: bool) {
        self.0 == other.0
    }
}

impl PartialEqSpecImpl for MerkleRoot {
    open spec fn obeys_eq_spec() -> bool {
        true
    }

    open spec fn eq_spec(&self, other: &MerkleRoot) -> bool {
        *self == *other
    }
}

} // verus!
