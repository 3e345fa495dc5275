//! A 256-bit unsigned integer, kept as 32 bytes with the most significant
//! byte first. Digests and proof-of-work targets have this width.

use vstd::prelude::*;
use vstd::std_specs::cmp::PartialEqSpecImpl;

verus! {

/// The number that a byte string denotes when it is read with the most
/// significant byte first.
pub open spec fn be_value(bytes: Seq<u8>) -> nat
    decreases bytes.len(),
{
    if bytes.len() == 0 {
        0
    } else {
        be_value(bytes.drop_last()) * 256 + bytes.last() as nat
    }
}

/// Two byte strings of one length that agree before position `at` and
/// differ there are ordered, as numbers, the way their bytes at `at` are.
pub proof fn lemma_first_difference_orders(a: Seq<u8>, b: Seq<u8>, at: int)
    requires
        a.len() == b.len(),
        0 <= at < a.len(),
        forall|j: int| 0 <= j < at ==> a[j] == b[j],
        a[at] < b[at],
    ensures
        be_value(a) < be_value(b),
    decreases a.len(),
{
    let a_head = a.drop_last();
    let b_head = b.drop_last();
    if at == a.len() - 1 {
        assert(a_head =~= b_head);
    } else {
        lemma_first_difference_orders(a_head, b_head, at);
    }
}

/// A 256-bit unsigned integer.
#[derive(Clone, Copy, Debug, Eq)]
pub struct U256 {
    /// The 32 bytes of the number, most significant first.
    pub bytes: [u8; 32],
}

impl U256 {
    /// The number this value stands for.
    pub open spec fn value(self) -> nat {
        be_value(self.bytes@)
    }

    /// Whether this is the number zero: all 32 bytes are zero.
    pub open spec fn is_zero(self) -> bool {
        forall|i: int| 0 <= i < 32 ==> self.bytes@[i] == 0u8
    }

    /// Returns zero.
    pub fn zero() -> (r: U256)
        ensures
            r.is_zero(),
    {
        U256 { bytes: [0u8; 32] }
    }

    /// Reads 32 bytes, most significant first, as a number.
    pub fn from_be_bytes(bytes: [u8; 32]) -> (r: U256)
        ensures
            r.bytes == bytes,
            r.value() == be_value(bytes@),
    {
        U256 { bytes }
    }

    /// The 32 bytes of the number, most significant first.
    pub fn to_be_bytes(&self) -> (bytes: [u8; 32])
        ensures
            bytes == self.bytes,
            be_value(bytes@) == self.value(),
    {
        self.bytes
    }

    /// Whether `self` is numerically at most `other`.
    pub fn le(&self, other: &U256) -> (r: bool)
        ensures
            r == (self.value() <= other.value()),
    {
        let mut i: usize = 0;
        while i < 32
            invariant
                0 <= i <= 32,
                forall|j: int| 0 <= j < i ==> self.bytes@[j] == other.bytes@[j],
            decreases 32 - i,
        {
            if self.bytes[i] < other.bytes[i] {
                proof {
                    lemma_first_difference_orders(self.bytes@, other.bytes@, i as int);
                }
                return true;
            }
            if self.bytes[i] > other.bytes[i] {
                proof {
                    lemma_first_difference_orders(other.bytes@, self.bytes@, i as int);
                }
                return false;
            }
            i += 1;
        }
        assert(self.bytes@ =~= other.bytes@);
        true
    }
}

impl PartialEq for U256 {
    /// Two numbers are equal when all their bytes are.
    fn eq(&self, other: &U256) -> (r: bool) {
        let mut i: usize = 0;
        while i < 32
            invariant
                0 <= i <= 32,
                forall|j: int| 0 <= j < i ==> self.bytes@[j] == other.bytes@[j],
            decreases 32 - i,
        {
            if self.bytes[i] != other.bytes[i] {
                return false;
            }
            i += 1;
        }
        assert(self.bytes =~= other.bytes);
        true
    }
}

impl PartialEqSpecImpl for U256 {
    open spec fn obeys_eq_spec() -> bool {
        true
    }

    open spec fn eq_spec(&self, other: &U256) -> bool {
        *self == *other
    }
}

} // verus!
