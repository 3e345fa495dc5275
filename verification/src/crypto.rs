//! Keys and signatures as the ledger stores them: encoded bytes that it
//! carries and never interprets.

use vstd::prelude::*;

verus! {

/// An encoded public key: the owner of an output.
#[derive(Debug, PartialEq, Eq)]
pub struct PublicKey {
    pub bytes: Vec<u8>,
}

impl Clone for PublicKey {
    /// A key of the same bytes.
    fn clone(&self) -> (r: PublicKey)
        ensures
            r.bytes@ == self.bytes@,
    {
        PublicKey { bytes: self.bytes.clone() }
    }
}

/// An encoded signature: the authorisation of one spend.
#[derive(Debug, PartialEq, Eq)]
pub struct Signature {
    pub bytes: Vec<u8>,
}

impl Clone for Signature {
    /// A signature of the same bytes.
    fn clone(&self) -> (r: Signature)
        ensures
            r.bytes@ == self.bytes@,
    {
        Signature { bytes: self.bytes.clone() }
    }
}

} // verus!
