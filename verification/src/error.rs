use vstd::prelude::*;

verus! {

/// Why a candidate block was turned away.
#[derive(Clone, Copy, Debug, PartialEq, Eq, Structural)]
pub enum BtcError {
    /// A transaction spends an output that is unknown or already spent, or
    /// pays out more than it takes in.
    InvalidTransaction,
    /// The block breaks continuity, the genesis rule, the proof-of-work
    /// bound or the timestamp order.
    InvalidBlock,
    /// The header's commitment is not the one computed over the
    /// block's transactions.
    InvalidMerkleRoot,
    /// A signature does not authorise the spend it is attached to.
    InvalidSignature,
}

} // verus!
