//! The data model of the chain: outputs, transactions, headers, blocks.

use crate::crypto::{PublicKey, Signature};
use crate::digest::{self, MerkleRoot};
use crate::time::Timestamp;
use crate::uint::U256;
use uuid::Uuid;
use vstd::prelude::*;

verus! {

/// `uuid::Uuid`, the uniqueness token of an output. The ledger stores and
/// hands on such a value and never looks inside it.
#[verifier::external_type_specification]
#[verifier::external_body]
pub struct ExUuid(Uuid);

/// A spendable grant of value.
#[derive(Debug)]
pub struct TransactionOutput {
    /// The amount granted.
    pub value: u64,
    /// A token that tells apart outputs of equal value and owner.
    pub unique_id: Uuid,
    /// The owner, who alone can authorise spending the output.
    pub pubkey: PublicKey,
}

impl TransactionOutput {
    /// Whether two outputs grant the same value, carry the same token and
    /// have owners of the same bytes.
    pub open spec fn alike(self, other: TransactionOutput) -> bool {
        &&& self.value == other.value
        &&& self.unique_id == other.unique_id
        &&& self.pubkey.bytes@ == other.pubkey.bytes@
    }
}

impl Clone for TransactionOutput {
    /// An output of the same value, with the same token and an owner of
    /// the same bytes.
    fn clone(&self) -> (r: TransactionOutput)
        ensures
            self.alike(r),
    {
        TransactionOutput {
            value: self.value,
            unique_id: self.unique_id,
            pubkey: self.pubkey.clone(),
        }
    }
}

/// A claim on an earlier output.
#[derive(Debug)]
pub struct TransactionInput {
    /// The digest that names the output being spent.
    pub prev_transaction_output_hash: digest::Hash,
    /// The owner's authorisation of the spend.
    pub signature: Signature,
}

impl Clone for TransactionInput {
    /// An input that names the same output, with a signature of the same
    /// bytes.
    fn clone(&self) -> (r: TransactionInput)
        ensures
            r.prev_transaction_output_hash == self.prev_transaction_output_hash,
            r.signature.bytes@ == self.signature.bytes@,
    {
        TransactionInput {
            prev_transaction_output_hash: self.prev_transaction_output_hash,
            signature: self.signature.clone(),
        }
    }
}


/// A transfer of value: the outputs it spends and the outputs it creates.
#[derive(Clone, Debug)]
pub struct Transaction {
    pub inputs: Vec<TransactionInput>,
    pub outputs: Vec<TransactionOutput>,
}

impl Transaction {
    /// A transaction with these inputs and outputs, in this order.
    pub fn new(inputs: Vec<TransactionInput>, outputs: Vec<TransactionOutput>) -> (r: Transaction)
        ensures
            r == (Transaction { inputs, outputs }),
    {
        Transaction { inputs, outputs }
    }
}

/// What a block commits to besides its transactions themselves.
#[derive(Clone, Copy, Debug)]
pub struct BlockHeader {
    /// When the block was made.
    pub timestamp: Timestamp,
    /// The number varied in the search for an admissible digest.
    pub nonce: u64,
    /// The digest of the preceding block's header; all zero in the first
    /// block of a chain.
    pub prev_block_hash: digest::Hash,
    /// The commitment to the block's transactions.
    pub merkle_root: MerkleRoot,
    /// The bound that the digest of this header must not exceed.
    pub target: U256,
}

impl BlockHeader {
    /// A header with these fields.
    pub fn new(
        timestamp: Timestamp,
        nonce: u64,
        prev_block_hash: digest::Hash,
        merkle_root: MerkleRoot,
        target: U256,
    ) -> (r: BlockHeader)
        ensures
            r == (BlockHeader { timestamp, nonce, prev_block_hash, merkle_root, target }),
    {
        BlockHeader { timestamp, nonce, prev_block_hash, merkle_root, target }
    }
}

/// A header and the transactions it commits to.
#[derive(Clone, Debug)]
pub struct Block {
    pub header: BlockHeader,
    pub transactions: Vec<Transaction>,
}

impl Block {
    /// A block with this header and these transactions, in this order.
    pub fn new(header: BlockHeader, transactions: Vec<Transaction>) -> (r: Block)
        ensures
            r == (Block { header, transactions }),
    {
        Block { header, transactions }
    }
}

} // verus!
