//! What the rules of acceptance entail, stated over the ruling that
//! [`Blockchain::validate`], [`Blockchain::add_block_given`] and
//! [`Blockchain::add_block`] return.

use crate::chain::{Blockchain, Evidence};
use crate::digest::{self, MerkleRoot};
use crate::error::BtcError;
use crate::types::{Block, BlockHeader, Transaction, TransactionOutput};
use crate::utxo::UtxoDelta;
use vstd::prelude::*;

verus! {

/// A ledger without blocks takes a block in exactly when the block names
/// the all-zero digest as its predecessor, whatever its target, commitment
/// and timestamp are and whatever the collaborators report. A block that it
/// turns away is turned away as an invalid block.
pub proof fn law_first_block(chain: Blockchain, block: Block, evidence: Evidence)
    requires
        chain.blocks@.len() == 0,
    ensures
        chain.ruling(block, evidence) is Ok <==> block.header.prev_block_hash.is_zero(),
        chain.ruling(block, evidence) is Err ==> chain.ruling(block, evidence) == Err::<
            (),
            BtcError,
        >(BtcError::InvalidBlock),
{
}

/// A ledger with blocks turns away, as an invalid block, every candidate
/// whose predecessor digest is not the digest of the header of its last
/// block, whatever else holds of the candidate.
pub proof fn law_broken_link(chain: Blockchain, block: Block, evidence: Evidence)
    requires
        chain.blocks@.len() > 0,
        block.header.prev_block_hash != evidence.tip_digest,
    ensures
        chain.ruling(block, evidence) == Err::<(), BtcError>(BtcError::InvalidBlock),
{
}

/// A ledger with blocks turns away, as an invalid block, every candidate
/// whose header digest, as a number, exceeds the target that the header
/// states.
pub proof fn law_work_missing(chain: Blockchain, block: Block, evidence: Evidence)
    requires
        chain.blocks@.len() > 0,
        evidence.header_digest.value() > block.header.target.value(),
    ensures
        chain.ruling(block, evidence) == Err::<(), BtcError>(BtcError::InvalidBlock),
{
}

/// Of two candidates for a ledger with blocks that both link up and state
/// the same target, one with a header digest above the target and one with
/// a header digest at or below it, the first is turned away as an invalid
/// block, and the second fares as the checks after the proof of work
/// decide: the proof of work no longer stands in its way.
pub proof fn law_work_found(
    chain: Blockchain,
    heavy: Block,
    heavy_evidence: Evidence,
    light: Block,
    light_evidence: Evidence,
)
    requires
        chain.blocks@.len() > 0,
        heavy.header.target == light.header.target,
        chain.continues(heavy, heavy_evidence),
        chain.continues(light, light_evidence),
        heavy_evidence.header_digest.value() > heavy.header.target.value(),
        light_evidence.header_digest.value() <= light.header.target.value(),
    ensures
        chain.ruling(heavy, heavy_evidence) == Err::<(), BtcError>(BtcError::InvalidBlock),
        chain.ruling(light, light_evidence) == chain.ruling_past_work(light, light_evidence),
{
}

/// A candidate for a ledger with blocks that links up and has its proof of
/// work, but whose header states another commitment than the one computed
/// over its transactions, is turned away for its merkle root.
pub proof fn law_commitment_broken(chain: Blockchain, block: Block, evidence: Evidence)
    requires
        chain.blocks@.len() > 0,
        chain.continues(block, evidence),
        chain.admissible(block, evidence),
        evidence.commitment != block.header.merkle_root,
    ensures
        chain.ruling(block, evidence) == Err::<(), BtcError>(BtcError::InvalidMerkleRoot),
{
}

/// When the transactions under a header are exchanged for others that the
/// committer tells apart from them, and the header is left as it is, the
/// header cannot state the commitment of both: if the block passed the
/// check of its content before the exchange, it is turned away for its
/// merkle root after it.
pub proof fn law_content_exchanged(
    chain: Blockchain,
    before: Block,
    before_evidence: Evidence,
    after: Block,
    after_evidence: Evidence,
)
    requires
        chain.blocks@.len() > 0,
        after.header == before.header,
        after_evidence.commitment != before_evidence.commitment,
        chain.committed(before, before_evidence),
        chain.continues(after, after_evidence),
        chain.admissible(after, after_evidence),
    ensures
        chain.ruling(after, after_evidence) == Err::<(), BtcError>(BtcError::InvalidMerkleRoot),
{
}

/// A ledger with blocks turns away every candidate that is not strictly
/// later than its last block: as an invalid block, unless the candidate
/// links up, has its proof of work and states a wrong commitment, in which
/// case the merkle root is the reason given.
pub proof fn law_not_later(chain: Blockchain, block: Block, evidence: Evidence)
    requires
        chain.blocks@.len() > 0,
        !block.header.timestamp.is_after(&chain.blocks@.last().header.timestamp),
    ensures
        chain.ruling(block, evidence) is Err,
        chain.continues(block, evidence) && chain.admissible(block, evidence) && !chain.committed(
            block,
            evidence,
        ) ==> chain.ruling(block, evidence) == Err::<(), BtcError>(BtcError::InvalidMerkleRoot),
        !(chain.continues(block, evidence) && chain.admissible(block, evidence)
            && !chain.committed(block, evidence)) ==> chain.ruling(block, evidence) == Err::<
            (),
            BtcError,
        >(BtcError::InvalidBlock),
{
}

/// A candidate that passes the five checks on its header and content fares
/// as the transaction verifier decides: it is taken in on a change of the
/// unspent outputs, and turned away for the very fault the verifier found.
pub proof fn law_verdict_stands(chain: Blockchain, block: Block, evidence: Evidence)
    requires
        chain.blocks@.len() > 0,
        chain.continues(block, evidence),
        chain.admissible(block, evidence),
        chain.committed(block, evidence),
        chain.later(block),
    ensures
        match evidence.verdict {
            Ok(_) => chain.ruling(block, evidence) is Ok,
            Err(fault) => chain.ruling(block, evidence) == Err::<(), BtcError>(fault),
        },
{
}

/// A ledger without blocks is a chain under every hash function and
/// committer. [`Blockchain::add_block`] keeps a chain a chain.
pub proof fn law_empty_ledger_is_well_formed<H, C>(
    chain: Blockchain,
    hash_header: H,
    commit: C,
) where H: Fn(&BlockHeader) -> digest::Hash, C: Fn(&Vec<Transaction>) -> MerkleRoot

    requires
        chain.blocks@.len() == 0,
    ensures
        chain.well_formed(hash_header, commit),
{
}

/// In a chain, time runs forward: every block is strictly later than every
/// block before it.
pub proof fn law_time_runs_forward<H, C>(
    chain: Blockchain,
    hash_header: H,
    commit: C,
    earlier: int,
    later: int,
) where H: Fn(&BlockHeader) -> digest::Hash, C: Fn(&Vec<Transaction>) -> MerkleRoot
    requires
        chain.well_formed(hash_header, commit),
        0 <= earlier < later < chain.blocks@.len(),
    ensures
        chain.blocks@[later].header.timestamp.is_after(&chain.blocks@[earlier].header.timestamp),
    decreases later - earlier,
{
    assert(hash_header.ensures(
        (&chain.blocks@[later - 1].header,),
        chain.blocks@[later].header.prev_block_hash,
    ));
    if earlier + 1 < later {
        law_time_runs_forward(chain, hash_header, commit, earlier, later - 1);
    }
}

/// An output that a block spends is not among the unspent outputs after
/// the block, whether it was unspent before or created by the block itself.
pub proof fn law_spent_is_gone(
    delta: UtxoDelta,
    utxos: Map<digest::Hash, TransactionOutput>,
    id: digest::Hash,
)
    requires
        delta.consumed@.contains(id),
    ensures
        !delta.applied_to(utxos).contains_key(id),
{
}

/// An output that a block creates and does not spend is among the unspent
/// outputs after the block, under its digest.
pub proof fn law_created_stays(
    delta: UtxoDelta,
    utxos: Map<digest::Hash, TransactionOutput>,
    id: digest::Hash,
)
    requires
        delta.produced@.contains_key(id),
        !delta.consumed@.contains(id),
    ensures
        delta.applied_to(utxos).contains_key(id),
        delta.applied_to(utxos)[id] == delta.produced@[id],
{
}

/// A digest that a block neither spends nor creates names after the block
/// what it named before: the same output, or none.
pub proof fn law_untouched_stays(
    delta: UtxoDelta,
    utxos: Map<digest::Hash, TransactionOutput>,
    id: digest::Hash,
)
    requires
        !delta.produced@.contains_key(id),
        !delta.consumed@.contains(id),
    ensures
        delta.applied_to(utxos).contains_key(id) == utxos.contains_key(id),
        utxos.contains_key(id) ==> delta.applied_to(utxos)[id] == utxos[id],
{
}

} // verus!
