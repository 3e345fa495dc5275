//! The ledger: the accepted blocks in order, the outputs still unspent, and
//! the rules by which one more block is taken in or turned away.
//!
//! The ledger computes no digest and verifies no signature. It consults
//! three collaborators for that: a hash function on headers, a merkle
//! committer on transaction lists, and a transaction verifier.
//! [`Blockchain::add_block`] calls them as the checks come to need them;
//! [`Blockchain::validate`] and [`Blockchain::add_block_given`] decide on
//! what they reported, handed in as [`Evidence`].

use crate::digest::{self, MerkleRoot};
use crate::error::BtcError;
use crate::types::{Block, BlockHeader, Transaction, TransactionOutput};
use crate::utxo::{UtxoDelta, UtxoSet};
use vstd::prelude::*;

verus! {

/// What the collaborators report on one candidate block that is held
/// against one ledger. A ledger without blocks reads none of it.
#[derive(Debug)]
pub struct Evidence {
    /// The digest of the header of the ledger's last block.
    pub tip_digest: digest::Hash,
    /// The digest of the candidate's header.
    pub header_digest: digest::Hash,
    /// The commitment computed afresh over the candidate's transactions.
    pub commitment: MerkleRoot,
    /// The transaction verifier's answer for the candidate's transactions,
    /// at the ledger's height and against its unspent outputs: the change
    /// they make, or the fault it found.
    pub verdict: Result<UtxoDelta, BtcError>,
}

/// The accepted blocks and the outputs they leave unspent.
#[derive(Clone, Debug)]
pub struct Blockchain {
    /// The outputs that can still be spent.
    pub utxos: UtxoSet,
    /// The accepted blocks, oldest first.
    pub blocks: Vec<Block>,
}

impl Blockchain {
    /// Continuity: the candidate names the digest of the last block's
    /// header as its predecessor.
    pub open spec fn continues(self, block: Block, evidence: Evidence) -> bool {
        block.header.prev_block_hash == evidence.tip_digest
    }

    /// Proof of work: the digest of the candidate's header, as a number,
    /// does not exceed the target that the header states.
    pub open spec fn admissible(self, block: Block, evidence: Evidence) -> bool {
        evidence.header_digest.meets(block.header.target)
    }

    /// Content: the header states the commitment that its transactions
    /// have.
    pub open spec fn committed(self, block: Block, evidence: Evidence) -> bool {
        evidence.commitment == block.header.merkle_root
    }

    /// Time: the candidate is strictly later than the last block.
    pub open spec fn later(self, block: Block) -> bool
        recommends
            self.blocks@.len() > 0,
    {
        block.header.timestamp.is_after(&self.blocks@.last().header.timestamp)
    }

    /// What is left to decide once a candidate for a ledger with blocks has
    /// passed continuity and proof of work: content, then time, then the
    /// transaction verifier, whose fault is handed on as it is.
    pub open spec fn ruling_past_work(self, block: Block, evidence: Evidence) -> Result<
        (),
        BtcError,
    >
        recommends
            self.blocks@.len() > 0,
    {
        if !self.committed(block, evidence) {
            Err(BtcError::InvalidMerkleRoot)
        } else if !self.later(block) {
            Err(BtcError::InvalidBlock)
        } else {
            match evidence.verdict {
                Ok(_) => Ok(()),
                Err(fault) => Err(fault),
            }
        }
    }

    /// Whether the candidate is taken in, and if not, why. A ledger without
    /// blocks asks one thing of its first block: that it name the all-zero
    /// digest as its predecessor. After that the checks run in a fixed
    /// order and the first that fails gives the reason.
    pub open spec fn ruling(self, block: Block, evidence: Evidence) -> Result<(), BtcError> {
        if self.blocks@.len() == 0 {
            if block.header.prev_block_hash.is_zero() {
                Ok(())
            } else {
                Err(BtcError::InvalidBlock)
            }
        } else if !self.continues(block, evidence) {
            Err(BtcError::InvalidBlock)
        } else if !self.admissible(block, evidence) {
            Err(BtcError::InvalidBlock)
        } else {
            self.ruling_past_work(block, evidence)
        }
    }

    /// Whether `evidence` is what the three collaborators report on the
    /// candidate, as far as the rules consult them: the hash function on
    /// the header of the last block and, if that links up, on the header of
    /// the candidate; the committer once the proof of work holds; the
    /// verifier, at the ledger's height and against its unspent outputs,
    /// once content and time are in order. A ledger without blocks consults
    /// none of them.
    pub open spec fn reported<H, C, V>(
        self,
        block: Block,
        evidence: Evidence,
        hash_header: H,
        commit: C,
        verify: V,
    ) -> bool where
        H: Fn(&BlockHeader) -> digest::Hash,
        C: Fn(&Vec<Transaction>) -> MerkleRoot,
        V: Fn(&Vec<Transaction>, u64, &UtxoSet) -> Result<UtxoDelta, BtcError>,
    {
        self.blocks@.len() > 0 ==> {
            &&& hash_header.ensures((&self.blocks@.last().header,), evidence.tip_digest)
            &&& self.continues(block, evidence) ==> hash_header.ensures(
                (&block.header,),
                evidence.header_digest,
            )
            &&& self.continues(block, evidence) && self.admissible(block, evidence)
                ==> commit.ensures((&block.transactions,), evidence.commitment)
            &&& self.continues(block, evidence) && self.admissible(block, evidence)
                && self.committed(block, evidence) && self.later(block) ==> verify.ensures(
                (&block.transactions, self.blocks@.len() as u64, &self.utxos),
                evidence.verdict,
            )
        }
    }

    /// Whether the blocks form a chain under the given hash function and
    /// committer: the first names the all-zero digest as its predecessor,
    /// and every later one names the digest of the header before it, has a
    /// header digest that does not exceed its target, states the
    /// commitment of its transactions and is strictly later than the block
    /// before it.
    pub open spec fn well_formed<H, C>(self, hash_header: H, commit: C) -> bool where
        H: Fn(&BlockHeader) -> digest::Hash,
        C: Fn(&Vec<Transaction>) -> MerkleRoot,
    {
        &&& self.blocks@.len() > 0 ==> self.blocks@[0].header.prev_block_hash.is_zero()
        &&& forall|i: int|
            0 < i < self.blocks@.len() ==> {
                &&& hash_header.ensures(
                    (&self.blocks@[i - 1].header,),
                    #[trigger] self.blocks@[i].header.prev_block_hash,
                )
                &&& exists|own: digest::Hash|
                    {
                        &&& #[trigger] hash_header.ensures((&self.blocks@[i].header,), own)
                        &&& own.meets(self.blocks@[i].header.target)
                    }
                &&& commit.ensures(
                    (&self.blocks@[i].transactions,),
                    self.blocks@[i].header.merkle_root,
                )
                &&& self.blocks@[i].header.timestamp.is_after(
                    &self.blocks@[i - 1].header.timestamp,
                )
            }
    }

    /// The unspent outputs after the candidate has been taken in. The first
    /// block changes nothing; a later one makes the change that the
    /// transaction verifier reported.
    pub open spec fn utxos_after(self, evidence: Evidence) -> Map<
        digest::Hash,
        TransactionOutput,
    > {
        if self.blocks@.len() == 0 {
            self.utxos@
        } else {
            match evidence.verdict {
                Ok(delta) => delta.applied_to(self.utxos@),
                Err(_) => self.utxos@,
            }
        }
    }

    /// A ledger without blocks and without unspent outputs.
    pub fn new() -> (r: Blockchain)
        ensures
            r.blocks@ == Seq::<Block>::empty(),
            r.utxos@ == Map::<digest::Hash, TransactionOutput>::empty(),
    {
        Blockchain { utxos: UtxoSet::new(), blocks: Vec::new() }
    }

    /// The number of accepted blocks: the height at which the next block
    /// would stand, and at which its transactions are to be verified.
    pub fn block_height(&self) -> (height: u64)
        ensures
            height == self.blocks@.len(),
    {
        self.blocks.len() as u64
    }

    /// Decides on a candidate without taking it in.
    pub fn validate(&self, block: &Block, evidence: &Evidence) -> (res: Result<(), BtcError>)
        ensures
            res == self.ruling(*block, *evidence),
    {
        if self.blocks.is_empty() {
            let zero = digest::Hash::zero();
            proof {
                digest::lemma_zero_is_unique(block.header.prev_block_hash, zero);
            }
            if !(block.header.prev_block_hash == zero) {
                return Err(BtcError::InvalidBlock);
            }
            return Ok(());
        }
        let last = &self.blocks[self.blocks.len() - 1];
        if !(block.header.prev_block_hash == evidence.tip_digest) {
            return Err(BtcError::InvalidBlock);
        }
        if !evidence.header_digest.matches_target(block.header.target) {
            return Err(BtcError::InvalidBlock);
        }
        if !(evidence.commitment == block.header.merkle_root) {
            return Err(BtcError::InvalidMerkleRoot);
        }
        if !block.header.timestamp.is_after(&last.header.timestamp) {
            return Err(BtcError::InvalidBlock);
        }
        match &evidence.verdict {
            Ok(_) => Ok(()),
            Err(fault) => Err(*fault),
        }
    }

    /// Takes the candidate in if the rules allow it: the block becomes the
    /// last of the sequence and the unspent outputs change as the
    /// transaction verifier reported. A candidate that is turned away
    /// leaves the ledger exactly as it was.
    pub fn add_block_given(&mut self, block: Block, evidence: Evidence) -> (res: Result<
        (),
        BtcError,
    >)
        ensures
            res == old(self).ruling(block, evidence),
            res is Err ==> *final(self) == *old(self),
            res is Ok ==> final(self).blocks@ == old(self).blocks@.push(block),
            res is Ok ==> final(self).utxos@ == old(self).utxos_after(evidence),
    {
        match self.validate(&block, &evidence) {
            Err(reason) => { return Err(reason); },
            Ok(()) => {},
        }
        if !self.blocks.is_empty() {
            match evidence.verdict {
                Ok(delta) => {
                    self.utxos.apply(delta);
                },
                Err(_) => {},
            }
        }
        self.blocks.push(block);
        Ok(())
    }

    /// Holds the candidate against the ledger, consulting the collaborators
    /// as the checks come to need them, and takes it in if the rules allow
    /// it. The outcome is the ruling on what the collaborators reported. A
    /// candidate that is turned away leaves the ledger exactly as it was.
    pub fn add_block<H, C, V>(
        &mut self,
        block: Block,
        hash_header: H,
        commit: C,
        verify: V,
    ) -> (res: Result<(), BtcError>) where
        H: Fn(&BlockHeader) -> digest::Hash,
        C: Fn(&Vec<Transaction>) -> MerkleRoot,
        V: Fn(&Vec<Transaction>, u64, &UtxoSet) -> Result<UtxoDelta, BtcError>,

        requires
            old(self).blocks@.len() > 0 ==> {
                &&& hash_header.requires((&old(self).blocks@.last().header,))
                &&& hash_header.requires((&block.header,))
                &&& commit.requires((&block.transactions,))
                &&& verify.requires(
                    (&block.transactions, old(self).blocks@.len() as u64, &old(self).utxos),
                )
            },
        ensures
            exists|evidence: Evidence|
                {
                    &&& #[trigger] old(self).reported(block, evidence, hash_header, commit, verify)
                    &&& res == old(self).ruling(block, evidence)
                    &&& res is Ok ==> final(self).utxos@ == old(self).utxos_after(evidence)
                },
            res is Err ==> *final(self) == *old(self),
            res is Ok ==> final(self).blocks@ == old(self).blocks@.push(block),
            old(self).well_formed(hash_header, commit) ==> final(self).well_formed(
                hash_header,
                commit,
            ),
    {
        let ghost unread = Evidence {
            tip_digest: block.header.prev_block_hash,
            header_digest: block.header.prev_block_hash,
            commitment: block.header.merkle_root,
            verdict: Err(BtcError::InvalidBlock),
        };
        if self.blocks.is_empty() {
            let zero = digest::Hash::zero();
            proof {
                digest::lemma_zero_is_unique(block.header.prev_block_hash, zero);
                assert(self.reported(block, unread, hash_header, commit, verify));
            }
            if !(block.header.prev_block_hash == zero) {
                return Err(BtcError::InvalidBlock);
            }
            self.blocks.push(block);
            return Ok(());
        }
        let last = &self.blocks[self.blocks.len() - 1];
        let tip_digest = hash_header(&last.header);
        if !(block.header.prev_block_hash == tip_digest) {
            proof {
                let seen = Evidence { tip_digest, ..unread };
                assert(self.reported(block, seen, hash_header, commit, verify));
            }
            return Err(BtcError::InvalidBlock);
        }
        let header_digest = hash_header(&block.header);
        if !header_digest.matches_target(block.header.target) {
            proof {
                let seen = Evidence { tip_digest, header_digest, ..unread };
                assert(self.reported(block, seen, hash_header, commit, verify));
            }
            return Err(BtcError::InvalidBlock);
        }
        let commitment = commit(&block.transactions);
        if !(commitment == block.header.merkle_root) {
            proof {
                let seen = Evidence { tip_digest, header_digest, commitment, ..unread };
                assert(self.reported(block, seen, hash_header, commit, verify));
            }
            return Err(BtcError::InvalidMerkleRoot);
        }
        if !block.header.timestamp.is_after(&last.header.timestamp) {
            proof {
                let seen = Evidence { tip_digest, header_digest, commitment, ..unread };
                assert(self.reported(block, seen, hash_header, commit, verify));
            }
            return Err(BtcError::InvalidBlock);
        }
        let verdict = verify(&block.transactions, self.block_height(), &self.utxos);
        let ghost seen = Evidence { tip_digest, header_digest, commitment, verdict };
        assert(self.reported(block, seen, hash_header, commit, verify));
        match verdict {
            Err(fault) => Err(fault),
            Ok(delta) => {
                self.utxos.apply(delta);
                self.blocks.push(block);
                Ok(())
            },
        }
    }
}

} // verus!
