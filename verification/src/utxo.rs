//! The unspent-output set: a finite mapping from the digest that names an
//! output to the output, and the change that one block makes to it.

use crate::digest;
use crate::types::TransactionOutput;
use vstd::prelude::*;

verus! {

/// Whether position `i` of `s` holds the output named `id`.
pub open spec fn names_at(
    s: Seq<(digest::Hash, TransactionOutput)>,
    id: digest::Hash,
    i: int,
) -> bool {
    0 <= i < s.len() && s[i].0 == id
}

/// Whether no digest names two positions of `s`.
pub open spec fn distinct_ids(s: Seq<(digest::Hash, TransactionOutput)>) -> bool {
    forall|i: int, j: int| 0 <= i < j < s.len() ==> s[i].0 != s[j].0
}

/// The mapping that the pairs of `s` spell out.
pub open spec fn mapping_of(s: Seq<(digest::Hash, TransactionOutput)>) -> Map<
    digest::Hash,
    TransactionOutput,
> {
    Map::new(
        |id: digest::Hash| exists|i: int| names_at(s, id, i),
        |id: digest::Hash| s[choose|i: int| names_at(s, id, i)].1,
    )
}

/// The outputs that can still be spent, each under the digest that names it.
#[derive(Debug)]
pub struct UtxoSet {
    entries: Vec<(digest::Hash, TransactionOutput)>,
}

impl View for UtxoSet {
    type V = Map<digest::Hash, TransactionOutput>;

    closed spec fn view(&self) -> Map<digest::Hash, TransactionOutput> {
        mapping_of(self.entries@)
    }
}

impl UtxoSet {
    #[verifier::type_invariant]
    spec fn no_digest_twice(self) -> bool {
        distinct_ids(self.entries@)
    }

    /// The position of the output named `id`, if the set holds it.
    fn position(&self, id: &digest::Hash) -> (r: Option<usize>)
        ensures
            match r {
                Some(i) => names_at(self.entries@, *id, i as int),
                None => forall|i: int| !names_at(self.entries@, *id, i),
            },
    {
        let mut i: usize = 0;
        while i < self.entries.len()
            invariant
                0 <= i <= self.entries@.len(),
                forall|j: int| 0 <= j < i ==> self.entries@[j].0 != *id,
            decreases self.entries@.len() - i,
        {
            if self.entries[i].0 == *id {
                return Some(i);
            }
            i += 1;
        }
        None
    }

    /// The empty set.
    pub fn new() -> (r: UtxoSet)
        ensures
            r@ == Map::<digest::Hash, TransactionOutput>::empty(),
    {
        UtxoSet { entries: Vec::new() }
    }

    /// The number of unspent outputs.
    pub fn len(&self) -> (n: usize)
        ensures
            self@.dom().finite(),
            n == self@.dom().len(),
    {
        proof {
            use_type_invariant(self);
            lemma_mapping_len(self.entries@);
        }
        self.entries.len()
    }

    /// The outputs of the set, each with the digest that names it, in no
    /// order that means anything.
    pub fn entries(&self) -> (r: &Vec<(digest::Hash, TransactionOutput)>)
        ensures
            distinct_ids(r@),
            mapping_of(r@) == self@,
    {
        proof {
            use_type_invariant(self);
        }
        &self.entries
    }

    /// Whether the set holds an output named `id`.
    pub fn contains_key(&self, id: &digest::Hash) -> (r: bool)
        ensures
            r == self@.contains_key(*id),
    {
        self.position(id).is_some()
    }

    /// The output named `id`, if the set holds it.
    pub fn get(&self, id: &digest::Hash) -> (r: Option<&TransactionOutput>)
        ensures
            match r {
                Some(output) => self@.contains_key(*id) && *output == self@[*id],
                None => !self@.contains_key(*id),
            },
    {
        match self.position(id) {
            Some(i) => {
                proof {
                    use_type_invariant(self);
                    lemma_pair_is_mapped(self.entries@, i as int);
                }
                Some(&self.entries[i].1)
            },
            None => None,
        }
    }

    /// Puts `output` into the set under `id` and returns the output that
    /// `id` named before, if there was one.
    pub fn insert(&mut self, id: digest::Hash, output: TransactionOutput) -> (r: Option<
        TransactionOutput,
    >)
        ensures
            final(self)@ == old(self)@.insert(id, output),
            r == (if old(self)@.contains_key(id) {
                Some(old(self)@[id])
            } else {
                None::<TransactionOutput>
            }),
    {
        proof {
            use_type_invariant(&*self);
        }
        let before = self.remove(&id);
        proof {
            use_type_invariant(&*self);
            assert forall|i: int| 0 <= i < self.entries@.len() implies self.entries@[i].0 != id by {
                if self.entries@[i].0 == id {
                    lemma_pair_is_mapped(self.entries@, i);
                }
            }
            lemma_push_inserts(self.entries@, id, output);
        }
        let mut entries: Vec<(digest::Hash, TransactionOutput)> = Vec::new();
        std::mem::swap(&mut self.entries, &mut entries);
        entries.push((id, output));
        self.entries = entries;
        before
    }

    /// Takes the output named `id` out of the set and returns it, if the
    /// set held it.
    pub fn remove(&mut self, id: &digest::Hash) -> (r: Option<TransactionOutput>)
        ensures
            final(self)@ == old(self)@.remove(*id),
            r == (if old(self)@.contains_key(*id) {
                Some(old(self)@[*id])
            } else {
                None::<TransactionOutput>
            }),
    {
        proof {
            use_type_invariant(&*self);
        }
        match self.position(id) {
            Some(i) => {
                proof {
                    lemma_pair_is_mapped(self.entries@, i as int);
                    lemma_remove_removes(self.entries@, i as int);
                }
                let mut entries: Vec<(digest::Hash, TransactionOutput)> = Vec::new();
                std::mem::swap(&mut self.entries, &mut entries);
                let entry = entries.remove(i);
                self.entries = entries;
                Some(entry.1)
            },
            None => None,
        }
    }

    /// Applies the change that one block makes: puts in what the block
    /// created, then takes out what it spent.
    pub fn apply(&mut self, delta: UtxoDelta)
        ensures
            final(self)@ == delta.applied_to(old(self)@),
    {
        let UtxoDelta { consumed, produced } = delta;
        proof {
            use_type_invariant(&produced);
        }
        let ghost base = self@;
        let ghost created = produced.entries@;
        let mut pending = produced.entries;
        while pending.len() > 0
            invariant
                distinct_ids(created),
                pending@.len() <= created.len(),
                pending@ == created.take(pending@.len() as int),
                self@ == base.union_prefer_right(mapping_of(created.skip(pending@.len() as int))),
            decreases pending@.len(),
        {
            let ghost left = pending@.len() as int;
            let entry = pending.pop().unwrap();
            proof {
                lemma_tail_grows(created, left);
                assert(base.union_prefer_right(mapping_of(created.skip(left))).insert(
                    entry.0,
                    entry.1,
                ) =~= base.union_prefer_right(
                    mapping_of(created.skip(left)).insert(entry.0, entry.1),
                ));
            }
            self.insert(entry.0, entry.1);
        }
        assert(created.skip(0) =~= created);
        let ghost grown = self@;
        let mut i: usize = 0;
        while i < consumed.len()
            invariant
                0 <= i <= consumed@.len(),
                forall|id: digest::Hash| #[trigger]
                    self@.contains_key(id) <==> grown.contains_key(id) && !spent_within(
                        consumed@,
                        i as int,
                        id,
                    ),
                forall|id: digest::Hash| #[trigger]
                    self@.contains_key(id) ==> self@[id] == grown[id],
            decreases consumed@.len() - i,
        {
            self.remove(&consumed[i]);
            i += 1;
        }
    }
}

impl Clone for UtxoSet {
    /// A set that holds, under each digest of `self` and no other, an
    /// output like the one that `self` holds there.
    fn clone(&self) -> (r: UtxoSet)
        ensures
            r@.dom() == self@.dom(),
            forall|id: digest::Hash| #[trigger]
                self@.contains_key(id) ==> self@[id].alike(r@[id]),
    {
        proof {
            use_type_invariant(self);
        }
        let mut entries: Vec<(digest::Hash, TransactionOutput)> = Vec::new();
        let mut i: usize = 0;
        while i < self.entries.len()
            invariant
                0 <= i <= self.entries@.len(),
                entries@.len() == i,
                forall|j: int| 0 <= j < i ==> entries@[j].0 == self.entries@[j].0,
                forall|j: int| 0 <= j < i ==> self.entries@[j].1.alike(#[trigger] entries@[j].1),
            decreases self.entries@.len() - i,
        {
            let output = self.entries[i].1.clone();
            entries.push((self.entries[i].0, output));
            i += 1;
        }
        let r = UtxoSet { entries };
        proof {
            assert forall|id: digest::Hash| #[trigger]
                r@.contains_key(id) == self@.contains_key(id) by {
                if r@.contains_key(id) {
                    let j = choose|j: int| names_at(r.entries@, id, j);
                    assert(names_at(self.entries@, id, j));
                }
                if self@.contains_key(id) {
                    let j = choose|j: int| names_at(self.entries@, id, j);
                    assert(names_at(r.entries@, id, j));
                }
            }
            assert forall|id: digest::Hash| #[trigger]
                self@.contains_key(id) implies self@[id].alike(r@[id]) by {
                let j = choose|j: int| names_at(self.entries@, id, j);
                lemma_pair_is_mapped(self.entries@, j);
                lemma_pair_is_mapped(r.entries@, j);
            }
        }
        r
    }
}

/// The change that the transactions of one block make to the unspent
/// outputs.
#[derive(Debug)]
pub struct UtxoDelta {
    /// The digests of the outputs that the transactions spend.
    pub consumed: Vec<digest::Hash>,
    /// The outputs that the transactions create.
    pub produced: UtxoSet,
}

impl UtxoDelta {
    /// The mapping that results from `utxos`: the created outputs are put
    /// in, then every spent digest is taken out, so that an output created
    /// and spent by the same block does not stay.
    pub open spec fn applied_to(self, utxos: Map<digest::Hash, TransactionOutput>) -> Map<
        digest::Hash,
        TransactionOutput,
    > {
        utxos.union_prefer_right(self.produced@).remove_keys(self.consumed@.to_set())
    }
}

/// Whether `id` is among the first `upto` digests of `consumed`.
spec fn spent_within(consumed: Seq<digest::Hash>, upto: int, id: digest::Hash) -> bool {
    exists|j: int| 0 <= j < upto && #[trigger] consumed[j] == id
}

/// With distinct digests, each pair of `s` is a pair of its mapping.
proof fn lemma_pair_is_mapped(s: Seq<(digest::Hash, TransactionOutput)>, i: int)
    requires
        distinct_ids(s),
        0 <= i < s.len(),
    ensures
        mapping_of(s).contains_key(s[i].0),
        mapping_of(s)[s[i].0] == s[i].1,
{
    let id = s[i].0;
    assert(names_at(s, id, i));
    let c = choose|c: int| names_at(s, id, c);
    assert(c == i);
}

/// Appending a pair under a digest not yet present inserts it.
proof fn lemma_push_inserts(
    s: Seq<(digest::Hash, TransactionOutput)>,
    id: digest::Hash,
    output: TransactionOutput,
)
    requires
        distinct_ids(s),
        forall|i: int| 0 <= i < s.len() ==> s[i].0 != id,
    ensures
        distinct_ids(s.push((id, output))),
        mapping_of(s.push((id, output))) == mapping_of(s).insert(id, output),
{
    let t = s.push((id, output));
    assert forall|k: digest::Hash| #[trigger]
        mapping_of(t).contains_key(k) == mapping_of(s).insert(id, output).contains_key(k) by {
        if mapping_of(t).contains_key(k) {
            let i = choose|i: int| names_at(t, k, i);
            if i < s.len() {
                assert(names_at(s, k, i));
            }
        }
        if mapping_of(s).insert(id, output).contains_key(k) {
            if k == id {
                assert(names_at(t, k, s.len() as int));
            } else {
                let i = choose|i: int| names_at(s, k, i);
                assert(names_at(t, k, i));
            }
        }
    }
    assert forall|k: digest::Hash| #[trigger]
        mapping_of(t).contains_key(k) implies mapping_of(t)[k] == mapping_of(s).insert(
        id,
        output,
    )[k] by {
        let i = choose|i: int| names_at(t, k, i);
        lemma_pair_is_mapped(t, i);
        if i < s.len() {
            lemma_pair_is_mapped(s, i);
        }
    }
    assert(mapping_of(t) =~= mapping_of(s).insert(id, output));
}

/// Taking out the pair at a position removes its digest from the mapping.
proof fn lemma_remove_removes(s: Seq<(digest::Hash, TransactionOutput)>, at: int)
    requires
        distinct_ids(s),
        0 <= at < s.len(),
    ensures
        distinct_ids(s.remove(at)),
        mapping_of(s.remove(at)) == mapping_of(s).remove(s[at].0),
{
    let t = s.remove(at);
    let gone = s[at].0;
    assert forall|i: int| 0 <= i < t.len() implies t[i] == s[if i < at {
        i
    } else {
        i + 1
    }] by {}
    assert forall|k: digest::Hash| #[trigger]
        mapping_of(t).contains_key(k) == mapping_of(s).remove(gone).contains_key(k) by {
        if mapping_of(t).contains_key(k) {
            let i = choose|i: int| names_at(t, k, i);
            let i0 = if i < at { i } else { i + 1 };
            assert(names_at(s, k, i0));
        }
        if mapping_of(s).remove(gone).contains_key(k) {
            let i0 = choose|i: int| names_at(s, k, i);
            let i = if i0 < at { i0 } else { i0 - 1 };
            assert(names_at(t, k, i));
        }
    }
    assert forall|k: digest::Hash| #[trigger]
        mapping_of(t).contains_key(k) implies mapping_of(t)[k] == mapping_of(s).remove(gone)[k] by {
        let i = choose|i: int| names_at(t, k, i);
        let i0 = if i < at { i } else { i + 1 };
        lemma_pair_is_mapped(t, i);
        lemma_pair_is_mapped(s, i0);
    }
    assert(mapping_of(t) =~= mapping_of(s).remove(gone));
}

/// With distinct digests, the mapping has as many pairs as `s`.
proof fn lemma_mapping_len(s: Seq<(digest::Hash, TransactionOutput)>)
    requires
        distinct_ids(s),
    ensures
        mapping_of(s).dom().finite(),
        mapping_of(s).dom().len() == s.len(),
    decreases s.len(),
{
    if s.len() == 0 {
        assert(mapping_of(s).dom() =~= Set::empty());
    } else {
        let head = s.drop_last();
        let last = s.last();
        lemma_mapping_len(head);
        lemma_push_inserts(head, last.0, last.1);
        assert(head.push((last.0, last.1)) =~= s);
        assert(!mapping_of(head).dom().contains(last.0)) by {
            if mapping_of(head).dom().contains(last.0) {
                let i = choose|i: int| names_at(head, last.0, i);
                assert(s[i].0 == s[s.len() - 1].0);
            }
        }
        assert(mapping_of(s).dom() =~= mapping_of(head).dom().insert(last.0));
    }
}

/// Taking one more pair at the front of a tail inserts that pair.
proof fn lemma_tail_grows(s: Seq<(digest::Hash, TransactionOutput)>, from: int)
    requires
        distinct_ids(s),
        0 < from <= s.len(),
    ensures
        mapping_of(s.skip(from - 1)) == mapping_of(s.skip(from)).insert(
            s[from - 1].0,
            s[from - 1].1,
        ),
{
    let longer = s.skip(from - 1);
    let shorter = s.skip(from);
    let grown = mapping_of(shorter).insert(s[from - 1].0, s[from - 1].1);
    assert(distinct_ids(longer));
    assert(distinct_ids(shorter));
    assert forall|k: digest::Hash| #[trigger]
        mapping_of(longer).contains_key(k) == grown.contains_key(k) by {
        if mapping_of(longer).contains_key(k) {
            let i = choose|i: int| names_at(longer, k, i);
            if i > 0 {
                assert(names_at(shorter, k, i - 1));
            }
        }
        if grown.contains_key(k) {
            if k == s[from - 1].0 {
                assert(names_at(longer, k, 0));
            } else {
                let i = choose|i: int| names_at(shorter, k, i);
                assert(names_at(longer, k, i + 1));
            }
        }
    }
    assert forall|k: digest::Hash| #[trigger]
        mapping_of(longer).contains_key(k) implies mapping_of(longer)[k] == grown[k] by {
        let i = choose|i: int| names_at(longer, k, i);
        lemma_pair_is_mapped(longer, i);
        if i > 0 {
            lemma_pair_is_mapped(shorter, i - 1);
        }
    }
    assert(mapping_of(longer) =~= grown);
}

} // verus!
