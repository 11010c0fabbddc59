//! The records of the program, each at the address derived from its hash.
use vstd::prelude::*;

use super::memory_block::MemoryBlock;

verus! {

#[derive(Clone, Copy, Debug)]
struct StoredBlock {
    address: [u8; 32],
    block: MemoryBlock,
}

/// The records that a deployed program holds, keyed by address.
#[derive(Debug)]
pub struct MemoryStore {
    program_id: [u8; 32],
    blocks: Vec<StoredBlock>,
}

/// The record at `address`, if any.
pub open spec fn record_in(records: Map<Seq<u8>, MemoryBlock>, address: Seq<u8>) -> Option<MemoryBlock> {
    if records.contains_key(address) {
        Some(records[address])
    } else {
        None
    }
}

/// The map from address to record that a list of writes leaves; a later
/// write to an address hides an earlier one.
spec fn records_of(s: Seq<StoredBlock>) -> Map<Seq<u8>, MemoryBlock>
    decreases s.len(),
{
    if s.len() == 0 {
        Map::empty()
    } else {
        records_of(s.drop_last()).insert(s.last().address@, s.last().block)
    }
}

proof fn lemma_records_prefix(s: Seq<StoredBlock>, i: int, a: Seq<u8>)
    requires
        0 <= i <= s.len(),
        forall|j: int| i <= j < s.len() ==> s[j].address@ != a,
    ensures
        record_in(records_of(s), a) == record_in(records_of(s.subrange(0, i)), a),
    decreases s.len(),
{
    if i == s.len() {
        assert(s.subrange(0, i) =~= s);
    } else {
        let t = s.drop_last();
        assert(t.subrange(0, i) =~= s.subrange(0, i));
        lemma_records_prefix(t, i, a);
    }
}

impl MemoryStore {
    /// The id of the program under which addresses are derived.
    pub closed spec fn spec_program_id(&self) -> [u8; 32] {
        self.program_id
    }

    /// The id of the program under which addresses are derived.
    pub fn program_id(&self) -> (r: [u8; 32])
        ensures
            r == self.spec_program_id(),
    {
        self.program_id
    }

    /// The records held, by address.
    pub closed spec fn records(&self) -> Map<Seq<u8>, MemoryBlock> {
        records_of(self.blocks@)
    }

    /// An empty store for the program `program_id`.
    pub fn new(program_id: [u8; 32]) -> (r: MemoryStore)
        ensures
            r.spec_program_id() == program_id,
            r.records() == Map::<Seq<u8>, MemoryBlock>::empty(),
    {
        MemoryStore { program_id, blocks: Vec::new() }
    }

    /// The record at `address`, if any.
    pub fn lookup(&self, address: &[u8; 32]) -> (r: Option<MemoryBlock>)
        ensures
            r == record_in(self.records(), address@),
    {
        let mut i: usize = self.blocks.len();
        while i > 0
            invariant
                i <= self.blocks@.len(),
                forall|j: int| i <= j < self.blocks@.len() ==> self.blocks@[j].address@ != address@,
            decreases i,
        {
            let entry = &self.blocks[i - 1];
            if crate::derivation::same_key(&entry.address, address) {
                proof {
                    lemma_records_prefix(self.blocks@, i as int, address@);
                }
                return Some(entry.block);
            }
            i = i - 1;
        }
        proof {
            lemma_records_prefix(self.blocks@, 0, address@);
        }
        None
    }

    /// Writes `block` at `address`.
    pub fn insert(&mut self, address: [u8; 32], block: MemoryBlock)
        ensures
            final(self).spec_program_id() == old(self).spec_program_id(),
            final(self).records() == old(self).records().insert(address@, block),
    {
        self.blocks.push(StoredBlock { address, block });
        assert(self.blocks@.drop_last() =~= old(self).blocks@);
    }
}

} // verus!
