use vstd::prelude::*;

verus! {

/// The height of a block: its distance from the genesis block.
#[derive(Copy, Clone, Debug, PartialEq, Eq, Structural, PartialOrd, Ord, Hash)]
pub struct Height(pub u32);

/// A block hash: a fixed-size digest of the block header.
#[derive(Copy, Clone, Debug, Hash)]
pub struct BlockHash(pub [u8; 32]);

impl BlockHash {
    /// The digest as a sequence of bytes.
    pub open spec fn bytes(self) -> Seq<u8> {
        self.0@
    }
}

impl PartialEq for BlockHash {
    fn eq(&self, other: &BlockHash) -> (r: bool) {
        let mut i: usize = 0;
        while i < 32
            invariant
                0 <= i <= 32,
                forall|j: int| 0 <= j < i ==> self.0@[j] == other.0@[j],
            decreases 32 - i,
        {
            if self.0[i] != other.0[i] {
                return false;
            }
            i = i + 1;
        }
        assert(self.0@ =~= other.0@);
        true
    }
}

impl Eq for BlockHash {}

impl vstd::std_specs::cmp::PartialEqSpecImpl for BlockHash {
    open spec fn obeys_eq_spec() -> bool {
        true
    }

    open spec fn eq_spec(&self, other: &BlockHash) -> bool {
        self.bytes() == other.bytes()
    }
}

/// The identity of a decoded block: its own hash and the hash of its parent.
/// The rest of the block is carried by the caller and plays no part here.
#[derive(Copy, Clone, Debug)]
pub struct Block {
    /// The hash of this block.
    pub hash: BlockHash,
    /// The hash of the block this one extends.
    pub previous_block_hash: BlockHash,
}

impl Block {
    /// Creates a block identity from its hash and its parent's hash.
    pub fn new(hash: BlockHash, previous_block_hash: BlockHash) -> (r: Block)
        ensures
            r.hash == hash,
            r.previous_block_hash == previous_block_hash,
    {
        Block { hash, previous_block_hash }
    }
}

} // verus!
