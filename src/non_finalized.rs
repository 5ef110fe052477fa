use vstd::prelude::*;

use crate::block::{Block, BlockHash, Height};
use crate::chain_tip::ChainTipBlock;

verus! {

/// Why a block could not be committed to the non-finalized state.
#[derive(Copy, Clone, Debug, PartialEq, Eq, Structural)]
pub enum CommitError {
    /// No candidate chain (or, for a new chain, not the finalized tip) ends in
    /// the block's parent.
    NoMatchingParent,
    /// The block fails a structural check: it names itself as its parent,
    /// starts a chain that already exists, or comes when the tip it would sit
    /// above (the finalized tip for a new chain, else the best tip) is already
    /// at the largest height.
    Invalid,
}

/// What a [`NonFinalizedState`] holds, as mathematical values.
pub struct StoreView {
    /// Height of the finalized tip the candidate chains are rooted at.
    pub finalized_height: nat,
    /// Hash of that finalized tip.
    pub finalized_hash: BlockHash,
    /// The candidate chains, each listed from its oldest block up.
    pub chains: Seq<Seq<Block>>,
    /// Index of the best chain in `chains`.
    pub best: int,
}

/// A chain of blocks whose first block extends `root` and whose every other
/// block extends the one before it.
pub open spec fn linked(c: Seq<Block>, root: BlockHash) -> bool {
    &&& c.len() > 0
    &&& c[0].previous_block_hash.bytes() == root.bytes()
    &&& forall|k: int|
        0 < k < c.len() ==> #[trigger] c[k].previous_block_hash.bytes() == c[k - 1].hash.bytes()
}

impl StoreView {
    pub open spec fn is_empty(self) -> bool {
        self.chains.len() == 0
    }

    /// The best chain, or nothing when there is no candidate chain.
    pub open spec fn best_chain(self) -> Seq<Block> {
        if self.is_empty() {
            Seq::empty()
        } else {
            self.chains[self.best]
        }
    }

    /// Height and hash of the best chain's tip.
    pub open spec fn best_tip(self) -> Option<(nat, BlockHash)> {
        if self.is_empty() {
            None
        } else {
            Some(
                (
                    self.finalized_height + self.best_chain().len(),
                    self.best_chain().last().hash,
                ),
            )
        }
    }

    /// Every chain hangs off the finalized tip, the best one is a longest one,
    /// its tip height fits in a `u32`, and no two chains start with the same block.
    pub open spec fn wf(self) -> bool {
        &&& self.chains.len() > 0 ==> 0 <= self.best < self.chains.len()
        &&& self.chains.len() == 0 ==> self.best == 0
        &&& forall|i: int|
            0 <= i < self.chains.len() ==> linked(#[trigger] self.chains[i], self.finalized_hash)
        &&& forall|i: int|
            0 <= i < self.chains.len() ==> #[trigger] self.chains[i].len()
                <= self.best_chain().len()
        &&& self.finalized_height + self.best_chain().len() <= u32::MAX
        &&& forall|i: int, j: int|
            0 <= i < self.chains.len() && 0 <= j < self.chains.len() && i != j
                ==> #[trigger] self.chains[i][0].hash.bytes()
                != #[trigger] self.chains[j][0].hash.bytes()
    }

    /// Whether the tip of chain `i` is the parent of `b`.
    pub open spec fn tip_is_parent(self, i: int, b: Block) -> bool {
        &&& 0 <= i < self.chains.len()
        &&& self.chains[i].last().hash.bytes() == b.previous_block_hash.bytes()
    }

    /// Whether some chain starts with a block of hash `h`.
    pub open spec fn starts_a_chain(self, h: BlockHash) -> bool {
        exists|i: int| 0 <= i < self.chains.len() && #[trigger] self.chains[i][0].hash.bytes() == h.bytes()
    }

    /// What committing `b` as the first block of a new chain returns.
    pub open spec fn new_chain_outcome(self, b: Block) -> Result<(), CommitError> {
        if b.previous_block_hash.bytes() != self.finalized_hash.bytes() {
            Err(CommitError::NoMatchingParent)
        } else if b.hash.bytes() == b.previous_block_hash.bytes() || self.finalized_height
            >= u32::MAX || self.starts_a_chain(b.hash) {
            Err(CommitError::Invalid)
        } else {
            Ok(())
        }
    }

    /// The store with `b` added as a new chain of its own.
    pub open spec fn with_new_chain(self, b: Block) -> StoreView {
        StoreView { chains: self.chains.push(seq![b]), ..self }
    }

    /// What committing `b` on top of an existing chain returns.
    pub open spec fn block_outcome(self, b: Block) -> Result<(), CommitError> {
        if !(exists|i: int| self.tip_is_parent(i, b)) {
            Err(CommitError::NoMatchingParent)
        } else if b.hash.bytes() == b.previous_block_hash.bytes() || self.finalized_height
            + self.best_chain().len() >= u32::MAX {
            Err(CommitError::Invalid)
        } else {
            Ok(())
        }
    }

    /// The store with `b` appended to chain `i`; that chain becomes the best one
    /// when it is now strictly longer than the best chain.
    pub open spec fn extended(self, i: int, b: Block) -> StoreView {
        StoreView {
            chains: self.chains.update(i, self.chains[i].push(b)),
            best: if self.chains[i].len() + 1 > self.best_chain().len() {
                i
            } else {
                self.best
            },
            ..self
        }
    }

    /// The store after its `n` oldest best-chain blocks are finalized: the root
    /// moves up to the `n`-th of them, and only the rest of the best chain stays.
    pub open spec fn finalized(self, n: nat) -> StoreView {
        if n == 0 {
            self
        } else {
            StoreView {
                finalized_height: self.finalized_height + n,
                finalized_hash: self.best_chain()[n - 1].hash,
                chains: if n < self.best_chain().len() {
                    seq![self.best_chain().skip(n as int)]
                } else {
                    Seq::empty()
                },
                best: 0,
            }
        }
    }
}

/// Finalizing one more block after `n` of them is finalizing `n + 1`.
proof fn lemma_finalized_step(v: StoreView, n: nat)
    requires
        v.wf(),
        n < v.best_chain().len(),
    ensures
        v.finalized(n).wf(),
        !v.finalized(n).is_empty(),
        v.finalized(n).best_chain() == v.best_chain().skip(n as int),
        v.finalized(n).finalized(1) == v.finalized(n + 1),
{
    let b = v.best_chain();
    let w = v.finalized(n);
    if n > 0 {
        assert(w.chains[0] == b.skip(n as int));
        assert(linked(b, v.finalized_hash));
        assert forall|k: int| 0 < k < b.skip(n as int).len() implies #[trigger] b.skip(
            n as int,
        )[k].previous_block_hash.bytes() == b.skip(n as int)[k - 1].hash.bytes() by {
            assert(b.skip(n as int)[k] == b[k + n]);
            assert(b[k + n].previous_block_hash.bytes() == b[k + n - 1].hash.bytes());
        }
        assert(b[n as int].previous_block_hash.bytes() == b[n - 1].hash.bytes());
        assert(linked(w.chains[0], w.finalized_hash));
    } else {
        assert(b.skip(0) =~= b);
    }
    let x = w.finalized(1);
    let y = v.finalized(n + 1);
    assert(b.skip(n as int)[0] == b[n as int]);
    assert(b.skip(n as int).skip(1) =~= b.skip(n + 1 as int));
    assert(x.chains =~= y.chains);
}

/// Finalization only moves forward. Committing a block, as a new chain or on
/// top of one, keeps the finalized tip, and finalizing `n` blocks raises its
/// height by `n`, leaving a well-formed store whose chains all hang off the new
/// finalized tip. Only a reset (`NonFinalizedState::new`) roots the store lower.
pub proof fn lemma_finalization_is_monotonic(v: StoreView, b: Block, n: nat)
    requires
        v.wf(),
    ensures
        v.new_chain_outcome(b) is Ok ==> v.with_new_chain(b).wf() && v.with_new_chain(
            b,
        ).finalized_height == v.finalized_height && v.with_new_chain(b).finalized_hash
            == v.finalized_hash,
        forall|i: int|
            v.tip_is_parent(i, b) ==> (#[trigger] v.extended(i, b)).finalized_height
                == v.finalized_height && v.extended(i, b).finalized_hash == v.finalized_hash,
        n <= v.best_chain().len() ==> v.finalized(n).wf() && v.finalized(n).finalized_height
            == v.finalized_height + n,
{
    if v.new_chain_outcome(b) is Ok {
        let w = v.with_new_chain(b);
        let m = v.chains.len() as int;
        assert forall|a: int, c: int|
            0 <= a < w.chains.len() && 0 <= c < w.chains.len() && a != c
            implies #[trigger] w.chains[a][0].hash.bytes()
            != #[trigger] w.chains[c][0].hash.bytes() by {
            if a == m {
                assert(w.chains[a][0] == b);
                assert(!v.starts_a_chain(b.hash));
                assert(w.chains[c] == v.chains[c]);
            } else if c == m {
                assert(w.chains[c][0] == b);
                assert(!v.starts_a_chain(b.hash));
                assert(w.chains[a] == v.chains[a]);
            } else {
                assert(w.chains[a] == v.chains[a]);
                assert(w.chains[c] == v.chains[c]);
            }
        }
        assert forall|a: int| 0 <= a < w.chains.len() implies linked(
            #[trigger] w.chains[a],
            w.finalized_hash,
        ) by {
            if a == m {
                assert(w.chains[a] == seq![b]);
            } else {
                assert(w.chains[a] == v.chains[a]);
            }
        }
        assert forall|a: int| 0 <= a < w.chains.len() implies #[trigger] w.chains[a].len()
            <= w.best_chain().len() by {
            if a < m {
                assert(w.chains[a] == v.chains[a]);
            }
        }
    }
    if n <= v.best_chain().len() {
        if n > 0 {
            lemma_finalized_step(v, (n - 1) as nat);
        }
    }
}

/// The snapshot readers should see for the best tip of `v`.
pub open spec fn chain_tip_of(v: StoreView) -> Option<ChainTipBlock> {
    if v.is_empty() {
        None
    } else {
        Some(
            ChainTipBlock {
                height: Height((v.finalized_height + v.best_chain().len()) as u32),
                hash: v.best_chain().last().hash,
                previous_block_hash: v.best_chain().last().previous_block_hash,
            },
        )
    }
}

/// The tip the local chain ends in: the best tip, or the finalized tip the
/// store is rooted at when it holds no block.
pub open spec fn local_tip_of(v: StoreView) -> (nat, BlockHash) {
    if v.is_empty() {
        (v.finalized_height, v.finalized_hash)
    } else {
        (v.finalized_height + v.best_chain().len(), v.best_chain().last().hash)
    }
}

/// The candidate chains above the finalized tip, with the best one marked.
#[derive(Clone, Debug)]
pub struct NonFinalizedState {
    finalized_height: Height,
    finalized_hash: BlockHash,
    chains: Vec<Vec<Block>>,
    best: usize,
}

impl View for NonFinalizedState {
    type V = StoreView;

    closed spec fn view(&self) -> StoreView {
        StoreView {
            finalized_height: self.finalized_height.0 as nat,
            finalized_hash: self.finalized_hash,
            chains: self.chains@.map_values(|c: Vec<Block>| c@),
            best: self.best as int,
        }
    }
}

impl NonFinalizedState {
    /// An empty store rooted at the finalized tip `(finalized_height, finalized_hash)`.
    pub fn new(finalized_height: Height, finalized_hash: BlockHash) -> (r: NonFinalizedState)
        ensures
            r@.wf(),
            r@.is_empty(),
            r@.best_tip() is None,
            r@.finalized_height == finalized_height.0,
            r@.finalized_hash == finalized_hash,
    {
        let r = NonFinalizedState { finalized_height, finalized_hash, chains: Vec::new(), best: 0 };
        assert(r@.chains =~= Seq::<Seq<Block>>::empty());
        r
    }

    /// Height and hash of the finalized tip this store is rooted at.
    pub fn finalized_tip(&self) -> (r: (Height, BlockHash))
        ensures
            r.0.0 == self@.finalized_height,
            r.1 == self@.finalized_hash,
    {
        (self.finalized_height, self.finalized_hash)
    }

    /// Whether the store holds no block.
    pub fn is_empty(&self) -> (r: bool)
        ensures
            r == self@.is_empty(),
    {
        self.chains.len() == 0
    }

    /// Height and hash of the best chain's tip, or `None` when the store is empty.
    pub fn best_tip(&self) -> (r: Option<(Height, BlockHash)>)
        requires
            self@.wf(),
        ensures
            r is None <==> self@.is_empty(),
            r matches Some((h, x)) ==> self@.best_tip() == Some((h.0 as nat, x)),
    {
        if self.chains.len() == 0 {
            None
        } else {
            let c = &self.chains[self.best];
            let len = c.len();
            assert(c@ == self@.chains[self.best as int]);
            let h = self.finalized_height.0 + len as u32;
            Some((Height(h), c[len - 1].hash))
        }
    }

    /// Number of blocks in the best chain, or `None` when the store is empty.
    pub fn best_chain_len(&self) -> (r: Option<u32>)
        requires
            self@.wf(),
        ensures
            r is None <==> self@.is_empty(),
            r matches Some(n) ==> n == self@.best_chain().len() && n > 0,
    {
        if self.chains.len() == 0 {
            None
        } else {
            assert(self.chains@[self.best as int]@ == self@.chains[self.best as int]);
            Some(self.chains[self.best].len() as u32)
        }
    }

    /// Starts a new candidate chain whose only block is `block`, which must
    /// extend the finalized tip. On an error the store is left as it was.
    pub fn commit_new_chain(&mut self, block: Block) -> (r: Result<(), CommitError>)
        requires
            old(self)@.wf(),
        ensures
            final(self)@.wf(),
            r == old(self)@.new_chain_outcome(block),
            r is Ok ==> final(self)@ == old(self)@.with_new_chain(block),
            r is Err ==> final(self)@ == old(self)@,
    {
        if !(block.previous_block_hash == self.finalized_hash) {
            return Err(CommitError::NoMatchingParent);
        }
        if block.hash == block.previous_block_hash || self.finalized_height.0 == u32::MAX {
            return Err(CommitError::Invalid);
        }
        let mut i: usize = 0;
        while i < self.chains.len()
            invariant
                self@.wf(),
                *self == *old(self),
                0 <= i <= self.chains.len(),
                block.previous_block_hash.bytes() == self@.finalized_hash.bytes(),
                block.hash.bytes() != block.previous_block_hash.bytes(),
                self@.finalized_height < u32::MAX,
                forall|j: int| 0 <= j < i ==> self@.chains[j][0].hash.bytes() != block.hash.bytes(),
            decreases self.chains.len() - i,
        {
            assert(self.chains@[i as int]@ == self@.chains[i as int]);
            assert(linked(self@.chains[i as int], self@.finalized_hash));
            if self.chains[i][0].hash == block.hash {
                assert(self@.chains[i as int][0].hash.bytes() == block.hash.bytes());
                assert(self@.starts_a_chain(block.hash));

                return Err(CommitError::Invalid);
            }
            i = i + 1;
        }
        let ghost before = self@;
        let mut fresh: Vec<Block> = Vec::new();
        fresh.push(block);
        assert(fresh@ =~= seq![block]);
        self.chains.push(fresh);
        proof {
            assert(self@.chains =~= before.chains.push(seq![block]));
            let nv = self@;
            let n = before.chains.len() as int;
            assert forall|a: int, b: int|
                0 <= a < nv.chains.len() && 0 <= b < nv.chains.len() && a != b
                implies #[trigger] nv.chains[a][0].hash.bytes()
                != #[trigger] nv.chains[b][0].hash.bytes() by {
                if a == n {
                    assert(nv.chains[a][0] == block);
                } else if b == n {
                    assert(nv.chains[b][0] == block);
                }
            }
            assert forall|a: int| 0 <= a < nv.chains.len() implies linked(
                #[trigger] nv.chains[a],
                nv.finalized_hash,
            ) by {
                if a == n {
                    assert(nv.chains[a] == seq![block]);
                }
            }
        }
        Ok(())
    }

    /// Appends `block` to a candidate chain whose tip is its parent, the best
    /// chain when that one qualifies. On an error the store is left as it was.
    pub fn commit_block(&mut self, block: Block) -> (r: Result<(), CommitError>)
        requires
            old(self)@.wf(),
        ensures
            final(self)@.wf(),
            r == old(self)@.block_outcome(block),
            r is Ok ==> exists|i: int|
                old(self)@.tip_is_parent(i, block) && (old(self)@.tip_is_parent(
                    old(self)@.best,
                    block,
                ) ==> i == old(self)@.best) && final(self)@ == old(self)@.extended(i, block),
            r is Ok && old(self)@.tip_is_parent(old(self)@.best, block)
                ==> final(self)@.best_chain() == old(self)@.best_chain().push(block),
            r is Err ==> final(self)@ == old(self)@,
    {
        let ghost before = self@;
        let n = self.chains.len();
        let mut found: usize = n;
        if n > 0 {
            assert(self.chains@[self.best as int]@ == self@.chains[self.best as int]);
            assert(linked(self@.chains[self.best as int], self@.finalized_hash));
            let c = &self.chains[self.best];
            if c[c.len() - 1].hash == block.previous_block_hash {
                found = self.best;
            }
        }
        if found == n {
            let mut i: usize = 0;
            while found == n && i < n
                invariant
                    self@ == before,
                    before.wf(),
                    n == self.chains.len(),
                    0 <= i <= n,
                    found == n ==> forall|j: int| 0 <= j < i ==> !before.tip_is_parent(j, block),
                    found != n ==> found < n && before.tip_is_parent(found as int, block),
                decreases n - i,
            {
                assert(self.chains@[i as int]@ == self@.chains[i as int]);
                assert(linked(self@.chains[i as int], self@.finalized_hash));
                let c = &self.chains[i];
                if c[c.len() - 1].hash == block.previous_block_hash {
                    found = i;
                }
                i = i + 1;
            }
        }
        if found == n {
            assert(forall|j: int| 0 <= j < n ==> !before.tip_is_parent(j, block));
            return Err(CommitError::NoMatchingParent);
        }
        assert(before.tip_is_parent(found as int, block));
        assert(before.best_chain() == self.chains@[self.best as int]@);
        let best_len = self.chains[self.best].len();
        if block.hash == block.previous_block_hash || self.finalized_height.0 as u64
            + best_len as u64 >= u32::MAX as u64 {
            return Err(CommitError::Invalid);
        }
        assert(self.chains@[found as int]@ == self@.chains[found as int]);
        let new_len = self.chains[found].len() + 1;
        self.chains[found].push(block);
        if new_len > best_len {
            self.best = found;
        }
        proof {
            let i = found as int;
            let nv = self@;
            let ex = before.extended(i, block);
            assert(nv.chains =~= ex.chains);
            assert(nv == ex);
            assert forall|a: int| 0 <= a < nv.chains.len() implies linked(
                #[trigger] nv.chains[a],
                nv.finalized_hash,
            ) by {
                if a == i {
                    let c = nv.chains[a];
                    assert(linked(before.chains[a], before.finalized_hash));
                    assert forall|k: int| 0 < k < c.len() implies #[trigger] c[k].previous_block_hash.bytes()
                        == c[k - 1].hash.bytes() by {
                        if k < c.len() - 1 {
                            assert(c[k] == before.chains[a][k]);
                        }
                    }
                }
            }
            assert forall|a: int, b: int|
                0 <= a < nv.chains.len() && 0 <= b < nv.chains.len() && a != b
                implies #[trigger] nv.chains[a][0].hash.bytes()
                != #[trigger] nv.chains[b][0].hash.bytes() by {
                assert(nv.chains[a][0] == before.chains[a][0]);
                assert(nv.chains[b][0] == before.chains[b][0]);
            }
            assert forall|a: int| 0 <= a < nv.chains.len() implies #[trigger] nv.chains[a].len()
                <= nv.best_chain().len() by {
                assert(before.chains[a].len() <= before.best_chain().len());
            }
        }
        Ok(())
    }

    /// Finalizes the oldest block of the best chain: the root moves up to it,
    /// it leaves the store, and so does every chain that does not start with it.
    /// Returns the finalized block.
    pub fn finalize(&mut self) -> (r: Block)
        requires
            old(self)@.wf(),
            !old(self)@.is_empty(),
        ensures
            final(self)@.wf(),
            r == old(self)@.best_chain()[0],
            final(self)@ == old(self)@.finalized(1),
    {
        let ghost before = self@;
        let mut c = self.chains.remove(self.best);
        assert(c@ == before.best_chain());
        let first = c.remove(0);
        self.finalized_height = Height(self.finalized_height.0 + 1);
        self.finalized_hash = first.hash;
        self.best = 0;
        if c.len() > 0 {
            self.chains = vec![c];
        } else {
            self.chains = Vec::new();
        }
        proof {
            let nv = self@;
            let ex = before.finalized(1);
            assert(before.best_chain().skip(1) =~= c@);
            assert(nv.chains =~= ex.chains);
            if c@.len() > 0 {
                let b = before.best_chain();
                assert(linked(b, before.finalized_hash));
                assert(nv.chains[0] == c@);
                assert forall|k: int| 0 < k < c@.len() implies #[trigger] c@[k].previous_block_hash.bytes()
                    == c@[k - 1].hash.bytes() by {
                    assert(c@[k] == b[k + 1]);
                    assert(b[k + 1].previous_block_hash.bytes() == b[k].hash.bytes());
                }
                assert(b[1].previous_block_hash.bytes() == b[0].hash.bytes());
            }
        }
        first
    }

    /// Finalizes best-chain blocks, oldest first, until the best chain holds at
    /// most `reorg_limit` blocks. Returns how many were finalized.
    pub fn finalize_past_reorg_limit(&mut self, reorg_limit: u32) -> (n: u32)
        requires
            old(self)@.wf(),
        ensures
            final(self)@.wf(),
            final(self)@.best_chain().len() <= reorg_limit,
            old(self)@.best_chain().len() <= reorg_limit ==> n == 0,
            old(self)@.best_chain().len() > reorg_limit ==> n == old(self)@.best_chain().len()
                - reorg_limit,
            final(self)@ == old(self)@.finalized(n as nat),
    {
        let ghost before = self@;
        let mut n: u32 = 0;
        while self.chains.len() > 0 && self.chains[self.best].len() > reorg_limit as usize
            invariant
                self@.wf(),
                before.wf(),
                n <= before.best_chain().len(),
                self@ == before.finalized(n as nat),
                n > 0 ==> n + reorg_limit <= before.best_chain().len(),
            decreases self@.best_chain().len(),
        {
            proof {
                assert(self.chains@[self.best as int]@ == self@.chains[self.best as int]);
                lemma_finalized_step(before, n as nat);
            }
            self.finalize();
            n = n + 1;
        }
        proof {
            if self.chains.len() > 0 {
                assert(self.chains@[self.best as int]@ == self@.chains[self.best as int]);
            }
        }
        n
    }

    /// The snapshot of the best tip, or `None` when the store is empty.
    pub fn chain_tip_block(&self) -> (r: Option<ChainTipBlock>)
        requires
            self@.wf(),
        ensures
            r == chain_tip_of(self@),
    {
        if self.chains.len() == 0 {
            None
        } else {
            let c = &self.chains[self.best];
            assert(c@ == self@.chains[self.best as int]);
            let len = c.len();
            let tip = c[len - 1];
            Some(
                ChainTipBlock {
                    height: Height(self.finalized_height.0 + len as u32),
                    hash: tip.hash,
                    previous_block_hash: tip.previous_block_hash,
                },
            )
        }
    }

    /// Height and hash of the tip the local chain ends in.
    pub fn local_tip(&self) -> (r: (Height, BlockHash))
        requires
            self@.wf(),
        ensures
            (r.0.0 as nat, r.1) == local_tip_of(self@),
    {
        if self.chains.len() == 0 {
            (self.finalized_height, self.finalized_hash)
        } else {
            let c = &self.chains[self.best];
            assert(c@ == self@.chains[self.best as int]);
            let len = c.len();
            (Height(self.finalized_height.0 + len as u32), c[len - 1].hash)
        }
    }
}

} // verus!
