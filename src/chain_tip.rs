use vstd::prelude::*;

use crate::block::{BlockHash, Height};

verus! {

/// A snapshot of the block that is, or was, the best tip.
#[derive(Copy, Clone, Debug)]
pub struct ChainTipBlock {
    /// Height of the tip block.
    pub height: Height,
    /// Hash of the tip block.
    pub hash: BlockHash,
    /// Hash of the block the tip extends.
    pub previous_block_hash: BlockHash,
}

/// The publishing side of the best-tip channel: the latest tip, which readers
/// see last-write-wins, and a count of publications, which readers compare to
/// learn that the tip changed.
pub struct ChainTipSender {
    latest: Option<ChainTipBlock>,
    changes: u64,
}

/// The count that follows `c` on the change stream; it wraps around.
pub open spec fn next_change(c: u64) -> u64 {
    if c == u64::MAX {
        0
    } else {
        (c + 1) as u64
    }
}

impl ChainTipSender {
    /// The tip that readers see now.
    pub closed spec fn latest_spec(&self) -> Option<ChainTipBlock> {
        self.latest
    }

    /// How many tips were published, modulo 2^64.
    pub closed spec fn changes_spec(&self) -> u64 {
        self.changes
    }

    /// A sender whose readers see `initial_tip` and no change yet.
    pub fn new(initial_tip: Option<ChainTipBlock>) -> (r: ChainTipSender)
        ensures
            r.latest_spec() == initial_tip,
            r.changes_spec() == 0,
    {
        ChainTipSender { latest: initial_tip, changes: 0 }
    }

    /// Publishes `tip` as the best non-finalized tip, `None` when there is none.
    pub fn set_best_non_finalized_tip(&mut self, tip: Option<ChainTipBlock>)
        ensures
            final(self).latest_spec() == tip,
            final(self).changes_spec() == next_change(old(self).changes_spec()),
    {
        self.latest = tip;
        self.changes = if self.changes == u64::MAX {
            0
        } else {
            self.changes + 1
        };
    }

    /// The latest published tip.
    pub fn latest_chain_tip(&self) -> (r: Option<ChainTipBlock>)
        ensures
            r == self.latest_spec(),
    {
        self.latest
    }

    /// The number of publications so far, modulo 2^64.
    pub fn change_count(&self) -> (r: u64)
        ensures
            r == self.changes_spec(),
    {
        self.changes
    }
}

} // verus!
