use vstd::prelude::*;

use crate::block::{Block, BlockHash, Height};
use crate::chain_tip::{ChainTipBlock, ChainTipSender};
use crate::non_finalized::{
    chain_tip_of, local_tip_of, CommitError, NonFinalizedState, StoreView,
};

verus! {

/// The deepest a best chain may grow above the finalized tip before its oldest
/// blocks are finalized.
pub const MAX_BLOCK_REORG_HEIGHT: u32 = 99;

/// Pause before asking the remote node again after it did not answer.
pub const REMOTE_UNAVAILABLE_DELAY_MS: u64 = 100;

/// Pause before asking again while there is no local tip (no genesis block yet).
pub const NO_LOCAL_TIP_DELAY_MS: u64 = 200;

/// Pause before asking again while the local tip matches the remote one.
pub const UP_TO_DATE_DELAY_MS: u64 = 200;

/// Where catching up stands: the local tip, and the remote tip it is heading for.
#[derive(Copy, Clone, Debug)]
pub struct SyncPosition {
    /// Height of the local tip.
    pub current_tip_height: Height,
    /// Hash of the local tip.
    pub current_tip_hash: BlockHash,
    /// Best tip hash the remote node reported.
    pub node_tip_hash: BlockHash,
}

impl SyncPosition {
    /// A position from the local tip and the remote tip hash.
    pub fn new(
        current_tip_height: Height,
        current_tip_hash: BlockHash,
        node_tip_hash: BlockHash,
    ) -> (r: SyncPosition)
        ensures
            r.current_tip_height == current_tip_height,
            r.current_tip_hash == current_tip_hash,
            r.node_tip_hash == node_tip_hash,
    {
        SyncPosition { current_tip_hash, current_tip_height, node_tip_hash }
    }
}

/// What one poll of the remote best tip found.
#[derive(Copy, Clone, Debug)]
pub enum PollOutcome {
    /// The remote node did not answer.
    RemoteUnavailable,
    /// Neither the store nor the finalized state has a tip.
    NoLocalTip,
    /// The remote tip is the local tip.
    UpToDate,
    /// The remote tip differs: blocks are to be fetched from this position.
    NewBlocks(SyncPosition),
}

/// The two phases of the loop.
#[derive(Copy, Clone, Debug)]
pub enum SyncPhase {
    /// Polling the remote best tip until it differs from the local one.
    WaitingForNewBlocks,
    /// Fetching blocks one by one on top of the local tip.
    CatchingUp(SyncPosition),
}

/// What the driver of the loop does next.
#[derive(Copy, Clone, Debug, PartialEq, Eq, Structural)]
pub enum SyncAction {
    /// Wait `delay_ms` milliseconds, then poll the remote best tip.
    PollBestTip { delay_ms: u64 },
    /// Fetch the block at this height from the remote node.
    FetchBlock(Height),
}

/// The local tip: the store's best tip, or the finalized tip when the store is empty.
pub open spec fn local_tip_spec(v: StoreView, finalized_tip: Option<(Height, BlockHash)>) -> Option<
    (nat, BlockHash),
> {
    if !v.is_empty() {
        v.best_tip()
    } else {
        match finalized_tip {
            Some((h, x)) => Some((h.0 as nat, x)),
            None => None,
        }
    }
}

/// What a poll finds, given the remote answer and the finalized tip.
pub open spec fn poll_outcome_spec(
    v: StoreView,
    node_tip: Option<BlockHash>,
    finalized_tip: Option<(Height, BlockHash)>,
) -> PollOutcome {
    match node_tip {
        None => PollOutcome::RemoteUnavailable,
        Some(n) => match local_tip_spec(v, finalized_tip) {
            None => PollOutcome::NoLocalTip,
            Some((h, x)) => if n.bytes() == x.bytes() {
                PollOutcome::UpToDate
            } else {
                PollOutcome::NewBlocks(
                    SyncPosition { current_tip_height: Height(h as u32), current_tip_hash: x, node_tip_hash: n },
                )
            },
        },
    }
}

/// Phase and action once the local tip is `(h, x)` and the remote tip is `node`:
/// back to polling at once when they match, else fetch the block at `h + 1`
/// (polling again later when `h` is the largest height).
pub open spec fn continue_from_spec(h: nat, x: BlockHash, node: BlockHash) -> (SyncPhase, SyncAction) {
    if x.bytes() == node.bytes() {
        (SyncPhase::WaitingForNewBlocks, SyncAction::PollBestTip { delay_ms: 0 })
    } else if h >= u32::MAX {
        (SyncPhase::WaitingForNewBlocks, SyncAction::PollBestTip { delay_ms: UP_TO_DATE_DELAY_MS })
    } else {
        (
            SyncPhase::CatchingUp(
                SyncPosition { current_tip_height: Height(h as u32), current_tip_hash: x, node_tip_hash: node },
            ),
            SyncAction::FetchBlock(Height((h + 1) as u32)),
        )
    }
}

/// Phase and action after a poll that found `o`.
pub open spec fn after_poll_spec(o: PollOutcome) -> (SyncPhase, SyncAction) {
    match o {
        PollOutcome::RemoteUnavailable => (
            SyncPhase::WaitingForNewBlocks,
            SyncAction::PollBestTip { delay_ms: REMOTE_UNAVAILABLE_DELAY_MS },
        ),
        PollOutcome::NoLocalTip => (
            SyncPhase::WaitingForNewBlocks,
            SyncAction::PollBestTip { delay_ms: NO_LOCAL_TIP_DELAY_MS },
        ),
        PollOutcome::UpToDate => (
            SyncPhase::WaitingForNewBlocks,
            SyncAction::PollBestTip { delay_ms: UP_TO_DATE_DELAY_MS },
        ),
        PollOutcome::NewBlocks(p) => continue_from_spec(
            p.current_tip_height.0 as nat,
            p.current_tip_hash,
            p.node_tip_hash,
        ),
    }
}

/// Compares the remote best tip with the local one: the store's best tip, or
/// `finalized_tip` when the store is empty.
pub fn wait_for_new_blocks(
    non_finalized_state: &NonFinalizedState,
    node_tip: Option<BlockHash>,
    finalized_tip: Option<(Height, BlockHash)>,
) -> (r: PollOutcome)
    requires
        non_finalized_state@.wf(),
    ensures
        r == poll_outcome_spec(non_finalized_state@, node_tip, finalized_tip),
{
    let node_block_hash = match node_tip {
        Some(h) => h,
        None => {
            return PollOutcome::RemoteUnavailable;
        },
    };
    let (tip_height, tip_hash) = match non_finalized_state.best_tip() {
        Some(tip) => tip,
        None => match finalized_tip {
            Some(tip) => tip,
            None => {
                return PollOutcome::NoLocalTip;
            },
        },
    };
    if node_block_hash == tip_hash {
        PollOutcome::UpToDate
    } else {
        PollOutcome::NewBlocks(SyncPosition::new(tip_height, tip_hash, node_block_hash))
    }
}

/// Phase and action once the local tip is `(height, hash)` and the remote tip is `node_tip_hash`.
pub fn continue_from(height: Height, hash: BlockHash, node_tip_hash: BlockHash) -> (r: (
    SyncPhase,
    SyncAction,
))
    ensures
        r == continue_from_spec(height.0 as nat, hash, node_tip_hash),
{
    if hash == node_tip_hash {
        (SyncPhase::WaitingForNewBlocks, SyncAction::PollBestTip { delay_ms: 0 })
    } else if height.0 == u32::MAX {
        (SyncPhase::WaitingForNewBlocks, SyncAction::PollBestTip { delay_ms: UP_TO_DATE_DELAY_MS })
    } else {
        (
            SyncPhase::CatchingUp(SyncPosition::new(height, hash, node_tip_hash)),
            SyncAction::FetchBlock(Height(height.0 + 1)),
        )
    }
}

/// Phase and action after a poll that found `outcome`.
pub fn after_poll(outcome: PollOutcome) -> (r: (SyncPhase, SyncAction))
    ensures
        r == after_poll_spec(outcome),
{
    match outcome {
        PollOutcome::RemoteUnavailable => (
            SyncPhase::WaitingForNewBlocks,
            SyncAction::PollBestTip { delay_ms: REMOTE_UNAVAILABLE_DELAY_MS },
        ),
        PollOutcome::NoLocalTip => (
            SyncPhase::WaitingForNewBlocks,
            SyncAction::PollBestTip { delay_ms: NO_LOCAL_TIP_DELAY_MS },
        ),
        PollOutcome::UpToDate => (
            SyncPhase::WaitingForNewBlocks,
            SyncAction::PollBestTip { delay_ms: UP_TO_DATE_DELAY_MS },
        ),
        PollOutcome::NewBlocks(p) => continue_from(
            p.current_tip_height,
            p.current_tip_hash,
            p.node_tip_hash,
        ),
    }
}


/// The store after the fetched block `b` was committed on top of `base`: a new
/// chain when `base` is empty, else the best chain extended.
pub open spec fn committed_spec(base: StoreView, b: Block) -> StoreView {
    if base.is_empty() {
        base.with_new_chain(b)
    } else {
        base.extended(base.best, b)
    }
}

/// What committing `b` on top of `base` returns.
pub open spec fn commit_outcome_spec(base: StoreView, b: Block) -> Result<(), CommitError> {
    if base.is_empty() {
        base.new_chain_outcome(b)
    } else {
        base.block_outcome(b)
    }
}

/// How many best-chain blocks are finalized to bring `v` back within `limit`.
pub open spec fn excess(v: StoreView, limit: u32) -> nat {
    if v.best_chain().len() > limit {
        (v.best_chain().len() - limit) as nat
    } else {
        0
    }
}

/// The synchronization loop's state: the non-finalized store, the best-tip
/// channel, the phase, and the reorg limit. Its methods take what the remote
/// node and the finalized state answered and say what to do next.
pub struct TrustedChainSync {
    non_finalized_state: NonFinalizedState,
    chain_tip_sender: ChainTipSender,
    phase: SyncPhase,
    reorg_limit: u32,
}

impl TrustedChainSync {
    /// The non-finalized store, as a view.
    pub closed spec fn store(&self) -> StoreView {
        self.non_finalized_state@
    }

    /// The best tip readers currently see.
    pub closed spec fn published(&self) -> Option<ChainTipBlock> {
        self.chain_tip_sender.latest_spec()
    }

    /// The loop's phase.
    pub closed spec fn phase_spec(&self) -> SyncPhase {
        self.phase
    }

    /// The deepest the best chain may grow above the finalized tip.
    pub closed spec fn reorg_limit_spec(&self) -> u32 {
        self.reorg_limit
    }

    /// The store is well formed and within the reorg limit, the published tip
    /// is the store's best tip, and while catching up on a non-empty store the
    /// position's local tip is the best tip.
    pub open spec fn wf(&self) -> bool {
        &&& self.store().wf()
        &&& self.store().best_chain().len() <= self.reorg_limit_spec()
        &&& self.published() == chain_tip_of(self.store())
        &&& match self.phase_spec() {
            SyncPhase::CatchingUp(p) => {
                &&& p.current_tip_height.0 < u32::MAX
                &&& !self.store().is_empty() ==> self.store().best_tip() == Some(
                    (p.current_tip_height.0 as nat, p.current_tip_hash),
                )
            },
            SyncPhase::WaitingForNewBlocks => true,
        }
    }

    /// A loop about to poll, with an empty store rooted at the finalized tip
    /// and no tip published.
    pub fn new(finalized_height: Height, finalized_hash: BlockHash, reorg_limit: u32) -> (r:
        TrustedChainSync)
        ensures
            r.wf(),
            r.phase_spec() is WaitingForNewBlocks,
            r.store().is_empty(),
            r.store().finalized_height == finalized_height.0,
            r.store().finalized_hash == finalized_hash,
            r.published() is None,
            r.reorg_limit_spec() == reorg_limit,
    {
        TrustedChainSync {
            non_finalized_state: NonFinalizedState::new(finalized_height, finalized_hash),
            chain_tip_sender: ChainTipSender::new(None),
            phase: SyncPhase::WaitingForNewBlocks,
            reorg_limit,
        }
    }

    /// The non-finalized store.
    pub fn non_finalized_state(&self) -> (r: &NonFinalizedState)
        ensures
            r@ == self.store(),
    {
        &self.non_finalized_state
    }

    /// The best-tip channel.
    pub fn chain_tip_sender(&self) -> (r: &ChainTipSender)
        ensures
            r.latest_spec() == self.published(),
    {
        &self.chain_tip_sender
    }

    /// The latest published best tip.
    pub fn latest_chain_tip(&self) -> (r: Option<ChainTipBlock>)
        ensures
            r == self.published(),
    {
        self.chain_tip_sender.latest_chain_tip()
    }

    /// The current phase.
    pub fn phase(&self) -> (r: SyncPhase)
        ensures
            r == self.phase_spec(),
    {
        self.phase
    }

    /// The reorg limit.
    pub fn reorg_limit(&self) -> (r: u32)
        ensures
            r == self.reorg_limit_spec(),
    {
        self.reorg_limit
    }

    /// Publishes the store's best tip (`None` when it is empty) and returns its height.
    fn update_channels(&mut self) -> (r: Option<Height>)
        requires
            old(self).store().wf(),
        ensures
            final(self).store() == old(self).store(),
            final(self).phase_spec() == old(self).phase_spec(),
            final(self).reorg_limit_spec() == old(self).reorg_limit_spec(),
            final(self).published() == chain_tip_of(old(self).store()),
            r == (match chain_tip_of(old(self).store()) {
                Some(t) => Some(t.height),
                None => None,
            }),
    {
        let tip = self.non_finalized_state.chain_tip_block();
        self.chain_tip_sender.set_best_non_finalized_tip(tip);
        match tip {
            Some(t) => Some(t.height),
            None => None,
        }
    }

    /// Takes the remote best tip hash (`None` when the remote did not answer)
    /// and the finalized tip, and moves to catching up when they differ.
    pub fn on_best_tip(
        &mut self,
        node_tip: Option<BlockHash>,
        finalized_tip: Option<(Height, BlockHash)>,
    ) -> (r: SyncAction)
        requires
            old(self).wf(),
            old(self).phase_spec() is WaitingForNewBlocks,
        ensures
            final(self).wf(),
            final(self).store() == old(self).store(),
            final(self).published() == old(self).published(),
            final(self).reorg_limit_spec() == old(self).reorg_limit_spec(),
            (final(self).phase_spec(), r) == after_poll_spec(
                poll_outcome_spec(old(self).store(), node_tip, finalized_tip),
            ),
    {
        let outcome = wait_for_new_blocks(&self.non_finalized_state, node_tip, finalized_tip);
        let (phase, action) = after_poll(outcome);
        self.phase = phase;
        action
    }

    /// Takes the block fetched at the next height (`None` when the remote had
    /// none or it did not decode) and the finalized tip. A missing block, or one
    /// that does not extend the local tip, resets the store to the finalized tip
    /// and catching up starts again from there. Otherwise the block is
    /// committed: on an error the same height is fetched again; on success the
    /// blocks past the reorg limit are finalized and the new tip is published.
    pub fn on_block(&mut self, fetched: Option<Block>, finalized_tip: (Height, BlockHash)) -> (r:
        SyncAction)
        requires
            old(self).wf(),
            old(self).phase_spec() is CatchingUp,
        ensures
            final(self).wf(),
            final(self).reorg_limit_spec() == old(self).reorg_limit_spec(),
            ({
                let p = old(self).phase_spec()->CatchingUp_0;
                let limit = old(self).reorg_limit_spec();
                let old_store = old(self).store();
                let fh = finalized_tip.0.0 as nat;
                let fx = finalized_tip.1;
                let base = if old_store.is_empty() {
                    StoreView { finalized_height: fh, finalized_hash: fx, chains: Seq::empty(), best: 0 }
                } else {
                    old_store
                };
                match fetched {
                    Some(b) if b.previous_block_hash.bytes() == p.current_tip_hash.bytes() => {
                        if commit_outcome_spec(base, b) is Ok {
                            let c = committed_spec(base, b);
                            let s = c.finalized(excess(c, limit));
                            &&& final(self).store() == s
                            &&& final(self).published() == chain_tip_of(s)
                            &&& (final(self).phase_spec(), r) == continue_from_spec(
                                local_tip_of(s).0,
                                local_tip_of(s).1,
                                p.node_tip_hash,
                            )
                        } else {
                            &&& final(self).store() == base
                            &&& final(self).published() == old(self).published()
                            &&& final(self).phase_spec() == old(self).phase_spec()
                            &&& r == SyncAction::FetchBlock(Height((p.current_tip_height.0 + 1) as u32))
                        }
                    },
                    _ => {
                        &&& final(self).store().is_empty()
                        &&& final(self).store().finalized_height == fh
                        &&& final(self).store().finalized_hash == fx
                        &&& final(self).published() is None
                        &&& (final(self).phase_spec(), r) == continue_from_spec(fh, fx, p.node_tip_hash)
                    },
                }
            }),
    {
        let p = match self.phase {
            SyncPhase::CatchingUp(p) => p,
            SyncPhase::WaitingForNewBlocks => {
                return SyncAction::PollBestTip { delay_ms: 0 };
            },
        };
        let (fin_height, fin_hash) = finalized_tip;
        let block = match fetched {
            Some(b) => {
                if b.previous_block_hash == p.current_tip_hash {
                    Some(b)
                } else {
                    None
                }
            },
            None => None,
        };
        let block = match block {
            Some(b) => b,
            None => {
                self.non_finalized_state = NonFinalizedState::new(fin_height, fin_hash);
                self.update_channels();
                let (phase, action) = continue_from(fin_height, fin_hash, p.node_tip_hash);
                self.phase = phase;
                return action;
            },
        };
        let was_empty = self.non_finalized_state.is_empty();
        if was_empty {
            self.non_finalized_state = NonFinalizedState::new(fin_height, fin_hash);
        }
        let ghost base = self.non_finalized_state@;
        proof {
            if was_empty {
                assert(base.chains =~= Seq::<Seq<Block>>::empty());
                assert(base == StoreView {
                    finalized_height: fin_height.0 as nat,
                    finalized_hash: fin_hash,
                    chains: Seq::empty(),
                    best: 0,
                });
            }
        }
        let result = if was_empty {
            self.non_finalized_state.commit_new_chain(block)
        } else {
            self.non_finalized_state.commit_block(block)
        };
        if result.is_err() {
            return SyncAction::FetchBlock(Height(p.current_tip_height.0 + 1));
        }
        proof {
            if !was_empty {
                assert(base.tip_is_parent(base.best, block));
                let i = choose|i: int|
                    base.tip_is_parent(i, block) && (base.tip_is_parent(base.best, block) ==> i
                        == base.best) && self.non_finalized_state@ == base.extended(i, block);
            }
            assert(self.non_finalized_state@ == committed_spec(base, block));
        }
        let ghost c = self.non_finalized_state@;
        let n = self.non_finalized_state.finalize_past_reorg_limit(self.reorg_limit);
        assert(n as nat == excess(c, self.reorg_limit));
        self.update_channels();
        let (tip_height, tip_hash) = self.non_finalized_state.local_tip();
        let (phase, action) = continue_from(tip_height, tip_hash, p.node_tip_hash);
        self.phase = phase;
        action
    }
}

/// Readers see only the store's true best tip: in every state the loop
/// reaches (each step keeps `wf`), a tip is published exactly when the store has
/// one, with its height and hash.
pub proof fn lemma_published_tip_is_best_tip(t: &TrustedChainSync)
    requires
        t.wf(),
    ensures
        t.published() is Some <==> t.store().best_tip() is Some,
        t.published() matches Some(b) ==> t.store().best_tip() == Some(
            (b.height.0 as nat, b.hash),
        ),
{
}

} // verus!
