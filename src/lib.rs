//! Mirrors the non-finalized suffix of a trusted node's best chain: a store of
//! candidate chains above the finalized tip, the decisions of the loop that keeps
//! it in step with the remote node, and the publication of the best tip.

mod block;
mod chain_tip;
mod non_finalized;
mod subtree;
mod sync;

pub use block::{Block, BlockHash, Height};
pub use chain_tip::{next_change, ChainTipBlock, ChainTipSender};
pub use non_finalized::{
    chain_tip_of, lemma_finalization_is_monotonic, linked, local_tip_of, CommitError,
    NonFinalizedState, StoreView,
};
pub use subtree::{
    NoteCommitmentSubtree, NoteCommitmentSubtreeData, NoteCommitmentSubtreeIndex,
    TRACKED_SUBTREE_HEIGHT,
};
pub use sync::{
    after_poll, after_poll_spec, commit_outcome_spec, committed_spec, continue_from,
    continue_from_spec, excess, lemma_published_tip_is_best_tip, local_tip_spec,
    poll_outcome_spec, wait_for_new_blocks, PollOutcome, SyncAction, SyncPhase, SyncPosition,
    TrustedChainSync, MAX_BLOCK_REORG_HEIGHT, NO_LOCAL_TIP_DELAY_MS,
    REMOTE_UNAVAILABLE_DELAY_MS, UP_TO_DATE_DELAY_MS,
};
