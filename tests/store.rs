use trusted_chain_sync::{Block, BlockHash, CommitError, Height, NonFinalizedState};

fn hash(n: u8) -> BlockHash {
    BlockHash([n; 32])
}

fn block(n: u8, parent: u8) -> Block {
    Block::new(hash(n), hash(parent))
}

fn tip(state: &NonFinalizedState) -> Option<(u32, u8)> {
    state.best_tip().map(|(h, x)| (h.0, x.0[0]))
}

#[test]
fn new_store_is_empty_and_rooted() {
    let state = NonFinalizedState::new(Height(100), hash(1));
    assert!(state.is_empty());
    assert_eq!(tip(&state), None);
    assert_eq!(state.best_chain_len(), None);
    let (h, x) = state.finalized_tip();
    assert_eq!(h, Height(100));
    assert!(x == hash(1));
}

#[test]
fn new_chain_on_finalized_tip() {
    let mut state = NonFinalizedState::new(Height(100), hash(1));
    assert_eq!(state.commit_new_chain(block(2, 1)), Ok(()));
    assert_eq!(tip(&state), Some((101, 2)));
    assert_eq!(state.best_chain_len(), Some(1));
}

#[test]
fn new_chain_off_finalized_tip_is_rejected() {
    let mut state = NonFinalizedState::new(Height(100), hash(1));
    assert_eq!(state.commit_new_chain(block(2, 9)), Err(CommitError::NoMatchingParent));
    assert_eq!(tip(&state), None);
}

#[test]
fn new_chain_duplicate_or_self_linked_is_invalid() {
    let mut state = NonFinalizedState::new(Height(100), hash(1));
    assert_eq!(state.commit_new_chain(block(1, 1)), Err(CommitError::Invalid));
    assert_eq!(state.commit_new_chain(block(2, 1)), Ok(()));
    assert_eq!(state.commit_new_chain(block(2, 1)), Err(CommitError::Invalid));
    assert_eq!(state.best_chain_len(), Some(1));
}

#[test]
fn new_chain_at_largest_height_is_invalid() {
    let mut state = NonFinalizedState::new(Height(u32::MAX), hash(1));
    assert_eq!(state.commit_new_chain(block(2, 1)), Err(CommitError::Invalid));
    assert!(state.is_empty());
}

#[test]
fn commit_block_extends_best_chain() {
    let mut state = NonFinalizedState::new(Height(100), hash(1));
    state.commit_new_chain(block(2, 1)).unwrap();
    assert_eq!(state.commit_block(block(3, 2)), Ok(()));
    assert_eq!(state.commit_block(block(4, 3)), Ok(()));
    assert_eq!(tip(&state), Some((103, 4)));
    assert_eq!(state.best_chain_len(), Some(3));
}

#[test]
fn commit_block_without_parent_fails_and_changes_nothing() {
    let mut state = NonFinalizedState::new(Height(100), hash(1));
    state.commit_new_chain(block(2, 1)).unwrap();
    assert_eq!(state.commit_block(block(3, 7)), Err(CommitError::NoMatchingParent));
    assert_eq!(tip(&state), Some((101, 2)));
    assert_eq!(state.best_chain_len(), Some(1));
}

#[test]
fn commit_block_on_empty_store_has_no_parent() {
    let mut state = NonFinalizedState::new(Height(100), hash(1));
    assert_eq!(state.commit_block(block(2, 1)), Err(CommitError::NoMatchingParent));
    assert!(state.is_empty());
}

#[test]
fn commit_block_self_linked_is_invalid() {
    let mut state = NonFinalizedState::new(Height(100), hash(1));
    state.commit_new_chain(block(2, 1)).unwrap();
    assert_eq!(state.commit_block(block(2, 2)), Err(CommitError::Invalid));
    assert_eq!(tip(&state), Some((101, 2)));
}

#[test]
fn commit_block_past_largest_height_is_invalid() {
    let mut state = NonFinalizedState::new(Height(u32::MAX - 1), hash(1));
    state.commit_new_chain(block(2, 1)).unwrap();
    assert_eq!(tip(&state), Some((u32::MAX, 2)));
    assert_eq!(state.commit_block(block(3, 2)), Err(CommitError::Invalid));
    assert_eq!(state.best_chain_len(), Some(1));
}

#[test]
fn longer_fork_becomes_best_and_ties_keep_best() {
    let mut state = NonFinalizedState::new(Height(100), hash(1));
    state.commit_new_chain(block(10, 1)).unwrap();
    state.commit_new_chain(block(20, 1)).unwrap();
    // Equal length: the first chain stays best.
    assert_eq!(tip(&state), Some((101, 10)));
    state.commit_block(block(21, 20)).unwrap();
    assert_eq!(tip(&state), Some((102, 21)));
    state.commit_block(block(11, 10)).unwrap();
    // Equal length again: no reorg.
    assert_eq!(tip(&state), Some((102, 21)));
    state.commit_block(block(12, 11)).unwrap();
    assert_eq!(tip(&state), Some((103, 12)));
}

#[test]
fn finalize_moves_root_and_drops_other_chains() {
    let mut state = NonFinalizedState::new(Height(100), hash(1));
    state.commit_new_chain(block(10, 1)).unwrap();
    state.commit_block(block(11, 10)).unwrap();
    state.commit_new_chain(block(20, 1)).unwrap();
    let finalized = state.finalize();
    assert!(finalized.hash == hash(10));
    let (h, x) = state.finalized_tip();
    assert_eq!(h, Height(101));
    assert!(x == hash(10));
    assert_eq!(tip(&state), Some((102, 11)));
    assert_eq!(state.best_chain_len(), Some(1));
    // The other chain no longer extends the finalized tip.
    assert_eq!(state.commit_block(block(21, 20)), Err(CommitError::NoMatchingParent));
    // Nothing can start again on the old finalized tip.
    assert_eq!(state.commit_new_chain(block(30, 1)), Err(CommitError::NoMatchingParent));
    assert_eq!(state.finalized_tip().0, Height(101));
}

#[test]
fn finalize_last_block_empties_store() {
    let mut state = NonFinalizedState::new(Height(5), hash(1));
    state.commit_new_chain(block(2, 1)).unwrap();
    state.finalize();
    assert!(state.is_empty());
    let (h, x) = state.finalized_tip();
    assert_eq!(h, Height(6));
    assert!(x == hash(2));
    assert_eq!(state.local_tip().0, Height(6));
}

#[test]
fn finalize_past_reorg_limit_drains_to_limit() {
    let mut state = NonFinalizedState::new(Height(100), hash(1));
    state.commit_new_chain(block(2, 1)).unwrap();
    for n in 3..=6u8 {
        state.commit_block(block(n, n - 1)).unwrap();
    }
    assert_eq!(state.best_chain_len(), Some(5));
    assert_eq!(state.finalize_past_reorg_limit(3), 2);
    assert_eq!(state.best_chain_len(), Some(3));
    assert_eq!(state.finalized_tip().0, Height(102));
    assert_eq!(tip(&state), Some((105, 6)));
    assert_eq!(state.finalize_past_reorg_limit(3), 0);
    assert_eq!(state.best_chain_len(), Some(3));
}

#[test]
fn finalize_past_zero_limit_empties_store() {
    let mut state = NonFinalizedState::new(Height(100), hash(1));
    state.commit_new_chain(block(2, 1)).unwrap();
    state.commit_block(block(3, 2)).unwrap();
    assert_eq!(state.finalize_past_reorg_limit(0), 2);
    assert!(state.is_empty());
    let (h, x) = state.finalized_tip();
    assert_eq!(h, Height(102));
    assert!(x == hash(3));
}

#[test]
fn chain_tip_block_describes_best_tip() {
    let mut state = NonFinalizedState::new(Height(100), hash(1));
    assert!(state.chain_tip_block().is_none());
    state.commit_new_chain(block(2, 1)).unwrap();
    let t = state.chain_tip_block().unwrap();
    assert_eq!(t.height, Height(101));
    assert!(t.hash == hash(2));
    assert!(t.previous_block_hash == hash(1));
}

#[test]
fn hashes_compare_by_every_byte() {
    let mut a = [7u8; 32];
    let b = BlockHash(a);
    a[31] = 8;
    assert!(b != BlockHash(a));
    assert!(b == BlockHash([7u8; 32]));
}
