use trusted_chain_sync::{
    Height, NoteCommitmentSubtree, NoteCommitmentSubtreeData, NoteCommitmentSubtreeIndex,
    TRACKED_SUBTREE_HEIGHT,
};

#[test]
fn subtree_new_converts_index() {
    let s = NoteCommitmentSubtree::new(7u16, Height(42), [3u8; 4]);
    assert_eq!(s.index, NoteCommitmentSubtreeIndex(7));
    assert_eq!(s.end, Height(42));
    assert_eq!(s.node, [3u8; 4]);
    assert_eq!(TRACKED_SUBTREE_HEIGHT, 16);
}

#[test]
fn subtree_data_round_trip() {
    let data = NoteCommitmentSubtreeData::new(Height(9), 11u64);
    let s = data.with_index(NoteCommitmentSubtreeIndex(2));
    assert_eq!(s.index, NoteCommitmentSubtreeIndex(2));
    let back = (*s).into_data();
    assert_eq!(back.end, Height(9));
    assert_eq!(back.node, 11u64);
}

#[test]
fn subtree_index_from_u64() {
    assert_eq!(
        NoteCommitmentSubtreeIndex::try_from(65535u64),
        Ok(NoteCommitmentSubtreeIndex(65535))
    );
    assert!(NoteCommitmentSubtreeIndex::try_from(65536u64).is_err());
    assert_eq!(NoteCommitmentSubtreeIndex::from(3u16), NoteCommitmentSubtreeIndex(3));
}
