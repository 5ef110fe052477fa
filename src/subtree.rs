use vstd::prelude::*;

use std::sync::Arc;

use vstd::std_specs::convert::IntoSpec;

use crate::block::Height;

verus! {

/// Height at which note commitment subtree roots are tracked.
pub const TRACKED_SUBTREE_HEIGHT: u8 = 16;

/// The index of a note commitment subtree.
#[derive(Copy, Clone, Debug, PartialEq, Eq, Structural)]
pub struct NoteCommitmentSubtreeIndex(pub u16);

impl From<u16> for NoteCommitmentSubtreeIndex {
    fn from(value: u16) -> (r: NoteCommitmentSubtreeIndex)
        ensures
            r.0 == value,
    {
        NoteCommitmentSubtreeIndex(value)
    }
}

impl vstd::std_specs::convert::FromSpecImpl<u16> for NoteCommitmentSubtreeIndex {
    open spec fn obeys_from_spec() -> bool {
        true
    }

    open spec fn from_spec(v: u16) -> NoteCommitmentSubtreeIndex {
        NoteCommitmentSubtreeIndex(v)
    }
}

impl TryFrom<u64> for NoteCommitmentSubtreeIndex {
    type Error = std::num::TryFromIntError;

    fn try_from(value: u64) -> (r: Result<NoteCommitmentSubtreeIndex, std::num::TryFromIntError>)
        ensures
            value <= u16::MAX ==> r == Ok::<_, std::num::TryFromIntError>(
                NoteCommitmentSubtreeIndex(value as u16),
            ),
            value > u16::MAX ==> r is Err,
    {
        match u16::try_from(value) {
            Ok(v) => Ok(NoteCommitmentSubtreeIndex(v)),
            Err(e) => Err(e),
        }
    }
}

impl vstd::std_specs::convert::TryFromSpecImpl<u64> for NoteCommitmentSubtreeIndex {
    open spec fn obeys_try_from_spec() -> bool {
        true
    }

    open spec fn try_from_spec(v: u64) -> Result<NoteCommitmentSubtreeIndex, std::num::TryFromIntError> {
        match <u16 as vstd::std_specs::convert::TryFromSpec<u64>>::try_from_spec(v) {
            Ok(x) => Ok(NoteCommitmentSubtreeIndex(x)),
            Err(e) => Err(e),
        }
    }
}

/// The root of a note commitment subtree, with its index and the height of the
/// block holding its last leaf.
#[derive(Copy, Clone, Debug)]
pub struct NoteCommitmentSubtree<Node> {
    /// Index of this subtree.
    pub index: NoteCommitmentSubtreeIndex,
    /// End boundary of this subtree: the height of the block of its last leaf.
    pub end: Height,
    /// Root of this subtree.
    pub node: Node,
}

impl<Node> NoteCommitmentSubtree<Node> {
    /// A shared subtree record from its index, end height and root.
    pub fn new<I: Into<NoteCommitmentSubtreeIndex>>(index: I, end: Height, node: Node) -> (r: Arc<
        NoteCommitmentSubtree<Node>,
    >)
        ensures
            <I as IntoSpec<NoteCommitmentSubtreeIndex>>::obeys_into_spec() ==> r.index == index.into_spec(),
            r.end == end,
            r.node == node,
    {
        let index = index.into();
        Arc::new(NoteCommitmentSubtree { index, end, node })
    }

    /// The record without its index.
    pub fn into_data(self) -> (r: NoteCommitmentSubtreeData<Node>)
        ensures
            r.end == self.end,
            r.node == self.node,
    {
        NoteCommitmentSubtreeData::new(self.end, self.node)
    }
}

/// The root of a note commitment subtree with the height of its last leaf's
/// block, but without the index: the value stored under the index as key.
#[derive(Copy, Clone, Debug)]
pub struct NoteCommitmentSubtreeData<Node> {
    /// End boundary of this subtree: the height of the block of its last leaf.
    pub end: Height,
    /// Root of this subtree.
    pub node: Node,
}

impl<Node> NoteCommitmentSubtreeData<Node> {
    /// A record from its end height and root.
    pub fn new(end: Height, node: Node) -> (r: NoteCommitmentSubtreeData<Node>)
        ensures
            r.end == end,
            r.node == node,
    {
        NoteCommitmentSubtreeData { end, node }
    }

    /// The shared subtree record made of this one and `index`.
    pub fn with_index<I: Into<NoteCommitmentSubtreeIndex>>(self, index: I) -> (r: Arc<
        NoteCommitmentSubtree<Node>,
    >)
        ensures
            <I as IntoSpec<NoteCommitmentSubtreeIndex>>::obeys_into_spec() ==> r.index == index.into_spec(),
            r.end == self.end,
            r.node == self.node,
    {
        NoteCommitmentSubtree::new(index, self.end, self.node)
    }
}

} // verus!
