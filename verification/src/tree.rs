//! The per-node slot of the host's state tree: a tag identifying the node's
//! kind and an opaque state word. The host toolkit's own tree-diffing keeps
//! one such slot alive per widget across render cycles.

use vstd::prelude::*;

verus! {

/// The persistent state slot of one widget: a tag that distinguishes node
/// kinds and an opaque per-node state blob.
#[derive(Clone, Copy, Debug, PartialEq, Eq, Structural)]
pub struct Tree {
    pub tag: u64,
    pub state: u64,
}

impl Tree {
    /// A fresh slot for a node with the given tag and initial state.
    pub fn new(tag: u64, state: u64) -> (t: Tree)
        ensures
            t == (Tree { tag, state }),
    {
        Tree { tag, state }
    }
}

} // verus!
