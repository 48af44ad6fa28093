use vstd::prelude::*;

verus! {

/// One endpoint of a text selection: a logical node id together with a
/// character offset into that node's text.
///
/// The offset is not checked against the text's actual length at this
/// layer; that agreement is the consuming engine's concern.
#[derive(Clone, Copy, Debug, PartialEq, Eq, Structural)]
pub struct TextPosition {
    /// Logical id of the node that holds the text.
    pub node: u64,
    /// Unsigned character offset within that node.
    pub character_index: usize,
}

/// A text selection range: an anchor position and a focus position.
///
/// Anchor and focus may lie in different nodes and in either order; the
/// protocol stores the pair as given.
#[derive(Clone, Copy, Debug, PartialEq, Eq, Structural)]
pub struct TextSelection {
    /// Where the selection was started.
    pub anchor: TextPosition,
    /// Where the selection ends: the caret side.
    pub focus: TextPosition,
}

} // verus!
