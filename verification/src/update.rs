use vstd::prelude::*;

use crate::node::Node;
use crate::node::NodeView;

verus! {

/// The part of an update batch that (re)declares the tree as a whole:
/// which logical node id is the root.
#[derive(Clone, Copy, Debug, PartialEq, Eq, Structural)]
pub struct TreeDescriptor {
    /// Logical id of the root node.
    pub root: u64,
}

/// The abstract value of a [`TreeUpdate`] batch.
#[verifier::ext_equal]
pub struct TreeUpdateView {
    /// The (id, node) pairs, in the exact order they were added.
    pub nodes: Seq<(u64, NodeView)>,
    /// The tree descriptor, present only while the root stands declared.
    pub tree: Option<TreeDescriptor>,
    /// The focus target; every batch carries one.
    pub focus: u64,
}

/// The batch after one node is added: the pair is appended at the end and
/// nothing else moves.
pub open spec fn spec_add_node(u: TreeUpdateView, id: u64, node: NodeView) -> TreeUpdateView {
    TreeUpdateView { nodes: u.nodes.push((id, node)), ..u }
}

/// The batch after the root is declared to be `root`.
pub open spec fn spec_set_tree(u: TreeUpdateView, root: u64) -> TreeUpdateView {
    TreeUpdateView { tree: Some(TreeDescriptor { root }), ..u }
}

/// The batch after the tree descriptor is removed.
pub open spec fn spec_clear_tree(u: TreeUpdateView) -> TreeUpdateView {
    TreeUpdateView { tree: None, ..u }
}

/// The batch after a whole sequence of additions, first pair first.
pub open spec fn spec_add_all(u: TreeUpdateView, pairs: Seq<(u64, NodeView)>) -> TreeUpdateView
    decreases pairs.len(),
{
    if pairs.len() == 0 {
        u
    } else {
        spec_add_all(spec_add_node(u, pairs[0].0, pairs[0].1), pairs.drop_first())
    }
}

/// Law: addition order is preserved. Adding any sequence of (id, node)
/// pairs yields a batch whose node sequence is the previous sequence
/// followed by exactly those pairs, in the order they were added; the tree
/// descriptor and the focus are untouched.
pub proof fn lemma_add_order_preserved(u: TreeUpdateView, pairs: Seq<(u64, NodeView)>)
    ensures
        spec_add_all(u, pairs).nodes == u.nodes + pairs,
        spec_add_all(u, pairs).tree == u.tree,
        spec_add_all(u, pairs).focus == u.focus,
    decreases pairs.len(),
{
    if pairs.len() == 0 {
        assert(u.nodes + pairs =~= u.nodes);
    } else {
        let first = pairs[0];
        let rest = pairs.drop_first();
        lemma_add_order_preserved(spec_add_node(u, first.0, first.1), rest);
        assert(u.nodes.push(first) + rest =~= u.nodes + pairs);
    }
}

/// Law: declaring a root and then clearing it leaves the same batch as
/// clearing alone; on a batch that never declared a root, the two calls
/// cancel exactly.
pub proof fn lemma_set_then_clear_tree(u: TreeUpdateView, root: u64)
    ensures
        spec_clear_tree(spec_set_tree(u, root)) == spec_clear_tree(u),
        u.tree is None ==> spec_clear_tree(spec_set_tree(u, root)) == u,
{
    assert(spec_clear_tree(spec_set_tree(u, root)) =~= spec_clear_tree(u));
    if u.tree is None {
        assert(spec_clear_tree(u) =~= u);
    }
}

/// An update batch under construction: an ordered list of (logical id,
/// node) pairs, an optional tree descriptor, and a mandatory focus target.
///
/// The builder is append-only and single-pass: nodes can be added but never
/// removed or looked up, because the consuming engine takes the batch as a
/// flat diff against its own persistent tree. Each added node is consumed
/// by value — ownership moves into the batch.
pub struct TreeUpdate {
    nodes: Vec<(u64, Node)>,
    tree: Option<TreeDescriptor>,
    focus: u64,
}

impl View for TreeUpdate {
    type V = TreeUpdateView;

    closed spec fn view(&self) -> TreeUpdateView {
        TreeUpdateView {
            nodes: self.nodes@.map_values(|p: (u64, Node)| (p.0, p.1@)),
            tree: self.tree,
            focus: self.focus,
        }
    }
}

impl TreeUpdate {
    /// A fresh batch: no nodes, no tree descriptor, the given focus target.
    pub fn with_focus(focus: u64) -> (u: TreeUpdate)
        ensures
            u@ == (TreeUpdateView { nodes: Seq::<(u64, NodeView)>::empty(), tree: None, focus }),
    {
        let u = TreeUpdate { nodes: Vec::new(), tree: None, focus };
        proof {
            assert(u@ =~= (TreeUpdateView {
                nodes: Seq::<(u64, NodeView)>::empty(),
                tree: None,
                focus,
            }));
        }
        u
    }

    /// Appends one (id, node) pair, consuming the node. The order of
    /// `add_node` calls is the order of the resulting sequence.
    pub fn add_node(&mut self, id: u64, node: Node)
        ensures
            final(self)@ == spec_add_node(old(self)@, id, node@),
    {
        let ghost node_view = node@;
        self.nodes.push((id, node));
        proof {
            assert(final(self)@.nodes =~= old(self)@.nodes.push((id, node_view)));
            assert(final(self)@ =~= spec_add_node(old(self)@, id, node_view));
        }
    }

    /// Declares `root` as the tree's root, replacing any earlier
    /// declaration.
    pub fn set_tree(&mut self, root: u64)
        ensures
            final(self)@ == spec_set_tree(old(self)@, root),
    {
        self.tree = Some(TreeDescriptor { root });
    }

    /// Removes the tree descriptor: the batch no longer redeclares a root.
    pub fn clear_tree(&mut self)
        ensures
            final(self)@ == spec_clear_tree(old(self)@),
    {
        self.tree = None;
    }

    /// Overwrites the focus target unconditionally: the last write wins,
    /// and the id is not checked against the nodes in the batch.
    pub fn set_focus(&mut self, id: u64)
        ensures
            final(self)@ == (TreeUpdateView { focus: id, ..old(self)@ }),
    {
        self.focus = id;
    }

    /// How many (id, node) pairs the batch holds.
    pub fn node_count(&self) -> (n: usize)
        ensures
            n == self@.nodes.len(),
    {
        self.nodes.len()
    }

    /// The logical id of the pair at `index`.
    pub fn node_id_at(&self, index: usize) -> (id: u64)
        requires
            index < self@.nodes.len(),
        ensures
            id == self@.nodes[index as int].0,
    {
        self.nodes[index].0
    }

    /// The node of the pair at `index`.
    pub fn node_at(&self, index: usize) -> (node: &Node)
        requires
            index < self@.nodes.len(),
        ensures
            node@ == self@.nodes[index as int].1,
    {
        &self.nodes[index].1
    }

    /// The tree descriptor, if the batch currently declares a root.
    pub fn tree(&self) -> (t: Option<TreeDescriptor>)
        ensures
            t == self@.tree,
    {
        self.tree
    }

    /// The focus target.
    pub fn focus(&self) -> (f: u64)
        ensures
            f == self@.focus,
    {
        self.focus
    }
}

} // verus!
