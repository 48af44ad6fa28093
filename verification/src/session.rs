use vstd::prelude::*;

use crate::codes::Action;
use crate::codes::Live;
use crate::codes::TextDirection;
use crate::codes::Toggled;
use crate::error::ProtocolError;
use crate::geometry::Rect;
use crate::node::Node;
use crate::node::NodeView;
use crate::role::Role;
use crate::text::TextSelection;
use crate::update::spec_add_node;
use crate::update::spec_clear_tree;
use crate::update::spec_set_tree;
use crate::update::TreeUpdate;
use crate::update::TreeUpdateView;

verus! {

/// The abstract value of a [`Session`]: one slot per handle ever issued,
/// in issue order, each slot holding the live object's value or `None`
/// once the object was destroyed or consumed. Handle `h` names slot
/// `h - 1`; handle 0 is reserved as the "no object" sentinel that the
/// activation bridge uses.
#[verifier::ext_equal]
pub struct SessionView {
    pub nodes: Seq<Option<NodeView>>,
    pub updates: Seq<Option<TreeUpdateView>>,
}

impl SessionView {
    /// Whether `h` names a live node builder.
    pub open spec fn node_live(self, h: u64) -> bool {
        1 <= h && h <= self.nodes.len() && self.nodes[h - 1] is Some
    }

    /// The value of the live node builder that `h` names.
    pub open spec fn node_at(self, h: u64) -> NodeView {
        self.nodes[h - 1]->Some_0
    }

    /// Whether `h` names a live update batch.
    pub open spec fn update_live(self, h: u64) -> bool {
        1 <= h && h <= self.updates.len() && self.updates[h - 1] is Some
    }

    /// The value of the live update batch that `h` names.
    pub open spec fn update_at(self, h: u64) -> TreeUpdateView {
        self.updates[h - 1]->Some_0
    }

    /// This session with the node behind `h` replaced by `n`.
    pub open spec fn with_node(self, h: u64, n: NodeView) -> SessionView {
        SessionView { nodes: self.nodes.update(h - 1, Some(n)), ..self }
    }

    /// This session with the node behind `h` gone: the handle is dead.
    pub open spec fn without_node(self, h: u64) -> SessionView {
        SessionView { nodes: self.nodes.update(h - 1, None), ..self }
    }

    /// This session with the update batch behind `h` replaced by `u`.
    pub open spec fn with_update(self, h: u64, u: TreeUpdateView) -> SessionView {
        SessionView { updates: self.updates.update(h - 1, Some(u)), ..self }
    }

    /// This session with the update batch behind `h` gone.
    pub open spec fn without_update(self, h: u64) -> SessionView {
        SessionView { updates: self.updates.update(h - 1, None), ..self }
    }
}

spec fn opt_node_view(o: Option<Node>) -> Option<NodeView> {
    match o {
        Some(n) => Some(n@),
        None => None,
    }
}

spec fn opt_update_view(o: Option<TreeUpdate>) -> Option<TreeUpdateView> {
    match o {
        Some(u) => Some(u@),
        None => None,
    }
}

spec fn node_slots_view(s: Seq<Option<Node>>) -> Seq<Option<NodeView>> {
    s.map_values(|o: Option<Node>| opt_node_view(o))
}

spec fn update_slots_view(s: Seq<Option<TreeUpdate>>) -> Seq<Option<TreeUpdateView>> {
    s.map_values(|o: Option<TreeUpdate>| opt_update_view(o))
}

proof fn lemma_node_slots_update(s: Seq<Option<Node>>, i: int, o: Option<Node>)
    requires
        0 <= i < s.len(),
    ensures
        node_slots_view(s.update(i, o)) == node_slots_view(s).update(i, opt_node_view(o)),
{
    assert(node_slots_view(s.update(i, o)) =~= node_slots_view(s).update(i, opt_node_view(o)));
}

proof fn lemma_node_slots_push(s: Seq<Option<Node>>, o: Option<Node>)
    ensures
        node_slots_view(s.push(o)) == node_slots_view(s).push(opt_node_view(o)),
{
    assert(node_slots_view(s.push(o)) =~= node_slots_view(s).push(opt_node_view(o)));
}

proof fn lemma_update_slots_update(s: Seq<Option<TreeUpdate>>, i: int, o: Option<TreeUpdate>)
    requires
        0 <= i < s.len(),
    ensures
        update_slots_view(s.update(i, o)) == update_slots_view(s).update(i, opt_update_view(o)),
{
    assert(update_slots_view(s.update(i, o)) =~= update_slots_view(s).update(i, opt_update_view(o)));
}

proof fn lemma_update_slots_push(s: Seq<Option<TreeUpdate>>, o: Option<TreeUpdate>)
    ensures
        update_slots_view(s.push(o)) == update_slots_view(s).push(opt_update_view(o)),
{
    assert(update_slots_view(s.push(o)) =~= update_slots_view(s).push(opt_update_view(o)));
}

/// The boundary's handle registry: every node builder and update batch that
/// was handed across the boundary, each behind an opaque integer handle.
///
/// A handle is issued by a create operation, may be mutated through any
/// number of calls, and is retired by exactly one destroy or consume. Any
/// operation on a handle that is not live is refused with an explicit
/// error and leaves the registry untouched — never a silent no-op.
pub struct Session {
    nodes: Vec<Option<Node>>,
    updates: Vec<Option<TreeUpdate>>,
}

impl View for Session {
    type V = SessionView;

    closed spec fn view(&self) -> SessionView {
        SessionView {
            nodes: node_slots_view(self.nodes@),
            updates: update_slots_view(self.updates@),
        }
    }
}

impl Session {
    /// A registry with no handles issued yet.
    pub fn new() -> (s: Session)
        ensures
            s@ == (SessionView {
                nodes: Seq::<Option<NodeView>>::empty(),
                updates: Seq::<Option<TreeUpdateView>>::empty(),
            }),
    {
        let s = Session { nodes: Vec::new(), updates: Vec::new() };
        proof {
            assert(s@ =~= (SessionView {
                nodes: Seq::<Option<NodeView>>::empty(),
                updates: Seq::<Option<TreeUpdateView>>::empty(),
            }));
        }
        s
    }

    /// The slot index behind a node handle, or `None` where the handle is
    /// not live.
    fn node_handle_index(&self, h: u64) -> (r: Option<usize>)
        ensures
            r is Some <==> self@.node_live(h),
            r is Some ==> r->Some_0 == h - 1 && r->Some_0 < self@.nodes.len(),
    {
        if 1 <= h && h <= self.nodes.len() as u64 {
            let i = (h - 1) as usize;
            if self.nodes[i].is_some() {
                Some(i)
            } else {
                None
            }
        } else {
            None
        }
    }

    /// The slot index behind an update handle, or `None` where the handle
    /// is not live.
    fn update_handle_index(&self, h: u64) -> (r: Option<usize>)
        ensures
            r is Some <==> self@.update_live(h),
            r is Some ==> r->Some_0 == h - 1 && r->Some_0 < self@.updates.len(),
    {
        if 1 <= h && h <= self.updates.len() as u64 {
            let i = (h - 1) as usize;
            if self.updates[i].is_some() {
                Some(i)
            } else {
                None
            }
        } else {
            None
        }
    }

    /// Whether `h` names a live node builder.
    pub fn node_is_live(&self, h: u64) -> (r: bool)
        ensures
            r == self@.node_live(h),
    {
        self.node_handle_index(h).is_some()
    }

    /// Whether `h` names a live update batch.
    pub fn update_is_live(&self, h: u64) -> (r: bool)
        ensures
            r == self@.update_live(h),
    {
        self.update_handle_index(h).is_some()
    }

    /// Creates a node builder from a role code and issues a fresh handle
    /// for it. An integer outside the role table is refused and nothing is
    /// allocated.
    pub fn node_new(&mut self, role_code: u8) -> (r: Result<u64, ProtocolError>)
        requires
            old(self)@.nodes.len() < usize::MAX,
        ensures
            r is Ok <==> Role::spec_from_code(role_code) is Some,
            r matches Ok(h) ==> h == old(self)@.nodes.len() + 1 && !old(self)@.node_live(h)
                && final(self)@ == (SessionView {
                    nodes: old(self)@.nodes.push(
                        Some(NodeView::fresh(Role::spec_from_code(role_code)->Some_0)),
                    ),
                    ..old(self)@
                }),
            r is Err ==> r == Err::<u64, ProtocolError>(ProtocolError::InvalidCode)
                && final(self)@ == old(self)@,
    {
        let role = match Role::from_code(role_code) {
            Some(role) => role,
            None => {
                return Err(ProtocolError::InvalidCode);
            },
        };
        let node = Node::new(role);
        self.nodes.push(Some(node));
        let h = self.nodes.len() as u64;
        proof {
            lemma_node_slots_push(old(self).nodes@, self.nodes@.last());
            assert(self@ =~= (SessionView {
                nodes: old(self)@.nodes.push(
                    Some(NodeView::fresh(Role::spec_from_code(role_code)->Some_0)),
                ),
                ..old(self)@
            }));
        }
        Ok(h)
    }

    /// Destroys the node builder behind `h` without using it; the handle is
    /// dead afterwards.
    pub fn node_drop(&mut self, h: u64) -> (r: Result<(), ProtocolError>)
        ensures
            r is Ok <==> old(self)@.node_live(h),
            r is Ok ==> final(self)@ == old(self)@.without_node(h),
            r is Err ==> r == Err::<(), ProtocolError>(ProtocolError::InvalidHandle)
                && final(self)@ == old(self)@,
    {
        let i = match self.node_handle_index(h) {
            Some(i) => i,
            None => {
                return Err(ProtocolError::InvalidHandle);
            },
        };
        let slot = &mut self.nodes[i];
        let _dropped = slot.take();
        proof {
            lemma_node_slots_update(old(self).nodes@, i as int, None);
            assert(self@ =~= old(self)@.without_node(h));
        }
        Ok(())
    }

    /// Adds the action named by `action_code` to the node behind `h`. The
    /// handle is checked first, then the code.
    pub fn node_add_action(&mut self, h: u64, action_code: u8) -> (r: Result<(), ProtocolError>)
        ensures
            r is Ok <==> old(self)@.node_live(h) && Action::spec_from_code(action_code) is Some,
            r is Ok ==> final(self)@ == old(self)@.with_node(h, (NodeView {
                actions: old(self)@.node_at(h).actions.insert(
                    Action::spec_from_code(action_code)->Some_0,
                ),
                ..old(self)@.node_at(h)
            })),
            !old(self)@.node_live(h) ==> r == Err::<(), ProtocolError>(ProtocolError::InvalidHandle)
                && final(self)@ == old(self)@,
            old(self)@.node_live(h) && Action::spec_from_code(action_code) is None
                ==> r == Err::<(), ProtocolError>(ProtocolError::InvalidCode)
                && final(self)@ == old(self)@,
    {
        let i = match self.node_handle_index(h) {
            Some(i) => i,
            None => {
                return Err(ProtocolError::InvalidHandle);
            },
        };
        let action = match Action::from_code(action_code) {
            Some(action) => action,
            None => {
                return Err(ProtocolError::InvalidCode);
            },
        };
        let slot = &mut self.nodes[i];
        match slot {
            Some(node) => {
                node.add_action(action);
            },
            None => {
                return Err(ProtocolError::InvalidHandle);
            },
        }
        proof {
            lemma_node_slots_update(old(self).nodes@, i as int, self.nodes@[i as int]);
            assert(self@ =~= old(self)@.with_node(h, (NodeView {
                actions: old(self)@.node_at(h).actions.insert(
                    Action::spec_from_code(action_code)->Some_0,
                ),
                ..old(self)@.node_at(h)
            })));
        }
        Ok(())
    }

    /// Replaces the label of the node behind `h` with the given UTF-8 bytes.
    pub fn node_set_label(&mut self, h: u64, bytes: Vec<u8>) -> (r: Result<(), ProtocolError>)
        ensures
            r is Ok <==> old(self)@.node_live(h),
            r is Ok ==> final(self)@ == old(self)@.with_node(h, (NodeView {
                label: Some(bytes@),
                ..old(self)@.node_at(h)
            })),
            r is Err ==> r == Err::<(), ProtocolError>(ProtocolError::InvalidHandle)
                && final(self)@ == old(self)@,
    {
        let i = match self.node_handle_index(h) {
            Some(i) => i,
            None => {
                return Err(ProtocolError::InvalidHandle);
            },
        };
        let ghost bv = bytes@;
        let slot = &mut self.nodes[i];
        match slot {
            Some(node) => {
                node.set_label(bytes);
            },
            None => {
                return Err(ProtocolError::InvalidHandle);
            },
        }
        proof {
            lemma_node_slots_update(old(self).nodes@, i as int, self.nodes@[i as int]);
            assert(self@ =~= old(self)@.with_node(h, (NodeView {
                label: Some(bv),
                ..old(self)@.node_at(h)
            })));
        }
        Ok(())
    }

    /// Replaces the value string of the node behind `h`.
    pub fn node_set_value(&mut self, h: u64, bytes: Vec<u8>) -> (r: Result<(), ProtocolError>)
        ensures
            r is Ok <==> old(self)@.node_live(h),
            r is Ok ==> final(self)@ == old(self)@.with_node(h, (NodeView {
                value: Some(bytes@),
                ..old(self)@.node_at(h)
            })),
            r is Err ==> r == Err::<(), ProtocolError>(ProtocolError::InvalidHandle)
                && final(self)@ == old(self)@,
    {
        let i = match self.node_handle_index(h) {
            Some(i) => i,
            None => {
                return Err(ProtocolError::InvalidHandle);
            },
        };
        let ghost bv = bytes@;
        let slot = &mut self.nodes[i];
        match slot {
            Some(node) => {
                node.set_value(bytes);
            },
            None => {
                return Err(ProtocolError::InvalidHandle);
            },
        }
        proof {
            lemma_node_slots_update(old(self).nodes@, i as int, self.nodes@[i as int]);
            assert(self@ =~= old(self)@.with_node(h, (NodeView {
                value: Some(bv),
                ..old(self)@.node_at(h)
            })));
        }
        Ok(())
    }

    /// Replaces the bounding rectangle of the node behind `h`.
    pub fn node_set_bounds(&mut self, h: u64, rect: Rect) -> (r: Result<(), ProtocolError>)
        ensures
            r is Ok <==> old(self)@.node_live(h),
            r is Ok ==> final(self)@ == old(self)@.with_node(h, (NodeView {
                bounds: Some(rect),
                ..old(self)@.node_at(h)
            })),
            r is Err ==> r == Err::<(), ProtocolError>(ProtocolError::InvalidHandle)
                && final(self)@ == old(self)@,
    {
        let i = match self.node_handle_index(h) {
            Some(i) => i,
            None => {
                return Err(ProtocolError::InvalidHandle);
            },
        };
        let slot = &mut self.nodes[i];
        match slot {
            Some(node) => {
                node.set_bounds(rect);
            },
            None => {
                return Err(ProtocolError::InvalidHandle);
            },
        }
        proof {
            lemma_node_slots_update(old(self).nodes@, i as int, self.nodes@[i as int]);
            assert(self@ =~= old(self)@.with_node(h, (NodeView {
                bounds: Some(rect),
                ..old(self)@.node_at(h)
            })));
        }
        Ok(())
    }

    /// Appends one logical node id to the child list of the node behind `h`.
    pub fn node_add_child(&mut self, h: u64, child: u64) -> (r: Result<(), ProtocolError>)
        ensures
            r is Ok <==> old(self)@.node_live(h),
            r is Ok ==> final(self)@ == old(self)@.with_node(h, (NodeView {
                children: old(self)@.node_at(h).children.push(child),
                ..old(self)@.node_at(h)
            })),
            r is Err ==> r == Err::<(), ProtocolError>(ProtocolError::InvalidHandle)
                && final(self)@ == old(self)@,
    {
        let i = match self.node_handle_index(h) {
            Some(i) => i,
            None => {
                return Err(ProtocolError::InvalidHandle);
            },
        };
        let slot = &mut self.nodes[i];
        match slot {
            Some(node) => {
                node.push_child(child);
            },
            None => {
                return Err(ProtocolError::InvalidHandle);
            },
        }
        proof {
            lemma_node_slots_update(old(self).nodes@, i as int, self.nodes@[i as int]);
            assert(self@ =~= old(self)@.with_node(h, (NodeView {
                children: old(self)@.node_at(h).children.push(child),
                ..old(self)@.node_at(h)
            })));
        }
        Ok(())
    }

    /// Resets the child list of the node behind `h` to empty.
    pub fn node_clear_children(&mut self, h: u64) -> (r: Result<(), ProtocolError>)
        ensures
            r is Ok <==> old(self)@.node_live(h),
            r is Ok ==> final(self)@ == old(self)@.with_node(h, (NodeView {
                children: Seq::<u64>::empty(),
                ..old(self)@.node_at(h)
            })),
            r is Err ==> r == Err::<(), ProtocolError>(ProtocolError::InvalidHandle)
                && final(self)@ == old(self)@,
    {
        let i = match self.node_handle_index(h) {
            Some(i) => i,
            None => {
                return Err(ProtocolError::InvalidHandle);
            },
        };
        let slot = &mut self.nodes[i];
        match slot {
            Some(node) => {
                node.clear_children();
            },
            None => {
                return Err(ProtocolError::InvalidHandle);
            },
        }
        proof {
            lemma_node_slots_update(old(self).nodes@, i as int, self.nodes@[i as int]);
            assert(self@ =~= old(self)@.with_node(h, (NodeView {
                children: Seq::<u64>::empty(),
                ..old(self)@.node_at(h)
            })));
        }
        Ok(())
    }

    /// Replaces the numeric value of the node behind `h`; `bits` is an IEEE 754 binary64 pattern.
    pub fn node_set_numeric_value(&mut self, h: u64, bits: u64) -> (r: Result<(), ProtocolError>)
        ensures
            r is Ok <==> old(self)@.node_live(h),
            r is Ok ==> final(self)@ == old(self)@.with_node(h, (NodeView {
                numeric_value: Some(bits),
                ..old(self)@.node_at(h)
            })),
            r is Err ==> r == Err::<(), ProtocolError>(ProtocolError::InvalidHandle)
                && final(self)@ == old(self)@,
    {
        let i = match self.node_handle_index(h) {
            Some(i) => i,
            None => {
                return Err(ProtocolError::InvalidHandle);
            },
        };
        let slot = &mut self.nodes[i];
        match slot {
            Some(node) => {
                node.set_numeric_value(bits);
            },
            None => {
                return Err(ProtocolError::InvalidHandle);
            },
        }
        proof {
            lemma_node_slots_update(old(self).nodes@, i as int, self.nodes@[i as int]);
            assert(self@ =~= old(self)@.with_node(h, (NodeView {
                numeric_value: Some(bits),
                ..old(self)@.node_at(h)
            })));
        }
        Ok(())
    }

    /// Replaces the numeric minimum of the node behind `h`.
    pub fn node_set_min_numeric_value(&mut self, h: u64, bits: u64) -> (r: Result<(), ProtocolError>)
        ensures
            r is Ok <==> old(self)@.node_live(h),
            r is Ok ==> final(self)@ == old(self)@.with_node(h, (NodeView {
                min_numeric_value: Some(bits),
                ..old(self)@.node_at(h)
            })),
            r is Err ==> r == Err::<(), ProtocolError>(ProtocolError::InvalidHandle)
                && final(self)@ == old(self)@,
    {
        let i = match self.node_handle_index(h) {
            Some(i) => i,
            None => {
                return Err(ProtocolError::InvalidHandle);
            },
        };
        let slot = &mut self.nodes[i];
        match slot {
            Some(node) => {
                node.set_min_numeric_value(bits);
            },
            None => {
                return Err(ProtocolError::InvalidHandle);
            },
        }
        proof {
            lemma_node_slots_update(old(self).nodes@, i as int, self.nodes@[i as int]);
            assert(self@ =~= old(self)@.with_node(h, (NodeView {
                min_numeric_value: Some(bits),
                ..old(self)@.node_at(h)
            })));
        }
        Ok(())
    }

    /// Replaces the numeric maximum of the node behind `h`.
    pub fn node_set_max_numeric_value(&mut self, h: u64, bits: u64) -> (r: Result<(), ProtocolError>)
        ensures
            r is Ok <==> old(self)@.node_live(h),
            r is Ok ==> final(self)@ == old(self)@.with_node(h, (NodeView {
                max_numeric_value: Some(bits),
                ..old(self)@.node_at(h)
            })),
            r is Err ==> r == Err::<(), ProtocolError>(ProtocolError::InvalidHandle)
                && final(self)@ == old(self)@,
    {
        let i = match self.node_handle_index(h) {
            Some(i) => i,
            None => {
                return Err(ProtocolError::InvalidHandle);
            },
        };
        let slot = &mut self.nodes[i];
        match slot {
            Some(node) => {
                node.set_max_numeric_value(bits);
            },
            None => {
                return Err(ProtocolError::InvalidHandle);
            },
        }
        proof {
            lemma_node_slots_update(old(self).nodes@, i as int, self.nodes@[i as int]);
            assert(self@ =~= old(self)@.with_node(h, (NodeView {
                max_numeric_value: Some(bits),
                ..old(self)@.node_at(h)
            })));
        }
        Ok(())
    }

    /// Replaces the numeric step of the node behind `h`.
    pub fn node_set_numeric_value_step(&mut self, h: u64, bits: u64) -> (r: Result<(), ProtocolError>)
        ensures
            r is Ok <==> old(self)@.node_live(h),
            r is Ok ==> final(self)@ == old(self)@.with_node(h, (NodeView {
                numeric_value_step: Some(bits),
                ..old(self)@.node_at(h)
            })),
            r is Err ==> r == Err::<(), ProtocolError>(ProtocolError::InvalidHandle)
                && final(self)@ == old(self)@,
    {
        let i = match self.node_handle_index(h) {
            Some(i) => i,
            None => {
                return Err(ProtocolError::InvalidHandle);
            },
        };
        let slot = &mut self.nodes[i];
        match slot {
            Some(node) => {
                node.set_numeric_value_step(bits);
            },
            None => {
                return Err(ProtocolError::InvalidHandle);
            },
        }
        proof {
            lemma_node_slots_update(old(self).nodes@, i as int, self.nodes@[i as int]);
            assert(self@ =~= old(self)@.with_node(h, (NodeView {
                numeric_value_step: Some(bits),
                ..old(self)@.node_at(h)
            })));
        }
        Ok(())
    }

    /// Replaces the numeric jump of the node behind `h`.
    pub fn node_set_numeric_value_jump(&mut self, h: u64, bits: u64) -> (r: Result<(), ProtocolError>)
        ensures
            r is Ok <==> old(self)@.node_live(h),
            r is Ok ==> final(self)@ == old(self)@.with_node(h, (NodeView {
                numeric_value_jump: Some(bits),
                ..old(self)@.node_at(h)
            })),
            r is Err ==> r == Err::<(), ProtocolError>(ProtocolError::InvalidHandle)
                && final(self)@ == old(self)@,
    {
        let i = match self.node_handle_index(h) {
            Some(i) => i,
            None => {
                return Err(ProtocolError::InvalidHandle);
            },
        };
        let slot = &mut self.nodes[i];
        match slot {
            Some(node) => {
                node.set_numeric_value_jump(bits);
            },
            None => {
                return Err(ProtocolError::InvalidHandle);
            },
        }
        proof {
            lemma_node_slots_update(old(self).nodes@, i as int, self.nodes@[i as int]);
            assert(self@ =~= old(self)@.with_node(h, (NodeView {
                numeric_value_jump: Some(bits),
                ..old(self)@.node_at(h)
            })));
        }
        Ok(())
    }

    /// Replaces the text selection of the node behind `h`.
    pub fn node_set_text_selection(&mut self, h: u64, selection: TextSelection) -> (r: Result<(), ProtocolError>)
        ensures
            r is Ok <==> old(self)@.node_live(h),
            r is Ok ==> final(self)@ == old(self)@.with_node(h, (NodeView {
                text_selection: Some(selection),
                ..old(self)@.node_at(h)
            })),
            r is Err ==> r == Err::<(), ProtocolError>(ProtocolError::InvalidHandle)
                && final(self)@ == old(self)@,
    {
        let i = match self.node_handle_index(h) {
            Some(i) => i,
            None => {
                return Err(ProtocolError::InvalidHandle);
            },
        };
        let slot = &mut self.nodes[i];
        match slot {
            Some(node) => {
                node.set_text_selection(selection);
            },
            None => {
                return Err(ProtocolError::InvalidHandle);
            },
        }
        proof {
            lemma_node_slots_update(old(self).nodes@, i as int, self.nodes@[i as int]);
            assert(self@ =~= old(self)@.with_node(h, (NodeView {
                text_selection: Some(selection),
                ..old(self)@.node_at(h)
            })));
        }
        Ok(())
    }

    /// Replaces the per-character UTF-8 lengths of the node behind `h`.
    pub fn node_set_character_lengths(&mut self, h: u64, lengths: Vec<u8>) -> (r: Result<(), ProtocolError>)
        ensures
            r is Ok <==> old(self)@.node_live(h),
            r is Ok ==> final(self)@ == old(self)@.with_node(h, (NodeView {
                character_lengths: Some(lengths@),
                ..old(self)@.node_at(h)
            })),
            r is Err ==> r == Err::<(), ProtocolError>(ProtocolError::InvalidHandle)
                && final(self)@ == old(self)@,
    {
        let i = match self.node_handle_index(h) {
            Some(i) => i,
            None => {
                return Err(ProtocolError::InvalidHandle);
            },
        };
        let ghost lv = lengths@;
        let slot = &mut self.nodes[i];
        match slot {
            Some(node) => {
                node.set_character_lengths(lengths);
            },
            None => {
                return Err(ProtocolError::InvalidHandle);
            },
        }
        proof {
            lemma_node_slots_update(old(self).nodes@, i as int, self.nodes@[i as int]);
            assert(self@ =~= old(self)@.with_node(h, (NodeView {
                character_lengths: Some(lv),
                ..old(self)@.node_at(h)
            })));
        }
        Ok(())
    }

    /// Replaces the per-word lengths of the node behind `h`.
    pub fn node_set_word_lengths(&mut self, h: u64, lengths: Vec<u8>) -> (r: Result<(), ProtocolError>)
        ensures
            r is Ok <==> old(self)@.node_live(h),
            r is Ok ==> final(self)@ == old(self)@.with_node(h, (NodeView {
                word_lengths: Some(lengths@),
                ..old(self)@.node_at(h)
            })),
            r is Err ==> r == Err::<(), ProtocolError>(ProtocolError::InvalidHandle)
                && final(self)@ == old(self)@,
    {
        let i = match self.node_handle_index(h) {
            Some(i) => i,
            None => {
                return Err(ProtocolError::InvalidHandle);
            },
        };
        let ghost lv = lengths@;
        let slot = &mut self.nodes[i];
        match slot {
            Some(node) => {
                node.set_word_lengths(lengths);
            },
            None => {
                return Err(ProtocolError::InvalidHandle);
            },
        }
        proof {
            lemma_node_slots_update(old(self).nodes@, i as int, self.nodes@[i as int]);
            assert(self@ =~= old(self)@.with_node(h, (NodeView {
                word_lengths: Some(lv),
                ..old(self)@.node_at(h)
            })));
        }
        Ok(())
    }

    /// Replaces the per-character positions of the node behind `h`; entries are IEEE 754 binary32 patterns.
    pub fn node_set_character_positions(&mut self, h: u64, positions: Vec<u32>) -> (r: Result<(), ProtocolError>)
        ensures
            r is Ok <==> old(self)@.node_live(h),
            r is Ok ==> final(self)@ == old(self)@.with_node(h, (NodeView {
                character_positions: Some(positions@),
                ..old(self)@.node_at(h)
            })),
            r is Err ==> r == Err::<(), ProtocolError>(ProtocolError::InvalidHandle)
                && final(self)@ == old(self)@,
    {
        let i = match self.node_handle_index(h) {
            Some(i) => i,
            None => {
                return Err(ProtocolError::InvalidHandle);
            },
        };
        let ghost pv = positions@;
        let slot = &mut self.nodes[i];
        match slot {
            Some(node) => {
                node.set_character_positions(positions);
            },
            None => {
                return Err(ProtocolError::InvalidHandle);
            },
        }
        proof {
            lemma_node_slots_update(old(self).nodes@, i as int, self.nodes@[i as int]);
            assert(self@ =~= old(self)@.with_node(h, (NodeView {
                character_positions: Some(pv),
                ..old(self)@.node_at(h)
            })));
        }
        Ok(())
    }

    /// Replaces the per-character widths of the node behind `h`; entries are IEEE 754 binary32 patterns.
    pub fn node_set_character_widths(&mut self, h: u64, widths: Vec<u32>) -> (r: Result<(), ProtocolError>)
        ensures
            r is Ok <==> old(self)@.node_live(h),
            r is Ok ==> final(self)@ == old(self)@.with_node(h, (NodeView {
                character_widths: Some(widths@),
                ..old(self)@.node_at(h)
            })),
            r is Err ==> r == Err::<(), ProtocolError>(ProtocolError::InvalidHandle)
                && final(self)@ == old(self)@,
    {
        let i = match self.node_handle_index(h) {
            Some(i) => i,
            None => {
                return Err(ProtocolError::InvalidHandle);
            },
        };
        let ghost wv = widths@;
        let slot = &mut self.nodes[i];
        match slot {
            Some(node) => {
                node.set_character_widths(widths);
            },
            None => {
                return Err(ProtocolError::InvalidHandle);
            },
        }
        proof {
            lemma_node_slots_update(old(self).nodes@, i as int, self.nodes@[i as int]);
            assert(self@ =~= old(self)@.with_node(h, (NodeView {
                character_widths: Some(wv),
                ..old(self)@.node_at(h)
            })));
        }
        Ok(())
    }

    /// Replaces the toggled state of the node behind `h`. The handle is checked first, then the code.
    pub fn node_set_toggled(&mut self, h: u64, code: u8) -> (r: Result<(), ProtocolError>)
        ensures
            r is Ok <==> old(self)@.node_live(h) && Toggled::spec_from_code(code) is Some,
            r is Ok ==> final(self)@ == old(self)@.with_node(h, (NodeView {
                toggled: Some(Toggled::spec_from_code(code)->Some_0),
                ..old(self)@.node_at(h)
            })),
            !old(self)@.node_live(h) ==> r == Err::<(), ProtocolError>(ProtocolError::InvalidHandle)
                && final(self)@ == old(self)@,
            old(self)@.node_live(h) && Toggled::spec_from_code(code) is None
                ==> r == Err::<(), ProtocolError>(ProtocolError::InvalidCode)
                && final(self)@ == old(self)@,
    {
        let i = match self.node_handle_index(h) {
            Some(i) => i,
            None => {
                return Err(ProtocolError::InvalidHandle);
            },
        };
        let decoded = match Toggled::from_code(code) {
            Some(decoded) => decoded,
            None => {
                return Err(ProtocolError::InvalidCode);
            },
        };
        let slot = &mut self.nodes[i];
        match slot {
            Some(node) => {
                node.set_toggled(decoded);
            },
            None => {
                return Err(ProtocolError::InvalidHandle);
            },
        }
        proof {
            lemma_node_slots_update(old(self).nodes@, i as int, self.nodes@[i as int]);
            assert(self@ =~= old(self)@.with_node(h, (NodeView {
                toggled: Some(Toggled::spec_from_code(code)->Some_0),
                ..old(self)@.node_at(h)
            })));
        }
        Ok(())
    }

    /// Replaces the live-region politeness of the node behind `h`. The handle is checked first, then the code.
    pub fn node_set_live(&mut self, h: u64, code: u8) -> (r: Result<(), ProtocolError>)
        ensures
            r is Ok <==> old(self)@.node_live(h) && Live::spec_from_code(code) is Some,
            r is Ok ==> final(self)@ == old(self)@.with_node(h, (NodeView {
                live: Some(Live::spec_from_code(code)->Some_0),
                ..old(self)@.node_at(h)
            })),
            !old(self)@.node_live(h) ==> r == Err::<(), ProtocolError>(ProtocolError::InvalidHandle)
                && final(self)@ == old(self)@,
            old(self)@.node_live(h) && Live::spec_from_code(code) is None
                ==> r == Err::<(), ProtocolError>(ProtocolError::InvalidCode)
                && final(self)@ == old(self)@,
    {
        let i = match self.node_handle_index(h) {
            Some(i) => i,
            None => {
                return Err(ProtocolError::InvalidHandle);
            },
        };
        let decoded = match Live::from_code(code) {
            Some(decoded) => decoded,
            None => {
                return Err(ProtocolError::InvalidCode);
            },
        };
        let slot = &mut self.nodes[i];
        match slot {
            Some(node) => {
                node.set_live(decoded);
            },
            None => {
                return Err(ProtocolError::InvalidHandle);
            },
        }
        proof {
            lemma_node_slots_update(old(self).nodes@, i as int, self.nodes@[i as int]);
            assert(self@ =~= old(self)@.with_node(h, (NodeView {
                live: Some(Live::spec_from_code(code)->Some_0),
                ..old(self)@.node_at(h)
            })));
        }
        Ok(())
    }

    /// Replaces the text direction of the node behind `h`. The handle is checked first, then the code.
    pub fn node_set_text_direction(&mut self, h: u64, code: u8) -> (r: Result<(), ProtocolError>)
        ensures
            r is Ok <==> old(self)@.node_live(h) && TextDirection::spec_from_code(code) is Some,
            r is Ok ==> final(self)@ == old(self)@.with_node(h, (NodeView {
                text_direction: Some(TextDirection::spec_from_code(code)->Some_0),
                ..old(self)@.node_at(h)
            })),
            !old(self)@.node_live(h) ==> r == Err::<(), ProtocolError>(ProtocolError::InvalidHandle)
                && final(self)@ == old(self)@,
            old(self)@.node_live(h) && TextDirection::spec_from_code(code) is None
                ==> r == Err::<(), ProtocolError>(ProtocolError::InvalidCode)
                && final(self)@ == old(self)@,
    {
        let i = match self.node_handle_index(h) {
            Some(i) => i,
            None => {
                return Err(ProtocolError::InvalidHandle);
            },
        };
        let decoded = match TextDirection::from_code(code) {
            Some(decoded) => decoded,
            None => {
                return Err(ProtocolError::InvalidCode);
            },
        };
        let slot = &mut self.nodes[i];
        match slot {
            Some(node) => {
                node.set_text_direction(decoded);
            },
            None => {
                return Err(ProtocolError::InvalidHandle);
            },
        }
        proof {
            lemma_node_slots_update(old(self).nodes@, i as int, self.nodes@[i as int]);
            assert(self@ =~= old(self)@.with_node(h, (NodeView {
                text_direction: Some(TextDirection::spec_from_code(code)->Some_0),
                ..old(self)@.node_at(h)
            })));
        }
        Ok(())
    }

    /// Declares `root` as the tree root of the batch behind `h`, replacing any earlier declaration.
    pub fn update_set_tree(&mut self, h: u64, root: u64) -> (r: Result<(), ProtocolError>)
        ensures
            r is Ok <==> old(self)@.update_live(h),
            r is Ok ==> final(self)@ == old(self)@.with_update(h, spec_set_tree(old(self)@.update_at(h), root)),
            r is Err ==> r == Err::<(), ProtocolError>(ProtocolError::InvalidHandle)
                && final(self)@ == old(self)@,
    {
        let i = match self.update_handle_index(h) {
            Some(i) => i,
            None => {
                return Err(ProtocolError::InvalidHandle);
            },
        };
        let slot = &mut self.updates[i];
        match slot {
            Some(update) => {
                update.set_tree(root);
            },
            None => {
                return Err(ProtocolError::InvalidHandle);
            },
        }
        proof {
            lemma_update_slots_update(old(self).updates@, i as int, self.updates@[i as int]);
            assert(self@ =~= old(self)@.with_update(h, spec_set_tree(old(self)@.update_at(h), root)));
        }
        Ok(())
    }

    /// Removes the tree descriptor of the batch behind `h`.
    pub fn update_clear_tree(&mut self, h: u64) -> (r: Result<(), ProtocolError>)
        ensures
            r is Ok <==> old(self)@.update_live(h),
            r is Ok ==> final(self)@ == old(self)@.with_update(h, spec_clear_tree(old(self)@.update_at(h))),
            r is Err ==> r == Err::<(), ProtocolError>(ProtocolError::InvalidHandle)
                && final(self)@ == old(self)@,
    {
        let i = match self.update_handle_index(h) {
            Some(i) => i,
            None => {
                return Err(ProtocolError::InvalidHandle);
            },
        };
        let slot = &mut self.updates[i];
        match slot {
            Some(update) => {
                update.clear_tree();
            },
            None => {
                return Err(ProtocolError::InvalidHandle);
            },
        }
        proof {
            lemma_update_slots_update(old(self).updates@, i as int, self.updates@[i as int]);
            assert(self@ =~= old(self)@.with_update(h, spec_clear_tree(old(self)@.update_at(h))));
        }
        Ok(())
    }

    /// Overwrites the focus target of the batch behind `h`; the last write wins.
    pub fn update_set_focus(&mut self, h: u64, id: u64) -> (r: Result<(), ProtocolError>)
        ensures
            r is Ok <==> old(self)@.update_live(h),
            r is Ok ==> final(self)@ == old(self)@.with_update(h, (TreeUpdateView { focus: id, ..old(self)@.update_at(h) })),
            r is Err ==> r == Err::<(), ProtocolError>(ProtocolError::InvalidHandle)
                && final(self)@ == old(self)@,
    {
        let i = match self.update_handle_index(h) {
            Some(i) => i,
            None => {
                return Err(ProtocolError::InvalidHandle);
            },
        };
        let slot = &mut self.updates[i];
        match slot {
            Some(update) => {
                update.set_focus(id);
            },
            None => {
                return Err(ProtocolError::InvalidHandle);
            },
        }
        proof {
            lemma_update_slots_update(old(self).updates@, i as int, self.updates@[i as int]);
            assert(self@ =~= old(self)@.with_update(h, (TreeUpdateView { focus: id, ..old(self)@.update_at(h) })));
        }
        Ok(())
    }

    /// Creates an update batch with the given focus target and issues a
    /// fresh handle for it.
    pub fn update_with_focus(&mut self, focus: u64) -> (h: u64)
        requires
            old(self)@.updates.len() < usize::MAX,
        ensures
            h == old(self)@.updates.len() + 1,
            !old(self)@.update_live(h),
            final(self)@ == (SessionView {
                updates: old(self)@.updates.push(Some(TreeUpdateView {
                    nodes: Seq::<(u64, NodeView)>::empty(),
                    tree: None,
                    focus,
                })),
                ..old(self)@
            }),
    {
        let u = TreeUpdate::with_focus(focus);
        self.updates.push(Some(u));
        proof {
            lemma_update_slots_push(old(self).updates@, self.updates@.last());
            assert(self@ =~= (SessionView {
                updates: old(self)@.updates.push(Some(TreeUpdateView {
                    nodes: Seq::<(u64, NodeView)>::empty(),
                    tree: None,
                    focus,
                })),
                ..old(self)@
            }));
        }
        self.updates.len() as u64
    }

    /// Destroys the update batch behind `h` without submitting it; every
    /// node it had absorbed is discarded with it.
    pub fn update_drop(&mut self, h: u64) -> (r: Result<(), ProtocolError>)
        ensures
            r is Ok <==> old(self)@.update_live(h),
            r is Ok ==> final(self)@ == old(self)@.without_update(h),
            r is Err ==> r == Err::<(), ProtocolError>(ProtocolError::InvalidHandle)
                && final(self)@ == old(self)@,
    {
        let i = match self.update_handle_index(h) {
            Some(i) => i,
            None => {
                return Err(ProtocolError::InvalidHandle);
            },
        };
        let slot = &mut self.updates[i];
        let _dropped = slot.take();
        proof {
            lemma_update_slots_update(old(self).updates@, i as int, None);
            assert(self@ =~= old(self)@.without_update(h));
        }
        Ok(())
    }

    /// Moves the node behind `node_handle` into the batch behind
    /// `update_handle`, appending the (id, node) pair. The node handle is
    /// consumed: it is dead afterwards, while the update handle stays live.
    pub fn update_add_node(&mut self, update_handle: u64, id: u64, node_handle: u64) -> (r:
        Result<(), ProtocolError>)
        ensures
            r is Ok <==> old(self)@.update_live(update_handle) && old(self)@.node_live(node_handle),
            r is Ok ==> final(self)@ == old(self)@.without_node(node_handle).with_update(
                update_handle,
                spec_add_node(
                    old(self)@.update_at(update_handle),
                    id,
                    old(self)@.node_at(node_handle),
                ),
            ),
            r is Err ==> r == Err::<(), ProtocolError>(ProtocolError::InvalidHandle)
                && final(self)@ == old(self)@,
    {
        let ui = match self.update_handle_index(update_handle) {
            Some(i) => i,
            None => {
                return Err(ProtocolError::InvalidHandle);
            },
        };
        let ni = match self.node_handle_index(node_handle) {
            Some(i) => i,
            None => {
                return Err(ProtocolError::InvalidHandle);
            },
        };
        let node_slot = &mut self.nodes[ni];
        let taken = node_slot.take();
        proof {
            lemma_node_slots_update(old(self).nodes@, ni as int, None);
        }
        let node = match taken {
            Some(node) => node,
            None => {
                return Err(ProtocolError::InvalidHandle);
            },
        };
        let slot = &mut self.updates[ui];
        match slot {
            Some(update) => {
                update.add_node(id, node);
            },
            None => {
                return Err(ProtocolError::InvalidHandle);
            },
        }
        proof {
            lemma_update_slots_update(old(self).updates@, ui as int, self.updates@[ui as int]);
            assert(self@ =~= old(self)@.without_node(node_handle).with_update(
                update_handle,
                spec_add_node(
                    old(self)@.update_at(update_handle),
                    id,
                    old(self)@.node_at(node_handle),
                ),
            ));
        }
        Ok(())
    }

    /// Transfers the finished batch behind `h` out of the registry, for
    /// submission to an adapter; the handle is dead afterwards.
    pub fn update_consume(&mut self, h: u64) -> (r: Result<TreeUpdate, ProtocolError>)
        ensures
            r is Ok <==> old(self)@.update_live(h),
            r matches Ok(u) ==> u@ == old(self)@.update_at(h)
                && final(self)@ == old(self)@.without_update(h),
            r is Err ==> r == Err::<TreeUpdate, ProtocolError>(ProtocolError::InvalidHandle)
                && final(self)@ == old(self)@,
    {
        let i = match self.update_handle_index(h) {
            Some(i) => i,
            None => {
                return Err(ProtocolError::InvalidHandle);
            },
        };
        let slot = &mut self.updates[i];
        let taken = slot.take();
        proof {
            lemma_update_slots_update(old(self).updates@, i as int, None);
        }
        match taken {
            Some(update) => {
                proof {
                    assert(self@ =~= old(self)@.without_update(h));
                }
                Ok(update)
            },
            None => Err(ProtocolError::InvalidHandle),
        }
    }
}

} // verus!
