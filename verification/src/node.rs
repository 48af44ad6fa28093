use vstd::prelude::*;

use crate::codes::Action;
use crate::codes::Live;
use crate::codes::TextDirection;
use crate::codes::Toggled;
use crate::geometry::Rect;
use crate::role::Role;
use crate::setters::apply_setter;
use crate::setters::SetterCall;
use crate::text::TextSelection;

verus! {

/// The sequence held by an optional array field, `None` while the field is
/// unset.
pub open spec fn opt_seq<T>(o: Option<Vec<T>>) -> Option<Seq<T>> {
    match o {
        Some(v) => Some(v@),
        None => None,
    }
}

/// The abstract value of a [`Node`]: every observable field, with byte and
/// float-bit arrays as sequences and the action set as a set.
#[verifier::ext_equal]
pub struct NodeView {
    pub role: Role,
    pub actions: Set<Action>,
    pub label: Option<Seq<u8>>,
    pub value: Option<Seq<u8>>,
    pub bounds: Option<Rect>,
    pub children: Seq<u64>,
    pub toggled: Option<Toggled>,
    pub live: Option<Live>,
    pub text_direction: Option<TextDirection>,
    pub numeric_value: Option<u64>,
    pub min_numeric_value: Option<u64>,
    pub max_numeric_value: Option<u64>,
    pub numeric_value_step: Option<u64>,
    pub numeric_value_jump: Option<u64>,
    pub text_selection: Option<TextSelection>,
    pub character_lengths: Option<Seq<u8>>,
    pub word_lengths: Option<Seq<u8>>,
    pub character_positions: Option<Seq<u32>>,
    pub character_widths: Option<Seq<u32>>,
}

impl NodeView {
    /// The value of a node fresh from construction: the given role, no
    /// actions, and every other field unset.
    pub open spec fn fresh(role: Role) -> NodeView {
        NodeView {
            role,
            actions: Set::<Action>::empty(),
            label: None,
            value: None,
            bounds: None,
            children: Seq::<u64>::empty(),
            toggled: None,
            live: None,
            text_direction: None,
            numeric_value: None,
            min_numeric_value: None,
            max_numeric_value: None,
            numeric_value_step: None,
            numeric_value_jump: None,
            text_selection: None,
            character_lengths: None,
            word_lengths: None,
            character_positions: None,
            character_widths: None,
        }
    }
}

/// A mutable builder for one accessibility-tree node.
///
/// A node is created with a fixed role; every other attribute accumulates
/// through setter calls, in any order. Scalar fields are last-write-wins.
/// The action set grows with set semantics (adding an action twice changes
/// nothing) and the child list keeps the order in which ids were appended.
/// Strings are held as the raw UTF-8 bytes that crossed the boundary, and
/// floating-point payloads as their IEEE 754 bit patterns, so read-back is
/// exact to the bit.
pub struct Node {
    role: Role,
    actions: Vec<Action>,
    label: Option<Vec<u8>>,
    value: Option<Vec<u8>>,
    bounds: Option<Rect>,
    children: Vec<u64>,
    toggled: Option<Toggled>,
    live: Option<Live>,
    text_direction: Option<TextDirection>,
    numeric_value: Option<u64>,
    min_numeric_value: Option<u64>,
    max_numeric_value: Option<u64>,
    numeric_value_step: Option<u64>,
    numeric_value_jump: Option<u64>,
    text_selection: Option<TextSelection>,
    character_lengths: Option<Vec<u8>>,
    word_lengths: Option<Vec<u8>>,
    character_positions: Option<Vec<u32>>,
    character_widths: Option<Vec<u32>>,
}

impl View for Node {
    type V = NodeView;

    closed spec fn view(&self) -> NodeView {
        NodeView {
            role: self.role,
            actions: self.actions@.to_set(),
            label: opt_seq(self.label),
            value: opt_seq(self.value),
            bounds: self.bounds,
            children: self.children@,
            toggled: self.toggled,
            live: self.live,
            text_direction: self.text_direction,
            numeric_value: self.numeric_value,
            min_numeric_value: self.min_numeric_value,
            max_numeric_value: self.max_numeric_value,
            numeric_value_step: self.numeric_value_step,
            numeric_value_jump: self.numeric_value_jump,
            text_selection: self.text_selection,
            character_lengths: opt_seq(self.character_lengths),
            word_lengths: opt_seq(self.word_lengths),
            character_positions: opt_seq(self.character_positions),
            character_widths: opt_seq(self.character_widths),
        }
    }
}

impl Node {
    /// A fresh builder with the given role and every other field unset.
    pub fn new(role: Role) -> (n: Node)
        ensures
            n@ == NodeView::fresh(role),
    {
        let n = Node {
            role,
            actions: Vec::new(),
            label: None,
            value: None,
            bounds: None,
            children: Vec::new(),
            toggled: None,
            live: None,
            text_direction: None,
            numeric_value: None,
            min_numeric_value: None,
            max_numeric_value: None,
            numeric_value_step: None,
            numeric_value_jump: None,
            text_selection: None,
            character_lengths: None,
            word_lengths: None,
            character_positions: None,
            character_widths: None,
        };
        proof {
            assert(n@.actions =~= NodeView::fresh(role).actions);
            assert(n@ =~= NodeView::fresh(role));
        }
        n
    }

    /// Adds one action to the node's action set. Idempotent: a second add of
    /// the same action leaves the node unchanged.
    pub fn add_action(&mut self, action: Action)
        ensures
            final(self)@ == (NodeView { actions: old(self)@.actions.insert(action), ..old(self)@ }),
            final(self)@ == apply_setter(old(self)@, SetterCall::AddAction(action)),
    {
        if !contains_action(&self.actions, action) {
            self.actions.push(action);
            proof {
                old(self).actions@.lemma_push_to_set_commute(action);
                assert(final(self)@ =~= (NodeView {
                    actions: old(self)@.actions.insert(action),
                    ..old(self)@
                }));
            }
        } else {
            proof {
                assert(self.actions@.to_set() =~= old(self).actions@.to_set().insert(action));
                assert(final(self)@ =~= (NodeView {
                    actions: old(self)@.actions.insert(action),
                    ..old(self)@
                }));
            }
        }
    }

    /// Replaces the label with the given UTF-8 bytes.
    pub fn set_label(&mut self, bytes: Vec<u8>)
        ensures
            final(self)@ == (NodeView { label: Some(bytes@), ..old(self)@ }),
            final(self)@ == apply_setter(old(self)@, SetterCall::SetLabel(bytes@)),
    {
        self.label = Some(bytes);
    }

    /// Replaces the value string with the given UTF-8 bytes.
    pub fn set_value(&mut self, bytes: Vec<u8>)
        ensures
            final(self)@ == (NodeView { value: Some(bytes@), ..old(self)@ }),
            final(self)@ == apply_setter(old(self)@, SetterCall::SetValue(bytes@)),
    {
        self.value = Some(bytes);
    }

    /// Replaces the bounding rectangle.
    pub fn set_bounds(&mut self, rect: Rect)
        ensures
            final(self)@ == (NodeView { bounds: Some(rect), ..old(self)@ }),
            final(self)@ == apply_setter(old(self)@, SetterCall::SetBounds(rect)),
    {
        self.bounds = Some(rect);
    }

    /// Appends one logical node id to the child list.
    pub fn push_child(&mut self, id: u64)
        ensures
            final(self)@ == (NodeView { children: old(self)@.children.push(id), ..old(self)@ }),
            final(self)@ == apply_setter(old(self)@, SetterCall::PushChild(id)),
    {
        self.children.push(id);
    }

    /// Resets the child list to empty.
    pub fn clear_children(&mut self)
        ensures
            final(self)@ == (NodeView { children: Seq::<u64>::empty(), ..old(self)@ }),
            final(self)@ == apply_setter(old(self)@, SetterCall::ClearChildren),
    {
        self.children.clear();
    }

    /// Replaces the toggled state.
    pub fn set_toggled(&mut self, toggled: Toggled)
        ensures
            final(self)@ == (NodeView { toggled: Some(toggled), ..old(self)@ }),
            final(self)@ == apply_setter(old(self)@, SetterCall::SetToggled(toggled)),
    {
        self.toggled = Some(toggled);
    }

    /// Replaces the live-region politeness level.
    pub fn set_live(&mut self, live: Live)
        ensures
            final(self)@ == (NodeView { live: Some(live), ..old(self)@ }),
            final(self)@ == apply_setter(old(self)@, SetterCall::SetLive(live)),
    {
        self.live = Some(live);
    }

    /// Replaces the text direction.
    pub fn set_text_direction(&mut self, direction: TextDirection)
        ensures
            final(self)@ == (NodeView { text_direction: Some(direction), ..old(self)@ }),
            final(self)@ == apply_setter(old(self)@, SetterCall::SetTextDirection(direction)),
    {
        self.text_direction = Some(direction);
    }

    /// Replaces the numeric value; `bits` is its IEEE 754 binary64 pattern.
    pub fn set_numeric_value(&mut self, bits: u64)
        ensures
            final(self)@ == (NodeView { numeric_value: Some(bits), ..old(self)@ }),
            final(self)@ == apply_setter(old(self)@, SetterCall::SetNumericValue(bits)),
    {
        self.numeric_value = Some(bits);
    }

    /// Replaces the minimum of the numeric range.
    pub fn set_min_numeric_value(&mut self, bits: u64)
        ensures
            final(self)@ == (NodeView { min_numeric_value: Some(bits), ..old(self)@ }),
            final(self)@ == apply_setter(old(self)@, SetterCall::SetMinNumericValue(bits)),
    {
        self.min_numeric_value = Some(bits);
    }

    /// Replaces the maximum of the numeric range.
    pub fn set_max_numeric_value(&mut self, bits: u64)
        ensures
            final(self)@ == (NodeView { max_numeric_value: Some(bits), ..old(self)@ }),
            final(self)@ == apply_setter(old(self)@, SetterCall::SetMaxNumericValue(bits)),
    {
        self.max_numeric_value = Some(bits);
    }

    /// Replaces the numeric step.
    pub fn set_numeric_value_step(&mut self, bits: u64)
        ensures
            final(self)@ == (NodeView { numeric_value_step: Some(bits), ..old(self)@ }),
            final(self)@ == apply_setter(old(self)@, SetterCall::SetNumericValueStep(bits)),
    {
        self.numeric_value_step = Some(bits);
    }

    /// Replaces the numeric jump.
    pub fn set_numeric_value_jump(&mut self, bits: u64)
        ensures
            final(self)@ == (NodeView { numeric_value_jump: Some(bits), ..old(self)@ }),
            final(self)@ == apply_setter(old(self)@, SetterCall::SetNumericValueJump(bits)),
    {
        self.numeric_value_jump = Some(bits);
    }

    /// Replaces the text selection range.
    pub fn set_text_selection(&mut self, selection: TextSelection)
        ensures
            final(self)@ == (NodeView { text_selection: Some(selection), ..old(self)@ }),
            final(self)@ == apply_setter(old(self)@, SetterCall::SetTextSelection(selection)),
    {
        self.text_selection = Some(selection);
    }

    /// Replaces the per-character UTF-8 lengths.
    pub fn set_character_lengths(&mut self, lengths: Vec<u8>)
        ensures
            final(self)@ == (NodeView { character_lengths: Some(lengths@), ..old(self)@ }),
            final(self)@ == apply_setter(old(self)@, SetterCall::SetCharacterLengths(lengths@)),
    {
        self.character_lengths = Some(lengths);
    }

    /// Replaces the per-word lengths.
    pub fn set_word_lengths(&mut self, lengths: Vec<u8>)
        ensures
            final(self)@ == (NodeView { word_lengths: Some(lengths@), ..old(self)@ }),
            final(self)@ == apply_setter(old(self)@, SetterCall::SetWordLengths(lengths@)),
    {
        self.word_lengths = Some(lengths);
    }

    /// Replaces the per-character positions; each entry is an IEEE 754
    /// binary32 bit pattern.
    pub fn set_character_positions(&mut self, positions: Vec<u32>)
        ensures
            final(self)@ == (NodeView { character_positions: Some(positions@), ..old(self)@ }),
            final(self)@ == apply_setter(old(self)@, SetterCall::SetCharacterPositions(positions@)),
    {
        self.character_positions = Some(positions);
    }

    /// Replaces the per-character widths; each entry is an IEEE 754
    /// binary32 bit pattern.
    pub fn set_character_widths(&mut self, widths: Vec<u32>)
        ensures
            final(self)@ == (NodeView { character_widths: Some(widths@), ..old(self)@ }),
            final(self)@ == apply_setter(old(self)@, SetterCall::SetCharacterWidths(widths@)),
    {
        self.character_widths = Some(widths);
    }

    /// The node's role, fixed at construction.
    pub fn role(&self) -> (r: Role)
        ensures
            r == self@.role,
    {
        self.role
    }

    /// Whether the action set holds `action`.
    pub fn has_action(&self, action: Action) -> (r: bool)
        ensures
            r == self@.actions.contains(action),
    {
        contains_action(&self.actions, action)
    }

    /// The actions, one occurrence each, in order of first addition.
    pub fn actions(&self) -> (r: &Vec<Action>)
        ensures
            r@.to_set() == self@.actions,
    {
        &self.actions
    }

    /// The label bytes, if set.
    pub fn label(&self) -> (r: &Option<Vec<u8>>)
        ensures
            opt_seq(*r) == self@.label,
    {
        &self.label
    }

    /// The value bytes, if set.
    pub fn value(&self) -> (r: &Option<Vec<u8>>)
        ensures
            opt_seq(*r) == self@.value,
    {
        &self.value
    }

    /// The bounding rectangle, if set.
    pub fn bounds(&self) -> (r: Option<Rect>)
        ensures
            r == self@.bounds,
    {
        self.bounds
    }

    /// The child ids, in append order.
    pub fn children(&self) -> (r: &Vec<u64>)
        ensures
            r@ == self@.children,
    {
        &self.children
    }

    /// The toggled state, if set.
    pub fn toggled(&self) -> (r: Option<Toggled>)
        ensures
            r == self@.toggled,
    {
        self.toggled
    }

    /// The live-region politeness, if set.
    pub fn live(&self) -> (r: Option<Live>)
        ensures
            r == self@.live,
    {
        self.live
    }

    /// The text direction, if set.
    pub fn text_direction(&self) -> (r: Option<TextDirection>)
        ensures
            r == self@.text_direction,
    {
        self.text_direction
    }

    /// The numeric value's bit pattern, if set.
    pub fn numeric_value(&self) -> (r: Option<u64>)
        ensures
            r == self@.numeric_value,
    {
        self.numeric_value
    }

    /// The numeric minimum's bit pattern, if set.
    pub fn min_numeric_value(&self) -> (r: Option<u64>)
        ensures
            r == self@.min_numeric_value,
    {
        self.min_numeric_value
    }

    /// The numeric maximum's bit pattern, if set.
    pub fn max_numeric_value(&self) -> (r: Option<u64>)
        ensures
            r == self@.max_numeric_value,
    {
        self.max_numeric_value
    }

    /// The numeric step's bit pattern, if set.
    pub fn numeric_value_step(&self) -> (r: Option<u64>)
        ensures
            r == self@.numeric_value_step,
    {
        self.numeric_value_step
    }

    /// The numeric jump's bit pattern, if set.
    pub fn numeric_value_jump(&self) -> (r: Option<u64>)
        ensures
            r == self@.numeric_value_jump,
    {
        self.numeric_value_jump
    }

    /// The text selection, if set.
    pub fn text_selection(&self) -> (r: Option<TextSelection>)
        ensures
            r == self@.text_selection,
    {
        self.text_selection
    }

    /// The per-character UTF-8 lengths, if set.
    pub fn character_lengths(&self) -> (r: &Option<Vec<u8>>)
        ensures
            opt_seq(*r) == self@.character_lengths,
    {
        &self.character_lengths
    }

    /// The per-word lengths, if set.
    pub fn word_lengths(&self) -> (r: &Option<Vec<u8>>)
        ensures
            opt_seq(*r) == self@.word_lengths,
    {
        &self.word_lengths
    }

    /// The per-character position bit patterns, if set.
    pub fn character_positions(&self) -> (r: &Option<Vec<u32>>)
        ensures
            opt_seq(*r) == self@.character_positions,
    {
        &self.character_positions
    }

    /// The per-character width bit patterns, if set.
    pub fn character_widths(&self) -> (r: &Option<Vec<u32>>)
        ensures
            opt_seq(*r) == self@.character_widths,
    {
        &self.character_widths
    }
}

/// Whether `v` holds `a`.
fn contains_action(v: &Vec<Action>, a: Action) -> (r: bool)
    ensures
        r == v@.contains(a),
{
    let mut i: usize = 0;
    while i < v.len()
        invariant
            i <= v@.len(),
            forall|j: int| 0 <= j < i ==> v@[j] != a,
        decreases v@.len() - i,
    {
        if v[i] == a {
            return true;
        }
        i += 1;
    }
    false
}

} // verus!
