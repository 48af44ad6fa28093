use vstd::prelude::*;

use crate::codes::Action;
use crate::codes::Live;
use crate::codes::TextDirection;
use crate::codes::Toggled;
use crate::geometry::Rect;
use crate::node::NodeView;
use crate::text::TextSelection;

verus! {

/// One recorded setter call on a node builder: the trace alphabet over
/// which the builder's call-sequence semantics is stated.
pub enum SetterCall {
    AddAction(Action),
    PushChild(u64),
    ClearChildren,
    SetLabel(Seq<u8>),
    SetValue(Seq<u8>),
    SetBounds(Rect),
    SetToggled(Toggled),
    SetLive(Live),
    SetTextDirection(TextDirection),
    SetNumericValue(u64),
    SetMinNumericValue(u64),
    SetMaxNumericValue(u64),
    SetNumericValueStep(u64),
    SetNumericValueJump(u64),
    SetTextSelection(TextSelection),
    SetCharacterLengths(Seq<u8>),
    SetWordLengths(Seq<u8>),
    SetCharacterPositions(Seq<u32>),
    SetCharacterWidths(Seq<u32>),
}

/// The node value after one setter call. Each arm restates the `ensures`
/// of the exec setter of the same name, and every exec setter also promises
/// this function of its call, so the trace semantics below is bound to the
/// code.
pub open spec fn apply_setter(v: NodeView, c: SetterCall) -> NodeView {
    match c {
        SetterCall::AddAction(a) => NodeView { actions: v.actions.insert(a), ..v },
        SetterCall::PushChild(id) => NodeView { children: v.children.push(id), ..v },
        SetterCall::ClearChildren => NodeView { children: Seq::<u64>::empty(), ..v },
        SetterCall::SetLabel(x) => NodeView { label: Some(x), ..v },
        SetterCall::SetValue(x) => NodeView { value: Some(x), ..v },
        SetterCall::SetBounds(x) => NodeView { bounds: Some(x), ..v },
        SetterCall::SetToggled(x) => NodeView { toggled: Some(x), ..v },
        SetterCall::SetLive(x) => NodeView { live: Some(x), ..v },
        SetterCall::SetTextDirection(x) => NodeView { text_direction: Some(x), ..v },
        SetterCall::SetNumericValue(x) => NodeView { numeric_value: Some(x), ..v },
        SetterCall::SetMinNumericValue(x) => NodeView { min_numeric_value: Some(x), ..v },
        SetterCall::SetMaxNumericValue(x) => NodeView { max_numeric_value: Some(x), ..v },
        SetterCall::SetNumericValueStep(x) => NodeView { numeric_value_step: Some(x), ..v },
        SetterCall::SetNumericValueJump(x) => NodeView { numeric_value_jump: Some(x), ..v },
        SetterCall::SetTextSelection(x) => NodeView { text_selection: Some(x), ..v },
        SetterCall::SetCharacterLengths(x) => NodeView { character_lengths: Some(x), ..v },
        SetterCall::SetWordLengths(x) => NodeView { word_lengths: Some(x), ..v },
        SetterCall::SetCharacterPositions(x) => NodeView { character_positions: Some(x), ..v },
        SetterCall::SetCharacterWidths(x) => NodeView { character_widths: Some(x), ..v },
    }
}

/// The node value after a whole sequence of setter calls, first call first.
pub open spec fn apply_setters(v: NodeView, calls: Seq<SetterCall>) -> NodeView
    decreases calls.len(),
{
    if calls.len() == 0 {
        v
    } else {
        apply_setter(apply_setters(v, calls.drop_last()), calls.last())
    }
}

/// Every action added anywhere in the sequence.
pub open spec fn added_actions(calls: Seq<SetterCall>) -> Set<Action>
    decreases calls.len(),
{
    if calls.len() == 0 {
        Set::<Action>::empty()
    } else {
        match calls.last() {
            SetterCall::AddAction(a) => added_actions(calls.drop_last()).insert(a),
            _ => added_actions(calls.drop_last()),
        }
    }
}

/// The child list after the sequence: ids appended in call order, reset by
/// the latest clear.
pub open spec fn children_after(orig: Seq<u64>, calls: Seq<SetterCall>) -> Seq<u64>
    decreases calls.len(),
{
    if calls.len() == 0 {
        orig
    } else {
        match calls.last() {
            SetterCall::PushChild(id) => children_after(orig, calls.drop_last()).push(id),
            SetterCall::ClearChildren => Seq::<u64>::empty(),
            _ => children_after(orig, calls.drop_last()),
        }
    }
}

/// The last value the sequence wrote to `label`, or the original.
pub open spec fn last_label(orig: Option<Seq<u8>>, calls: Seq<SetterCall>) -> Option<Seq<u8>>
    decreases calls.len(),
{
    if calls.len() == 0 {
        orig
    } else {
        match calls.last() {
            SetterCall::SetLabel(x) => Some(x),
            _ => last_label(orig, calls.drop_last()),
        }
    }
}

/// The last value the sequence wrote to `value`, or the original.
pub open spec fn last_value(orig: Option<Seq<u8>>, calls: Seq<SetterCall>) -> Option<Seq<u8>>
    decreases calls.len(),
{
    if calls.len() == 0 {
        orig
    } else {
        match calls.last() {
            SetterCall::SetValue(x) => Some(x),
            _ => last_value(orig, calls.drop_last()),
        }
    }
}

/// The last value the sequence wrote to `bounds`, or the original.
pub open spec fn last_bounds(orig: Option<Rect>, calls: Seq<SetterCall>) -> Option<Rect>
    decreases calls.len(),
{
    if calls.len() == 0 {
        orig
    } else {
        match calls.last() {
            SetterCall::SetBounds(x) => Some(x),
            _ => last_bounds(orig, calls.drop_last()),
        }
    }
}

/// The last value the sequence wrote to `toggled`, or the original.
pub open spec fn last_toggled(orig: Option<Toggled>, calls: Seq<SetterCall>) -> Option<Toggled>
    decreases calls.len(),
{
    if calls.len() == 0 {
        orig
    } else {
        match calls.last() {
            SetterCall::SetToggled(x) => Some(x),
            _ => last_toggled(orig, calls.drop_last()),
        }
    }
}

/// The last value the sequence wrote to `live`, or the original.
pub open spec fn last_live(orig: Option<Live>, calls: Seq<SetterCall>) -> Option<Live>
    decreases calls.len(),
{
    if calls.len() == 0 {
        orig
    } else {
        match calls.last() {
            SetterCall::SetLive(x) => Some(x),
            _ => last_live(orig, calls.drop_last()),
        }
    }
}

/// The last value the sequence wrote to `text_direction`, or the original.
pub open spec fn last_text_direction(orig: Option<TextDirection>, calls: Seq<SetterCall>) -> Option<TextDirection>
    decreases calls.len(),
{
    if calls.len() == 0 {
        orig
    } else {
        match calls.last() {
            SetterCall::SetTextDirection(x) => Some(x),
            _ => last_text_direction(orig, calls.drop_last()),
        }
    }
}

/// The last value the sequence wrote to `numeric_value`, or the original.
pub open spec fn last_numeric_value(orig: Option<u64>, calls: Seq<SetterCall>) -> Option<u64>
    decreases calls.len(),
{
    if calls.len() == 0 {
        orig
    } else {
        match calls.last() {
            SetterCall::SetNumericValue(x) => Some(x),
            _ => last_numeric_value(orig, calls.drop_last()),
        }
    }
}

/// The last value the sequence wrote to `min_numeric_value`, or the original.
pub open spec fn last_min_numeric_value(orig: Option<u64>, calls: Seq<SetterCall>) -> Option<u64>
    decreases calls.len(),
{
    if calls.len() == 0 {
        orig
    } else {
        match calls.last() {
            SetterCall::SetMinNumericValue(x) => Some(x),
            _ => last_min_numeric_value(orig, calls.drop_last()),
        }
    }
}

/// The last value the sequence wrote to `max_numeric_value`, or the original.
pub open spec fn last_max_numeric_value(orig: Option<u64>, calls: Seq<SetterCall>) -> Option<u64>
    decreases calls.len(),
{
    if calls.len() == 0 {
        orig
    } else {
        match calls.last() {
            SetterCall::SetMaxNumericValue(x) => Some(x),
            _ => last_max_numeric_value(orig, calls.drop_last()),
        }
    }
}

/// The last value the sequence wrote to `numeric_value_step`, or the original.
pub open spec fn last_numeric_value_step(orig: Option<u64>, calls: Seq<SetterCall>) -> Option<u64>
    decreases calls.len(),
{
    if calls.len() == 0 {
        orig
    } else {
        match calls.last() {
            SetterCall::SetNumericValueStep(x) => Some(x),
            _ => last_numeric_value_step(orig, calls.drop_last()),
        }
    }
}

/// The last value the sequence wrote to `numeric_value_jump`, or the original.
pub open spec fn last_numeric_value_jump(orig: Option<u64>, calls: Seq<SetterCall>) -> Option<u64>
    decreases calls.len(),
{
    if calls.len() == 0 {
        orig
    } else {
        match calls.last() {
            SetterCall::SetNumericValueJump(x) => Some(x),
            _ => last_numeric_value_jump(orig, calls.drop_last()),
        }
    }
}

/// The last value the sequence wrote to `text_selection`, or the original.
pub open spec fn last_text_selection(orig: Option<TextSelection>, calls: Seq<SetterCall>) -> Option<TextSelection>
    decreases calls.len(),
{
    if calls.len() == 0 {
        orig
    } else {
        match calls.last() {
            SetterCall::SetTextSelection(x) => Some(x),
            _ => last_text_selection(orig, calls.drop_last()),
        }
    }
}

/// The last value the sequence wrote to `character_lengths`, or the original.
pub open spec fn last_character_lengths(orig: Option<Seq<u8>>, calls: Seq<SetterCall>) -> Option<Seq<u8>>
    decreases calls.len(),
{
    if calls.len() == 0 {
        orig
    } else {
        match calls.last() {
            SetterCall::SetCharacterLengths(x) => Some(x),
            _ => last_character_lengths(orig, calls.drop_last()),
        }
    }
}

/// The last value the sequence wrote to `word_lengths`, or the original.
pub open spec fn last_word_lengths(orig: Option<Seq<u8>>, calls: Seq<SetterCall>) -> Option<Seq<u8>>
    decreases calls.len(),
{
    if calls.len() == 0 {
        orig
    } else {
        match calls.last() {
            SetterCall::SetWordLengths(x) => Some(x),
            _ => last_word_lengths(orig, calls.drop_last()),
        }
    }
}

/// The last value the sequence wrote to `character_positions`, or the original.
pub open spec fn last_character_positions(orig: Option<Seq<u32>>, calls: Seq<SetterCall>) -> Option<Seq<u32>>
    decreases calls.len(),
{
    if calls.len() == 0 {
        orig
    } else {
        match calls.last() {
            SetterCall::SetCharacterPositions(x) => Some(x),
            _ => last_character_positions(orig, calls.drop_last()),
        }
    }
}

/// The last value the sequence wrote to `character_widths`, or the original.
pub open spec fn last_character_widths(orig: Option<Seq<u32>>, calls: Seq<SetterCall>) -> Option<Seq<u32>>
    decreases calls.len(),
{
    if calls.len() == 0 {
        orig
    } else {
        match calls.last() {
            SetterCall::SetCharacterWidths(x) => Some(x),
            _ => last_character_widths(orig, calls.drop_last()),
        }
    }
}

/// Law: for every sequence of setter calls, in any order, the resulting
/// node's observable fields equal the last value set for each field, while
/// the action set is cumulative (set semantics, duplicates ignored) and the
/// child list is cumulative in call order; the role never changes.
pub proof fn lemma_setter_sequence_semantics(v: NodeView, calls: Seq<SetterCall>)
    ensures
        apply_setters(v, calls).role == v.role,
        apply_setters(v, calls).actions == v.actions.union(added_actions(calls)),
        apply_setters(v, calls).children == children_after(v.children, calls),
        apply_setters(v, calls).label == last_label(v.label, calls),
        apply_setters(v, calls).value == last_value(v.value, calls),
        apply_setters(v, calls).bounds == last_bounds(v.bounds, calls),
        apply_setters(v, calls).toggled == last_toggled(v.toggled, calls),
        apply_setters(v, calls).live == last_live(v.live, calls),
        apply_setters(v, calls).text_direction == last_text_direction(v.text_direction, calls),
        apply_setters(v, calls).numeric_value == last_numeric_value(v.numeric_value, calls),
        apply_setters(v, calls).min_numeric_value == last_min_numeric_value(v.min_numeric_value, calls),
        apply_setters(v, calls).max_numeric_value == last_max_numeric_value(v.max_numeric_value, calls),
        apply_setters(v, calls).numeric_value_step == last_numeric_value_step(v.numeric_value_step, calls),
        apply_setters(v, calls).numeric_value_jump == last_numeric_value_jump(v.numeric_value_jump, calls),
        apply_setters(v, calls).text_selection == last_text_selection(v.text_selection, calls),
        apply_setters(v, calls).character_lengths == last_character_lengths(v.character_lengths, calls),
        apply_setters(v, calls).word_lengths == last_word_lengths(v.word_lengths, calls),
        apply_setters(v, calls).character_positions == last_character_positions(v.character_positions, calls),
        apply_setters(v, calls).character_widths == last_character_widths(v.character_widths, calls),
    decreases calls.len(),
{
    if calls.len() == 0 {
        assert(v.actions.union(added_actions(calls)) =~= v.actions);
    } else {
        lemma_setter_sequence_semantics(v, calls.drop_last());
        let w = apply_setters(v, calls.drop_last());
        match calls.last() {
            SetterCall::AddAction(a) => {
                assert(v.actions.union(added_actions(calls)) =~= w.actions.insert(a));
            },
            _ => {
                assert(added_actions(calls) == added_actions(calls.drop_last()));
            },
        }
    }
}

} // verus!
