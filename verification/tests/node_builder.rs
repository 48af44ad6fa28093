use accesskit_jni::Action;
use accesskit_jni::Live;
use accesskit_jni::Node;
use accesskit_jni::Rect;
use accesskit_jni::Role;
use accesskit_jni::TextDirection;
use accesskit_jni::TextPosition;
use accesskit_jni::TextSelection;
use accesskit_jni::Toggled;

#[test]
fn scalar_setters_are_last_write_wins() {
    let mut node = Node::new(Role::Slider);
    node.set_label(b"first".to_vec());
    node.set_numeric_value(1.5f64.to_bits());
    node.set_label(b"second".to_vec());
    node.set_numeric_value(2.5f64.to_bits());
    assert_eq!(node.label().as_deref(), Some(b"second".as_slice()));
    assert_eq!(node.numeric_value(), Some(2.5f64.to_bits()));
}

#[test]
fn setter_order_does_not_matter_between_fields() {
    let mut a = Node::new(Role::Button);
    a.set_label(b"go".to_vec());
    a.set_value(b"7".to_vec());
    a.set_toggled(Toggled::True);

    let mut b = Node::new(Role::Button);
    b.set_toggled(Toggled::True);
    b.set_value(b"7".to_vec());
    b.set_label(b"go".to_vec());

    assert_eq!(a.role(), b.role());
    assert_eq!(a.label(), b.label());
    assert_eq!(a.value(), b.value());
    assert_eq!(a.toggled(), b.toggled());
    assert_eq!(a.live(), b.live());
}

#[test]
fn action_set_is_cumulative_and_deduplicated() {
    let mut node = Node::new(Role::Button);
    node.add_action(Action::Click);
    node.add_action(Action::Focus);
    node.add_action(Action::Click);
    assert!(node.has_action(Action::Click));
    assert!(node.has_action(Action::Focus));
    assert!(!node.has_action(Action::Blur));
    assert_eq!(node.actions().len(), 2);
}

#[test]
fn child_list_keeps_append_order_and_clears() {
    let mut node = Node::new(Role::List);
    node.push_child(30);
    node.push_child(10);
    node.push_child(20);
    assert_eq!(node.children(), &vec![30, 10, 20]);
    node.clear_children();
    assert!(node.children().is_empty());
    node.push_child(5);
    assert_eq!(node.children(), &vec![5]);
}

#[test]
fn bounds_round_trip_is_exact_to_the_bit() {
    let rect = Rect {
        x0: 1.0f64.to_bits(),
        y0: 2.0f64.to_bits(),
        x1: 3.0f64.to_bits(),
        y1: 4.0f64.to_bits(),
    };
    let mut node = Node::new(Role::Image);
    assert_eq!(node.bounds(), None);
    node.set_bounds(rect);
    let back = node.bounds().expect("bounds were set");
    assert_eq!(back, rect);
    assert_eq!(f64::from_bits(back.x0), 1.0);
    assert_eq!(f64::from_bits(back.y0), 2.0);
    assert_eq!(f64::from_bits(back.x1), 3.0);
    assert_eq!(f64::from_bits(back.y1), 4.0);
    assert_eq!(back.x0, 1.0f64.to_bits());
    assert_eq!(back.y0, 2.0f64.to_bits());
    assert_eq!(back.x1, 3.0f64.to_bits());
    assert_eq!(back.y1, 4.0f64.to_bits());
}

#[test]
fn numeric_fields_are_independent() {
    let mut node = Node::new(Role::Slider);
    node.set_min_numeric_value(0.0f64.to_bits());
    node.set_max_numeric_value(10.0f64.to_bits());
    node.set_numeric_value_step(0.5f64.to_bits());
    node.set_numeric_value_jump(2.0f64.to_bits());
    assert_eq!(node.numeric_value(), None);
    assert_eq!(node.min_numeric_value(), Some(0.0f64.to_bits()));
    assert_eq!(node.max_numeric_value(), Some(10.0f64.to_bits()));
    assert_eq!(node.numeric_value_step(), Some(0.5f64.to_bits()));
    assert_eq!(node.numeric_value_jump(), Some(2.0f64.to_bits()));
}

#[test]
fn text_selection_is_stored_as_given() {
    let selection = TextSelection {
        anchor: TextPosition { node: 4, character_index: 1 },
        focus: TextPosition { node: 9, character_index: 0 },
    };
    let mut node = Node::new(Role::TextInput);
    node.set_text_selection(selection);
    assert_eq!(node.text_selection(), Some(selection));
}

#[test]
fn layout_arrays_are_independently_settable() {
    let mut node = Node::new(Role::TextRun);
    node.set_character_lengths(vec![1, 2, 1]);
    node.set_word_lengths(vec![3]);
    node.set_character_positions(vec![0.0f32.to_bits(), 1.0f32.to_bits(), 3.5f32.to_bits()]);
    node.set_character_widths(vec![1.0f32.to_bits(), 2.5f32.to_bits(), 1.0f32.to_bits()]);
    assert_eq!(node.character_lengths().as_deref(), Some([1u8, 2, 1].as_slice()));
    assert_eq!(node.word_lengths().as_deref(), Some([3u8].as_slice()));
    assert_eq!(
        node.character_positions().as_deref(),
        Some([0.0f32.to_bits(), 1.0f32.to_bits(), 3.5f32.to_bits()].as_slice()),
    );
    assert_eq!(
        node.character_widths().as_deref(),
        Some([1.0f32.to_bits(), 2.5f32.to_bits(), 1.0f32.to_bits()].as_slice()),
    );
}

#[test]
fn enum_states_are_last_write_wins() {
    let mut node = Node::new(Role::CheckBox);
    node.set_toggled(Toggled::False);
    node.set_toggled(Toggled::Mixed);
    node.set_live(Live::Polite);
    node.set_live(Live::Assertive);
    node.set_text_direction(TextDirection::LeftToRight);
    node.set_text_direction(TextDirection::RightToLeft);
    assert_eq!(node.toggled(), Some(Toggled::Mixed));
    assert_eq!(node.live(), Some(Live::Assertive));
    assert_eq!(node.text_direction(), Some(TextDirection::RightToLeft));
}

#[test]
fn code_tables_decode_and_encode_consistently() {
    assert_eq!(Role::from_code(18), Some(Role::Button));
    assert_eq!(Role::from_code(0), Some(Role::Unknown));
    assert_eq!(Role::from_code(181), Some(Role::Terminal));
    assert_eq!(Role::from_code(182), None);
    assert_eq!(Role::Button.code(), 18);

    assert_eq!(Action::from_code(0), Some(Action::Click));
    assert_eq!(Action::from_code(21), Some(Action::ShowContextMenu));
    assert_eq!(Action::from_code(22), None);
    assert_eq!(Action::Focus.code(), 1);

    assert_eq!(Toggled::from_code(0), Some(Toggled::False));
    assert_eq!(Toggled::from_code(2), Some(Toggled::Mixed));
    assert_eq!(Toggled::from_code(3), None);

    assert_eq!(Live::from_code(1), Some(Live::Polite));
    assert_eq!(Live::from_code(3), None);

    assert_eq!(TextDirection::from_code(3), Some(TextDirection::BottomToTop));
    assert_eq!(TextDirection::from_code(4), None);
    assert_eq!(TextDirection::TopToBottom.code(), 2);
}
