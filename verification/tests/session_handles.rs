use accesskit_jni::ProtocolError;
use accesskit_jni::Rect;
use accesskit_jni::Role;
use accesskit_jni::Session;
use accesskit_jni::TreeDescriptor;

const BUTTON: u8 = 18;
const WINDOW: u8 = 180;
const CLICK: u8 = 0;

#[test]
fn handles_are_fresh_and_live_until_dropped() {
    let mut session = Session::new();
    let a = session.node_new(BUTTON).unwrap();
    let b = session.node_new(BUTTON).unwrap();
    assert_ne!(a, b);
    assert!(session.node_is_live(a));
    assert!(session.node_is_live(b));
    assert_eq!(session.node_drop(a), Ok(()));
    assert!(!session.node_is_live(a));
    assert!(session.node_is_live(b));
}

#[test]
fn invalid_role_code_refuses_creation() {
    let mut session = Session::new();
    assert_eq!(session.node_new(255), Err(ProtocolError::InvalidCode));
    assert!(!session.node_is_live(1));
}

#[test]
fn operations_on_a_destroyed_handle_fail_loudly() {
    let mut session = Session::new();
    let h = session.node_new(BUTTON).unwrap();
    assert_eq!(session.node_drop(h), Ok(()));
    assert_eq!(session.node_set_label(h, b"x".to_vec()), Err(ProtocolError::InvalidHandle));
    assert_eq!(session.node_add_action(h, CLICK), Err(ProtocolError::InvalidHandle));
    assert_eq!(session.node_drop(h), Err(ProtocolError::InvalidHandle));
    assert_eq!(session.node_add_child(h, 2), Err(ProtocolError::InvalidHandle));
}

#[test]
fn zero_and_unissued_handles_are_never_live() {
    let mut session = Session::new();
    assert!(!session.node_is_live(0));
    assert!(!session.node_is_live(1));
    assert_eq!(session.node_set_bounds(
        7,
        Rect { x0: 0, y0: 0, x1: 0, y1: 0 },
    ), Err(ProtocolError::InvalidHandle));
    assert!(!session.update_is_live(0));
    assert_eq!(session.update_set_tree(1, 1), Err(ProtocolError::InvalidHandle));
}

#[test]
fn enum_code_is_checked_after_the_handle() {
    let mut session = Session::new();
    let h = session.node_new(BUTTON).unwrap();
    assert_eq!(session.node_add_action(h, 200), Err(ProtocolError::InvalidCode));
    assert_eq!(session.node_set_toggled(h, 3), Err(ProtocolError::InvalidCode));
    assert_eq!(session.node_set_live(h, 9), Err(ProtocolError::InvalidCode));
    assert_eq!(session.node_set_text_direction(h, 4), Err(ProtocolError::InvalidCode));
    assert_eq!(session.node_add_action(99, 200), Err(ProtocolError::InvalidHandle));
    assert_eq!(session.node_add_action(h, CLICK), Ok(()));
    assert_eq!(session.node_set_toggled(h, 1), Ok(()));
}

#[test]
fn adding_a_node_to_a_batch_consumes_its_handle() {
    let mut session = Session::new();
    let n = session.node_new(BUTTON).unwrap();
    let u = session.update_with_focus(1);
    assert_eq!(session.update_add_node(u, 1, n), Ok(()));
    assert!(!session.node_is_live(n));
    assert!(session.update_is_live(u));
    assert_eq!(session.update_add_node(u, 1, n), Err(ProtocolError::InvalidHandle));
}

#[test]
fn consuming_a_batch_kills_its_handle() {
    let mut session = Session::new();
    let u = session.update_with_focus(3);
    let batch = session.update_consume(u).unwrap();
    assert_eq!(batch.focus(), 3);
    assert!(!session.update_is_live(u));
    assert!(session.update_consume(u).is_err());
    assert_eq!(session.update_set_focus(u, 9), Err(ProtocolError::InvalidHandle));
}

#[test]
fn dropping_a_batch_discards_absorbed_nodes() {
    let mut session = Session::new();
    let n = session.node_new(BUTTON).unwrap();
    let u = session.update_with_focus(1);
    assert_eq!(session.update_add_node(u, 1, n), Ok(()));
    assert_eq!(session.update_drop(u), Ok(()));
    assert!(!session.update_is_live(u));
    assert!(!session.node_is_live(n));
    assert_eq!(session.update_drop(u), Err(ProtocolError::InvalidHandle));
}

#[test]
fn end_to_end_button_batch() {
    let mut session = Session::new();
    let n = session.node_new(BUTTON).unwrap();
    assert_eq!(session.node_add_action(n, CLICK), Ok(()));
    assert_eq!(session.node_set_label(n, b"OK".to_vec()), Ok(()));
    let u = session.update_with_focus(1);
    assert_eq!(session.update_add_node(u, 1, n), Ok(()));
    assert_eq!(session.update_set_tree(u, 1), Ok(()));
    let batch = session.update_consume(u).unwrap();

    assert_eq!(batch.node_count(), 1);
    assert_eq!(batch.node_id_at(0), 1);
    let node = batch.node_at(0);
    assert_eq!(node.role(), Role::Button);
    assert!(node.has_action(accesskit_jni::Action::Click));
    assert_eq!(node.actions().len(), 1);
    assert_eq!(node.label().as_deref(), Some(b"OK".as_slice()));
    assert_eq!(batch.tree(), Some(TreeDescriptor { root: 1 }));
    assert_eq!(batch.focus(), 1);
}

#[test]
fn session_mirrors_every_setter() {
    let mut session = Session::new();
    let h = session.node_new(WINDOW).unwrap();
    assert_eq!(session.node_set_value(h, b"v".to_vec()), Ok(()));
    assert_eq!(session.node_set_numeric_value(h, 1.25f64.to_bits()), Ok(()));
    assert_eq!(session.node_set_min_numeric_value(h, 0.0f64.to_bits()), Ok(()));
    assert_eq!(session.node_set_max_numeric_value(h, 9.5f64.to_bits()), Ok(()));
    assert_eq!(session.node_set_numeric_value_step(h, 0.5f64.to_bits()), Ok(()));
    assert_eq!(session.node_set_numeric_value_jump(h, 1.0f64.to_bits()), Ok(()));
    assert_eq!(session.node_set_character_lengths(h, vec![2, 1]), Ok(()));
    assert_eq!(session.node_set_word_lengths(h, vec![3]), Ok(()));
    assert_eq!(
        session.node_set_character_positions(h, vec![0.0f32.to_bits(), 2.0f32.to_bits()]),
        Ok(()),
    );
    assert_eq!(
        session.node_set_character_widths(h, vec![2.0f32.to_bits(), 1.0f32.to_bits()]),
        Ok(()),
    );
    assert_eq!(
        session.node_set_text_selection(
            h,
            accesskit_jni::TextSelection {
                anchor: accesskit_jni::TextPosition { node: 1, character_index: 0 },
                focus: accesskit_jni::TextPosition { node: 1, character_index: 2 },
            },
        ),
        Ok(()),
    );
    assert_eq!(session.node_clear_children(h), Ok(()));

    let u = session.update_with_focus(1);
    assert_eq!(session.update_add_node(u, 4, h), Ok(()));
    let batch = session.update_consume(u).unwrap();
    let node = batch.node_at(0);
    assert_eq!(node.value().as_deref(), Some(b"v".as_slice()));
    assert_eq!(node.numeric_value(), Some(1.25f64.to_bits()));
    assert_eq!(node.character_lengths().as_deref(), Some([2u8, 1].as_slice()));
    assert!(node.children().is_empty());
}
