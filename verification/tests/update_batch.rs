use accesskit_jni::Node;
use accesskit_jni::Role;
use accesskit_jni::TreeDescriptor;
use accesskit_jni::TreeUpdate;

#[test]
fn fresh_batch_is_empty_with_given_focus() {
    let update = TreeUpdate::with_focus(42);
    assert_eq!(update.node_count(), 0);
    assert_eq!(update.tree(), None);
    assert_eq!(update.focus(), 42);
}

#[test]
fn add_node_preserves_addition_order() {
    let mut update = TreeUpdate::with_focus(1);
    update.add_node(7, Node::new(Role::Button));
    update.add_node(3, Node::new(Role::Label));
    update.add_node(9, Node::new(Role::Image));
    assert_eq!(update.node_count(), 3);
    assert_eq!(update.node_id_at(0), 7);
    assert_eq!(update.node_id_at(1), 3);
    assert_eq!(update.node_id_at(2), 9);
    assert_eq!(update.node_at(0).role(), Role::Button);
    assert_eq!(update.node_at(1).role(), Role::Label);
    assert_eq!(update.node_at(2).role(), Role::Image);
}

#[test]
fn set_tree_then_clear_tree_matches_never_setting_it() {
    let mut touched = TreeUpdate::with_focus(5);
    touched.add_node(1, Node::new(Role::Window));
    touched.set_tree(1);
    touched.clear_tree();

    let mut untouched = TreeUpdate::with_focus(5);
    untouched.add_node(1, Node::new(Role::Window));

    assert_eq!(touched.tree(), None);
    assert_eq!(touched.tree(), untouched.tree());
    assert_eq!(touched.focus(), untouched.focus());
    assert_eq!(touched.node_count(), untouched.node_count());
    assert_eq!(touched.node_id_at(0), untouched.node_id_at(0));
}

#[test]
fn set_tree_replaces_earlier_declaration() {
    let mut update = TreeUpdate::with_focus(1);
    update.set_tree(1);
    update.set_tree(8);
    assert_eq!(update.tree(), Some(TreeDescriptor { root: 8 }));
}

#[test]
fn set_focus_is_last_write_wins_and_unchecked() {
    let mut update = TreeUpdate::with_focus(1);
    update.set_focus(100);
    update.set_focus(200);
    assert_eq!(update.focus(), 200);
}
