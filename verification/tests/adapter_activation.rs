use accesskit_jni::resolve_initial_tree;
use accesskit_jni::Adapter;
use accesskit_jni::EventBatch;
use accesskit_jni::ProtocolError;
use accesskit_jni::Session;
use accesskit_jni::TreeUpdate;

#[test]
fn inactive_adapter_never_invokes_the_supplier() {
    let mut adapter = Adapter::new();
    assert!(!adapter.is_client_active());
    let events = adapter.update_if_active(|| -> TreeUpdate {
        panic!("the supplier must not run while no client is active");
    });
    assert_eq!(events, None);
}

#[test]
fn active_adapter_pulls_exactly_one_batch() {
    let mut adapter = Adapter::new();
    adapter.set_client_active(true);
    let events = adapter.update_if_active(|| TreeUpdate::with_focus(1));
    assert_eq!(events, Some(EventBatch::TreeUpdated));
}

#[test]
fn deactivated_adapter_goes_quiet_again() {
    let mut adapter = Adapter::new();
    adapter.set_client_active(true);
    adapter.set_client_active(false);
    let events = adapter.update_if_active(|| -> TreeUpdate {
        panic!("the supplier must not run after deactivation");
    });
    assert_eq!(events, None);
}

#[test]
fn focus_events_are_raised_only_for_an_active_client() {
    let mut adapter = Adapter::new();
    assert_eq!(adapter.update_view_focus_state(true), None);
    adapter.set_client_active(true);
    assert_eq!(adapter.update_view_focus_state(false), Some(EventBatch::ViewFocusChanged(false)));
    assert_eq!(adapter.update_view_focus_state(true), Some(EventBatch::ViewFocusChanged(true)));
}

#[test]
fn sentinel_handle_means_no_initial_tree() {
    let mut session = Session::new();
    let resolved = resolve_initial_tree(&mut session, 0);
    assert!(matches!(resolved, Ok(None)));
}

#[test]
fn live_handle_resolves_to_a_consumed_batch() {
    let mut session = Session::new();
    let u = session.update_with_focus(6);
    let resolved = resolve_initial_tree(&mut session, u).unwrap();
    let batch = resolved.expect("a live handle yields a batch");
    assert_eq!(batch.focus(), 6);
    assert!(!session.update_is_live(u));
}

#[test]
fn dead_handle_is_refused_by_the_bridge() {
    let mut session = Session::new();
    let u = session.update_with_focus(2);
    assert!(session.update_drop(u).is_ok());
    let resolved = resolve_initial_tree(&mut session, u);
    assert!(matches!(resolved, Err(ProtocolError::InvalidHandle)));
}
