use rust_thread_system::core_types::cancellation::CancellationTree;
use rust_thread_system::core_types::{CancellationReason, ThreadError};

#[test]
fn cancelling_a_parent_cancels_its_children() {
    let mut tree = CancellationTree::new();
    let parent = tree.new_token();
    let child1 = tree.child(parent);
    let child2 = tree.child(parent);
    let grandchild = tree.child(child1);
    assert!(!tree.is_cancelled(child1));
    assert!(!tree.is_cancelled(child2));

    tree.cancel(parent);
    for t in [parent, child1, child2, grandchild] {
        assert!(tree.is_cancelled(t));
    }
    assert_eq!(tree.reason(parent), Some(CancellationReason::Manual));
    assert_eq!(tree.reason(grandchild), Some(CancellationReason::ParentCancelled));
}

#[test]
fn cancelling_a_child_leaves_its_parent() {
    let mut tree = CancellationTree::new();
    let parent = tree.new_token();
    let child = tree.child(parent);
    tree.cancel(child);
    assert!(tree.is_cancelled(child));
    assert!(!tree.is_cancelled(parent));
    assert_eq!(tree.parent(child), Some(parent));
}

#[test]
fn child_of_a_cancelled_parent_is_born_cancelled() {
    let mut tree = CancellationTree::new();
    let parent = tree.new_token();
    tree.cancel(parent);
    let child = tree.child(parent);
    assert!(tree.is_cancelled(child));
    assert_eq!(tree.reason(child), Some(CancellationReason::ParentCancelled));
}

#[test]
fn the_first_reason_wins() {
    let mut tree = CancellationTree::new();
    let t = tree.new_token();
    tree.cancel_with_reason(t, CancellationReason::Error("first".to_string()));
    tree.cancel_with_reason(t, CancellationReason::Custom("second".to_string()));
    assert_eq!(tree.reason(t), Some(CancellationReason::Error("first".to_string())));
}

#[test]
fn check_reports_the_reason() {
    let mut tree = CancellationTree::new();
    let t = tree.new_token();
    assert!(tree.check(t).is_ok());
    tree.cancel_with_reason(t, CancellationReason::Error("test error".to_string()));
    match tree.check(t) {
        Err(e) => assert!(e.to_string().contains("test error")),
        Ok(()) => panic!("a cancelled token fails the check"),
    }
    assert!(matches!(tree.check(t), Err(ThreadError::Cancelled { .. })));
}

#[test]
fn callbacks_become_due_once() {
    let mut tree = CancellationTree::new();
    let parent = tree.new_token();
    let child = tree.child(parent);
    let (a, now_a) = tree.on_cancel(parent);
    let (b, now_b) = tree.on_cancel(child);
    let (c, _) = tree.on_cancel(parent);
    assert!(!now_a && !now_b);
    assert_eq!(tree.callbacks(parent), &[a, c]);

    let due = tree.cancel(parent);
    assert_eq!(due, vec![a, c, b]);
    assert!(tree.callbacks(parent).is_empty());
    assert!(tree.cancel(parent).is_empty());

    let (_, now) = tree.on_cancel(parent);
    assert!(now);
    assert!(tree.callbacks(parent).is_empty());
}

#[test]
fn removed_callbacks_are_not_due() {
    let mut tree = CancellationTree::new();
    let t = tree.new_token();
    let (a, _) = tree.on_cancel(t);
    let (b, _) = tree.on_cancel(t);
    tree.remove_callback(t, a);
    assert_eq!(tree.cancel(t), vec![b]);
}

#[test]
fn reset_clears_one_token_only() {
    let mut tree = CancellationTree::new();
    let parent = tree.new_token();
    let child = tree.child(parent);
    let _ = tree.on_cancel(parent);
    tree.cancel(parent);
    tree.reset(parent);
    assert!(!tree.is_cancelled(parent));
    assert_eq!(tree.reason(parent), None);
    assert!(tree.is_cancelled(child));
    assert_eq!(tree.len(), 2);
}

#[test]
fn cancellation_stops_at_tokens_cancelled_before() {
    let mut tree = CancellationTree::new();
    let root = tree.new_token();
    let mid = tree.child(root);
    let leaf = tree.child(mid);
    tree.cancel_with_reason(mid, CancellationReason::Timeout(50));
    tree.reset(leaf);
    tree.cancel(root);
    assert_eq!(tree.reason(mid), Some(CancellationReason::Timeout(50)));
    assert!(!tree.is_cancelled(leaf));
}

#[test]
fn callbacks_run_depth_first() {
    let mut tree = CancellationTree::new();
    let root = tree.new_token();
    let a = tree.child(root);
    let b = tree.child(root);
    let a1 = tree.child(a);
    let (on_root, _) = tree.on_cancel(root);
    let (on_a, _) = tree.on_cancel(a);
    let (on_b, _) = tree.on_cancel(b);
    let (on_a1, _) = tree.on_cancel(a1);
    // The subtree of `a` comes before `b`, although `a1` was made after `b`.
    assert_eq!(tree.cancel(root), vec![on_root, on_a, on_a1, on_b]);
}

#[test]
fn cancellation_skips_subtrees_cancelled_already() {
    let mut tree = CancellationTree::new();
    let root = tree.new_token();
    let a = tree.child(root);
    let a1 = tree.child(a);
    tree.cancel(a);
    tree.reset(a);
    let (on_a, _) = tree.on_cancel(a);
    let (on_a1, now) = tree.on_cancel(a1);
    assert!(now); // a1 stayed cancelled when a was reset
    let _ = on_a1;
    assert_eq!(tree.cancel(root), vec![on_a]);
}

#[test]
fn test_cancellation_token_creation() {
    let mut tree = CancellationTree::new();
    let token = tree.new_token();
    assert!(!tree.is_cancelled(token));
}

#[test]
fn test_cancellation_token_cancel() {
    let mut tree = CancellationTree::new();
    let token = tree.new_token();
    assert!(!tree.is_cancelled(token));

    tree.cancel(token);
    assert!(tree.is_cancelled(token));

    // Idempotent - can call multiple times
    tree.cancel(token);
    assert!(tree.is_cancelled(token));
}

#[test]
fn test_cancellation_token_reset() {
    let mut tree = CancellationTree::new();
    let token = tree.new_token();
    tree.cancel(token);
    assert!(tree.is_cancelled(token));

    tree.reset(token);
    assert!(!tree.is_cancelled(token));
}

#[test]
fn test_cancellation_token_clone() {
    // A clone shares its token: both read the same entry of the tree.
    let mut tree = CancellationTree::new();
    let token = tree.new_token();
    let clone = token;

    assert!(!tree.is_cancelled(token));
    assert!(!tree.is_cancelled(clone));

    tree.cancel(token);
    assert!(tree.is_cancelled(token));
    assert!(tree.is_cancelled(clone));
}

#[test]
fn test_job_handle_cancel() {
    let mut tree = CancellationTree::new();
    let handle = tree.new_token();
    assert!(!tree.is_cancelled(handle));

    tree.cancel(handle);
    assert!(tree.is_cancelled(handle));
}

#[test]
fn test_child_token_independent_cancellation() {
    let mut tree = CancellationTree::new();
    let parent = tree.new_token();
    let child1 = tree.child(parent);
    let child2 = tree.child(parent);

    // Cancelling one child doesn't affect parent or siblings
    tree.cancel(child1);

    assert!(!tree.is_cancelled(parent));
    assert!(tree.is_cancelled(child1));
    assert!(!tree.is_cancelled(child2));
}

#[test]
fn test_child_of_already_cancelled_parent() {
    let mut tree = CancellationTree::new();
    let parent = tree.new_token();
    tree.cancel(parent);

    let child = tree.child(parent);
    assert!(tree.is_cancelled(child));
    assert_eq!(tree.reason(child), Some(CancellationReason::ParentCancelled));
}

#[test]
fn test_child_reason_is_parent_cancelled() {
    let mut tree = CancellationTree::new();
    let parent = tree.new_token();
    let child = tree.child(parent);

    tree.cancel(parent);

    assert_eq!(tree.reason(child), Some(CancellationReason::ParentCancelled));
}

#[test]
fn test_with_timeout_manual_cancel_before_timeout() {
    // The timer of a timeout token runs outside the tree; before it fires the
    // token is an ordinary one.
    let mut tree = CancellationTree::new();
    let token = tree.new_token();

    tree.cancel(token);
    assert!(tree.is_cancelled(token));
    assert_eq!(tree.reason(token), Some(CancellationReason::Manual));
}

#[test]
fn test_child_with_timeout_parent_cancels_first() {
    let mut tree = CancellationTree::new();
    let parent = tree.new_token();
    let child = tree.child(parent);

    tree.cancel(parent);

    assert!(tree.is_cancelled(child));
    assert_eq!(tree.reason(child), Some(CancellationReason::ParentCancelled));
}

#[test]
fn test_cancel_with_reason_manual() {
    let mut tree = CancellationTree::new();
    let token = tree.new_token();
    tree.cancel_with_reason(token, CancellationReason::Manual);

    assert!(tree.is_cancelled(token));
    assert_eq!(tree.reason(token), Some(CancellationReason::Manual));
}

#[test]
fn test_cancel_with_reason_error() {
    let mut tree = CancellationTree::new();
    let token = tree.new_token();
    tree.cancel_with_reason(token, CancellationReason::Error("connection lost".to_string()));

    assert!(tree.is_cancelled(token));
    assert_eq!(tree.reason(token), Some(CancellationReason::Error("connection lost".to_string())));
}

#[test]
fn test_cancel_with_reason_custom() {
    let mut tree = CancellationTree::new();
    let token = tree.new_token();
    tree.cancel_with_reason(token, CancellationReason::Custom("user requested".to_string()));

    assert!(tree.is_cancelled(token));
    assert_eq!(tree.reason(token), Some(CancellationReason::Custom("user requested".to_string())));
}

#[test]
fn test_cancel_reason_first_wins() {
    let mut tree = CancellationTree::new();
    let token = tree.new_token();

    tree.cancel_with_reason(token, CancellationReason::Manual);
    tree.cancel_with_reason(token, CancellationReason::Error("should be ignored".to_string()));

    assert_eq!(tree.reason(token), Some(CancellationReason::Manual));
}

#[test]
fn test_check_not_cancelled() {
    let mut tree = CancellationTree::new();
    let token = tree.new_token();
    assert!(tree.check(token).is_ok());
}

#[test]
fn test_check_cancelled() {
    let mut tree = CancellationTree::new();
    let token = tree.new_token();
    tree.cancel(token);
    assert!(tree.check(token).is_err());
}

#[test]
fn test_on_cancel_callback_executed() {
    let mut tree = CancellationTree::new();
    let token = tree.new_token();
    let (callback, _) = tree.on_cancel(token);

    let due = tree.cancel(token);

    assert_eq!(due, vec![callback]);
}

#[test]
fn test_on_cancel_multiple_callbacks() {
    let mut tree = CancellationTree::new();
    let token = tree.new_token();
    let (c1, _) = tree.on_cancel(token);
    let (c2, _) = tree.on_cancel(token);
    let (c3, _) = tree.on_cancel(token);

    let due = tree.cancel(token);

    assert_eq!(due.len(), 3);
    assert_eq!(due, vec![c1, c2, c3]);
}

#[test]
fn test_on_cancel_immediate_execution_if_already_cancelled() {
    let mut tree = CancellationTree::new();
    let token = tree.new_token();
    tree.cancel(token);

    // The callback is due at once
    let (_, now) = tree.on_cancel(token);

    assert!(now);
}

#[test]
fn test_on_cancel_guard_unregisters_callback() {
    let mut tree = CancellationTree::new();
    let token = tree.new_token();
    let (callback, _) = tree.on_cancel(token);
    // Dropping the guard removes the callback
    tree.remove_callback(token, callback);

    let due = tree.cancel(token);

    assert_eq!(due.len(), 0);
}

#[test]
fn test_on_cancel_guard_detach() {
    let mut tree = CancellationTree::new();
    let token = tree.new_token();
    // A detached guard leaves its callback registered
    let (callback, _) = tree.on_cancel(token);

    let due = tree.cancel(token);

    assert_eq!(due, vec![callback]);
}

#[test]
fn test_on_cancel_always() {
    let mut tree = CancellationTree::new();
    let token = tree.new_token();
    let (callback, _) = tree.on_cancel(token);

    let due = tree.cancel(token);

    assert_eq!(due.len(), 1);
    assert_eq!(due[0], callback);
}
