use den::cancellation::CancellationTree;
use den::combinator::{poll_step, run_wrapped, Outcome, WrappedPoll};

#[test]
fn cancel_reaches_children_created_before_and_after() {
    let mut tree = CancellationTree::new();
    let root = tree.new_root();
    let before = tree.child(root);
    tree.cancel(root);
    let after = tree.child(root);
    assert!(tree.is_cancelled(root));
    assert!(tree.is_cancelled(before));
    assert!(tree.is_cancelled(after));
}

#[test]
fn cancel_reaches_grandchildren() {
    let mut tree = CancellationTree::new();
    let root = tree.new_root();
    let child = tree.child(root);
    let grandchild = tree.child(child);
    tree.cancel(root);
    assert!(tree.is_cancelled(grandchild));
}

#[test]
fn cancelling_a_child_spares_the_parent() {
    let mut tree = CancellationTree::new();
    let root = tree.new_root();
    let child = tree.child(root);
    tree.cancel(child);
    assert!(tree.is_cancelled(child));
    assert!(!tree.is_cancelled(root));
}

#[test]
fn separate_roots_are_independent() {
    let mut tree = CancellationTree::new();
    let a = tree.new_root();
    let b = tree.new_root();
    tree.cancel(a);
    assert!(tree.is_cancelled(a));
    assert!(!tree.is_cancelled(b));
}

#[test]
fn cancelling_twice_is_harmless() {
    let mut tree = CancellationTree::new();
    let root = tree.new_root();
    let child = tree.child(root);
    tree.cancel(root);
    tree.cancel(root);
    assert!(tree.is_cancelled(root));
    assert!(tree.is_cancelled(child));
}

#[test]
fn the_real_token_behaves_like_the_model() {
    let token = tokio_util::sync::CancellationToken::new();
    let before = token.child_token();
    token.cancel();
    let after = token.child_token();
    assert!(token.is_cancelled());
    assert!(before.is_cancelled());
    assert!(after.is_cancelled());

    let mut tree = CancellationTree::new();
    let root = tree.new_root();
    let model_before = tree.child(root);
    tree.cancel(root);
    let model_after = tree.child(root);
    assert_eq!(token.is_cancelled(), tree.is_cancelled(root));
    assert_eq!(before.is_cancelled(), tree.is_cancelled(model_before));
    assert_eq!(after.is_cancelled(), tree.is_cancelled(model_after));
}

#[test]
fn a_run_resolves_at_the_first_deciding_poll() {
    assert_eq!(run_wrapped(vec![(true, Some(1))]), Some(Outcome::Interrupted));
    assert_eq!(
        run_wrapped(vec![(false, None), (false, Some(7))]),
        Some(Outcome::Completed(7))
    );
    assert_eq!(run_wrapped(vec![(false, None::<u32>), (true, None)]), Some(Outcome::Interrupted));
    assert_eq!(run_wrapped(vec![(false, None::<u32>)]), None);
    assert_eq!(run_wrapped(Vec::<(bool, Option<u32>)>::new()), None);
}

#[test]
fn cancelled_token_interrupts_without_polling() {
    let step = poll_step(true, Some(5u32));
    assert_eq!(step.answer, WrappedPoll::Resolved(Outcome::Interrupted));
    assert!(!step.polled_inner);
}

#[test]
fn live_token_passes_the_result_through() {
    let ready = poll_step(false, Some(7u32));
    assert_eq!(ready.answer, WrappedPoll::Resolved(Outcome::Completed(7)));
    assert!(ready.polled_inner);
    let pending = poll_step::<u32>(false, None);
    assert_eq!(pending.answer, WrappedPoll::Pending);
    assert!(pending.polled_inner);
}
