use sprite_core::load_sync::AssetBarrier;

#[test]
fn single_guard_ready_after_release() {
    let (barrier, guard) = AssetBarrier::new();
    assert!(!barrier.is_ready());
    guard.release();
    assert!(barrier.is_ready());
}

#[test]
fn three_guards_ready_only_after_last_release() {
    let (barrier, g1) = AssetBarrier::new();
    let g2 = g1.clone_guard();
    let g3 = g2.clone_guard();
    assert!(!barrier.is_ready());
    g2.release();
    assert!(!barrier.is_ready());
    g1.release();
    assert!(!barrier.is_ready());
    g3.release();
    assert!(barrier.is_ready());
}

#[test]
fn clone_after_partial_release_order_independent() {
    // First interleaving: release, then clone from the survivor.
    let (barrier_a, a1) = AssetBarrier::new();
    let a2 = a1.clone_guard();
    a1.release();
    assert!(!barrier_a.is_ready());
    let a3 = a2.clone_guard();
    a2.release();
    assert!(!barrier_a.is_ready());
    a3.release();
    assert!(barrier_a.is_ready());

    // Second interleaving: all clones first, releases afterwards.
    let (barrier_b, b1) = AssetBarrier::new();
    let b2 = b1.clone_guard();
    let b3 = b1.clone_guard();
    b3.release();
    assert!(!barrier_b.is_ready());
    b1.release();
    assert!(!barrier_b.is_ready());
    b2.release();
    assert!(barrier_b.is_ready());
}

#[test]
fn wait_on_ready_barrier_returns_immediately() {
    let (barrier, guard) = AssetBarrier::new();
    guard.release();
    barrier.wait();
    assert!(barrier.is_ready());
}

#[test]
fn wait_resolves_once_per_call_and_ready_is_permanent() {
    let (barrier, g1) = AssetBarrier::new();
    let g2 = g1.clone_guard();
    g1.release();
    g2.release();
    // Ready stays ready; waiting again resolves again, at once.
    assert!(barrier.is_ready());
    barrier.wait();
    barrier.wait();
    assert!(barrier.is_ready());
}

#[test]
fn independent_barriers_do_not_interact() {
    let (barrier_a, guard_a) = AssetBarrier::new();
    let (barrier_b, guard_b) = AssetBarrier::new();
    guard_a.release();
    assert!(barrier_a.is_ready());
    assert!(!barrier_b.is_ready());
    guard_b.release();
    assert!(barrier_b.is_ready());
}
