//! Completion barrier for a dynamically growing set of asynchronous load
//! operations.
//!
//! A barrier is created together with one guard; more guards can be cloned
//! from any live guard at any time.  Each guard is released exactly once —
//! releasing consumes it, so a double release does not type-check.  The
//! release that brings the count of outstanding guards to zero notifies
//! every waiter, exactly once; after that the barrier reads ready forever.
//!
//! The shared counter is an atomic whose value Verus does not track across
//! threads, so the executable operations carry no counter arithmetic in
//! their contracts.  The counting protocol itself — the counter is the
//! number of outstanding guards, reaches zero exactly at the last release,
//! and can never rise again — is stated and proved over guard-operation
//! traces at the end of this module.

use vstd::prelude::*;

use core::sync::atomic::AtomicU32;
use core::sync::atomic::Ordering;
use std::sync::Arc;

verus! {

/// Whether the assets a barrier tracks are still loading.
#[derive(Clone, Copy, PartialEq, Eq, Structural, Debug, Hash, Default)]
pub enum LoadingState {
    /// Is loading.
    #[default]
    Loading,
    /// Loading completed.
    Loaded,
}

/// Broadcast channel of `event_listener`, used to wake waiters exactly
/// once, when the last guard is released.
#[verifier::external_type_specification]
#[verifier::external_body]
#[verifier::reject_recursive_types(T)]
pub struct ExEvent<T>(event_listener::Event<T>);

/// A registered waiter on an [`event_listener::Event`].
#[verifier::external_type_specification]
#[verifier::external_body]
#[verifier::reject_recursive_types(T)]
pub struct ExEventListener<T>(event_listener::EventListener<T>);

/// Relies on `event_listener::Event::new`: makes an event with no listener
/// registered and no notification pending.
#[verifier::external_body]
fn event_new() -> event_listener::Event {
    event_listener::Event::new()
}

/// Relies on `event_listener::Event::listen`: registers a listener that
/// receives every notification the event sends from this point on.
#[verifier::external_body]
fn event_listen(ev: &event_listener::Event) -> event_listener::EventListener {
    ev.listen()
}

/// Relies on `event_listener::Event::notify` with `usize::MAX`: wakes every
/// listener registered on the event at this moment.
#[verifier::external_body]
fn event_notify_all(ev: &event_listener::Event) {
    ev.notify(usize::MAX);
}

/// Relies on `event_listener::Listener::wait`: blocks the calling thread
/// until the listener receives a notification.  A notification sent after
/// `listen` but before this call is delivered, not lost; one sent to no
/// registered listener wakes nobody, which is why callers re-check their
/// condition between `listen` and `wait`.
#[verifier::external_body]
fn listener_wait(listener: event_listener::EventListener) {
    event_listener::Listener::wait(listener);
}

/// State shared between a barrier and all its guards.
pub struct AssetBarrierInner {
    /// How many guards are outstanding.  Only ever changed atomically:
    /// incremented by a clone, decremented by a release.
    pub count: AtomicU32,
    /// Notified exactly once, by the release that brings `count` to zero.
    pub notify: event_listener::Event,
}

/// Observer half of the barrier: answers "is everything loaded?" by
/// polling ([`AssetBarrier::is_ready`]) or blocking ([`AssetBarrier::wait`]).
pub struct AssetBarrier(pub Arc<AssetBarrierInner>);

/// Owner half: one unit of outstanding work.  Cloning adds a unit;
/// releasing — which consumes the guard — finishes one.
pub struct AssetBarrierGuard(pub Arc<AssetBarrierInner>);

impl AssetBarrier {
    /// Creates a barrier and its first guard.  The pair shares one counter,
    /// which starts at one: the guard just handed out.
    pub fn new() -> (r: (AssetBarrier, AssetBarrierGuard))
        ensures
            r.0.0 == r.1.0,
    {
        let inner = Arc::new(
            AssetBarrierInner { count: AtomicU32::new(1), notify: event_new() },
        );
        (AssetBarrier(inner.clone()), AssetBarrierGuard(inner))
    }

    /// True exactly when every guard has been released at the instant of
    /// the check.  A `true` answer is permanent — the counter can never
    /// rise from zero, see [`lemma_ready_is_permanent`] — while a `false`
    /// answer is only a snapshot that a racing release may outdate.
    pub fn is_ready(&self) -> bool {
        self.0.count.load(Ordering::Acquire) == 0
    }

    /// Blocks until every guard has been released; returns at once if they
    /// already are.
    ///
    /// The listener is registered *before* the counter is re-checked, so a
    /// release that lands between the check and the registration cannot be
    /// missed: either the check already sees zero, or the listener is
    /// registered in time to receive the broadcast.  With a guard that is
    /// never released this blocks forever, by design: work that never
    /// finishes never unblocks its waiters.
    pub fn wait(&self) {
        let listener = event_listen(&self.0.notify);
        if self.0.count.load(Ordering::Acquire) == 0 {
            return ;
        }
        listener_wait(listener);
    }
}

impl AssetBarrierGuard {
    /// Hands out one more guard against the same barrier, atomically
    /// incrementing the outstanding count.  Only a live guard can be
    /// cloned, so the counter is never revived from zero.
    pub fn clone_guard(&self) -> (r: AssetBarrierGuard)
        ensures
            r.0 == self.0,
    {
        self.0.count.fetch_add(1, Ordering::AcqRel);
        AssetBarrierGuard(self.0.clone())
    }

    /// Releases this guard, atomically decrementing the outstanding count.
    /// The release that brings the count to zero — and only that one —
    /// broadcasts to every waiter.  The guard is consumed: releasing twice
    /// or using a released guard does not type-check.
    pub fn release(self) {
        let prev = self.0.count.fetch_sub(1, Ordering::AcqRel);
        if prev == 1 {
            event_notify_all(&self.0.notify);
        }
    }
}

/// One operation a live guard can perform on its barrier.
pub enum GuardOp {
    /// A guard was cloned: one more unit of outstanding work.
    CloneGuard,
    /// A guard was released: one unit of work finished.
    ReleaseGuard,
}

/// The value of the outstanding-guard counter after a trace of guard
/// operations, starting from the single guard that `new` hands out.
pub open spec fn spec_pending(ops: Seq<GuardOp>) -> int
    decreases ops.len(),
{
    if ops.len() == 0 {
        1
    } else {
        spec_pending(ops.drop_last()) + match ops.last() {
            GuardOp::CloneGuard => 1,
            GuardOp::ReleaseGuard => -1,
        }
    }
}

/// How many clones a trace contains.
pub open spec fn count_clones(ops: Seq<GuardOp>) -> int
    decreases ops.len(),
{
    if ops.len() == 0 {
        0
    } else {
        count_clones(ops.drop_last()) + if ops.last() is CloneGuard {
            1int
        } else {
            0
        }
    }
}

/// How many releases a trace contains.
pub open spec fn count_releases(ops: Seq<GuardOp>) -> int
    decreases ops.len(),
{
    if ops.len() == 0 {
        0
    } else {
        count_releases(ops.drop_last()) + if ops.last() is ReleaseGuard {
            1int
        } else {
            0
        }
    }
}

/// A trace is legal when every operation is performed by a live guard:
/// before each step at least one guard is outstanding.  Ownership enforces
/// this in the executable code — only a guard in hand can be cloned or
/// released.
pub open spec fn trace_ok(ops: Seq<GuardOp>) -> bool {
    forall|i: int| 0 <= i < ops.len() ==> spec_pending(#[trigger] ops.take(i)) >= 1
}

/// The counter equals one (the initial guard) plus clones minus releases.
pub proof fn lemma_pending_counts(ops: Seq<GuardOp>)
    ensures
        spec_pending(ops) == 1 + count_clones(ops) - count_releases(ops),
    decreases ops.len(),
{
    if ops.len() > 0 {
        lemma_pending_counts(ops.drop_last());
    }
}

/// Law: the counter after a trace depends only on how many clones and how
/// many releases it contains, never on their interleaving.  Cloning a
/// guard after some siblings were already released behaves exactly as if
/// the operations had come in any other order.
pub proof fn lemma_pending_order_independent(t1: Seq<GuardOp>, t2: Seq<GuardOp>)
    requires
        count_clones(t1) == count_clones(t2),
        count_releases(t1) == count_releases(t2),
    ensures
        spec_pending(t1) == spec_pending(t2),
{
    lemma_pending_counts(t1);
    lemma_pending_counts(t2);
}

/// The counter never drops below zero in a legal trace.
pub proof fn lemma_pending_nonnegative(t: Seq<GuardOp>)
    requires
        trace_ok(t),
    ensures
        spec_pending(t) >= 0,
{
    if t.len() > 0 {
        assert(t.take(t.len() - 1) =~= t.drop_last());
        assert(spec_pending(t.take(t.len() - 1)) >= 1);
    }
}

/// Law: for any number of guards `n >= 1` — the initial guard plus `n - 1`
/// clones — and any order of operations, the barrier reads ready exactly
/// after the `n`-th release: the counter is zero at the end of the trace
/// and positive before every earlier step.
pub proof fn lemma_ready_after_last_release(t: Seq<GuardOp>, n: int)
    requires
        n >= 1,
        trace_ok(t),
        count_clones(t) == n - 1,
        count_releases(t) == n,
    ensures
        spec_pending(t) == 0,
        forall|i: int| 0 <= i < t.len() ==> spec_pending(#[trigger] t.take(i)) >= 1,
{
    lemma_pending_counts(t);
}

/// Law: ready is permanent.  A legal trace cannot continue once the
/// counter has reached zero — any further operation would need a live
/// guard, so the counter before it is at least one.  Hence a barrier that
/// once read ready reads ready forever.
pub proof fn lemma_ready_is_permanent(t: Seq<GuardOp>, op: GuardOp)
    requires
        trace_ok(t.push(op)),
    ensures
        spec_pending(t) >= 1,
{
    assert(t.push(op).take(t.len() as int) =~= t);
    assert(spec_pending(t.push(op).take(t.len() as int)) >= 1);
}

} // verus!
