//! The executable barrier: handles over a shared, lock-free coordination
//! state, realizing the protocol proved in [`crate::protocol`].
//!
//! One group of participants shares a single heap block of two atomics (the
//! arrival counter and the round sense flag) plus the fixed capacity.  Every
//! handle holds a reference-counted pointer to that block together with its
//! private local sense bit and a one-shot usage flag that gates replication.
//!
//! The atomics are the only shared mutable state and are never behind a lock.
//! Verus's specifications for the standard atomics deliberately say nothing
//! about the values they hold — they are raced on by other threads — so the
//! contracts here pin down everything thread-local: the handle's own state
//! transitions, and how the leader designation of a call follows from the
//! counter value its atomic decrement observed ([`Barrier::complete_arrival`]).
//! Which counter value a concurrent call observes is exactly what the
//! protocol model decides; see [`crate::protocol`] for the proofs over it.

use vstd::prelude::*;

use core::sync::atomic::AtomicBool;
use core::sync::atomic::AtomicUsize;
use core::sync::atomic::Ordering;
use std::sync::Arc;

verus! {

/// The shared coordination state of one barrier group.
struct BarrierInner {
    /// The round sense flag; flipped once by the leader of each round.
    gsense: AtomicBool,
    /// Participants that have not yet arrived in the current round.
    count: AtomicUsize,
    /// Fixed number of participants, set at construction; at least 1.
    max: usize,
}

/// A handle to a reusable barrier which lets a fixed number of threads
/// synchronize the beginning of some computation, repeatedly.
///
/// A group is created by [`Barrier::new`] with its fixed capacity `n`; the
/// remaining `n - 1` handles are produced with [`Barrier::replicate`] before
/// any participant calls [`Barrier::wait`].  Each of the `n` threads then
/// holds one handle and calls `wait` once per round: the call returns only
/// once all `n` participants of the round have arrived.
pub struct Barrier {
    inner: Arc<BarrierInner>,
    lsense: bool,
    used: bool,
}

/// Returned by [`Barrier::wait`] once all participants of the round have
/// rendezvoused: says whether this caller was the (single, arbitrary) leader
/// of the round.
pub struct BarrierWaitResult(bool);

/// Relies on `Arc::clone`: the returned pointer counts a reference to the
/// very same shared allocation, so it holds the same group state.
#[verifier::external_body]
fn share_group(inner: &Arc<BarrierInner>) -> (r: Arc<BarrierInner>)
    ensures
        r == *inner,
{
    Arc::clone(inner)
}

/// Relies on `AtomicBool::load` and on `parking_lot_core::SpinWait` (`new`
/// and `spin`): polls the sense flag with exponential backoff (`spin` first
/// busy-spins, then yields the thread to the scheduler) until a load observes
/// `lsense`, i.e. until the round's leader has published the new sense.  The
/// loop blocks for as long as that takes — a busy wait has no termination
/// measure, so it stands behind this trusted item; nothing is assumed of its
/// effect, and the ordering of the leader's store before this load is what
/// makes the participants' pre-checkpoint work visible after it returns.
#[verifier::external_body]
fn await_release(gsense: &AtomicBool, lsense: bool) {
    let mut spinner = parking_lot_core::SpinWait::new();
    while gsense.load(Ordering::SeqCst) != lsense {
        spinner.spin();
    }
}

impl Barrier {
    /// The fixed number of participants of this handle's group.
    pub closed spec fn capacity(&self) -> usize {
        self.inner.max
    }

    /// Whether this handle has already made a checkpoint call.  A consumed
    /// handle may keep calling [`Barrier::wait`] round after round, but may
    /// no longer be replicated.
    pub closed spec fn consumed(&self) -> bool {
        self.used
    }

    /// The handle's private sense bit: the round sense value this handle
    /// will wait for on its next checkpoint call, after flipping it.
    pub closed spec fn sense(&self) -> bool {
        self.lsense
    }

    /// Whether two handles coordinate through the same shared group state.
    pub closed spec fn same_group(&self, other: Barrier) -> bool {
        self.inner == other.inner
    }

    /// Creates a new barrier group of fixed capacity `n` and returns its
    /// first handle.
    ///
    /// The group will block the first `n - 1` threads that call
    /// [`Barrier::wait`] in a round and release all of them at once when the
    /// `n`th thread makes its call.
    pub fn new(n: usize) -> (r: Barrier)
        requires
            1 <= n,
        ensures
            r.capacity() == n,
            !r.consumed(),
            r.sense() == true,
    {
        Barrier {
            used: false,
            lsense: true,
            inner: Arc::new(
                BarrierInner { gsense: AtomicBool::new(true), count: AtomicUsize::new(n), max: n },
            ),
        }
    }

    /// Produces a further handle of the same group, for one more participant.
    ///
    /// Only an unconsumed handle may be replicated: the participant count is
    /// fixed at construction, so all handles of a group must exist before any
    /// participant begins waiting.  Replicating after a checkpoint call is a
    /// programming error; callers that cannot rule it out statically check
    /// first, or use [`Barrier::try_replicate`].
    pub fn replicate(&self) -> (r: Barrier)
        requires
            !self.consumed(),
        ensures
            !r.consumed(),
            r.sense() == self.sense(),
            r.same_group(*self),
            r.capacity() == self.capacity(),
    {
        Barrier { used: false, lsense: self.lsense, inner: share_group(&self.inner) }
    }

    /// Replication with the usage check made at run time: returns a fresh
    /// handle of the same group, or `None` exactly when this handle has
    /// already made a checkpoint call and must not be replicated.
    pub fn try_replicate(&self) -> (r: Option<Barrier>)
        ensures
            r is Some <==> !self.consumed(),
            r matches Some(b) ==> (!b.consumed() && b.sense() == self.sense() && b.same_group(
                *self,
            ) && b.capacity() == self.capacity()),
    {
        if self.used {
            None
        } else {
            Some(self.replicate())
        }
    }

    /// Blocks the current thread until all participants of the group have
    /// arrived at the checkpoint.
    ///
    /// The barrier is reusable: once a round completes, every handle may call
    /// `wait` again for the next round.  Exactly one (arbitrary) call per
    /// round returns a leader result; see [`crate::protocol`] for the proof
    /// over the arrival model.  The call marks the handle consumed and flips
    /// its private sense bit, which is the sense value this round's release
    /// publishes.
    pub fn wait(&mut self) -> (r: BarrierWaitResult)
        ensures
            final(self).consumed(),
            final(self).sense() == !old(self).sense(),
            final(self).same_group(*old(self)),
            final(self).capacity() == old(self).capacity(),
    {
        self.used = true;
        self.lsense = !self.lsense;
        let prev = self.inner.count.fetch_sub(1, Ordering::SeqCst);
        self.complete_arrival(prev)
    }

    /// Completes a checkpoint call, given the counter value `prev` that the
    /// call's atomic decrement observed (the participants still missing at
    /// that instant, this caller included).
    ///
    /// `prev == 1` is the protocol's "last arrival" condition: this caller
    /// emptied the counter, so it alone resets the counter, publishes the new
    /// round sense and returns the leader result without waiting.  Any other
    /// caller spins until the leader's store of the round sense releases it.
    pub fn complete_arrival(&self, prev: usize) -> (r: BarrierWaitResult)
        ensures
            r.leader() <==> prev == 1,
    {
        if prev == 1 {
            // we're the last to reach the barrier -- release all
            self.inner.count.store(self.inner.max, Ordering::SeqCst);
            self.inner.gsense.store(self.lsense, Ordering::SeqCst);
            BarrierWaitResult(true)
        } else {
            // wait for everyone to reach the barrier
            await_release(&self.inner.gsense, self.lsense);
            BarrierWaitResult(false)
        }
    }
}

impl BarrierWaitResult {
    /// Whether the call this result came from was the leader of its round.
    pub closed spec fn leader(&self) -> bool {
        self.0
    }

    /// Returns whether the thread that received this result from
    /// [`Barrier::wait`] was the "leader thread" of the round.  Exactly one
    /// participant per round receives `true`; which one is arbitrary.
    pub fn is_leader(&self) -> (r: bool)
        ensures
            r == self.leader(),
    {
        self.0
    }
}

} // verus!
