//! Lock-free, wait-registering exclusive lock.
//!
//! A task polls for the lock: an atomic flip from unlocked to locked hands
//! it a guard at once, and a failed attempt registers the task's wake
//! handle in a single-slot register and suspends.  Whoever releases the
//! guard clears the flag and wakes whatever is in the slot at that moment.
//!
//! The slot holds only the most recent registrant, so with more than two
//! contenders an earlier waiter can be overwritten and starve; call sites
//! must bound contention to two tasks.  A dedicated arbiter, not a raw
//! lock, serializes anything with more contenders.
//!
//! The protocol is modelled as a transition system over `LockState`: each
//! executable operation is pinned to one `lock_step`, and the laws at the
//! bottom are proved over runs of the system, covering every interleaving
//! of polls and releases.

use vstd::prelude::*;

verus! {

/// Protocol state of the lock: the atomic flag, the single-slot waiter
/// register, and the set of tasks currently holding a guard.
pub ghost struct LockState {
    pub locked: bool,
    pub waiter: Option<u64>,
    pub holders: Set<u64>,
}

/// One observable action on the lock: a task polling for it, or a task
/// dropping its guard.
pub enum LockEvent {
    Poll(u64),
    Release(u64),
}

/// A fresh lock: unlocked, nobody registered, no guard live.
pub open spec fn lock_init() -> LockState {
    LockState { locked: false, waiter: None, holders: Set::empty() }
}

/// The transition relation.  A poll of an unlocked lock flips the flag and
/// grants a guard; a poll of a locked lock overwrites the waiter slot with
/// the new registrant.  A release by a guard holder clears the flag and
/// consumes the registered interest; a release by anyone else is no event.
pub open spec fn lock_step(s: LockState, e: LockEvent) -> LockState {
    match e {
        LockEvent::Poll(t) => if !s.locked {
            LockState { locked: true, waiter: s.waiter, holders: s.holders.insert(t) }
        } else {
            LockState { locked: s.locked, waiter: Some(t), holders: s.holders }
        },
        LockEvent::Release(t) => if s.locked && s.holders.contains(t) {
            LockState { locked: false, waiter: None, holders: s.holders.remove(t) }
        } else {
            s
        },
    }
}

/// The task an event wakes: releasing a held guard wakes whatever interest
/// is registered at that moment, and nothing else wakes anyone.
pub open spec fn lock_woken(s: LockState, e: LockEvent) -> Option<u64> {
    match e {
        LockEvent::Release(t) => if s.locked && s.holders.contains(t) {
            s.waiter
        } else {
            None
        },
        LockEvent::Poll(t) => None,
    }
}

/// The state after a whole run of events from a fresh lock.
pub open spec fn lock_run(events: Seq<LockEvent>) -> LockState
    decreases events.len(),
{
    if events.len() == 0 {
        lock_init()
    } else {
        lock_step(lock_run(events.drop_last()), events.last())
    }
}

/// A guard is live exactly while the flag is set, and then exactly one is.
pub open spec fn lock_inv(s: LockState) -> bool {
    &&& s.holders.finite()
    &&& s.holders.len() == if s.locked {
        1int
    } else {
        0int
    }
}

proof fn lemma_step_preserves_inv(s: LockState, e: LockEvent)
    requires
        lock_inv(s),
    ensures
        lock_inv(lock_step(s, e)),
{
    broadcast use vstd::set::group_set_axioms;

    match e {
        LockEvent::Poll(t) => {
            if !s.locked {
                assert(s.holders =~= Set::empty());
                assert(!s.holders.contains(t));
            }
        },
        LockEvent::Release(t) => {},
    }
}

/// Mutual exclusion: however any number of concurrent lock attempts and
/// releases interleave, at most one guard is live at any instant.
pub proof fn lemma_mutual_exclusion(events: Seq<LockEvent>)
    ensures
        lock_inv(lock_run(events)),
        lock_run(events).holders.len() <= 1,
    decreases events.len(),
{
    broadcast use vstd::set::group_set_axioms;

    if events.len() == 0 {
        assert(lock_init().holders.len() == 0);
    } else {
        lemma_mutual_exclusion(events.drop_last());
        lemma_step_preserves_inv(lock_run(events.drop_last()), events.last());
    }
}

/// Wake correctness under two-way contention: while one task holds the
/// guard and a second has registered its interest, the release wakes
/// exactly the second task, and its next poll acquires the guard.
pub proof fn lemma_second_contender_acquires(s: LockState, first: u64, second: u64)
    requires
        lock_inv(s),
        s.locked,
        s.holders.contains(first),
        s.waiter == Some(second),
    ensures
        lock_woken(s, LockEvent::Release(first)) == Some(second),
        ({
            let released = lock_step(s, LockEvent::Release(first));
            let acquired = lock_step(released, LockEvent::Poll(second));
            &&& !released.locked
            &&& acquired.locked
            &&& acquired.holders.contains(second)
            &&& acquired.holders.len() == 1
        }),
{
    broadcast use vstd::set::group_set_axioms;

    lemma_step_preserves_inv(s, LockEvent::Release(first));
    lemma_step_preserves_inv(lock_step(s, LockEvent::Release(first)), LockEvent::Poll(second));
}

/// The register holds one interest only: a poll of a locked lock replaces
/// whatever was registered before.  An earlier waiter loses its wake, which
/// is why contention must stay bounded to two tasks.
pub proof fn lemma_single_slot_overwrite(s: LockState, earlier: u64, later: u64)
    requires
        s.locked,
    ensures
        lock_step(lock_step(s, LockEvent::Poll(earlier)), LockEvent::Poll(later)).waiter == Some(
            later,
        ),
{
}

/// Exclusive lock around a value, polled by cooperatively scheduled tasks.
///
/// This is the decision core of a suspending `lock()`: one `poll_lock` is
/// one poll of the returned future, and `release` is the guard's drop.  The
/// async plumbing around it — the atomic compare-and-swap, the wake handle
/// registration and the suspension — performs these transitions but takes
/// no decision of its own.
pub struct AtomicMutex<T> {
    locked: bool,
    waiter: Option<u64>,
    holder: Option<u64>,
    inner: T,
}

impl<T> AtomicMutex<T> {
    /// Whether the lock flag is set.
    pub closed spec fn spec_locked(self) -> bool {
        self.locked
    }

    /// The task registered in the single waiter slot, if any.
    pub closed spec fn spec_waiter(self) -> Option<u64> {
        self.waiter
    }

    /// The task holding the guard, if any.
    pub closed spec fn spec_holder(self) -> Option<u64> {
        self.holder
    }

    /// The guarded value.
    pub closed spec fn spec_inner(self) -> T {
        self.inner
    }

    /// The protocol state this mutex is in.
    pub open spec fn protocol_state(self) -> LockState {
        LockState {
            locked: self.spec_locked(),
            waiter: self.spec_waiter(),
            holders: match self.spec_holder() {
                Some(t) => Set::empty().insert(t),
                None => Set::empty(),
            },
        }
    }

    /// A guard exists exactly while the flag is set.
    pub open spec fn wf(self) -> bool {
        self.spec_locked() <==> self.spec_holder() is Some
    }

    pub fn new(value: T) -> (r: Self)
        ensures
            r.wf(),
            r.protocol_state() == lock_init(),
            r.spec_inner() == value,
    {
        let r = AtomicMutex { locked: false, waiter: None, holder: None, inner: value };
        proof {
            assert(r.protocol_state().holders =~= Set::<u64>::empty());
        }
        r
    }

    /// One poll for the lock by `task`: on an unlocked mutex the task
    /// acquires the guard at once; on a locked one it registers its
    /// interest — overwriting any earlier registrant — and must suspend.
    pub fn poll_lock(&mut self, task: u64) -> (acquired: bool)
        requires
            old(self).wf(),
        ensures
            final(self).wf(),
            acquired == !old(self).spec_locked(),
            final(self).protocol_state() == lock_step(
                old(self).protocol_state(),
                LockEvent::Poll(task),
            ),
            final(self).spec_inner() == old(self).spec_inner(),
            acquired ==> final(self).spec_holder() == Some(task),
    {
        if !self.locked {
            self.locked = true;
            self.holder = Some(task);
            proof {
                assert(self.protocol_state().holders =~= lock_step(
                    old(self).protocol_state(),
                    LockEvent::Poll(task),
                ).holders);
            }
            true
        } else {
            self.waiter = Some(task);
            false
        }
    }

    /// Drops the guard held by `task`: clears the flag and hands back the
    /// registered waiter, which the caller must wake.  Every exit path of a
    /// guard must come through here.
    pub fn release(&mut self, task: u64) -> (woken: Option<u64>)
        requires
            old(self).wf(),
            old(self).spec_holder() == Some(task),
        ensures
            final(self).wf(),
            final(self).protocol_state() == lock_step(
                old(self).protocol_state(),
                LockEvent::Release(task),
            ),
            woken == lock_woken(old(self).protocol_state(), LockEvent::Release(task)),
            final(self).spec_inner() == old(self).spec_inner(),
    {
        self.locked = false;
        self.holder = None;
        let woken = self.waiter;
        self.waiter = None;
        proof {
            assert(self.protocol_state().holders =~= lock_step(
                old(self).protocol_state(),
                LockEvent::Release(task),
            ).holders);
        }
        woken
    }

    /// Reads the guarded value; only the task holding the guard may.
    pub fn get(&self, task: u64) -> (r: &T)
        requires
            self.spec_holder() == Some(task),
        ensures
            *r == self.spec_inner(),
    {
        &self.inner
    }

    /// Replaces the guarded value; only the task holding the guard may.
    pub fn set(&mut self, task: u64, value: T)
        requires
            old(self).wf(),
            old(self).spec_holder() == Some(task),
        ensures
            final(self).wf(),
            final(self).spec_inner() == value,
            final(self).spec_holder() == old(self).spec_holder(),
            final(self).spec_locked() == old(self).spec_locked(),
            final(self).spec_waiter() == old(self).spec_waiter(),
    {
        self.inner = value;
    }
}

} // verus!
