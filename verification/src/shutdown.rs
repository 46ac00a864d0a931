//! The drain protocol: cooperative graceful shutdown.
//!
//! One signal-side owner (the supervisor) and arbitrarily many watch-side
//! holders share a single logical event, "begin graceful shutdown". A watch
//! holder that observes the signal receives a release handle; releasing the
//! handle tells the owner that the holder has finished winding down. The
//! owner's drain operation completes only once every handle issued has been
//! released, and the signal fires at most once per process.
//!
//! [`DrainCoordinator`] is the state of that protocol: whether the signal has
//! fired, which release handles are outstanding, and whether the drain has
//! completed. The suspension itself (a watcher sleeping until the signal, the
//! owner sleeping until the last release) belongs to the runtime around this
//! crate; every decision about when those steps are allowed is taken here.

use vstd::prelude::*;

verus! {

pub struct DrainCoordinator {
    /// Whether the one-shot shutdown signal has fired.
    pub signaled: bool,
    /// Whether the drain operation has completed.
    pub drained: bool,
    /// One entry per release handle issued to a watcher, `true` once that
    /// handle has been released.
    pub handles: Vec<bool>,
}

impl DrainCoordinator {
    /// Every release handle issued so far has been released.
    pub open spec fn all_released(self) -> bool {
        forall|j: int| 0 <= j < self.handles@.len() ==> self.handles@[j]
    }

    /// The protocol invariant: handles exist only after the signal has
    /// fired, and the drain completes only signaled and fully released.
    pub open spec fn wf(self) -> bool {
        &&& !self.signaled ==> self.handles@.len() == 0
        &&& self.drained ==> self.signaled
        &&& self.drained ==> self.all_released()
    }

    /// A fresh coordinator: not signaled, not drained, no handles issued.
    pub fn new() -> (d: DrainCoordinator)
        ensures
            d.wf(),
            !d.signaled,
            !d.drained,
            d.handles@.len() == 0,
    {
        DrainCoordinator { signaled: false, drained: false, handles: Vec::new() }
    }

    /// Records that shutdown has begun, unblocking every pending and future
    /// wait on the watch side. One-shot: it may fire at most once.
    pub fn signal(&mut self)
        requires
            old(self).wf(),
            !old(self).signaled,
        ensures
            final(self).wf(),
            final(self).signaled,
            !final(self).drained,
            final(self).handles@ == old(self).handles@,
    {
        self.signaled = true;
    }

    /// Issues a release handle to a watcher that has observed the signal;
    /// returns the handle's identity. The new handle is outstanding.
    pub fn issue_release(&mut self) -> (id: usize)
        requires
            old(self).wf(),
            old(self).signaled,
            !old(self).drained,
            old(self).handles@.len() < usize::MAX,
        ensures
            final(self).wf(),
            final(self).signaled,
            !final(self).drained,
            id == old(self).handles@.len(),
            final(self).handles@ == old(self).handles@.push(false),
    {
        let id = self.handles.len();
        self.handles.push(false);
        id
    }

    /// Marks the given outstanding handle released: its holder has finished
    /// winding down.
    pub fn complete_release(&mut self, id: usize)
        requires
            old(self).wf(),
            !old(self).drained,
            id < old(self).handles@.len(),
            !old(self).handles@[id as int],
        ensures
            final(self).wf(),
            final(self).signaled == old(self).signaled,
            !final(self).drained,
            final(self).handles@ == old(self).handles@.update(id as int, true),
    {
        self.handles.set(id, true);
    }

    /// Whether the drain operation may complete: every handle issued has
    /// been released.
    pub fn drain_ready(&self) -> (b: bool)
        ensures
            b == self.all_released(),
    {
        let mut j: usize = 0;
        while j < self.handles.len()
            invariant
                j <= self.handles@.len(),
                forall|k: int| 0 <= k < j ==> self.handles@[k],
            decreases self.handles@.len() - j,
        {
            if !self.handles[j] {
                return false;
            }
            j += 1;
        }
        true
    }

    /// Completes the drain. Allowed only after the signal has fired and
    /// every release handle has been released; terminal and one-shot.
    pub fn finish_drain(&mut self)
        requires
            old(self).wf(),
            old(self).signaled,
            old(self).all_released(),
            !old(self).drained,
        ensures
            final(self).wf(),
            final(self).signaled,
            final(self).drained,
            final(self).handles@ == old(self).handles@,
    {
        self.drained = true;
    }
}

/// Law: the drain operation does not complete while any watcher that
/// observed the signal still holds an unreleased handle — once drained,
/// every handle ever issued has been released.
pub proof fn drained_implies_all_released(d: DrainCoordinator)
    requires
        d.wf(),
        d.drained,
    ensures
        forall|j: int| 0 <= j < d.handles@.len() ==> d.handles@[j],
{
}

} // verus!
