//! The readiness flag of the control plane.
//!
//! A single-writer, multi-reader observable boolean: the indexer is the
//! writer and sets the flag once its first cluster sync has completed within
//! the detection timeout; the admin endpoint reads it on every readiness
//! query. The value starts `false` and is monotonic — no operation ever takes
//! it back from `true` to `false`, and the single write may happen at most
//! once in the life of the process.

use vstd::prelude::*;

verus! {

pub struct ReadinessGate {
    pub ready: bool,
}

impl ReadinessGate {
    /// A fresh gate starts out not-ready.
    pub fn new() -> (g: ReadinessGate)
        ensures
            !g.ready,
    {
        ReadinessGate { ready: false }
    }

    /// Records that the initial sync has completed: the one write of the
    /// process's life. Afterwards every read observes `true`.
    pub fn mark_ready(&mut self)
        requires
            !old(self).ready,
        ensures
            final(self).ready,
    {
        self.ready = true;
    }

    /// Reports the current value; never blocks.
    pub fn is_ready(&self) -> (b: bool)
        ensures
            b == self.ready,
    {
        self.ready
    }
}

} // verus!
