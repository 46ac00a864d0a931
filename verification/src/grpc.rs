//! The two-phase close of the policy query service.
//!
//! The gRPC service is the only drain-aware service of the four: on the
//! shutdown signal it stops accepting new requests but lets in-flight
//! requests run to completion, and releases its drain handle only once all
//! of them have finished. Its life is `Listening -> Closing -> Drained`.
//!
//! [`GrpcServer`] is the state of that protocol, linked to the
//! [`DrainCoordinator`](crate::shutdown::DrainCoordinator) through the
//! release handle it obtains when it observes the signal. The other three
//! services have no such hook: when the supervisor's race resolves they are
//! abandoned outright and their in-flight work is lost — an asymmetry this
//! layer preserves deliberately.

use crate::shutdown::DrainCoordinator;
use vstd::prelude::*;

verus! {

pub enum GrpcPhase {
    /// Accepting and serving requests normally.
    Listening,
    /// The drain signal has been observed: no new requests are accepted,
    /// in-flight requests run to completion.
    Closing,
    /// All in-flight work has finished and the release handle is released.
    Drained,
}

pub struct GrpcServer {
    pub phase: GrpcPhase,
    /// Requests accepted and not yet answered.
    pub in_flight: u64,
    /// The drain release handle's identity, once the signal is observed.
    pub handle: Option<usize>,
    /// Whether the release handle has been released.
    pub released: bool,
}

impl GrpcServer {
    /// The service invariant: the release handle exists exactly from the
    /// moment the signal is observed, and is released exactly when the
    /// service is drained — which requires all in-flight work done.
    pub open spec fn wf(self) -> bool {
        &&& self.released <==> self.phase is Drained
        &&& self.phase is Drained ==> self.in_flight == 0
        &&& self.handle is Some <==> !(self.phase is Listening)
    }

    /// The tie to the drain coordinator: this service's handle is one the
    /// coordinator issued, and the coordinator records it released exactly
    /// when the service has released it.
    pub open spec fn linked(self, d: DrainCoordinator) -> bool {
        match self.handle {
            Some(id) => id < d.handles@.len() && (d.handles@[id as int] <==> self.released),
            None => true,
        }
    }

    /// A fresh server listens, with nothing in flight and no handle.
    pub fn new() -> (g: GrpcServer)
        ensures
            g.wf(),
            g.phase is Listening,
            g.in_flight == 0,
    {
        GrpcServer { phase: GrpcPhase::Listening, in_flight: 0, handle: None, released: false }
    }

    /// Accepts one request. Only a listening server accepts new work: once
    /// the close has begun there is no way back to this state.
    pub fn accept_request(&mut self)
        requires
            old(self).wf(),
            old(self).phase is Listening,
            old(self).in_flight < u64::MAX,
        ensures
            final(self).wf(),
            final(self).phase is Listening,
            final(self).in_flight == old(self).in_flight + 1,
            final(self).handle == old(self).handle,
            final(self).released == old(self).released,
    {
        self.in_flight = self.in_flight + 1;
    }

    /// Completes one in-flight request, in whatever phase it was accepted.
    pub fn complete_request(&mut self)
        requires
            old(self).wf(),
            old(self).in_flight > 0,
        ensures
            final(self).wf(),
            final(self).phase == old(self).phase,
            final(self).in_flight == old(self).in_flight - 1,
            final(self).handle == old(self).handle,
            final(self).released == old(self).released,
    {
        self.in_flight = self.in_flight - 1;
    }

    /// Observes the drain signal: the server stops accepting new requests
    /// and takes a release handle from the coordinator. In-flight requests
    /// are unaffected.
    pub fn observe_signal(&mut self, d: &mut DrainCoordinator)
        requires
            old(self).wf(),
            old(self).phase is Listening,
            old(d).wf(),
            old(d).signaled,
            !old(d).drained,
            old(d).handles@.len() < usize::MAX,
        ensures
            final(self).wf(),
            final(self).linked(*final(d)),
            final(self).phase is Closing,
            final(self).in_flight == old(self).in_flight,
            !final(self).released,
            final(d).wf(),
            final(d).signaled,
            !final(d).drained,
            final(d).handles@ == old(d).handles@.push(false),
    {
        let id = d.issue_release();
        self.handle = Some(id);
        self.phase = GrpcPhase::Closing;
    }

    /// Finishes the close: with no request left in flight, the server is
    /// drained and releases its handle, letting the coordinator's drain
    /// operation account for it.
    pub fn finish_close(&mut self, d: &mut DrainCoordinator)
        requires
            old(self).wf(),
            old(self).linked(*old(d)),
            old(self).phase is Closing,
            old(self).in_flight == 0,
            old(d).wf(),
            !old(d).drained,
        ensures
            final(self).wf(),
            final(self).linked(*final(d)),
            final(self).phase is Drained,
            final(self).in_flight == 0,
            final(self).released,
            final(d).wf(),
            final(d).signaled == old(d).signaled,
            !final(d).drained,
            final(d).handles@ == old(d).handles@.update(
                final(self).handle->Some_0 as int,
                true,
            ),
            final(self).handle == old(self).handle,
    {
        let id = self.handle.unwrap();
        d.complete_release(id);
        self.phase = GrpcPhase::Drained;
        self.released = true;
    }
}

/// Law: if the drain has completed and the gRPC service had observed the
/// signal, then the service finished every in-flight request and released
/// its handle before the drain could complete. Together with
/// [`accept_request`](GrpcServer::accept_request) admitting work only while
/// listening, a request in flight when shutdown begins is answered before
/// the drain — and with it the process's clean exit — can happen.
pub proof fn drain_completion_waits_for_grpc(g: GrpcServer, d: DrainCoordinator)
    requires
        g.wf(),
        g.linked(d),
        d.wf(),
        d.drained,
        g.handle is Some,
    ensures
        g.phase is Drained,
        g.in_flight == 0,
        g.released,
{
    let id = g.handle->Some_0;
    assert(d.handles@[id as int]);
}

} // verus!
