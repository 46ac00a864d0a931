//! The supervisor: the shutdown race and its classification.
//!
//! The top-level control loop races five events: the OS termination trigger,
//! and the resolution of the admission, gRPC, indexer and admin tasks. The
//! first to resolve wins and every other task is abandoned without further
//! ceremony. The termination trigger is the only path that engages the drain
//! protocol and so the only one that lets the gRPC service finish
//! gracefully; a service resolution ends the process at once with the
//! verdict of the classification table below.
//!
//! The classification follows the error taxonomy of this layer:
//! - an execution fault classified as cancellation happened only because the
//!   process is already tearing down, and is clean, not an error;
//! - a service resolving at all while the race is still running — a clean
//!   return included, the gRPC service included — is a failure, since every
//!   service should run forever while the process lives; the gRPC service
//!   finishes early only on the drain path, and that path has already won
//!   the race before it can;
//! - the indexer's only well-formed way of resolving is to surface an error
//!   value, so its completion payload is itself an error and its resolution
//!   is always fatal;
//! - the admission service's resolution is always fatal, whatever it
//!   carried.

use vstd::prelude::*;

verus! {

/// An execution fault of a supervised task: the task did not run to
/// completion.
#[derive(Clone, Copy, Debug, PartialEq, Eq, Structural)]
pub enum Fault {
    /// The task was dropped because the process is already tearing down.
    Cancelled,
    /// The task terminated through an unrecoverable internal fault.
    Panicked,
}

/// How a supervised task resolved: it either ran to completion with its own
/// payload, or was cut short by an execution fault.
#[derive(Clone, Debug)]
pub enum TaskEnd<T> {
    Finished(T),
    Faulted(Fault),
}

/// The error value a service's own run may resolve with.
#[derive(Clone, Debug)]
pub struct ServiceFailure {
    pub detail: String,
}

/// The error payload the indexer surfaces. The indexer has no success
/// payload at all: completing is, by construction, reporting this error.
#[derive(Clone, Debug)]
pub struct IndexerError {
    pub detail: String,
}

/// The first event of the supervisor's race to resolve.
#[derive(Clone, Debug)]
pub enum Event {
    /// The OS termination trigger: an interactive interrupt or a
    /// termination signal.
    ShutdownRequested,
    GrpcEnded(TaskEnd<Result<(), ServiceFailure>>),
    IndexerEnded(TaskEnd<IndexerError>),
    AdminEnded(TaskEnd<Result<(), ServiceFailure>>),
    AdmissionEnded(TaskEnd<()>),
}

/// Which service failed, and how: the contextual framing of a fatal exit.
#[derive(Clone, Copy, Debug, PartialEq, Eq, Structural)]
pub enum FailureKind {
    GrpcFailed,
    GrpcPanicked,
    IndexerFailed,
    IndexerPanicked,
    AdminFailed,
    AdminPanicked,
    AdmissionFailed,
}

/// The process's terminal outcome.
#[derive(Clone, Copy, Debug, PartialEq, Eq, Structural)]
pub enum Verdict {
    /// Exit code 0: a clean shutdown path.
    CleanExit,
    /// A non-zero exit with a context message identifying the failure.
    Fatal(FailureKind),
}

/// What the supervisor does with the winning event: engage the drain
/// protocol, or end the process with a verdict.
#[derive(Clone, Copy, Debug, PartialEq, Eq, Structural)]
pub enum Action {
    EngageDrain,
    Exit(Verdict),
}

/// The classification table: the verdict each resolution is escalated to.
pub open spec fn classify_spec(e: Event) -> Verdict {
    match e {
        Event::ShutdownRequested => Verdict::CleanExit,
        Event::GrpcEnded(end) => match end {
            TaskEnd::Finished(_) => Verdict::Fatal(FailureKind::GrpcFailed),
            TaskEnd::Faulted(Fault::Cancelled) => Verdict::CleanExit,
            TaskEnd::Faulted(Fault::Panicked) => Verdict::Fatal(FailureKind::GrpcPanicked),
        },
        Event::IndexerEnded(end) => match end {
            TaskEnd::Finished(_) => Verdict::Fatal(FailureKind::IndexerFailed),
            TaskEnd::Faulted(Fault::Cancelled) => Verdict::CleanExit,
            TaskEnd::Faulted(Fault::Panicked) => Verdict::Fatal(FailureKind::IndexerPanicked),
        },
        Event::AdminEnded(end) => match end {
            TaskEnd::Finished(_) => Verdict::Fatal(FailureKind::AdminFailed),
            TaskEnd::Faulted(Fault::Cancelled) => Verdict::CleanExit,
            TaskEnd::Faulted(Fault::Panicked) => Verdict::Fatal(FailureKind::AdminPanicked),
        },
        Event::AdmissionEnded(_) => Verdict::Fatal(FailureKind::AdmissionFailed),
    }
}

/// What the supervisor does first with each winning event: only the OS
/// termination trigger engages the drain protocol; every service resolution
/// ends the process at once.
pub open spec fn step_spec(e: Event) -> Action {
    match e {
        Event::ShutdownRequested => Action::EngageDrain,
        _ => Action::Exit(classify_spec(e)),
    }
}

/// Classifies a resolved event by the table of [`classify_spec`].
pub fn classify(e: &Event) -> (v: Verdict)
    ensures
        v == classify_spec(*e),
{
    match e {
        Event::ShutdownRequested => Verdict::CleanExit,
        Event::GrpcEnded(end) => match end {
            TaskEnd::Finished(_) => Verdict::Fatal(FailureKind::GrpcFailed),
            TaskEnd::Faulted(Fault::Cancelled) => Verdict::CleanExit,
            TaskEnd::Faulted(Fault::Panicked) => Verdict::Fatal(FailureKind::GrpcPanicked),
        },
        Event::IndexerEnded(end) => match end {
            TaskEnd::Finished(_) => Verdict::Fatal(FailureKind::IndexerFailed),
            TaskEnd::Faulted(Fault::Cancelled) => Verdict::CleanExit,
            TaskEnd::Faulted(Fault::Panicked) => Verdict::Fatal(FailureKind::IndexerPanicked),
        },
        Event::AdminEnded(end) => match end {
            TaskEnd::Finished(_) => Verdict::Fatal(FailureKind::AdminFailed),
            TaskEnd::Faulted(Fault::Cancelled) => Verdict::CleanExit,
            TaskEnd::Faulted(Fault::Panicked) => Verdict::Fatal(FailureKind::AdminPanicked),
        },
        Event::AdmissionEnded(_) => Verdict::Fatal(FailureKind::AdmissionFailed),
    }
}

/// Decides the supervisor's first move for a resolved event.
pub fn step(e: &Event) -> (a: Action)
    ensures
        a == step_spec(*e),
{
    match e {
        Event::ShutdownRequested => Action::EngageDrain,
        _ => Action::Exit(classify(e)),
    }
}

impl FailureKind {
    /// The context message of each fatal classification.
    pub open spec fn message_spec(self) -> Seq<char> {
        match self {
            FailureKind::GrpcFailed => "grpc server failed"@,
            FailureKind::GrpcPanicked => "grpc server panicked"@,
            FailureKind::IndexerFailed => "indexer failed"@,
            FailureKind::IndexerPanicked => "indexer panicked"@,
            FailureKind::AdminFailed => "admin server failed"@,
            FailureKind::AdminPanicked => "admin server panicked"@,
            FailureKind::AdmissionFailed => "admission server failed"@,
        }
    }

    /// Whether the classification identifies the indexer.
    pub open spec fn names_indexer(self) -> bool {
        self is IndexerFailed || self is IndexerPanicked
    }

    /// The short human-readable context identifying which service failed.
    pub fn message(&self) -> (r: &'static str)
        ensures
            r@ == self.message_spec(),
    {
        match self {
            FailureKind::GrpcFailed => "grpc server failed",
            FailureKind::GrpcPanicked => "grpc server panicked",
            FailureKind::IndexerFailed => "indexer failed",
            FailureKind::IndexerPanicked => "indexer panicked",
            FailureKind::AdminFailed => "admin server failed",
            FailureKind::AdminPanicked => "admin server panicked",
            FailureKind::AdmissionFailed => "admission server failed",
        }
    }
}

impl Verdict {
    /// The process exit code: 0 exactly on the clean paths, 1 on a fatal
    /// escalation.
    pub fn exit_code(&self) -> (c: i32)
        ensures
            c == 0 <==> *self is CleanExit,
            *self is Fatal ==> c == 1,
    {
        match self {
            Verdict::CleanExit => 0,
            Verdict::Fatal(_) => 1,
        }
    }
}

/// Where the process stands in its life.
#[derive(Clone, Copy, Debug, PartialEq, Eq, Structural)]
pub enum Phase {
    /// All services started, racing their resolutions and the termination
    /// trigger.
    Running,
    /// The termination trigger won the race: the drain protocol is engaged
    /// and the process waits for it to complete.
    Draining,
    /// The race is decided and the process ends with this verdict; every
    /// task still running is abandoned.
    Exited(Verdict),
}

/// The top-level control loop's state: it starts the services, races their
/// resolutions against the termination trigger, and settles the process's
/// verdict from the first event by the classification table.
pub struct Supervisor {
    pub phase: Phase,
}

impl Supervisor {
    /// A freshly started process: every service is up and the race is on.
    pub fn new() -> (s: Supervisor)
        ensures
            s.phase is Running,
    {
        Supervisor { phase: Phase::Running }
    }

    /// Takes the winning event of the race. The termination trigger fires
    /// the one-shot drain signal and leaves the verdict for
    /// [`complete_drain`](Supervisor::complete_drain); any service
    /// resolution ends the process at once with the table's verdict, and
    /// the drain protocol is never engaged for it.
    pub fn handle_event(&mut self, e: &Event, d: &mut crate::shutdown::DrainCoordinator)
        requires
            old(self).phase is Running,
            old(d).wf(),
            !old(d).signaled,
        ensures
            final(d).wf(),
            match step_spec(*e) {
                Action::EngageDrain => {
                    &&& final(self).phase is Draining
                    &&& final(d).signaled
                    &&& !final(d).drained
                    &&& final(d).handles@ == old(d).handles@
                },
                Action::Exit(v) => {
                    &&& final(self).phase == Phase::Exited(v)
                    &&& *final(d) == *old(d)
                },
            },
    {
        match e {
            Event::ShutdownRequested => {
                d.signal();
                self.phase = Phase::Draining;
            },
            _ => {
                self.phase = Phase::Exited(classify(e));
            },
        }
    }

    /// Settles the clean verdict once the drain has completed: the only way
    /// out of [`Phase::Draining`], and it needs the coordinator drained.
    pub fn complete_drain(&mut self, d: &crate::shutdown::DrainCoordinator)
        requires
            old(self).phase is Draining,
            d.wf(),
            d.drained,
        ensures
            final(self).phase == Phase::Exited(Verdict::CleanExit),
    {
        self.phase = Phase::Exited(Verdict::CleanExit);
    }
}

/// Law: if the indexer task resolves in any way at all other than the
/// cancellation that only process teardown itself can cause, the verdict is
/// fatal and its context names the indexer — never a success.
pub proof fn indexer_resolution_is_fatal(end: TaskEnd<IndexerError>)
    requires
        !(end matches TaskEnd::Faulted(Fault::Cancelled)),
    ensures
        classify_spec(Event::IndexerEnded(end)) matches Verdict::Fatal(k) && k.names_indexer(),
{
}

/// Law: any resolution of the admission service while the process runs
/// normally — whatever value it carried, and however it ended — is fatal,
/// with the context naming the admission server.
pub proof fn admission_resolution_is_fatal(end: TaskEnd<()>)
    ensures
        classify_spec(Event::AdmissionEnded(end)) == Verdict::Fatal(FailureKind::AdmissionFailed),
{
}

/// Law: only the termination trigger engages the drain protocol. Any other
/// winning event ends the process immediately, as classified: no drain
/// signal is sent, no release handle is awaited, and every other task is abandoned
/// with whatever work it had in flight. The admin, indexer and admission
/// tasks hold no release handle even on the drain path, so nothing ever
/// waits for their in-flight work.
pub proof fn service_resolution_exits_at_once(e: Event)
    requires
        !(e is ShutdownRequested),
    ensures
        step_spec(e) == Action::Exit(classify_spec(e)),
{
}

} // verus!
