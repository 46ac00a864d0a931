use policy_controller::shutdown::DrainCoordinator;
use policy_controller::supervisor::{
    classify, step, Action, Event, FailureKind, Fault, IndexerError, Phase, ServiceFailure,
    Supervisor, TaskEnd, Verdict,
};

fn indexer_error() -> IndexerError {
    IndexerError { detail: String::from("watch stream closed") }
}

fn service_failure() -> ServiceFailure {
    ServiceFailure { detail: String::from("bind refused") }
}

#[test]
fn shutdown_trigger_engages_drain() {
    assert_eq!(step(&Event::ShutdownRequested), Action::EngageDrain);
}

#[test]
fn indexer_error_exits_fatally() {
    // The indexer's completion payload is itself an error report.
    let event = Event::IndexerEnded(TaskEnd::Finished(indexer_error()));
    let verdict = classify(&event);
    assert_eq!(verdict, Verdict::Fatal(FailureKind::IndexerFailed));
    assert_eq!(FailureKind::IndexerFailed.message(), "indexer failed");
    assert_eq!(verdict.exit_code(), 1);

    let mut supervisor = Supervisor::new();
    let mut d = DrainCoordinator::new();
    supervisor.handle_event(&event, &mut d);
    assert_eq!(supervisor.phase, Phase::Exited(Verdict::Fatal(FailureKind::IndexerFailed)));
    assert!(!d.signaled); // the drain protocol is never engaged for it
}

#[test]
fn indexer_panic_exits_fatally() {
    let verdict = classify(&Event::IndexerEnded(TaskEnd::Faulted(Fault::Panicked)));
    assert_eq!(verdict, Verdict::Fatal(FailureKind::IndexerPanicked));
    assert_eq!(FailureKind::IndexerPanicked.message(), "indexer panicked");
}

#[test]
fn indexer_cancellation_is_clean() {
    let verdict = classify(&Event::IndexerEnded(TaskEnd::Faulted(Fault::Cancelled)));
    assert_eq!(verdict, Verdict::CleanExit);
    assert_eq!(verdict.exit_code(), 0);
}

#[test]
fn admission_resolution_always_fatal() {
    for event in [
        Event::AdmissionEnded(TaskEnd::Finished(())),
        Event::AdmissionEnded(TaskEnd::Faulted(Fault::Cancelled)),
        Event::AdmissionEnded(TaskEnd::Faulted(Fault::Panicked)),
    ] {
        let verdict = classify(&event);
        assert_eq!(verdict, Verdict::Fatal(FailureKind::AdmissionFailed));
        assert_eq!(FailureKind::AdmissionFailed.message(), "admission server failed");
        assert_eq!(verdict.exit_code(), 1);
    }
}

#[test]
fn admin_resolution_is_fatal_even_on_clean_return() {
    let clean = classify(&Event::AdminEnded(TaskEnd::Finished(Ok(()))));
    assert_eq!(clean, Verdict::Fatal(FailureKind::AdminFailed));
    let failed = classify(&Event::AdminEnded(TaskEnd::Finished(Err(service_failure()))));
    assert_eq!(failed, Verdict::Fatal(FailureKind::AdminFailed));
    assert_eq!(FailureKind::AdminFailed.message(), "admin server failed");
}

#[test]
fn admin_fault_classification() {
    assert_eq!(
        classify(&Event::AdminEnded(TaskEnd::Faulted(Fault::Cancelled))),
        Verdict::CleanExit
    );
    assert_eq!(
        classify(&Event::AdminEnded(TaskEnd::Faulted(Fault::Panicked))),
        Verdict::Fatal(FailureKind::AdminPanicked)
    );
    assert_eq!(FailureKind::AdminPanicked.message(), "admin server panicked");
}

#[test]
fn grpc_classification() {
    // While the race runs, the gRPC service resolving at all — even with a
    // success value — is fatal; only its cancellation fault is clean.
    assert_eq!(
        classify(&Event::GrpcEnded(TaskEnd::Finished(Ok(())))),
        Verdict::Fatal(FailureKind::GrpcFailed)
    );
    assert_eq!(
        classify(&Event::GrpcEnded(TaskEnd::Finished(Err(service_failure())))),
        Verdict::Fatal(FailureKind::GrpcFailed)
    );
    assert_eq!(
        classify(&Event::GrpcEnded(TaskEnd::Faulted(Fault::Cancelled))),
        Verdict::CleanExit
    );
    assert_eq!(
        classify(&Event::GrpcEnded(TaskEnd::Faulted(Fault::Panicked))),
        Verdict::Fatal(FailureKind::GrpcPanicked)
    );
    assert_eq!(FailureKind::GrpcFailed.message(), "grpc server failed");
    assert_eq!(FailureKind::GrpcPanicked.message(), "grpc server panicked");
}
