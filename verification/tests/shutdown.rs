use policy_controller::grpc::{GrpcPhase, GrpcServer};
use policy_controller::shutdown::DrainCoordinator;
use policy_controller::supervisor::{Event, Phase, Supervisor, Verdict};

#[test]
fn drain_waits_for_every_release() {
    let mut d = DrainCoordinator::new();
    assert!(!d.signaled);
    d.signal();
    assert!(d.signaled);

    let first = d.issue_release();
    let second = d.issue_release();
    assert!(!d.drain_ready());

    d.complete_release(first);
    assert!(!d.drain_ready());

    d.complete_release(second);
    assert!(d.drain_ready());
    d.finish_drain();
    assert!(d.drained);
}

#[test]
fn drain_with_no_watchers_completes() {
    let mut d = DrainCoordinator::new();
    d.signal();
    assert!(d.drain_ready());
    d.finish_drain();
    assert!(d.drained);
}

#[test]
fn interrupt_drains_grpc_before_exit() {
    // The interactive-interrupt path: the gRPC service has a request in
    // flight when the trigger fires; it must be answered before the process
    // can exit cleanly.
    let mut supervisor = Supervisor::new();
    let mut d = DrainCoordinator::new();
    let mut grpc = GrpcServer::new();

    grpc.accept_request();
    assert_eq!(grpc.in_flight, 1);

    supervisor.handle_event(&Event::ShutdownRequested, &mut d);
    assert_eq!(supervisor.phase, Phase::Draining);
    assert!(d.signaled);

    grpc.observe_signal(&mut d);
    assert!(matches!(grpc.phase, GrpcPhase::Closing));
    assert!(!d.drain_ready());

    grpc.complete_request(); // the in-flight request observes its response
    grpc.finish_close(&mut d);
    assert!(matches!(grpc.phase, GrpcPhase::Drained));
    assert_eq!(grpc.in_flight, 0);

    assert!(d.drain_ready());
    d.finish_drain();
    supervisor.complete_drain(&d);

    assert_eq!(supervisor.phase, Phase::Exited(Verdict::CleanExit));
    assert_eq!(Verdict::CleanExit.exit_code(), 0);
}
