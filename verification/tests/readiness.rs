use policy_controller::readiness::ReadinessGate;

#[test]
fn gate_is_false_until_first_sync_and_then_stays_true() {
    let mut gate = ReadinessGate::new();
    assert!(!gate.is_ready());
    assert!(!gate.is_ready()); // reading does not move it

    gate.mark_ready(); // the indexer's one write after its first sync
    assert!(gate.is_ready());
    assert!(gate.is_ready()); // never reverts to false
}
