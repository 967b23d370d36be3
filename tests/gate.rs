use yewtube::gate::{Gate, GateStatus, GateStep};

#[test]
fn two_callers_share_one_injection() {
    let mut g = Gate::new();
    assert_eq!(g.request(1, false), GateStep::Inject);
    assert_eq!(g.request(2, false), GateStep::Wait);
    assert!(g.is_injected());
    assert_eq!(g.status(), GateStatus::Loading);
    assert_eq!(g.settle(true), vec![1, 2]);
    assert_eq!(g.status(), GateStatus::Loaded);
    assert_eq!(g.request(3, true), GateStep::Resolved);
    assert_eq!(g.request(4, false), GateStep::Resolved);
}

#[test]
fn present_api_resolves_without_injection() {
    let mut g = Gate::new();
    assert_eq!(g.request(1, true), GateStep::Resolved);
    assert!(!g.is_injected());
    assert_eq!(g.status(), GateStatus::Loaded);
    assert!(g.settle(true).is_empty());
}

#[test]
fn failed_load_rejects_everyone() {
    let mut g = Gate::new();
    assert_eq!(g.request(7, false), GateStep::Inject);
    assert_eq!(g.request(8, true), GateStep::Wait);
    assert_eq!(g.settle(false), vec![7, 8]);
    assert_eq!(g.status(), GateStatus::Failed);
    assert_eq!(g.request(9, false), GateStep::Rejected);
    assert!(g.settle(true).is_empty());
}
