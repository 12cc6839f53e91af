use launchpad::checker::CheckerCause;
use launchpad::checker::CheckerEvent;
use launchpad::graph::DependencyGraph;
use launchpad::graph::TaskDef;
use launchpad::graph::TaskId;
use launchpad::lifecycle::ContainerManager;
use launchpad::lifecycle::LifecycleState;
use launchpad::lifecycle::ManagerDirective;
use launchpad::lifecycle::backoff_delay;
use launchpad::supervisor::Orchestrator;

#[test]
fn manager_walks_the_happy_path() {
    let mut m = ContainerManager::new(3, 100);
    assert_eq!(m.current_state(), LifecycleState::NotConfigured);
    assert_eq!(m.reconfigure_outcome(true), ManagerDirective::Start);
    assert_eq!(m.current_state(), LifecycleState::Configuring);
    m.on_started();
    assert_eq!(m.current_state(), LifecycleState::Starting);
    m.on_checker_event(&CheckerEvent::Progress(40));
    assert_eq!(m.current_state(), LifecycleState::Running(40));
    m.on_checker_event(&CheckerEvent::Ready);
    assert_eq!(m.current_state(), LifecycleState::Ready);
}

#[test]
fn repeated_identical_verdict_starts_only_once() {
    // The verdict for a byte-identical snapshot is identical, and the
    // second application must not demand a second start call.
    let mut m = ContainerManager::new(3, 100);
    let first = m.reconfigure_outcome(true);
    let second = m.reconfigure_outcome(true);
    assert_eq!(first, ManagerDirective::Start);
    assert_eq!(second, ManagerDirective::Idle);
    assert_eq!(m.current_state(), LifecycleState::Configuring);
}

#[test]
fn stop_verdict_is_idempotent_too() {
    let mut m = ContainerManager::new(3, 100);
    m.reconfigure_outcome(true);
    m.on_started();
    assert_eq!(m.reconfigure_outcome(false), ManagerDirective::Stop);
    assert_eq!(m.reconfigure_outcome(false), ManagerDirective::Idle);
    assert_eq!(m.current_state(), LifecycleState::Stopping);
}

#[test]
fn three_failures_with_cap_three_exhaust_retries() {
    // Two bounded restarts, then the fatal escalation: never more than
    // three retries in total.
    let mut m = ContainerManager::new(3, 100);
    m.reconfigure_outcome(true);
    m.on_started();
    let d1 = m.on_checker_event(&CheckerEvent::Failed(CheckerCause::ProbeError));
    assert_eq!(m.current_state(), LifecycleState::Failed);
    assert_eq!(d1, ManagerDirective::RestartAfter(200));
    m.on_started();
    let d2 = m.on_checker_event(&CheckerEvent::Failed(CheckerCause::ProbeError));
    assert_eq!(d2, ManagerDirective::RestartAfter(400));
    m.on_started();
    let d3 = m.on_checker_event(&CheckerEvent::Failed(CheckerCause::ProbeError));
    assert_eq!(d3, ManagerDirective::EscalateRetryExhausted);
    assert_eq!(m.current_state(), LifecycleState::Failed);
    assert_eq!(m.retries, 3);
}

#[test]
fn backoff_delay_doubles_and_stays_bounded() {
    assert_eq!(backoff_delay(100, 0), 100);
    assert_eq!(backoff_delay(100, 1), 200);
    assert_eq!(backoff_delay(100, 2), 400);
    assert_eq!(backoff_delay(100, 3), 800);
    assert_eq!(backoff_delay(100, 16), 100 * 65536);
    assert_eq!(backoff_delay(100, 200), 100 * 65536);
}

fn def(code: u64, deps: &[u64]) -> TaskDef {
    TaskDef {
        id: TaskId::new(code),
        deps: deps.iter().map(|c| TaskId::new(*c)).collect(),
    }
}

fn drive_to_ready(engine: &mut Orchestrator, code: u64) {
    assert_eq!(engine.try_reconfigure(TaskId::new(code), true), ManagerDirective::Start);
    engine.on_task_started(TaskId::new(code));
    engine.on_checker_event(TaskId::new(code), &CheckerEvent::Ready);
    assert_eq!(engine.state_of(TaskId::new(code)), Some(LifecycleState::Ready));
}

#[test]
fn service_stays_unconfigured_until_deps_are_ready() {
    // Network (no deps), Storage (needs Network), Service (needs both).
    let tasks = vec![def(10, &[]), def(11, &[10]), def(12, &[10, 11])];
    let graph = DependencyGraph::new(tasks).unwrap();
    let order: Vec<u64> =
        graph.topological_order().unwrap().iter().map(|t| t.code).collect();
    assert_eq!(order, vec![10, 11, 12]);

    let mut engine = Orchestrator::from_graph(graph, 3, 100);
    assert_eq!(engine.try_reconfigure(TaskId::new(12), true), ManagerDirective::Idle);
    assert_eq!(engine.state_of(TaskId::new(12)), Some(LifecycleState::NotConfigured));

    drive_to_ready(&mut engine, 10);
    // Storage is not ready yet, so Service still cannot activate.
    assert_eq!(engine.try_reconfigure(TaskId::new(12), true), ManagerDirective::Idle);
    assert_eq!(engine.state_of(TaskId::new(12)), Some(LifecycleState::NotConfigured));

    drive_to_ready(&mut engine, 11);
    assert!(engine.is_ready(TaskId::new(12)));
    assert_eq!(engine.try_reconfigure(TaskId::new(12), true), ManagerDirective::Start);
    assert_eq!(engine.state_of(TaskId::new(12)), Some(LifecycleState::Configuring));
}

#[test]
fn snapshot_lists_every_task_state() {
    let tasks = vec![def(1, &[]), def(2, &[1])];
    let graph = DependencyGraph::new(tasks).unwrap();
    let mut engine = Orchestrator::from_graph(graph, 3, 100);
    drive_to_ready(&mut engine, 1);
    let snap = engine.snapshot();
    assert_eq!(snap.len(), 2);
    assert_eq!(snap[0], (TaskId::new(1), LifecycleState::Ready));
    assert_eq!(snap[1], (TaskId::new(2), LifecycleState::NotConfigured));
}

#[test]
fn unknown_task_is_ignored() {
    let tasks = vec![def(1, &[])];
    let graph = DependencyGraph::new(tasks).unwrap();
    let mut engine = Orchestrator::from_graph(graph, 3, 100);
    assert_eq!(engine.state_of(TaskId::new(9)), None);
    assert_eq!(engine.try_reconfigure(TaskId::new(9), true), ManagerDirective::Idle);
    assert!(!engine.is_ready(TaskId::new(9)));
}
