use launchpad::graph::DependencyGraph;
use launchpad::graph::GraphError;
use launchpad::graph::TaskDef;
use launchpad::graph::TaskId;
use launchpad::images::standard_tasks;

fn def(code: u64, deps: &[u64]) -> TaskDef {
    TaskDef {
        id: TaskId::new(code),
        deps: deps.iter().map(|c| TaskId::new(*c)).collect(),
    }
}

fn codes(order: &[TaskId]) -> Vec<u64> {
    order.iter().map(|t| t.code).collect()
}

#[test]
fn three_tasks_order_network_storage_service() {
    // Network has no deps, Storage needs Network, Service needs both.
    let tasks = vec![def(12, &[10, 11]), def(10, &[]), def(11, &[10])];
    let graph = DependencyGraph::new(tasks).unwrap();
    let order = graph.topological_order().unwrap();
    assert_eq!(codes(&order), vec![10, 11, 12]);
}

#[test]
fn order_breaks_ties_by_ascending_id() {
    let tasks = vec![def(3, &[]), def(1, &[]), def(2, &[])];
    let graph = DependencyGraph::new(tasks).unwrap();
    let order = graph.topological_order().unwrap();
    assert_eq!(codes(&order), vec![1, 2, 3]);
}

#[test]
fn order_is_deterministic_across_runs() {
    let mk = || vec![def(5, &[2]), def(2, &[7]), def(7, &[]), def(4, &[7, 2])];
    let g1 = DependencyGraph::new(mk()).unwrap();
    let g2 = DependencyGraph::new(mk()).unwrap();
    assert_eq!(g1.topological_order().unwrap(), g2.topological_order().unwrap());
}

#[test]
fn order_places_every_task_after_its_deps() {
    let tasks = vec![def(6, &[4, 5]), def(5, &[4]), def(4, &[]), def(9, &[6])];
    let graph = DependencyGraph::new(tasks).unwrap();
    let order = codes(&graph.topological_order().unwrap());
    assert_eq!(order.len(), 4);
    let pos = |c: u64| order.iter().position(|x| *x == c).unwrap();
    assert!(pos(4) < pos(5));
    assert!(pos(4) < pos(6));
    assert!(pos(5) < pos(6));
    assert!(pos(6) < pos(9));
}

#[test]
fn two_task_cycle_is_rejected() {
    // A depends on B, B depends on A.
    let tasks = vec![def(1, &[2]), def(2, &[1])];
    let graph = DependencyGraph::new(tasks).unwrap();
    assert_eq!(graph.topological_order().unwrap_err(), GraphError::CyclicDependency);
    assert_eq!(graph.validate().unwrap_err(), GraphError::CyclicDependency);
}

#[test]
fn self_cycle_is_rejected() {
    let tasks = vec![def(1, &[1])];
    let graph = DependencyGraph::new(tasks).unwrap();
    assert_eq!(graph.topological_order().unwrap_err(), GraphError::CyclicDependency);
}

#[test]
fn partial_cycle_behind_valid_tasks_is_rejected() {
    let tasks = vec![def(1, &[]), def(2, &[3]), def(3, &[2])];
    let graph = DependencyGraph::new(tasks).unwrap();
    assert_eq!(graph.topological_order().unwrap_err(), GraphError::CyclicDependency);
}

#[test]
fn duplicate_task_id_is_rejected() {
    let tasks = vec![def(1, &[]), def(1, &[])];
    assert!(matches!(DependencyGraph::new(tasks), Err(GraphError::DuplicateTask)));
}

#[test]
fn unknown_dependency_is_rejected() {
    let tasks = vec![def(1, &[9])];
    assert!(matches!(DependencyGraph::new(tasks), Err(GraphError::UnknownDependency)));
}

#[test]
fn empty_task_set_is_valid() {
    let graph = DependencyGraph::new(Vec::new()).unwrap();
    assert!(graph.topological_order().unwrap().is_empty());
}

#[test]
fn standard_task_set_orders_services_after_infrastructure() {
    let graph = DependencyGraph::new(standard_tasks()).unwrap();
    let order = codes(&graph.topological_order().unwrap());
    assert_eq!(order, vec![1, 2, 3, 4, 5, 6, 7, 8]);
}
