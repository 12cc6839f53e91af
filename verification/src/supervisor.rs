//! The top-level composition: a validated dependency graph, one lifecycle
//! manager per task, dependency-gated activation, and the supervisor actor
//! that reacts to dashboard events.

use vstd::prelude::*;
use crate::actors::ActorContext;
use crate::actors::ActorState;
use crate::actors::Address;
use crate::checker::CheckerEvent;
use crate::graph::DependencyGraph;
use crate::graph::TaskDef;
use crate::graph::TaskId;
use crate::lifecycle::ContainerManager;
use crate::lifecycle::LifecycleState;
use crate::lifecycle::ManagerDirective;
use crate::lifecycle::spec_event_step;
use crate::lifecycle::spec_reconfigure_step;

verus! {

/// Some task of the set carries this id.
pub open spec fn has_task(tasks: Seq<TaskDef>, id: TaskId) -> bool {
    exists|i: int| 0 <= i < tasks.len() && #[trigger] tasks[i].id == id
}

/// The index of the task carrying `id`; meaningful only when `has_task`.
pub open spec fn task_index(tasks: Seq<TaskDef>, id: TaskId) -> int {
    choose|i: int| 0 <= i < tasks.len() && #[trigger] tasks[i].id == id
}

/// Drives the whole task set: the static graph and one lifecycle manager
/// per task, aligned by index.
pub struct Orchestrator {
    pub graph: DependencyGraph,
    pub managers: Vec<ContainerManager>,
}

impl Orchestrator {
    pub open spec fn wf(&self) -> bool {
        &&& self.graph.wf()
        &&& self.managers@.len() == self.graph.spec_tasks().len()
        &&& forall|i: int| 0 <= i < self.managers@.len() ==> (#[trigger] self.managers@[i]).wf()
    }

    pub open spec fn spec_tasks(&self) -> Seq<TaskDef> {
        self.graph.spec_tasks()
    }

    /// The lifecycle state of the task carrying `id`.
    pub open spec fn spec_state_of(&self, id: TaskId) -> Option<LifecycleState> {
        if has_task(self.spec_tasks(), id) {
            Some(self.managers@[task_index(self.spec_tasks(), id)].state)
        } else {
            None
        }
    }

    /// Every dependency of the task at index `i` has reached `Ready`.
    pub open spec fn spec_deps_ready(&self, i: int) -> bool {
        forall|k: int|
            0 <= k < self.spec_tasks()[i].deps.len() ==> self.spec_state_of(
                #[trigger] self.spec_tasks()[i].deps[k],
            ) == Some(LifecycleState::Ready)
    }

    /// Builds the engine from a validated graph, every task unconfigured.
    pub fn from_graph(graph: DependencyGraph, retry_cap: u8, backoff_base_ms: u32) -> (r:
        Orchestrator)
        requires
            graph.wf(),
        ensures
            r.wf(),
            r.spec_tasks() == graph.spec_tasks(),
            forall|i: int|
                0 <= i < r.managers@.len() ==> (#[trigger] r.managers@[i]).state
                    == LifecycleState::NotConfigured && r.managers@[i].retries == 0
                    && r.managers@[i].retry_cap == retry_cap && r.managers@[i].backoff_base_ms
                    == backoff_base_ms,
    {
        let n = graph.len();
        let mut managers: Vec<ContainerManager> = Vec::new();
        let mut i: usize = 0;
        while i < n
            invariant
                0 <= i <= n,
                managers@.len() == i,
                forall|j: int|
                    0 <= j < i ==> (#[trigger] managers@[j]).state
                        == LifecycleState::NotConfigured && managers@[j].retries == 0
                        && managers@[j].retry_cap == retry_cap && managers@[j].backoff_base_ms
                        == backoff_base_ms && managers@[j].wf(),
            decreases n - i,
        {
            managers.push(ContainerManager::new(retry_cap, backoff_base_ms));
            i += 1;
        }
        Orchestrator { graph, managers }
    }

    /// Finds the index of the task carrying `id`.
    fn index_of(&self, id: TaskId) -> (r: Option<usize>)
        requires
            self.wf(),
        ensures
            match r {
                Some(i) => has_task(self.spec_tasks(), id) && i == task_index(
                    self.spec_tasks(),
                    id,
                ) && i < self.spec_tasks().len() && self.spec_tasks()[i as int].id == id,
                None => !has_task(self.spec_tasks(), id),
            },
    {
        let n = self.graph.len();
        let mut i: usize = 0;
        while i < n
            invariant
                self.wf(),
                n == self.spec_tasks().len(),
                0 <= i <= n,
                forall|j: int| 0 <= j < i ==> (#[trigger] self.spec_tasks()[j].id) != id,
            decreases n - i,
        {
            if self.graph.tasks[i].id == id {
                proof {
                    // Distinct ids make the found index the chosen one.
                    let c = task_index(self.spec_tasks(), id);
                    assert(self.spec_tasks()[i as int].id == id);
                    assert(0 <= c < self.spec_tasks().len() && self.spec_tasks()[c].id == id);
                    if c != i as int {
                        assert(false);
                    }
                }
                return Some(i);
            }
            i += 1;
        }
        None
    }

    /// The read-only lifecycle state of one task.
    pub fn state_of(&self, id: TaskId) -> (r: Option<LifecycleState>)
        requires
            self.wf(),
        ensures
            r == self.spec_state_of(id),
    {
        match self.index_of(id) {
            Some(i) => Some(self.managers[i].current_state()),
            None => None,
        }
    }

    /// Whether every dependency of the task carrying `id` is `Ready`.
    pub fn is_ready(&self, id: TaskId) -> (r: bool)
        requires
            self.wf(),
        ensures
            match self.index_of_spec(id) {
                Some(i) => r == self.spec_deps_ready(i as int),
                None => r == false,
            },
    {
        let idx = self.index_of(id);
        match idx {
            Some(i) => self.deps_ready(i),
            None => false,
        }
    }

    /// Ghost companion of `index_of`.
    pub open spec fn index_of_spec(&self, id: TaskId) -> Option<int> {
        if has_task(self.spec_tasks(), id) {
            Some(task_index(self.spec_tasks(), id))
        } else {
            None
        }
    }

    /// Checks the dependencies of the task at index `i` against `Ready`.
    fn deps_ready(&self, i: usize) -> (r: bool)
        requires
            self.wf(),
            i < self.spec_tasks().len(),
        ensures
            r == self.spec_deps_ready(i as int),
    {
        let nd = self.graph.tasks[i].deps.len();
        let mut k: usize = 0;
        while k < nd
            invariant
                self.wf(),
                i < self.spec_tasks().len(),
                nd == self.spec_tasks()[i as int].deps.len(),
                0 <= k <= nd,
                forall|k2: int|
                    0 <= k2 < k ==> self.spec_state_of(
                        #[trigger] self.spec_tasks()[i as int].deps[k2],
                    ) == Some(LifecycleState::Ready),
            decreases nd - k,
        {
            let d = self.graph.tasks[i].deps[k];
            let ready = match self.state_of(d) {
                Some(LifecycleState::Ready) => true,
                _ => false,
            };
            if !ready {
                return false;
            }
            k += 1;
        }
        true
    }

    /// Applies a should-run verdict to one task, gated on dependency
    /// readiness: an unconfigured task whose dependencies are not all
    /// `Ready` simply stays blocked, which is no error.
    pub fn try_reconfigure(&mut self, id: TaskId, should_run: bool) -> (d: ManagerDirective)
        requires
            old(self).wf(),
        ensures
            final(self).wf(),
            final(self).spec_tasks() == old(self).spec_tasks(),
            match old(self).index_of_spec(id) {
                Some(i) => {
                    if should_run && old(self).managers@[i].state == LifecycleState::NotConfigured
                        && !old(self).spec_deps_ready(i) {
                        d == ManagerDirective::Idle && final(self).managers@
                            == old(self).managers@
                    } else {
                        {
                            let step = spec_reconfigure_step(
                                old(self).managers@[i].state,
                                should_run,
                            );
                            d == step.1 && final(self).managers@ == old(self).managers@.update(
                                i,
                                ContainerManager {
                                    state: step.0,
                                    ..old(self).managers@[i]
                                },
                            )
                        }
                    }
                },
                None => d == ManagerDirective::Idle && final(self).managers@
                    == old(self).managers@,
            },
    {
        let idx = self.index_of(id);
        match idx {
            Some(i) => {
                let gate = should_run && self.managers[i].current_state()
                    == LifecycleState::NotConfigured && !self.deps_ready(i);
                if gate {
                    ManagerDirective::Idle
                } else {
                    let mut m = self.managers.remove(i);
                    let d = m.reconfigure_outcome(should_run);
                    self.managers.insert(i, m);
                    proof {
                        assert(final(self).managers@ =~= old(self).managers@.update(
                            i as int,
                            final(self).managers@[i as int],
                        ));
                    }
                    d
                }
            },
            None => ManagerDirective::Idle,
        }
    }

    /// Routes one checker event to its task's manager.
    pub fn on_checker_event(&mut self, id: TaskId, ev: &CheckerEvent) -> (d: ManagerDirective)
        requires
            old(self).wf(),
        ensures
            final(self).wf(),
            final(self).spec_tasks() == old(self).spec_tasks(),
            match old(self).index_of_spec(id) {
                Some(i) => {
                    let step = spec_event_step(
                        old(self).managers@[i].state,
                        old(self).managers@[i].retries,
                        old(self).managers@[i].retry_cap,
                        old(self).managers@[i].backoff_base_ms,
                        *ev,
                    );
                    d == step.2 && final(self).managers@ == old(self).managers@.update(
                        i,
                        ContainerManager {
                            state: step.0,
                            retries: step.1,
                            ..old(self).managers@[i]
                        },
                    )
                },
                None => d == ManagerDirective::Idle && final(self).managers@
                    == old(self).managers@,
            },
    {
        let idx = self.index_of(id);
        match idx {
            Some(i) => {
                let mut m = self.managers.remove(i);
                let d = m.on_checker_event(ev);
                self.managers.insert(i, m);
                proof {
                    assert(final(self).managers@ =~= old(self).managers@.update(
                        i as int,
                        final(self).managers@[i as int],
                    ));
                }
                d
            },
            None => ManagerDirective::Idle,
        }
    }

    /// Records a successful create-and-start call for one task.
    pub fn on_task_started(&mut self, id: TaskId)
        requires
            old(self).wf(),
        ensures
            final(self).wf(),
            final(self).spec_tasks() == old(self).spec_tasks(),
            match old(self).index_of_spec(id) {
                Some(i) => {
                    if old(self).managers@[i].state == LifecycleState::Configuring
                        || old(self).managers@[i].state == LifecycleState::Failed {
                        final(self).managers@ == old(self).managers@.update(
                            i,
                            ContainerManager {
                                state: LifecycleState::Starting,
                                ..old(self).managers@[i]
                            },
                        )
                    } else {
                        final(self).managers@ == old(self).managers@
                    }
                },
                None => final(self).managers@ == old(self).managers@,
            },
    {
        let idx = self.index_of(id);
        if let Some(i) = idx {
            let advance = match self.managers[i].current_state() {
                LifecycleState::Configuring => true,
                LifecycleState::Failed => true,
                _ => false,
            };
            if advance {
                let mut m = self.managers.remove(i);
                m.on_started();
                self.managers.insert(i, m);
                proof {
                    assert(final(self).managers@ =~= old(self).managers@.update(
                        i as int,
                        final(self).managers@[i as int],
                    ));
                }
            }
        }
    }

    /// A read-only snapshot of every task's lifecycle state, in graph
    /// order, for the observability layer.
    pub fn snapshot(&self) -> (r: Vec<(TaskId, LifecycleState)>)
        requires
            self.wf(),
        ensures
            r@.len() == self.spec_tasks().len(),
            forall|i: int|
                0 <= i < r@.len() ==> #[trigger] r@[i] == (
                    self.spec_tasks()[i].id,
                    self.managers@[i].state,
                ),
    {
        let n = self.graph.len();
        let mut r: Vec<(TaskId, LifecycleState)> = Vec::new();
        let mut i: usize = 0;
        while i < n
            invariant
                self.wf(),
                n == self.spec_tasks().len(),
                0 <= i <= n,
                r@.len() == i,
                forall|j: int|
                    0 <= j < i ==> #[trigger] r@[j] == (
                        self.spec_tasks()[j].id,
                        self.managers@[j].state,
                    ),
            decreases n - i,
        {
            r.push((self.graph.tasks[i].id, self.managers[i].current_state()));
            i += 1;
        }
        r
    }
}

/// Event the dashboard reports to the supervisor.
#[derive(Clone, Copy, PartialEq, Eq, Structural, Debug)]
pub enum DashboardEvent {
    /// The dashboard ended; the supervisor shuts the process down.
    Terminated,
}

/// Top-level actor owning the addresses of its workers and the
/// orchestration engine.
pub struct Supervisor {
    pub dashboard: Option<Address>,
    pub onboarding: Option<Address>,
    pub engine: Option<Orchestrator>,
}

impl Supervisor {
    pub fn new() -> (r: Supervisor)
        ensures
            r.dashboard is None,
            r.onboarding is None,
            r.engine is None,
    {
        Supervisor { dashboard: None, onboarding: None, engine: None }
    }

    /// Takes ownership of the started workers and the engine.
    pub fn initialize(&mut self, engine: Orchestrator)
        requires
            engine.wf(),
        ensures
            final(self).dashboard == Some(Address { state: ActorState::Active }),
            final(self).onboarding == Some(Address { state: ActorState::Active }),
            final(self).engine == Some(engine),
    {
        self.dashboard = Some(Address { state: ActorState::Active });
        self.onboarding = Some(Address { state: ActorState::Active });
        self.engine = Some(engine);
    }

    /// Reacts to a dashboard event: termination releases the dashboard
    /// address and shuts the supervisor's own mailbox down.
    pub fn handle(&mut self, event: DashboardEvent, ctx: &mut ActorContext<DashboardEvent>)
        ensures
            event == DashboardEvent::Terminated ==> final(self).dashboard is None
                && final(ctx).spec_state() == ActorState::Stopped && final(ctx).spec_queue()
                == old(ctx).spec_queue(),
            final(self).onboarding == old(self).onboarding,
            final(self).engine == old(self).engine,
    {
        match event {
            DashboardEvent::Terminated => {
                self.dashboard = None;
                ctx.shutdown();
            },
        }
    }
}

} // verus!
