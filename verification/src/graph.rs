//! Static task dependency graph and its deterministic scheduler order.
//!
//! A set of managed tasks forms a directed graph under their `deps` sets.
//! Construction validates that identifiers are unique and that every
//! dependency names a task of the set; `topological_order` then produces
//! the unique startup linearization that places every task after its
//! dependencies, breaking ties between unordered tasks by ascending id.

use vstd::prelude::*;

verus! {

/// Identity of one managed task, unique within a graph and fixed for the
/// process lifetime.
#[derive(Clone, Copy, PartialEq, Eq, Structural, Debug, Hash)]
pub struct TaskId {
    pub code: u64,
}

impl TaskId {
    pub fn new(code: u64) -> (r: TaskId)
        ensures
            r.code == code,
    {
        TaskId { code }
    }
}

/// One managed task: its identity and the identities it depends on.
#[derive(Debug)]
pub struct TaskDef {
    pub id: TaskId,
    pub deps: Vec<TaskId>,
}

/// Errors of graph construction and ordering.
#[derive(Clone, Copy, PartialEq, Eq, Structural, Debug)]
pub enum GraphError {
    /// Two tasks share one identifier.
    DuplicateTask,
    /// A dependency names no task of the set.
    UnknownDependency,
    /// The dependency relation contains a cycle.
    CyclicDependency,
}

/// The ids of a task sequence, in task order.
pub open spec fn ids_of(tasks: Seq<TaskDef>) -> Seq<TaskId> {
    tasks.map_values(|t: TaskDef| t.id)
}

/// No two tasks share an id.
pub open spec fn distinct_ids(tasks: Seq<TaskDef>) -> bool {
    forall|i: int, j: int|
        0 <= i < j < tasks.len() ==> tasks[i].id != tasks[j].id
}

/// Every dependency of every task is the id of some task of the set.
pub open spec fn deps_closed(tasks: Seq<TaskDef>) -> bool {
    forall|i: int, k: int|
        0 <= i < tasks.len() && 0 <= k < tasks[i].deps.len()
            ==> ids_of(tasks).contains(#[trigger] tasks[i].deps[k])
}

/// Task at index `i` has every dependency inside `done`.
pub open spec fn task_ready(tasks: Seq<TaskDef>, done: Seq<TaskId>, i: int) -> bool {
    forall|k: int| 0 <= k < tasks[i].deps.len() ==> done.contains(#[trigger] tasks[i].deps[k])
}

/// `id` is the ready-and-unplaced task id with the smallest code, given the
/// already placed prefix `done`.
pub open spec fn min_ready(tasks: Seq<TaskDef>, done: Seq<TaskId>, id: TaskId) -> bool {
    &&& exists|i: int|
        0 <= i < tasks.len() && #[trigger] tasks[i].id == id && task_ready(tasks, done, i)
    &&& !done.contains(id)
    &&& forall|i: int|
        0 <= i < tasks.len() && task_ready(tasks, done, i) && !done.contains(
            #[trigger] tasks[i].id,
        ) ==> id.code <= tasks[i].id.code
}

/// `order` is a valid startup order: it lists each task id exactly once and
/// places every task after all of its direct dependencies.
pub open spec fn valid_order(tasks: Seq<TaskDef>, order: Seq<TaskId>) -> bool {
    &&& order.len() == tasks.len()
    &&& forall|i: int| 0 <= i < tasks.len() ==> order.contains(#[trigger] tasks[i].id)
    &&& forall|a: int, b: int| 0 <= a < b < order.len() ==> order[a] != order[b]
    &&& forall|j: int, i: int, k: int|
        #![trigger order[j], tasks[i].deps[k]]
        0 <= j < order.len() && 0 <= i < tasks.len() && tasks[i].id == order[j] && 0 <= k
            < tasks[i].deps.len() ==> order.take(j).contains(tasks[i].deps[k])
}

/// `order` is, step by step, the greedy smallest-id choice among the tasks
/// whose dependencies are already placed.  Exactly one sequence satisfies
/// this for a given task set, which makes the scheduler deterministic.
pub open spec fn greedy_order(tasks: Seq<TaskDef>, order: Seq<TaskId>) -> bool {
    forall|j: int| 0 <= j < order.len() ==> min_ready(tasks, order.take(j), #[trigger] order[j])
}

/// Some task carries id `a` and lists `b` among its dependencies.
pub open spec fn direct_dep(tasks: Seq<TaskDef>, a: TaskId, b: TaskId) -> bool {
    exists|i: int|
        0 <= i < tasks.len() && #[trigger] tasks[i].id == a && tasks[i].deps@.contains(b)
}

/// The task with id `id` has a dependency inside `w`.
pub open spec fn blocked_task(tasks: Seq<TaskDef>, w: Seq<TaskId>, id: TaskId) -> bool {
    exists|i: int|
        0 <= i < tasks.len() && #[trigger] tasks[i].id == id && exists|k: int|
            0 <= k < tasks[i].deps.len() && w.contains(#[trigger] tasks[i].deps[k])
}

/// `w` names a nonempty set of tasks each of which depends on a member of
/// `w`: the standard witness that the graph has a cycle.
pub open spec fn stuck_set(tasks: Seq<TaskDef>, w: Seq<TaskId>) -> bool {
    &&& w.len() > 0
    &&& forall|j: int| 0 <= j < w.len() ==> blocked_task(tasks, w, #[trigger] w[j])
}

/// The dependency relation has no cycle.
pub open spec fn acyclic(tasks: Seq<TaskDef>) -> bool {
    forall|w: Seq<TaskId>| !stuck_set(tasks, w)
}

/// `a` depends on `b` through a chain of at most `n + 1` edges.
pub open spec fn depends_on(tasks: Seq<TaskDef>, a: TaskId, b: TaskId, n: nat) -> bool
    decreases n,
{
    ||| direct_dep(tasks, a, b)
    ||| (n > 0 && exists|c: TaskId|
        #[trigger] direct_dep(tasks, a, c) && depends_on(tasks, c, b, (n - 1) as nat))
}

/// The static dependency graph, validated at construction.
pub struct DependencyGraph {
    pub tasks: Vec<TaskDef>,
}

impl DependencyGraph {
    /// Well-formedness established by `new` and kept for the value's life.
    pub open spec fn wf(&self) -> bool {
        &&& distinct_ids(self.tasks@)
        &&& deps_closed(self.tasks@)
    }

    pub open spec fn spec_tasks(&self) -> Seq<TaskDef> {
        self.tasks@
    }

    /// Builds a graph from the static task list, rejecting duplicate ids
    /// and dependencies that name no task.
    pub fn new(tasks: Vec<TaskDef>) -> (r: Result<DependencyGraph, GraphError>)
        ensures
            r is Ok <==> (distinct_ids(tasks@) && deps_closed(tasks@)),
            r is Ok ==> r->Ok_0.wf() && r->Ok_0.spec_tasks() == tasks@,
            r == Err::<DependencyGraph, GraphError>(GraphError::DuplicateTask) <==> !distinct_ids(
                tasks@,
            ),
            r == Err::<DependencyGraph, GraphError>(GraphError::UnknownDependency) <==> (
            distinct_ids(tasks@) && !deps_closed(tasks@)),
    {
        let n = tasks.len();
        let mut i: usize = 0;
        while i < n
            invariant
                n == tasks.len(),
                0 <= i <= n,
                forall|a: int, b: int| 0 <= a < b < i ==> tasks@[a].id != tasks@[b].id,
            decreases n - i,
        {
            let mut j: usize = 0;
            while j < i
                invariant
                    n == tasks.len(),
                    0 <= j <= i < n,
                    forall|b: int| 0 <= b < j ==> tasks@[b].id != tasks@[i as int].id,
                decreases i - j,
            {
                if tasks[j].id == tasks[i].id {
                    return Err(GraphError::DuplicateTask);
                }
                j += 1;
            }
            i += 1;
        }
        assert(distinct_ids(tasks@));
        let mut i: usize = 0;
        while i < n
            invariant
                n == tasks.len(),
                0 <= i <= n,
                forall|a: int, k: int|
                    0 <= a < i && 0 <= k < tasks@[a].deps.len() ==> ids_of(tasks@).contains(
                        #[trigger] tasks@[a].deps[k],
                    ),
                distinct_ids(tasks@),
            decreases n - i,
        {
            let nd = tasks[i].deps.len();
            let mut k: usize = 0;
            while k < nd
                invariant
                    n == tasks.len(),
                    0 <= i < n,
                    distinct_ids(tasks@),
                    nd == tasks@[i as int].deps.len(),
                    0 <= k <= nd,
                    forall|k2: int|
                        0 <= k2 < k ==> ids_of(tasks@).contains(
                            #[trigger] tasks@[i as int].deps[k2],
                        ),
                decreases nd - k,
            {
                let d = tasks[i].deps[k];
                let mut found = false;
                let mut j: usize = 0;
                while j < n
                    invariant
                        n == tasks.len(),
                        0 <= j <= n,
                        found ==> ids_of(tasks@).contains(d),
                        !found ==> forall|b: int| 0 <= b < j ==> tasks@[b].id != d,
                    decreases n - j,
                {
                    if tasks[j].id == d {
                        found = true;
                        assert(ids_of(tasks@)[j as int] == d);
                    }
                    j += 1;
                }
                if !found {
                    assert(!deps_closed(tasks@)) by {
                        assert(forall|b: int|
                            0 <= b < tasks@.len() ==> ids_of(tasks@)[b] == #[trigger] tasks@[b].id);
                        assert(!ids_of(tasks@).contains(tasks@[i as int].deps[k as int]));
                    }
                    return Err(GraphError::UnknownDependency);
                }
                k += 1;
            }
            i += 1;
        }
        assert(deps_closed(tasks@));
        Ok(DependencyGraph { tasks })
    }

    /// Number of tasks in the graph.
    pub fn len(&self) -> (r: usize)
        ensures
            r == self.spec_tasks().len(),
    {
        self.tasks.len()
    }

    /// The deterministic startup linearization.  On success the order lists
    /// every task exactly once, after all of its dependencies, and is the
    /// greedy ascending-id choice at every step; a cyclic graph is rejected
    /// and leaves a stuck set as witness.
    #[verifier::rlimit(80)]
    pub fn topological_order(&self) -> (r: Result<Vec<TaskId>, GraphError>)
        requires
            self.wf(),
        ensures
            match r {
                Ok(order) => valid_order(self.spec_tasks(), order@) && greedy_order(
                    self.spec_tasks(),
                    order@,
                ),
                Err(e) => e == GraphError::CyclicDependency && exists|w: Seq<TaskId>|
                    stuck_set(self.spec_tasks(), w),
            },
    {
        let ghost tasks = self.tasks@;
        let n = self.tasks.len();
        let mut placed: Vec<bool> = Vec::new();
        let mut i: usize = 0;
        while i < n
            invariant
                0 <= i <= n,
                placed.len() == i,
                forall|a: int| 0 <= a < i ==> !placed@[a],
            decreases n - i,
        {
            placed.push(false);
            i += 1;
        }
        let mut order: Vec<TaskId> = Vec::new();
        let mut round: usize = 0;
        while round < n
            invariant
                self.wf(),
                tasks == self.tasks@,
                n == tasks.len(),
                0 <= round <= n,
                placed.len() == n,
                order.len() == round,
                forall|a: int|
                    0 <= a < n ==> (#[trigger] placed@[a] <==> order@.contains(tasks[a].id)),
                forall|a: int, b: int| 0 <= a < b < round ==> order@[a] != order@[b],
                forall|j: int| 0 <= j < round ==> ids_of(tasks).contains(#[trigger] order@[j]),
                forall|j: int, i2: int, k: int|
                    #![trigger order@[j], tasks[i2].deps[k]]
                    0 <= j < round && 0 <= i2 < n && tasks[i2].id == order@[j] && 0 <= k
                        < tasks[i2].deps.len() ==> order@.take(j).contains(tasks[i2].deps[k]),
                forall|j: int|
                    0 <= j < round ==> min_ready(tasks, order@.take(j), #[trigger] order@[j]),
            decreases n - round,
        {
            let ghost done = order@;
            // Select the unplaced ready task with the smallest id code.
            let mut best: usize = n;
            let mut i2: usize = 0;
            while i2 < n
                invariant
                    self.wf(),
                    tasks == self.tasks@,
                    n == tasks.len(),
                    placed.len() == n,
                    done == order@,
                    forall|a: int|
                        0 <= a < n ==> (#[trigger] placed@[a] <==> order@.contains(tasks[a].id)),
                    0 <= i2 <= n,
                    best <= n,
                    best < n ==> task_ready(tasks, done, best as int) && !done.contains(
                        tasks[best as int].id,
                    ),
                    forall|a: int|
                        0 <= a < i2 && task_ready(tasks, done, a) && !done.contains(
                            #[trigger] tasks[a].id,
                        ) ==> best < n && tasks[best as int].id.code <= tasks[a].id.code,
                decreases n - i2,
            {
                if !placed[i2] {
                    // Check each dependency against the placed prefix.
                    let nd = self.tasks[i2].deps.len();
                    let mut ready = true;
                    let mut k: usize = 0;
                    while k < nd
                        invariant
                            tasks == self.tasks@,
                            n == tasks.len(),
                            0 <= i2 < n,
                            done == order@,
                            nd == tasks[i2 as int].deps.len(),
                            0 <= k <= nd,
                            ready ==> forall|k2: int|
                                0 <= k2 < k ==> done.contains(#[trigger] tasks[i2 as int].deps[k2]),
                            !ready ==> !task_ready(tasks, done, i2 as int),
                        decreases nd - k,
                    {
                        let d = self.tasks[i2].deps[k];
                        let mut in_done = false;
                        let mut m: usize = 0;
                        let olen = order.len();
                        while m < olen
                            invariant
                                done == order@,
                                olen == order.len(),
                                0 <= m <= olen,
                                in_done ==> done.contains(d),
                                !in_done ==> forall|b: int| 0 <= b < m ==> done[b] != d,
                            decreases olen - m,
                        {
                            if order[m] == d {
                                in_done = true;
                            }
                            m += 1;
                        }
                        if !in_done {
                            assert(!done.contains(tasks[i2 as int].deps[k as int]));
                            ready = false;
                        }
                        k += 1;
                    }
                    if ready {
                        if best == n || self.tasks[i2].id.code < self.tasks[best].id.code {
                            best = i2;
                        }
                    }
                }
                i2 += 1;
            }
            if best == n {
                // Every remaining task waits on a remaining task: the
                // unplaced ids are a stuck set witnessing a cycle.
                let mut w: Vec<TaskId> = Vec::new();
                let mut a: usize = 0;
                while a < n
                    invariant
                        self.wf(),
                        tasks == self.tasks@,
                        n == tasks.len(),
                        placed.len() == n,
                        done == order@,
                        order.len() == round < n,
                        forall|b: int|
                            0 <= b < n ==> (#[trigger] placed@[b] <==> done.contains(tasks[b].id)),
                        forall|b: int|
                            0 <= b < n && task_ready(tasks, done, b) ==> done.contains(
                                #[trigger] tasks[b].id,
                            ),
                        forall|j: int| 0 <= j < round ==> ids_of(tasks).contains(#[trigger] done[j]),
                        forall|x: int, y: int| 0 <= x < y < round ==> done[x] != done[y],
                        0 <= a <= n,
                        forall|j: int|
                            0 <= j < w@.len() ==> names_unplaced(tasks, done, #[trigger] w@[j]),
                        forall|b: int|
                            0 <= b < a && !placed@[b] ==> w@.contains(#[trigger] tasks[b].id),
                    decreases n - a,
                {
                    let ghost w_prev = w@;
                    if !placed[a] {
                        w.push(self.tasks[a].id);
                        proof {
                            assert forall|j: int|
                                0 <= j < w@.len() implies names_unplaced(
                                tasks,
                                done,
                                #[trigger] w@[j],
                            ) by {
                                if j < w_prev.len() {
                                    assert(w@[j] == w_prev[j]);
                                } else {
                                    assert(w@[j] == tasks[a as int].id);
                                    assert(!done.contains(tasks[a as int].id));
                                }
                            }
                        }
                    }
                    proof {
                        assert forall|b: int|
                            0 <= b < a + 1 && !placed@[b] implies w@.contains(
                            #[trigger] tasks[b].id,
                        ) by {
                            if b < a {
                                let j = choose|j: int|
                                    0 <= j < w_prev.len() && w_prev[j] == tasks[b].id;
                                assert(w@[j] == tasks[b].id);
                            } else {
                                assert(w@[w@.len() - 1] == tasks[b].id);
                            }
                        }
                    }
                    a += 1;
                }
                assert(w@.len() > 0) by {
                    // `done` holds `round < n` distinct task ids, so some
                    // task id is missing from it and that task is unplaced.
                    if forall|b: int| 0 <= b < n ==> #[trigger] placed@[b] {
                        lemma_distinct_contained_len(tasks, done);
                        assert(false);
                    }
                    let b0 = choose|b: int| 0 <= b < n && !#[trigger] placed@[b];
                    assert(w@.contains(tasks[b0].id));
                }
                proof {
                    lemma_unplaced_stuck(tasks, done, w@);
                    assert(stuck_set(self.spec_tasks(), w@));
                }
                return Err(GraphError::CyclicDependency);
            }
            let chosen = self.tasks[best].id;
            proof {
                assert(min_ready(tasks, done, chosen)) by {
                    assert(tasks[best as int].id == chosen && task_ready(tasks, done, best as int));
                }
            }
            placed.set(best, true);
            order.push(chosen);
            proof {
                assert(order@.take(round as int) == done);
                assert forall|j: int| 0 <= j < round + 1 implies min_ready(
                    tasks,
                    order@.take(j),
                    #[trigger] order@[j],
                ) by {
                    if j < round {
                        assert(order@.take(j) == done.take(j));
                        assert(order@[j] == done[j]);
                    }
                }
                assert forall|j: int, i3: int, k: int|
                    #![trigger order@[j], tasks[i3].deps[k]]
                    0 <= j < round + 1 && 0 <= i3 < n && tasks[i3].id == order@[j] && 0 <= k
                        < tasks[i3].deps.len() implies order@.take(j).contains(
                    tasks[i3].deps[k],
                ) by {
                    if j < round {
                        assert(order@.take(j) == done.take(j));
                        assert(done.take(j).contains(tasks[i3].deps[k]));
                    } else {
                        // The chosen task is ready, and ids are distinct, so
                        // `i3` is the chosen index and its deps sit in `done`.
                        assert(order@[j] == chosen);
                        if i3 != best as int {
                            assert(tasks[i3].id != tasks[best as int].id);
                            assert(false);
                        }
                        assert(done.contains(tasks[i3].deps[k]));
                        assert(order@.take(j) == done);
                    }
                }
                assert forall|a2: int|
                    0 <= a2 < n implies (#[trigger] placed@[a2] <==> order@.contains(
                    tasks[a2].id,
                )) by {
                    if a2 == best as int {
                        assert(order@[round as int] == tasks[a2].id);
                    } else {
                        if order@.contains(tasks[a2].id) {
                            let j = choose|j: int|
                                0 <= j < order@.len() && order@[j] == tasks[a2].id;
                            if j == round as int {
                                assert(tasks[a2].id == chosen);
                                assert(false);
                            }
                            assert(done.contains(tasks[a2].id)) by {
                                assert(done[j] == order@[j]);
                            }
                        }
                        if done.contains(tasks[a2].id) {
                            let j = choose|j: int| 0 <= j < done.len() && done[j] == tasks[a2].id;
                            assert(order@[j] == tasks[a2].id);
                        }
                    }
                }
                assert forall|x: int, y: int| 0 <= x < y < round + 1 implies order@[x]
                    != order@[y] by {
                    if y == round as int {
                        // The chosen id was unplaced, so it differs from
                        // every id already in the prefix.
                        assert(!done.contains(chosen));
                        assert(done[x] == order@[x]);
                    } else {
                        assert(done[x] == order@[x] && done[y] == order@[y]);
                    }
                }
                assert forall|j: int| 0 <= j < round + 1 implies ids_of(tasks).contains(
                    #[trigger] order@[j],
                ) by {
                    if j < round {
                        assert(done[j] == order@[j]);
                    } else {
                        assert(ids_of(tasks)[best as int] == chosen);
                    }
                }
            }
            round += 1;
        }
        proof {
            lemma_full_order_covers(tasks, order@);
        }
        Ok(order)
    }

    /// Checks the graph for cycles without exposing the order.
    pub fn validate(&self) -> (r: Result<(), GraphError>)
        requires
            self.wf(),
        ensures
            r is Ok ==> exists|order: Seq<TaskId>| valid_order(self.spec_tasks(), order),
            r is Err ==> r->Err_0 == GraphError::CyclicDependency && exists|w: Seq<TaskId>|
                stuck_set(self.spec_tasks(), w),
    {
        match self.topological_order() {
            Ok(order) => {
                proof {
                    assert(valid_order(self.spec_tasks(), order@));
                }
                Ok(())
            },
            Err(e) => Err(e),
        }
    }
}

/// A sequence of distinct ids that covers the ids of a duplicate-free task
/// list is at least as long as that list.
proof fn lemma_distinct_contained_len(tasks: Seq<TaskDef>, done: Seq<TaskId>)
    requires
        distinct_ids(tasks),
        forall|x: int, y: int| 0 <= x < y < done.len() ==> done[x] != done[y],
        forall|i: int| 0 <= i < tasks.len() ==> done.contains(#[trigger] tasks[i].id),
    ensures
        done.len() >= tasks.len(),
{
    let done_set = done.to_set();
    let id_set = ids_of(tasks).to_set();
    done.unique_seq_to_set();
    assert(done_set.len() == done.len());
    assert(id_set.subset_of(done_set)) by {
        assert forall|id: TaskId| id_set.contains(id) implies done_set.contains(id) by {
            let i = choose|i: int| 0 <= i < ids_of(tasks).len() && ids_of(tasks)[i] == id;
            assert(tasks[i].id == id);
            assert(done.contains(id));
        }
    }
    assert(id_set.len() == tasks.len()) by {
        assert(ids_of(tasks).len() == tasks.len());
        assert forall|x: int, y: int|
            0 <= x < y < ids_of(tasks).len() implies ids_of(tasks)[x] != ids_of(tasks)[y] by {
            assert(ids_of(tasks)[x] == tasks[x].id && ids_of(tasks)[y] == tasks[y].id);
        }
        ids_of(tasks).unique_seq_to_set();
    }
    vstd::set_lib::lemma_len_subset(id_set, done_set);
}

/// `id` belongs to some task that `done` does not yet list.
pub open spec fn names_unplaced(tasks: Seq<TaskDef>, done: Seq<TaskId>, id: TaskId) -> bool {
    exists|b: int|
        0 <= b < tasks.len() && #[trigger] tasks[b].id == id && !done.contains(tasks[b].id)
}

/// When no unplaced task is ready, the unplaced ids form a stuck set.
proof fn lemma_unplaced_stuck(tasks: Seq<TaskDef>, done: Seq<TaskId>, w: Seq<TaskId>)
    requires
        distinct_ids(tasks),
        deps_closed(tasks),
        w.len() > 0,
        forall|b: int| 0 <= b < tasks.len() && task_ready(tasks, done, b) ==> done.contains(
            #[trigger] tasks[b].id,
        ),
        forall|j: int| 0 <= j < w.len() ==> names_unplaced(tasks, done, #[trigger] w[j]),
        forall|b: int| 0 <= b < tasks.len() && !done.contains(#[trigger] tasks[b].id)
            ==> w.contains(tasks[b].id),
    ensures
        stuck_set(tasks, w),
{
    assert forall|j: int| 0 <= j < w.len() implies blocked_task(tasks, w, #[trigger] w[j]) by {
        let b = choose|b: int|
            0 <= b < tasks.len() && #[trigger] tasks[b].id == w[j] && !done.contains(tasks[b].id);
        // The task is not ready (else it would be in done), so some
        // dependency is outside done; closure puts that dependency among
        // the tasks, and every such unfinished task id was put into w.
        assert(!task_ready(tasks, done, b));
        let k = choose|k: int|
            0 <= k < tasks[b].deps.len() && !done.contains(#[trigger] tasks[b].deps[k]);
        let d = tasks[b].deps[k];
        assert(ids_of(tasks).contains(d));
        let bd = choose|bd: int| 0 <= bd < ids_of(tasks).len() && ids_of(tasks)[bd] == d;
        assert(tasks[bd].id == d);
        assert(w.contains(d));
        assert(0 <= k < tasks[b].deps.len() && w.contains(tasks[b].deps[k]));
    }
}

/// Law: the greedy ascending-id order is unique, so two runs of
/// `topological_order` over the same task set return the same sequence.
pub proof fn lemma_order_deterministic(tasks: Seq<TaskDef>, o1: Seq<TaskId>, o2: Seq<TaskId>)
    requires
        o1.len() == tasks.len(),
        o2.len() == tasks.len(),
        greedy_order(tasks, o1),
        greedy_order(tasks, o2),
    ensures
        o1 =~= o2,
{
    lemma_greedy_prefix(tasks, o1, o2, tasks.len() as int);
    assert(o1.take(tasks.len() as int) =~= o1);
    assert(o2.take(tasks.len() as int) =~= o2);
}

proof fn lemma_greedy_prefix(tasks: Seq<TaskDef>, o1: Seq<TaskId>, o2: Seq<TaskId>, j: int)
    requires
        o1.len() == tasks.len(),
        o2.len() == tasks.len(),
        greedy_order(tasks, o1),
        greedy_order(tasks, o2),
        0 <= j <= tasks.len(),
    ensures
        o1.take(j) =~= o2.take(j),
    decreases j,
{
    if j > 0 {
        lemma_greedy_prefix(tasks, o1, o2, j - 1);
        let done = o1.take(j - 1);
        assert(o2.take(j - 1) =~= done);
        assert(min_ready(tasks, done, o1[j - 1]));
        assert(min_ready(tasks, done, o2[j - 1]));
        // Both are the smallest ready unplaced code, hence equal.
        let i1 = choose|i: int|
            0 <= i < tasks.len() && #[trigger] tasks[i].id == o1[j - 1] && task_ready(
                tasks,
                done,
                i,
            );
        let i2 = choose|i: int|
            0 <= i < tasks.len() && #[trigger] tasks[i].id == o2[j - 1] && task_ready(
                tasks,
                done,
                i,
            );
        assert(o1[j - 1].code <= tasks[i2].id.code);
        assert(o2[j - 1].code <= tasks[i1].id.code);
        assert(o1[j - 1] == o2[j - 1]);
        assert(o1.take(j) =~= o1.take(j - 1).push(o1[j - 1]));
        assert(o2.take(j) =~= o2.take(j - 1).push(o2[j - 1]));
    }
}

/// Law: a valid order places every task after all of its transitive
/// dependencies, not only the direct ones.
pub proof fn lemma_order_respects_transitive_deps(
    tasks: Seq<TaskDef>,
    order: Seq<TaskId>,
    j: int,
    b: TaskId,
    n: nat,
)
    requires
        valid_order(tasks, order),
        0 <= j < order.len(),
        depends_on(tasks, order[j], b, n),
    ensures
        order.take(j).contains(b),
    decreases n,
{
    if direct_dep(tasks, order[j], b) {
        lemma_direct_dep_placed(tasks, order, j, b);
    } else {
        assert(n > 0 && exists|c: TaskId|
            #[trigger] direct_dep(tasks, order[j], c) && depends_on(tasks, c, b, (n - 1) as nat));
        let c = choose|c: TaskId|
            #[trigger] direct_dep(tasks, order[j], c) && depends_on(tasks, c, b, (n - 1) as nat);
        lemma_direct_dep_placed(tasks, order, j, c);
        let m = choose|m: int| 0 <= m < j && order.take(j)[m] == c;
        assert(order[m] == c);
        lemma_order_respects_transitive_deps(tasks, order, m, b, (n - 1) as nat);
        let y = choose|y: int| 0 <= y < m && order.take(m)[y] == b;
        assert(order.take(j)[y] == b);
    }
}

/// A direct dependency of the task at position `j` sits in the prefix.
proof fn lemma_direct_dep_placed(tasks: Seq<TaskDef>, order: Seq<TaskId>, j: int, b: TaskId)
    requires
        valid_order(tasks, order),
        0 <= j < order.len(),
        direct_dep(tasks, order[j], b),
    ensures
        order.take(j).contains(b),
{
    let i = choose|i: int|
        0 <= i < tasks.len() && #[trigger] tasks[i].id == order[j] && tasks[i].deps@.contains(b);
    let k = choose|k: int| 0 <= k < tasks[i].deps@.len() && tasks[i].deps@[k] == b;
    assert(order.take(j).contains(tasks[i].deps[k]));
}

/// Law: a graph that admits a valid order is acyclic, so a successful
/// `topological_order` excludes every cycle and a cyclic set is always
/// rejected.
pub proof fn lemma_valid_order_acyclic(tasks: Seq<TaskDef>, order: Seq<TaskId>)
    requires
        valid_order(tasks, order),
    ensures
        acyclic(tasks),
{
    assert forall|w: Seq<TaskId>| !stuck_set(tasks, w) by {
        if stuck_set(tasks, w) {
            lemma_stuck_disjoint_prefix(tasks, order, w, order.len() as int);
            // The first stuck id belongs to some task, so the order
            // contains it, contradicting disjointness from every position.
            assert(blocked_task(tasks, w, w[0]));
            let b = choose|i: int|
                0 <= i < tasks.len() && #[trigger] tasks[i].id == w[0] && exists|k: int|
                    0 <= k < tasks[i].deps.len() && w.contains(#[trigger] tasks[i].deps[k]);
            assert(order.contains(tasks[b].id));
            let m = choose|m: int| 0 <= m < order.len() && order[m] == w[0];
            assert(!w.contains(order[m]));
        }
    }
}

/// With the stuck ids absent from the first `j` positions, the id at
/// position `j` is not stuck either: its blocking dependency would have to
/// sit in the prefix.
proof fn lemma_stuck_next_excluded(
    tasks: Seq<TaskDef>,
    order: Seq<TaskId>,
    w: Seq<TaskId>,
    j: int,
)
    requires
        valid_order(tasks, order),
        stuck_set(tasks, w),
        0 <= j < order.len(),
        forall|m: int| 0 <= m < j ==> !w.contains(#[trigger] order[m]),
    ensures
        !w.contains(order[j]),
{
    if w.contains(order[j]) {
        let jw = choose|jw: int| 0 <= jw < w.len() && w[jw] == order[j];
        assert(blocked_task(tasks, w, order[j]));
        let i = choose|i: int|
            0 <= i < tasks.len() && #[trigger] tasks[i].id == order[j] && exists|k: int|
                0 <= k < tasks[i].deps.len() && w.contains(#[trigger] tasks[i].deps[k]);
        let k = choose|k: int|
            0 <= k < tasks[i].deps.len() && w.contains(#[trigger] tasks[i].deps[k]);
        assert(order.take(j).contains(tasks[i].deps[k]));
        let m = choose|m: int| 0 <= m < j && order.take(j)[m] == tasks[i].deps[k];
        assert(order[m] == tasks[i].deps[k]);
    }
}

proof fn lemma_stuck_disjoint_prefix(
    tasks: Seq<TaskDef>,
    order: Seq<TaskId>,
    w: Seq<TaskId>,
    j: int,
)
    requires
        valid_order(tasks, order),
        stuck_set(tasks, w),
        0 <= j <= order.len(),
    ensures
        forall|m: int| 0 <= m < j ==> !w.contains(#[trigger] order[m]),
    decreases j,
{
    if j > 0 {
        lemma_stuck_disjoint_prefix(tasks, order, w, j - 1);
        lemma_stuck_next_excluded(tasks, order, w, j - 1);
    }
}

/// A duplicate-free order drawn from the ids of a duplicate-free task list
/// and as long as that list covers every task id.
proof fn lemma_full_order_covers(tasks: Seq<TaskDef>, done: Seq<TaskId>)
    requires
        distinct_ids(tasks),
        forall|x: int, y: int| 0 <= x < y < done.len() ==> done[x] != done[y],
        forall|j: int| 0 <= j < done.len() ==> ids_of(tasks).contains(#[trigger] done[j]),
        done.len() == tasks.len(),
    ensures
        forall|i: int| 0 <= i < tasks.len() ==> done.contains(#[trigger] tasks[i].id),
{
    let done_set = done.to_set();
    let id_set = ids_of(tasks).to_set();
    done.unique_seq_to_set();
    assert(done_set.len() == done.len());
    assert(id_set.len() == tasks.len()) by {
        assert(ids_of(tasks).len() == tasks.len());
        assert forall|x: int, y: int|
            0 <= x < y < ids_of(tasks).len() implies ids_of(tasks)[x] != ids_of(tasks)[y] by {
            assert(ids_of(tasks)[x] == tasks[x].id && ids_of(tasks)[y] == tasks[y].id);
        }
        ids_of(tasks).unique_seq_to_set();
    }
    assert(done_set.subset_of(id_set)) by {
        assert forall|id: TaskId| done_set.contains(id) implies id_set.contains(id) by {
            let j = choose|j: int| 0 <= j < done.len() && done[j] == id;
            assert(ids_of(tasks).contains(id));
        }
    }
    assert forall|i: int| 0 <= i < tasks.len() implies done.contains(#[trigger] tasks[i].id) by {
        let id = tasks[i].id;
        assert(ids_of(tasks)[i] == id);
        assert(id_set.contains(id));
        if !done_set.contains(id) {
            // Then done_set sits inside id_set less one element, which is
            // too small to hold done's distinct entries.
            assert(done_set.subset_of(id_set.remove(id)));
            vstd::set_lib::lemma_len_subset(done_set, id_set.remove(id));
            assert(id_set.remove(id).len() == id_set.len() - 1);
        }
        let j = choose|j: int| 0 <= j < done.len() && done[j] == id;
    }
}

} // verus!
