//! The fixed-priority preemptive dispatcher of a single core.
//!
//! Every task has one static priority, and no two tasks share one. Among the
//! tasks that are ready the one of highest priority runs. A task that holds
//! the lock of a shared resource runs at the resource's ceiling for as long
//! as it holds it, so that no other user of the resource can preempt it.

use vstd::prelude::*;

verus! {

/// A static priority; a larger number is more urgent.
pub type Priority = u8;

/// Where a task stands in its cycle.
#[derive(Clone, Copy, Debug, PartialEq, Eq, Structural)]
pub enum TaskState {
    /// Not released.
    Dormant,
    /// Released, or preempted, and waiting for the core.
    Runnable,
    /// On the core.
    Running,
    /// Waiting at a suspension point: for an instant, an item or an event.
    Suspended,
}

/// A task: its static priority and where it stands.
#[derive(Clone, Copy, Debug, PartialEq, Eq, Structural)]
pub struct Task {
    pub priority: Priority,
    pub state: TaskState,
}

/// The lock of the shared resource while a task holds it.
#[derive(Clone, Copy, Debug, PartialEq, Eq, Structural)]
pub struct Held {
    /// The task that holds the lock.
    pub holder: usize,
    /// The ceiling of the resource.
    pub ceiling: Priority,
}

/// Why the scheduler refused a request.
#[derive(Clone, Copy, Debug, PartialEq, Eq, Structural)]
pub enum SchedError {
    /// No task has this number.
    NoSuchTask,
    /// Another task already has this priority.
    PriorityTaken,
    /// The task is not the one on the core.
    NotRunning,
    /// The lock is already held.
    LockHeld,
    /// The task's priority is above the resource's ceiling.
    AboveCeiling,
    /// The task does not hold the lock.
    NotHolder,
    /// The task holds the lock, and so may neither suspend nor finish.
    HoldsLock,
}

/// Whether a task in state `from` can be in state `to` next.
pub open spec fn may_become(from: TaskState, to: TaskState) -> bool {
    match from {
        TaskState::Dormant => to == TaskState::Runnable,
        TaskState::Suspended => to == TaskState::Runnable,
        TaskState::Runnable => to == TaskState::Running,
        TaskState::Running => to != TaskState::Running,
    }
}

/// The scheduler as contracts see it.
pub struct SchedulerView {
    pub tasks: Seq<Task>,
    pub lock: Option<Held>,
}

impl SchedulerView {
    /// Whether task `i` is released and not waiting.
    pub open spec fn ready(self, i: int) -> bool {
        self.tasks[i].state == TaskState::Runnable || self.tasks[i].state == TaskState::Running
    }

    /// Whether task `i` holds the lock.
    pub open spec fn holds(self, i: int) -> bool {
        self.lock is Some && self.lock->Some_0.holder == i
    }

    /// The urgency with which task `i` competes for the core: its priority,
    /// or the ceiling while it holds the lock of a resource with a higher
    /// one. Of two tasks at the same level the holder of the lock goes first.
    pub open spec fn rank(self, i: int) -> int {
        if self.holds(i) {
            let ceiling = self.lock->Some_0.ceiling;
            if ceiling > self.tasks[i].priority {
                2 * ceiling + 1
            } else {
                2 * self.tasks[i].priority + 1
            }
        } else {
            2 * self.tasks[i].priority
        }
    }

    /// Whether task `i` is the ready task that the dispatch rule puts on the
    /// core.
    pub open spec fn is_top(self, i: int) -> bool {
        &&& 0 <= i < self.tasks.len()
        &&& self.ready(i)
        &&& forall|j: int| 0 <= j < self.tasks.len() && j != i && self.ready(j) ==> self.rank(j) < self.rank(i)
    }

    /// No two tasks share a priority.
    pub open spec fn distinct_priorities(self) -> bool {
        forall|i: int, j: int|
            0 <= i < self.tasks.len() && 0 <= j < self.tasks.len() && i != j ==> self.tasks[i].priority
                != self.tasks[j].priority
    }

    /// At most one task is on the core.
    pub open spec fn one_running(self) -> bool {
        forall|i: int, j: int|
            0 <= i < self.tasks.len() && 0 <= j < self.tasks.len() && self.tasks[i].state
                == TaskState::Running && self.tasks[j].state == TaskState::Running ==> i == j
    }

    /// The holder of the lock is a ready task whose priority is within the
    /// ceiling: a task never waits or ends with the lock in its hands.
    pub open spec fn holder_ready(self) -> bool {
        self.lock is Some ==> {
            &&& self.lock->Some_0.holder < self.tasks.len()
            &&& self.ready(self.lock->Some_0.holder as int)
            &&& self.tasks[self.lock->Some_0.holder as int].priority <= self.lock->Some_0.ceiling
        }
    }

    /// What holds of every scheduler, whatever has been asked of it.
    pub open spec fn wf(self) -> bool {
        &&& self.distinct_priorities()
        &&& self.one_running()
        &&& self.holder_ready()
    }

    /// The dispatch rule holds: the ready task of highest rank, if there is
    /// a ready task, is on the core.
    pub open spec fn dispatched(self) -> bool {
        forall|i: int| 0 <= i < self.tasks.len() && self.ready(i) ==> (self.tasks[i].state
            == TaskState::Running <==> self.is_top(i))
    }

    /// The state in which dispatching leaves task `i`.
    pub open spec fn dispatched_state(self, i: int) -> TaskState {
        if self.ready(i) {
            if self.is_top(i) {
                TaskState::Running
            } else {
                TaskState::Runnable
            }
        } else {
            self.tasks[i].state
        }
    }

    /// Whether the tasks of `self` are those of `before`, each in the state
    /// it had or one step on in its cycle: from dormant or suspended to
    /// runnable, from runnable to running, and from running to runnable
    /// (preempted), suspended or dormant.
    pub open spec fn follows(self, before: SchedulerView) -> bool {
        &&& self.tasks.len() == before.tasks.len()
        &&& forall|i: int|
            0 <= i < self.tasks.len() ==> self.tasks[i].priority == before.tasks[i].priority && (
            self.tasks[i].state == before.tasks[i].state || may_become(
                before.tasks[i].state,
                self.tasks[i].state,
            ))
    }

    /// The same tasks with task `i` in state `state`.
    pub open spec fn with_state(self, i: int, state: TaskState) -> SchedulerView {
        SchedulerView {
            tasks: self.tasks.update(i, Task { priority: self.tasks[i].priority, state }),
            lock: self.lock,
        }
    }
}

/// The tasks of one core and the lock of the resource that they share.
pub struct Scheduler {
    tasks: Vec<Task>,
    lock: Option<Held>,
}

impl View for Scheduler {
    type V = SchedulerView;

    closed spec fn view(&self) -> SchedulerView {
        SchedulerView { tasks: self.tasks@, lock: self.lock }
    }
}

impl Scheduler {
    /// A scheduler without tasks, the lock free.
    pub fn new() -> (scheduler: Scheduler)
        ensures
            scheduler@.tasks.len() == 0,
            scheduler@.lock is None,
            scheduler@.wf(),
    {
        Scheduler { tasks: Vec::new(), lock: None }
    }

    /// How many tasks there are.
    pub fn task_count(&self) -> (count: usize)
        ensures
            count == self@.tasks.len(),
    {
        self.tasks.len()
    }

    /// Task `id`, or `None` where there is none of that number.
    pub fn task(&self, id: usize) -> (task: Option<Task>)
        ensures
            id < self@.tasks.len() ==> task == Some(self@.tasks[id as int]),
            id >= self@.tasks.len() ==> task is None,
    {
        if id < self.tasks.len() {
            Some(self.tasks[id])
        } else {
            None
        }
    }

    /// The lock, if a task holds it.
    pub fn lock(&self) -> (lock: Option<Held>)
        ensures
            lock == self@.lock,
    {
        self.lock
    }

    /// Whether some task has priority `priority`.
    pub open spec fn priority_taken(&self, priority: Priority) -> bool {
        exists|i: int| 0 <= i < self@.tasks.len() && self@.tasks[i].priority == priority
    }

    /// Adds a dormant task of priority `priority` and returns its number,
    /// unless another task has that priority already.
    pub fn add_task(&mut self, priority: Priority) -> (id: Result<usize, SchedError>)
        requires
            old(self)@.wf(),
        ensures
            final(self)@.wf(),
            old(self).priority_taken(priority) ==> id == Err::<usize, SchedError>(
                SchedError::PriorityTaken,
            ) && final(self)@ == old(self)@,
            !old(self).priority_taken(priority) ==> id == Ok::<usize, SchedError>(
                old(self)@.tasks.len() as usize,
            ) && final(self)@ == (SchedulerView {
                tasks: old(self)@.tasks.push(Task { priority, state: TaskState::Dormant }),
                lock: old(self)@.lock,
            }),
    {
        let count = self.tasks.len();
        let mut i: usize = 0;
        while i < count
            invariant
                i <= count,
                count == self.tasks.len(),
                self@ == old(self)@,
                self@.wf(),
                forall|j: int| 0 <= j < i ==> self@.tasks[j].priority != priority,
            decreases count - i,
        {
            if self.tasks[i].priority == priority {
                return Err(SchedError::PriorityTaken);
            }
            i = i + 1;
        }
        self.tasks.push(Task { priority, state: TaskState::Dormant });
        Ok(count)
    }

    /// Releases task `id`: a dormant or suspended task becomes runnable. A
    /// task that is ready already stays as it is, so that no task ever runs
    /// twice at once.
    pub fn release(&mut self, id: usize) -> (outcome: Result<(), SchedError>)
        requires
            old(self)@.wf(),
        ensures
            final(self)@.wf(),
            final(self)@.follows(old(self)@),
            id >= old(self)@.tasks.len() ==> outcome == Err::<(), SchedError>(SchedError::NoSuchTask)
                && final(self)@ == old(self)@,
            id < old(self)@.tasks.len() ==> outcome == Ok::<(), SchedError>(()),
            id < old(self)@.tasks.len() && old(self)@.ready(id as int) ==> final(self)@ == old(self)@,
            id < old(self)@.tasks.len() && !old(self)@.ready(id as int) ==> final(self)@ == old(self)@.with_state(id as int, TaskState::Runnable),
    {
        if id >= self.tasks.len() {
            return Err(SchedError::NoSuchTask);
        }
        let task = self.tasks[id];
        match task.state {
            TaskState::Dormant | TaskState::Suspended => {
                self.tasks.set(id, Task { priority: task.priority, state: TaskState::Runnable });
            },
            _ => {},
        }
        Ok(())
    }

    /// Why task `id` may not leave the core, if it may not.
    pub open spec fn leave_error(&self, id: usize) -> Option<SchedError> {
        if id >= self@.tasks.len() {
            Some(SchedError::NoSuchTask)
        } else if self@.tasks[id as int].state != TaskState::Running {
            Some(SchedError::NotRunning)
        } else if self@.holds(id as int) {
            Some(SchedError::HoldsLock)
        } else {
            None
        }
    }

    fn leave(&mut self, id: usize, state: TaskState) -> (outcome: Result<(), SchedError>)
        requires
            old(self)@.wf(),
            state == TaskState::Suspended || state == TaskState::Dormant,
        ensures
            final(self)@.wf(),
            final(self)@.follows(old(self)@),
            old(self).leave_error(id) is Some ==> outcome == Err::<(), SchedError>(
                old(self).leave_error(id)->Some_0,
            ) && final(self)@ == old(self)@,
            old(self).leave_error(id) is None ==> outcome == Ok::<(), SchedError>(()) && final(self)@ == old(self)@.with_state(id as int, state),
    {
        if id >= self.tasks.len() {
            return Err(SchedError::NoSuchTask);
        }
        let task = self.tasks[id];
        if task.state != TaskState::Running {
            return Err(SchedError::NotRunning);
        }
        match self.lock {
            Some(held) => {
                if held.holder == id {
                    return Err(SchedError::HoldsLock);
                }
            },
            None => {},
        }
        self.tasks.set(id, Task { priority: task.priority, state });
        Ok(())
    }

    /// The running task `id` reaches a suspension point and waits. A task
    /// that holds the lock is refused: it never suspends with the lock held.
    pub fn suspend(&mut self, id: usize) -> (outcome: Result<(), SchedError>)
        requires
            old(self)@.wf(),
        ensures
            final(self)@.wf(),
            final(self)@.follows(old(self)@),
            old(self).leave_error(id) is Some ==> outcome == Err::<(), SchedError>(
                old(self).leave_error(id)->Some_0,
            ) && final(self)@ == old(self)@,
            old(self).leave_error(id) is None ==> outcome == Ok::<(), SchedError>(()) && final(self)@ == old(self)@.with_state(id as int, TaskState::Suspended),
    {
        self.leave(id, TaskState::Suspended)
    }

    /// The running task `id` ends its activation and becomes dormant.
    pub fn complete(&mut self, id: usize) -> (outcome: Result<(), SchedError>)
        requires
            old(self)@.wf(),
        ensures
            final(self)@.wf(),
            final(self)@.follows(old(self)@),
            old(self).leave_error(id) is Some ==> outcome == Err::<(), SchedError>(
                old(self).leave_error(id)->Some_0,
            ) && final(self)@ == old(self)@,
            old(self).leave_error(id) is None ==> outcome == Ok::<(), SchedError>(()) && final(self)@ == old(self)@.with_state(id as int, TaskState::Dormant),
    {
        self.leave(id, TaskState::Dormant)
    }

    /// Why task `id` may not take the lock at ceiling `ceiling`, if it may
    /// not.
    pub open spec fn acquire_error(&self, id: usize, ceiling: Priority) -> Option<SchedError> {
        if id >= self@.tasks.len() {
            Some(SchedError::NoSuchTask)
        } else if self@.tasks[id as int].state != TaskState::Running {
            Some(SchedError::NotRunning)
        } else if self@.lock is Some {
            Some(SchedError::LockHeld)
        } else if self@.tasks[id as int].priority > ceiling {
            Some(SchedError::AboveCeiling)
        } else {
            None
        }
    }

    /// The running task `id` takes the lock of the shared resource, whose
    /// ceiling is `ceiling`, and from now on competes at that ceiling.
    pub fn acquire(&mut self, id: usize, ceiling: Priority) -> (outcome: Result<(), SchedError>)
        requires
            old(self)@.wf(),
        ensures
            final(self)@.wf(),
            final(self)@.tasks == old(self)@.tasks,
            old(self).acquire_error(id, ceiling) is Some ==> outcome == Err::<(), SchedError>(
                old(self).acquire_error(id, ceiling)->Some_0,
            ) && final(self)@ == old(self)@,
            old(self).acquire_error(id, ceiling) is None ==> outcome == Ok::<(), SchedError>(())
                && final(self)@.lock == Some(Held { holder: id, ceiling }),
    {
        if id >= self.tasks.len() {
            return Err(SchedError::NoSuchTask);
        }
        let task = self.tasks[id];
        if task.state != TaskState::Running {
            return Err(SchedError::NotRunning);
        }
        if self.lock.is_some() {
            return Err(SchedError::LockHeld);
        }
        if task.priority > ceiling {
            return Err(SchedError::AboveCeiling);
        }
        self.lock = Some(Held { holder: id, ceiling });
        Ok(())
    }

    /// Why task `id` may not give the lock back, if it may not.
    pub open spec fn unlock_error(&self, id: usize) -> Option<SchedError> {
        if id >= self@.tasks.len() {
            Some(SchedError::NoSuchTask)
        } else if !self@.holds(id as int) {
            Some(SchedError::NotHolder)
        } else if self@.tasks[id as int].state != TaskState::Running {
            Some(SchedError::NotRunning)
        } else {
            None
        }
    }

    /// The running task `id` gives the lock back and competes at its own
    /// priority again.
    pub fn unlock(&mut self, id: usize) -> (outcome: Result<(), SchedError>)
        requires
            old(self)@.wf(),
        ensures
            final(self)@.wf(),
            final(self)@.tasks == old(self)@.tasks,
            old(self).unlock_error(id) is Some ==> outcome == Err::<(), SchedError>(
                old(self).unlock_error(id)->Some_0,
            ) && final(self)@ == old(self)@,
            old(self).unlock_error(id) is None ==> outcome == Ok::<(), SchedError>(()) && final(self)@.lock is None,
    {
        if id >= self.tasks.len() {
            return Err(SchedError::NoSuchTask);
        }
        match self.lock {
            Some(held) => {
                if held.holder != id {
                    return Err(SchedError::NotHolder);
                }
            },
            None => {
                return Err(SchedError::NotHolder);
            },
        }
        if self.tasks[id].state != TaskState::Running {
            return Err(SchedError::NotRunning);
        }
        self.lock = None;
        Ok(())
    }

    fn rank_of(&self, id: usize) -> (rank: u16)
        requires
            id < self@.tasks.len(),
        ensures
            rank == self@.rank(id as int),
    {
        let priority = self.tasks[id].priority;
        match self.lock {
            Some(held) => {
                if held.holder == id {
                    if held.ceiling > priority {
                        2 * (held.ceiling as u16) + 1
                    } else {
                        2 * (priority as u16) + 1
                    }
                } else {
                    2 * (priority as u16)
                }
            },
            None => 2 * (priority as u16),
        }
    }

    fn is_ready(&self, id: usize) -> (ready: bool)
        requires
            id < self@.tasks.len(),
        ensures
            ready == self@.ready(id as int),
    {
        let state = self.tasks[id].state;
        state == TaskState::Runnable || state == TaskState::Running
    }

    /// The ready task of highest rank, if any task is ready.
    fn top(&self) -> (top: Option<usize>)
        requires
            self@.wf(),
        ensures
            top is Some ==> self@.is_top(top->Some_0 as int),
            top is None ==> forall|j: int| 0 <= j < self@.tasks.len() ==> !self@.ready(j),
    {
        let count = self.tasks.len();
        let mut best: Option<usize> = None;
        let mut best_rank: u16 = 0;
        let mut i: usize = 0;
        while i < count
            invariant
                i <= count,
                count == self@.tasks.len(),
                self@.wf(),
                best is None ==> forall|j: int| 0 <= j < i ==> !self@.ready(j),
                best is Some ==> {
                    &&& best->Some_0 < i
                    &&& self@.ready(best->Some_0 as int)
                    &&& best_rank == self@.rank(best->Some_0 as int)
                    &&& forall|j: int|
                        0 <= j < i && j != best->Some_0 && self@.ready(j) ==> self@.rank(j)
                            < self@.rank(best->Some_0 as int)
                },
            decreases count - i,
        {
            if self.is_ready(i) {
                let rank = self.rank_of(i);
                match best {
                    Some(b) => {
                        proof {
                            lemma_ranks_differ(self@, i as int, b as int);
                        }
                        if rank > best_rank {
                            best = Some(i);
                            best_rank = rank;
                        }
                    },
                    None => {
                        best = Some(i);
                        best_rank = rank;
                    },
                }
            }
            i = i + 1;
        }
        best
    }

    /// Applies the dispatch rule and returns the task that runs: the ready
    /// task of highest rank goes on the core, and every other ready task waits
    /// for it. Tasks that are dormant or suspended stay so.
    pub fn dispatch(&mut self) -> (running: Option<usize>)
        requires
            old(self)@.wf(),
        ensures
            final(self)@.wf(),
            final(self)@.follows(old(self)@),
            final(self)@.dispatched(),
            final(self)@.lock == old(self)@.lock,
            final(self)@.tasks.len() == old(self)@.tasks.len(),
            forall|i: int|
                0 <= i < old(self)@.tasks.len() ==> final(self)@.tasks[i] == (Task {
                    priority: old(self)@.tasks[i].priority,
                    state: old(self)@.dispatched_state(i),
                }),
            running is Some ==> old(self)@.is_top(running->Some_0 as int),
            running is None ==> forall|j: int| 0 <= j < old(self)@.tasks.len() ==> !old(self)@.ready(j),
    {
        let top = self.top();
        let count = self.tasks.len();
        let mut i: usize = 0;
        while i < count
            invariant
                i <= count,
                count == self@.tasks.len(),
                count == old(self)@.tasks.len(),
                self@.lock == old(self)@.lock,
                old(self)@.wf(),
                top is Some ==> old(self)@.is_top(top->Some_0 as int),
                top is None ==> forall|j: int| 0 <= j < count ==> !old(self)@.ready(j),
                forall|j: int| i <= j < count ==> self@.tasks[j] == old(self)@.tasks[j],
                forall|j: int|
                    0 <= j < i ==> self@.tasks[j] == (Task {
                        priority: old(self)@.tasks[j].priority,
                        state: old(self)@.dispatched_state(j),
                    }),
            decreases count - i,
        {
            let task = self.tasks[i];
            if task.state == TaskState::Runnable || task.state == TaskState::Running {
                proof {
                    if top is Some && top->Some_0 != i {
                        lemma_ranks_differ(old(self)@, i as int, top->Some_0 as int);
                    }
                }
                let state = if top == Some(i) {
                    TaskState::Running
                } else {
                    TaskState::Runnable
                };
                self.tasks.set(i, Task { priority: task.priority, state });
            }
            i = i + 1;
        }
        proof {
            lemma_dispatch_settles(old(self)@, self@);
        }
        top
    }
}

/// Two tasks never compete at the same rank.
pub proof fn lemma_ranks_differ(view: SchedulerView, i: int, j: int)
    requires
        view.distinct_priorities(),
        0 <= i < view.tasks.len(),
        0 <= j < view.tasks.len(),
        i != j,
    ensures
        view.rank(i) != view.rank(j),
{
}

/// Putting each task in the state that the dispatch rule gives it leaves a
/// valid scheduler in which the rule holds.
proof fn lemma_dispatch_settles(before: SchedulerView, after: SchedulerView)
    requires
        before.wf(),
        after.lock == before.lock,
        after.tasks.len() == before.tasks.len(),
        forall|i: int|
            0 <= i < before.tasks.len() ==> after.tasks[i] == (Task {
                priority: before.tasks[i].priority,
                state: before.dispatched_state(i),
            }),
    ensures
        after.wf(),
        after.dispatched(),
{
    assert forall|i: int| 0 <= i < before.tasks.len() implies after.ready(i) == before.ready(i)
        && after.rank(i) == before.rank(i) by {}
    assert forall|i: int| 0 <= i < before.tasks.len() implies after.is_top(i) == before.is_top(
        i,
    ) by {
        if before.is_top(i) {
            assert(after.is_top(i));
        }
        if after.is_top(i) {
            assert(before.is_top(i));
        }
    }
    assert(after.one_running()) by {
        assert forall|i: int, j: int|
            0 <= i < after.tasks.len() && 0 <= j < after.tasks.len() && after.tasks[i].state
                == TaskState::Running && after.tasks[j].state
                == TaskState::Running implies i == j by {
            if i != j {
                lemma_running_was_top(before, i);
                lemma_running_was_top(before, j);
                assert(before.rank(j) < before.rank(i));
                assert(before.rank(i) < before.rank(j));
            }
        }
    }
}

/// Only the top task is put on the core.
proof fn lemma_running_was_top(before: SchedulerView, i: int)
    requires
        before.wf(),
        0 <= i < before.tasks.len(),
        before.dispatched_state(i) == TaskState::Running,
    ensures
        before.is_top(i),
        before.ready(i),
{
}

/// While a task holds the lock, no other task whose priority is within the
/// ceiling is put on the core: the users of the resource cannot preempt the
/// holder, and cannot start before it when a more urgent task leaves the core.
pub proof fn lemma_users_cannot_preempt(view: SchedulerView, user: int)
    requires
        view.wf(),
        view.lock is Some,
        0 <= user < view.tasks.len(),
        user != view.lock->Some_0.holder,
        view.tasks[user].priority <= view.lock->Some_0.ceiling,
    ensures
        !view.is_top(user),
        view.dispatched_state(user) != TaskState::Running,
{
    let holder = view.lock->Some_0.holder as int;
    assert(view.ready(holder));
    assert(view.rank(user) < view.rank(holder));
}

/// A ready task whose priority is above the ceiling, and above that of every
/// other ready task, is put on the core whoever holds the lock.
pub proof fn lemma_urgent_task_preempts(view: SchedulerView, urgent: int)
    requires
        view.wf(),
        0 <= urgent < view.tasks.len(),
        view.ready(urgent),
        view.lock is Some ==> view.tasks[urgent].priority > view.lock->Some_0.ceiling,
        forall|j: int|
            0 <= j < view.tasks.len() && j != urgent && view.ready(j) ==> view.tasks[j].priority
                < view.tasks[urgent].priority,
    ensures
        view.is_top(urgent),
        view.dispatched_state(urgent) == TaskState::Running,
{
    assert forall|j: int|
        0 <= j < view.tasks.len() && j != urgent && view.ready(j) implies view.rank(j) < view.rank(
        urgent,
    ) by {}
}

} // verus!
