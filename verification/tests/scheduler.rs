use taskset::scheduler::{Held, SchedError, Scheduler, Task, TaskState};

fn states(scheduler: &Scheduler) -> Vec<TaskState> {
    (0..scheduler.task_count()).map(|id| scheduler.task(id).unwrap().state).collect()
}

// The reference priorities: log reader 2, on-call producer 4, regular
// producer 6, external event server 7.
fn reference_set() -> Scheduler {
    let mut scheduler = Scheduler::new();
    assert_eq!(scheduler.add_task(2), Ok(0));
    assert_eq!(scheduler.add_task(4), Ok(1));
    assert_eq!(scheduler.add_task(6), Ok(2));
    assert_eq!(scheduler.add_task(7), Ok(3));
    scheduler
}

#[test]
fn new_scheduler_has_no_tasks() {
    let mut scheduler = Scheduler::new();
    assert_eq!(scheduler.task_count(), 0);
    assert_eq!(scheduler.task(0), None);
    assert_eq!(scheduler.lock(), None);
    assert_eq!(scheduler.dispatch(), None);
}

#[test]
fn tasks_start_dormant_and_priorities_are_distinct() {
    let mut scheduler = reference_set();
    assert_eq!(scheduler.task_count(), 4);
    assert_eq!(scheduler.task(2), Some(Task { priority: 6, state: TaskState::Dormant }));
    assert_eq!(scheduler.add_task(6), Err(SchedError::PriorityTaken));
    assert_eq!(scheduler.task_count(), 4);
    assert_eq!(scheduler.task(4), None);
}

#[test]
fn highest_priority_ready_task_runs() {
    let mut scheduler = reference_set();
    assert_eq!(scheduler.dispatch(), None);
    assert_eq!(scheduler.release(1), Ok(()));
    assert_eq!(scheduler.release(0), Ok(()));
    assert_eq!(scheduler.dispatch(), Some(1));
    assert_eq!(
        states(&scheduler),
        vec![TaskState::Runnable, TaskState::Running, TaskState::Dormant, TaskState::Dormant]
    );
}

#[test]
fn newly_released_higher_task_preempts() {
    let mut scheduler = reference_set();
    scheduler.release(1).unwrap();
    assert_eq!(scheduler.dispatch(), Some(1));
    scheduler.release(3).unwrap();
    assert_eq!(scheduler.dispatch(), Some(3));
    assert_eq!(
        states(&scheduler),
        vec![TaskState::Dormant, TaskState::Runnable, TaskState::Dormant, TaskState::Running]
    );
    assert_eq!(scheduler.complete(3), Ok(()));
    assert_eq!(scheduler.dispatch(), Some(1));
    assert_eq!(scheduler.task(3).unwrap().state, TaskState::Dormant);
}

#[test]
fn lower_task_does_not_preempt() {
    let mut scheduler = reference_set();
    scheduler.release(2).unwrap();
    assert_eq!(scheduler.dispatch(), Some(2));
    scheduler.release(0).unwrap();
    assert_eq!(scheduler.dispatch(), Some(2));
    assert_eq!(scheduler.task(0).unwrap().state, TaskState::Runnable);
}

#[test]
fn release_of_a_ready_task_changes_nothing() {
    let mut scheduler = reference_set();
    scheduler.release(2).unwrap();
    scheduler.dispatch();
    assert_eq!(scheduler.release(2), Ok(()));
    assert_eq!(scheduler.task(2).unwrap().state, TaskState::Running);
    assert_eq!(scheduler.release(9), Err(SchedError::NoSuchTask));
}

#[test]
fn suspended_task_waits_until_released_again() {
    let mut scheduler = reference_set();
    scheduler.release(1).unwrap();
    scheduler.release(0).unwrap();
    assert_eq!(scheduler.dispatch(), Some(1));
    assert_eq!(scheduler.suspend(1), Ok(()));
    assert_eq!(scheduler.task(1).unwrap().state, TaskState::Suspended);
    assert_eq!(scheduler.dispatch(), Some(0));
    scheduler.release(1).unwrap();
    assert_eq!(scheduler.dispatch(), Some(1));
    assert_eq!(scheduler.task(0).unwrap().state, TaskState::Runnable);
}

#[test]
fn only_the_running_task_leaves_the_core() {
    let mut scheduler = reference_set();
    scheduler.release(1).unwrap();
    scheduler.release(0).unwrap();
    scheduler.dispatch();
    assert_eq!(scheduler.suspend(0), Err(SchedError::NotRunning));
    assert_eq!(scheduler.complete(2), Err(SchedError::NotRunning));
    assert_eq!(scheduler.suspend(7), Err(SchedError::NoSuchTask));
    assert_eq!(scheduler.complete(7), Err(SchedError::NoSuchTask));
}

#[test]
fn lock_holder_runs_at_the_ceiling() {
    let mut scheduler = reference_set();
    scheduler.release(0).unwrap();
    assert_eq!(scheduler.dispatch(), Some(0));
    assert_eq!(scheduler.acquire(0, 7), Ok(()));
    assert_eq!(scheduler.lock(), Some(Held { holder: 0, ceiling: 7 }));
    // Every other user of the resource is held back, the one at the ceiling too.
    scheduler.release(1).unwrap();
    scheduler.release(3).unwrap();
    assert_eq!(scheduler.dispatch(), Some(0));
    assert_eq!(scheduler.task(3).unwrap().state, TaskState::Runnable);
    assert_eq!(scheduler.unlock(0), Ok(()));
    assert_eq!(scheduler.lock(), None);
    assert_eq!(scheduler.dispatch(), Some(3));
    assert_eq!(scheduler.task(0).unwrap().state, TaskState::Runnable);
}

#[test]
fn task_above_the_ceiling_preempts_the_holder() {
    let mut scheduler = reference_set();
    scheduler.release(0).unwrap();
    scheduler.dispatch();
    assert_eq!(scheduler.acquire(0, 4), Ok(()));
    scheduler.release(2).unwrap();
    scheduler.release(1).unwrap();
    assert_eq!(scheduler.dispatch(), Some(2));
    // The preempted holder goes on before the other user of the resource.
    assert_eq!(scheduler.complete(2), Ok(()));
    assert_eq!(scheduler.dispatch(), Some(0));
    assert_eq!(scheduler.task(1).unwrap().state, TaskState::Runnable);
    // Preempted, the holder cannot give the lock back.
    scheduler.release(2).unwrap();
    assert_eq!(scheduler.dispatch(), Some(2));
    assert_eq!(scheduler.unlock(0), Err(SchedError::NotRunning));
}

#[test]
fn lock_errors() {
    let mut scheduler = reference_set();
    scheduler.release(2).unwrap();
    scheduler.dispatch();
    assert_eq!(scheduler.acquire(9, 7), Err(SchedError::NoSuchTask));
    assert_eq!(scheduler.acquire(1, 7), Err(SchedError::NotRunning));
    assert_eq!(scheduler.acquire(2, 5), Err(SchedError::AboveCeiling));
    assert_eq!(scheduler.unlock(2), Err(SchedError::NotHolder));
    assert_eq!(scheduler.acquire(2, 6), Ok(()));
    assert_eq!(scheduler.acquire(2, 7), Err(SchedError::LockHeld));
    assert_eq!(scheduler.unlock(1), Err(SchedError::NotHolder));
    assert_eq!(scheduler.unlock(9), Err(SchedError::NoSuchTask));
}

#[test]
fn task_never_suspends_or_ends_with_the_lock_held() {
    let mut scheduler = reference_set();
    scheduler.release(3).unwrap();
    scheduler.dispatch();
    scheduler.acquire(3, 7).unwrap();
    assert_eq!(scheduler.suspend(3), Err(SchedError::HoldsLock));
    assert_eq!(scheduler.complete(3), Err(SchedError::HoldsLock));
    assert_eq!(scheduler.task(3).unwrap().state, TaskState::Running);
    scheduler.unlock(3).unwrap();
    assert_eq!(scheduler.suspend(3), Ok(()));
}
