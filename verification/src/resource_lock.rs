//! The lock of the shared activation log.
//!
//! Tasks of different priorities reach the log only through this lock. An
//! access takes the lock, which lifts the running task to the log's ceiling,
//! touches the log, and gives the lock back, all in one step that never
//! suspends; no reference to the log leaves the step.

use vstd::prelude::*;
use crate::scheduler::{Priority, SchedError, Scheduler};
use crate::types::activation_log::{after_writes, lemma_counter_after_writes, written, ActivationLog};
use crate::types::generic::{ActivationEntry, TimeInstant};

verus! {

/// The ceiling under which nothing preempts: a full critical section.
pub const NO_PREEMPTION: Priority = 255;

/// The activation log behind its lock.
pub struct SharedLog {
    log: ActivationLog,
    ceiling: Priority,
}

impl View for SharedLog {
    type V = Option<ActivationEntry>;

    closed spec fn view(&self) -> Option<ActivationEntry> {
        self.log@
    }
}

impl SharedLog {
    /// The highest priority among the tasks that use the log.
    pub closed spec fn spec_ceiling(&self) -> Priority {
        self.ceiling
    }

    /// The log behind the lock is a valid one.
    pub closed spec fn wf(&self) -> bool {
        self.log.wf()
    }

    /// A written log holds a counter below 100.
    pub proof fn lemma_counter_in_range(&self)
        requires
            self.wf(),
        ensures
            self@ is Some ==> self@->Some_0.0 < 100,
    {
    }

    /// An unwritten log whose users have priorities up to `ceiling`.
    pub fn new(ceiling: Priority) -> (shared: SharedLog)
        ensures
            shared.wf(),
            shared@ is None,
            shared.spec_ceiling() == ceiling,
    {
        SharedLog { log: ActivationLog::build(), ceiling }
    }

    /// The highest priority among the tasks that use the log.
    pub fn ceiling(&self) -> (ceiling: Priority)
        ensures
            ceiling == self.spec_ceiling(),
    {
        self.ceiling
    }

    /// The running task `task` logs one activation at `now` under the lock.
    /// The write is refused, and the log untouched, where the task may not
    /// take the lock. The scheduler is left as it was found.
    pub fn write(&mut self, scheduler: &mut Scheduler, task: usize, now: TimeInstant) -> (outcome:
        Result<(), SchedError>)
        requires
            old(self).wf(),
            old(scheduler)@.wf(),
        ensures
            final(self).wf(),
            final(self).spec_ceiling() == old(self).spec_ceiling(),
            final(scheduler)@ == old(scheduler)@,
            old(scheduler).acquire_error(task, old(self).spec_ceiling()) is Some ==> outcome
                == Err::<(), SchedError>(
                old(scheduler).acquire_error(task, old(self).spec_ceiling())->Some_0,
            ) && final(self)@ == old(self)@,
            old(scheduler).acquire_error(task, old(self).spec_ceiling()) is None ==> outcome
                == Ok::<(), SchedError>(()) && final(self)@ == written(old(self)@, now),
    {
        match scheduler.acquire(task, self.ceiling) {
            Ok(()) => {
                self.log.write(now);
                // The task has the lock and the core: it can give the lock back.
                let _ = scheduler.unlock(task);
                Ok(())
            },
            Err(error) => Err(error),
        }
    }

    /// The running task `task` reads the log under the lock: the latest
    /// entry, counter and timestamp of one and the same write, or `None`
    /// while the log is unwritten. The scheduler is left as it was found.
    pub fn read(&self, scheduler: &mut Scheduler, task: usize) -> (outcome: Result<
        Option<ActivationEntry>,
        SchedError,
    >)
        requires
            self.wf(),
            old(scheduler)@.wf(),
        ensures
            final(scheduler)@ == old(scheduler)@,
            old(scheduler).acquire_error(task, self.spec_ceiling()) is Some ==> outcome == Err::<
                Option<ActivationEntry>,
                SchedError,
            >(old(scheduler).acquire_error(task, self.spec_ceiling())->Some_0),
            old(scheduler).acquire_error(task, self.spec_ceiling()) is None ==> outcome == Ok::<
                Option<ActivationEntry>,
                SchedError,
            >(self@),
    {
        match scheduler.acquire(task, self.ceiling) {
            Ok(()) => {
                let entry = match self.log.read() {
                    Ok(entry) => Some(entry),
                    Err(_) => None,
                };
                // The task has the lock and the core: it can give the lock back.
                let _ = scheduler.unlock(task);
                Ok(entry)
            },
            Err(error) => Err(error),
        }
    }
}

/// One access to the shared log.
pub enum Access {
    /// A write at the given instant.
    Write(TimeInstant),
    /// A read.
    Read,
}

/// The log after the accesses of `trace`, in order, to an unwritten log.
pub open spec fn log_after(trace: Seq<Access>) -> Option<ActivationEntry>
    decreases trace.len(),
{
    if trace.len() == 0 {
        None
    } else {
        match trace.last() {
            Access::Write(now) => written(log_after(trace.drop_last()), now),
            Access::Read => log_after(trace.drop_last()),
        }
    }
}

/// The instants of the writes of `trace`, in order.
pub open spec fn writes_of(trace: Seq<Access>) -> Seq<TimeInstant>
    decreases trace.len(),
{
    if trace.len() == 0 {
        Seq::empty()
    } else {
        match trace.last() {
            Access::Write(now) => writes_of(trace.drop_last()).push(now),
            Access::Read => writes_of(trace.drop_last()),
        }
    }
}

/// However the writes and reads of several tasks interleave, no write is
/// lost and no read is torn: after any trace the log is what the writes of
/// the trace alone leave, so that a read which follows `k` writes sees the
/// counter `k mod 100` together with the instant of the `k`-th write, and a
/// read which follows none sees an unwritten log.
pub proof fn lemma_accesses_are_atomic(trace: Seq<Access>)
    ensures
        log_after(trace) == after_writes(writes_of(trace)),
        writes_of(trace).len() == 0 ==> log_after(trace) is None,
        writes_of(trace).len() > 0 ==> log_after(trace) == Some(
            ((writes_of(trace).len() % 100) as u8, writes_of(trace).last()),
        ),
    decreases trace.len(),
{
    if trace.len() > 0 {
        lemma_accesses_are_atomic(trace.drop_last());
    }
    lemma_counter_after_writes(writes_of(trace));
}

} // verus!
