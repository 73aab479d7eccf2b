//! The sporadic tasks: the on-call producer, the external event server and
//! the activation log reader.

use vstd::prelude::*;
use crate::channel::{received, BoundedChannel, ReceiveError, WorkItem};
use crate::resource_lock::SharedLog;
use crate::scheduler::{SchedError, Scheduler};
use crate::time::{timing, timing_of, TimeInstant, Timing};
use crate::types::activation_log::written;
use crate::types::generic::ActivationEntry;

verus! {

/// The least time between two activations of the on-call producer in the
/// reference task set, in milliseconds.
pub const ON_CALL_PRODUCER_MIN_SEP: u32 = 3000;

/// The same for the external event server.
pub const EXTERNAL_EVENT_SERVER_MIN_SEP: u32 = 5000;

/// The same for the activation log reader.
pub const ACTIVATION_LOG_READER_MIN_SEP: u32 = 3000;

/// What one activation of the on-call producer came to.
#[derive(Clone, Copy, Debug, PartialEq, Eq, Structural)]
pub enum OnCallActivation {
    /// The item was taken from the channel and is to be worked on.
    Processed(WorkItem, Timing),
    /// Nothing is queued: the task waits for the next item.
    Waiting,
    /// The channel is closed and empty: the task ends.
    Finished,
}

/// One activation of the on-call producer, ending at `now`.
///
/// The task takes the oldest item from the channel. Its minimum separation,
/// `min_sep` milliseconds, runs from the release instant of the item, not
/// from the end of the work.
pub fn on_call_producer(receiver: &mut BoundedChannel, now: TimeInstant, min_sep: u32) -> (activation:
    OnCallActivation)
    requires
        old(receiver).wf(),
    ensures
        final(receiver).wf(),
        final(receiver).spec_capacity() == old(receiver).spec_capacity(),
        final(receiver).is_open() == old(receiver).is_open(),
        final(receiver)@ == received(old(receiver)@).0,
        old(receiver)@.len() > 0 ==> activation == OnCallActivation::Processed(
            old(receiver)@[0],
            timing_of(old(receiver)@[0].release, now, min_sep),
        ),
        old(receiver)@.len() == 0 && old(receiver).is_open() ==> activation
            == OnCallActivation::Waiting,
        old(receiver)@.len() == 0 && !old(receiver).is_open() ==> activation
            == OnCallActivation::Finished,
{
    match receiver.try_recv() {
        Ok(item) => OnCallActivation::Processed(
            item,
            timing(item.release, now, min_sep),
        ),
        Err(ReceiveError::Empty) => OnCallActivation::Waiting,
        Err(ReceiveError::Closed) => OnCallActivation::Finished,
    }
}

/// What the external event server keeps from one activation to the next.
#[derive(Clone, Copy, Debug, PartialEq, Eq, Structural)]
pub struct ExternalEventServer {
    /// The release instant of the current activation.
    pub next_time: TimeInstant,
    /// The least time between two activations, in milliseconds.
    pub min_sep: u32,
}

impl ExternalEventServer {
    /// The server after an activation that ends at `now`: its release
    /// instant has moved on by the minimum separation, or stays where the
    /// clock cannot count that far.
    pub open spec fn advanced(self, now: TimeInstant) -> ExternalEventServer {
        ExternalEventServer {
            next_time: match timing_of(self.next_time, now, self.min_sep).resume_at {
                Some(next) => next,
                None => self.next_time,
            },
            min_sep: self.min_sep,
        }
    }

    /// Ends an activation at `now`, its write done: gives the times of the
    /// activation and moves the release instant on.
    pub fn advance(&mut self, now: TimeInstant) -> (times: Timing)
        ensures
            times == timing_of(old(self).next_time, now, old(self).min_sep),
            *final(self) == old(self).advanced(now),
    {
        let times = timing(self.next_time, now, self.min_sep);
        match times.resume_at {
            Some(next) => {
                self.next_time = next;
            },
            None => {},
        }
        times
    }
}

/// What one activation of the external event server came to.
#[derive(Clone, Copy, Debug, PartialEq, Eq, Structural)]
pub enum ServerActivation {
    /// The activation was logged.
    Logged(Timing),
    /// The task could not take the lock: nothing was logged.
    Refused(SchedError),
}

/// One activation of the external event server, at `now`.
///
/// The running task `task` writes to the activation log once, under the
/// lock, and moves its release instant on by its minimum separation; where
/// the clock cannot count that far the release instant stays.
pub fn external_event_server(
    state: &mut ExternalEventServer,
    scheduler: &mut Scheduler,
    task: usize,
    actv_log: &mut SharedLog,
    now: TimeInstant,
) -> (activation: ServerActivation)
    requires
        old(actv_log).wf(),
        old(scheduler)@.wf(),
    ensures
        final(actv_log).wf(),
        final(actv_log).spec_ceiling() == old(actv_log).spec_ceiling(),
        final(scheduler)@ == old(scheduler)@,
        old(scheduler).acquire_error(task, old(actv_log).spec_ceiling()) is Some ==> {
            &&& activation == ServerActivation::Refused(
                old(scheduler).acquire_error(task, old(actv_log).spec_ceiling())->Some_0,
            )
            &&& final(actv_log)@ == old(actv_log)@
            &&& *final(state) == *old(state)
        },
        old(scheduler).acquire_error(task, old(actv_log).spec_ceiling()) is None ==> {
            &&& activation == ServerActivation::Logged(
                timing_of(old(state).next_time, now, old(state).min_sep),
            )
            &&& final(actv_log)@ == written(old(actv_log)@, now)
            &&& *final(state) == old(state).advanced(now)
        },
{
    match actv_log.write(scheduler, task, now) {
        Ok(()) => ServerActivation::Logged(state.advance(now)),
        Err(error) => ServerActivation::Refused(error),
    }
}

/// What one activation of the activation log reader came to.
#[derive(Clone, Copy, Debug, PartialEq, Eq)]
pub enum ReaderActivation {
    /// The trigger was taken and the log read: the latest entry, or `None`
    /// where no activation has been logged yet.
    Read(Option<ActivationEntry>, Timing),
    /// The task could not take the lock: the trigger stays queued.
    Refused(SchedError),
    /// No trigger is queued: the task waits for the next one.
    Waiting,
    /// The channel is closed and empty: the task ends.
    Finished,
}

/// One activation of the activation log reader, ending at `now`.
///
/// The task looks for a trigger first: with none queued it waits, or ends
/// where the channel is closed, and leaves the lock alone. On a trigger the
/// running task `task` reads the activation log under the lock and then
/// takes the trigger from the channel; where it may not take the lock, the
/// trigger stays queued. Its minimum separation, `min_sep` milliseconds,
/// runs from the release instant of the trigger.
pub fn activation_log_reader(
    scheduler: &mut Scheduler,
    task: usize,
    actv_log: &SharedLog,
    actv_recv: &mut BoundedChannel,
    now: TimeInstant,
    min_sep: u32,
) -> (activation: ReaderActivation)
    requires
        actv_log.wf(),
        old(scheduler)@.wf(),
        old(actv_recv).wf(),
    ensures
        final(scheduler)@ == old(scheduler)@,
        final(actv_recv).wf(),
        final(actv_recv).spec_capacity() == old(actv_recv).spec_capacity(),
        final(actv_recv).is_open() == old(actv_recv).is_open(),
        old(actv_recv)@.len() == 0 ==> {
            &&& final(actv_recv)@ == old(actv_recv)@
            &&& old(actv_recv).is_open() ==> activation == ReaderActivation::Waiting
            &&& !old(actv_recv).is_open() ==> activation == ReaderActivation::Finished
        },
        old(actv_recv)@.len() > 0 && old(scheduler).acquire_error(task, actv_log.spec_ceiling())
            is Some ==> {
            &&& activation == ReaderActivation::Refused(
                old(scheduler).acquire_error(task, actv_log.spec_ceiling())->Some_0,
            )
            &&& final(actv_recv)@ == old(actv_recv)@
        },
        old(actv_recv)@.len() > 0 && old(scheduler).acquire_error(task, actv_log.spec_ceiling())
            is None ==> {
            &&& activation == ReaderActivation::Read(
                actv_log@,
                timing_of(old(actv_recv)@[0].release, now, min_sep),
            )
            &&& final(actv_recv)@ == received(old(actv_recv)@).0
        },
{
    if actv_recv.is_empty() {
        return if actv_recv.is_closed() {
            ReaderActivation::Finished
        } else {
            ReaderActivation::Waiting
        };
    }
    let entry = match actv_log.read(scheduler, task) {
        Ok(entry) => entry,
        Err(error) => {
            return ReaderActivation::Refused(error);
        },
    };
    match actv_recv.try_recv() {
        Ok(trigger) => ReaderActivation::Read(entry, timing(trigger.release, now, min_sep)),
        // A trigger was queued, so neither of these is taken.
        Err(ReceiveError::Empty) => ReaderActivation::Waiting,
        Err(ReceiveError::Closed) => ReaderActivation::Finished,
    }
}

/// A sporadic task whose activation ends at `now` starts its next one, at
/// `next_start`, no sooner than it resumes: at least the minimum separation
/// after the release instant of this one.
pub proof fn lemma_separation_from_release(
    release: TimeInstant,
    now: TimeInstant,
    min_sep: u32,
    next_start: TimeInstant,
)
    requires
        timing_of(release, now, min_sep).resume_at is Some,
        next_start.reached(timing_of(release, now, min_sep).resume_at->Some_0),
    ensures
        next_start.ticks - release.ticks >= min_sep,
{
}

/// The minimum separation of a sporadic task: where an activation starts at
/// its release instant, at `start`, the next one starts at least the minimum
/// separation later.
pub proof fn lemma_minimum_separation(
    release: TimeInstant,
    start: TimeInstant,
    now: TimeInstant,
    min_sep: u32,
    next_start: TimeInstant,
)
    requires
        start.ticks <= release.ticks,
        timing_of(release, now, min_sep).resume_at is Some,
        next_start.reached(timing_of(release, now, min_sep).resume_at->Some_0),
    ensures
        next_start.ticks - start.ticks >= min_sep,
{
}

} // verus!
