//! The periodic producer.

use vstd::prelude::*;
use crate::channel::{sent, BoundedChannel, TrySendError, WorkItem};
use crate::time::{timing, timing_of, Duration, TimeInstant, Timing};
use crate::utils::activation_condition::{
    activation_log_reader_criterion,
    log_reader_fires,
    next_request,
    on_call_prod_activation_criterion,
    on_call_prod_fires,
};

verus! {

/// The work that the regular producer does in each period.
pub const REGULAR_PRODUCER_WORKLOAD: u32 = 21168;

/// The work that the regular producer asks of the on-call producer.
pub const ON_CALL_PRODUCER_WORKLOAD: u32 = 10564;

/// The work that the activation log reader does on each trigger.
pub const ACTIVATION_LOG_READER_WORKLOAD: u32 = 5004;

/// The period of the regular producer in the reference task set, in
/// milliseconds.
pub const PERIOD: u32 = 1000;

/// What became of an item that a release could forward.
#[derive(Clone, Copy, Debug, PartialEq, Eq, Structural)]
pub enum Forwarded {
    /// The activation criterion did not hold: nothing was to be sent.
    NotDue,
    /// The item was queued.
    Sent,
    /// The channel was full: the item was dropped, which the caller logs.
    Dropped,
    /// The channel was closed: the item was dropped.
    Closed,
}

/// What the regular producer keeps from one release to the next.
#[derive(Clone, Copy, Debug, PartialEq, Eq, Structural)]
pub struct RegularProducer {
    /// The release instant of the current period.
    pub next_time: TimeInstant,
    /// The time from one release to the next, in milliseconds.
    pub period: u32,
    /// How many releases have asked whether to activate the on-call producer.
    pub on_call_requests: i32,
    /// How many releases have asked whether to activate the log reader.
    pub log_reader_requests: i32,
}

/// What one release of the regular producer did.
#[derive(Clone, Copy, Debug, PartialEq, Eq, Structural)]
pub struct ProducerReport {
    pub on_call_prod: Forwarded,
    pub activation_log_reader: Forwarded,
    /// From the release instant to `now`; `None` where `now` comes before
    /// the release instant.
    pub execution_time: Option<Duration>,
    /// The next release instant, one period after this one; `None` where
    /// the clock cannot count that far, and the producer then stays at its
    /// last release.
    pub next_release: Option<TimeInstant>,
}

/// What a send that the criterion `due` asks for, or not, comes to on a
/// queue `queue` of capacity `capacity` whose producer end is open or not.
pub open spec fn forwarded(due: bool, open: bool, queue: Seq<WorkItem>, capacity: int) -> Forwarded {
    if !due {
        Forwarded::NotDue
    } else if !open {
        Forwarded::Closed
    } else if queue.len() < capacity {
        Forwarded::Sent
    } else {
        Forwarded::Dropped
    }
}

/// The queue that such a send leaves.
pub open spec fn queue_after(
    due: bool,
    open: bool,
    queue: Seq<WorkItem>,
    capacity: int,
    item: WorkItem,
) -> Seq<WorkItem> {
    if due && open {
        sent(queue, capacity, item).0
    } else {
        queue
    }
}

/// What a release of the regular producer decides, before anything is sent.
#[derive(Clone, Copy, Debug, PartialEq, Eq, Structural)]
pub struct Release {
    /// The work item for the on-call producer, where its criterion holds.
    pub on_call_prod: Option<WorkItem>,
    /// The trigger for the activation log reader, where its criterion holds.
    pub activation_log_reader: Option<WorkItem>,
    /// The execution time of this release and the instant of the next.
    pub times: Timing,
}

fn forward(item: Option<WorkItem>, channel: &mut BoundedChannel) -> (outcome: Forwarded)
    requires
        old(channel).wf(),
    ensures
        final(channel).wf(),
        final(channel).spec_capacity() == old(channel).spec_capacity(),
        final(channel).is_open() == old(channel).is_open(),
        outcome == forwarded(
            item is Some,
            old(channel).is_open(),
            old(channel)@,
            old(channel).spec_capacity(),
        ),
        item is Some ==> final(channel)@ == queue_after(
            true,
            old(channel).is_open(),
            old(channel)@,
            old(channel).spec_capacity(),
            item->Some_0,
        ),
        item is None ==> final(channel)@ == old(channel)@,
{
    match item {
        Some(item) => match channel.try_send(item) {
            Ok(()) => Forwarded::Sent,
            Err(TrySendError::Full(_)) => Forwarded::Dropped,
            Err(TrySendError::Closed(_)) => Forwarded::Closed,
        },
        None => Forwarded::NotDue,
    }
}

impl RegularProducer {
    /// A producer of period `period` whose first release is at
    /// `first_release`, with no request counted yet.
    pub fn new(first_release: TimeInstant, period: u32) -> (producer: RegularProducer)
        ensures
            producer == (RegularProducer {
                next_time: first_release,
                period,
                on_call_requests: 0,
                log_reader_requests: 0,
            }),
    {
        RegularProducer {
            next_time: first_release,
            period,
            on_call_requests: 0,
            log_reader_requests: 0,
        }
    }

    /// The producer after a release at `now`, and what the release decides:
    /// one request more is counted for each consumer, an item released at
    /// `now` goes to each consumer whose criterion holds of its count, and
    /// the release instant moves on by one period, or stays where the clock
    /// cannot count that far.
    pub open spec fn released(self, now: TimeInstant) -> (RegularProducer, Release) {
        let on_call_requests = next_request(self.on_call_requests);
        let log_reader_requests = next_request(self.log_reader_requests);
        let times = timing_of(self.next_time, now, self.period);
        (
            RegularProducer {
                next_time: match times.resume_at {
                    Some(next) => next,
                    None => self.next_time,
                },
                period: self.period,
                on_call_requests,
                log_reader_requests,
            },
            Release {
                on_call_prod: if on_call_prod_fires(on_call_requests) {
                    Some(WorkItem { magnitude: ON_CALL_PRODUCER_WORKLOAD, release: now })
                } else {
                    None
                },
                activation_log_reader: if log_reader_fires(log_reader_requests) {
                    Some(WorkItem { magnitude: ACTIVATION_LOG_READER_WORKLOAD, release: now })
                } else {
                    None
                },
                times,
            },
        )
    }

    /// Decides one release at `now`: what is to be sent to whom, and when
    /// the producer is released next. Both items carry the one instant
    /// `now`. Nothing is sent here: the caller sends, and drops what a full
    /// channel refuses.
    pub fn release(&mut self, now: TimeInstant) -> (release: Release)
        ensures
            (*final(self), release) == old(self).released(now),
    {
        let on_call_prod = if on_call_prod_activation_criterion(&mut self.on_call_requests) {
            Some(WorkItem { magnitude: ON_CALL_PRODUCER_WORKLOAD, release: now })
        } else {
            None
        };
        let activation_log_reader = if activation_log_reader_criterion(
            &mut self.log_reader_requests,
        ) {
            Some(WorkItem { magnitude: ACTIVATION_LOG_READER_WORKLOAD, release: now })
        } else {
            None
        };
        let times = timing(self.next_time, now, self.period);
        match times.resume_at {
            Some(next) => {
                self.next_time = next;
            },
            None => {},
        }
        Release { on_call_prod, activation_log_reader, times }
    }
}

/// One release of the regular producer, at `now`, its own work done: what
/// `RegularProducer::release` decides, sent.
///
/// The producer counts one request for each consumer. Where the on-call
/// producer's criterion holds it sends a work item released at `now`, and
/// where the log reader's holds, a trigger released at `now`. It never waits
/// for a full channel: the item is dropped and the report says so. Then it
/// moves its release instant on by one period.
pub fn regular_producer(
    state: &mut RegularProducer,
    now: TimeInstant,
    on_call_prod_sender: &mut BoundedChannel,
    activation_log_reader_sender: &mut BoundedChannel,
) -> (report: ProducerReport)
    requires
        old(on_call_prod_sender).wf(),
        old(activation_log_reader_sender).wf(),
    ensures
        final(on_call_prod_sender).wf(),
        final(activation_log_reader_sender).wf(),
        final(on_call_prod_sender).spec_capacity() == old(on_call_prod_sender).spec_capacity(),
        final(activation_log_reader_sender).spec_capacity() == old(activation_log_reader_sender).spec_capacity(),
        final(on_call_prod_sender).is_open() == old(on_call_prod_sender).is_open(),
        final(activation_log_reader_sender).is_open() == old(activation_log_reader_sender).is_open(),
        *final(state) == old(state).released(now).0,
        final(state).period == old(state).period,
        final(state).on_call_requests == next_request(old(state).on_call_requests),
        final(state).log_reader_requests == next_request(old(state).log_reader_requests),
        report.on_call_prod == forwarded(
            on_call_prod_fires(final(state).on_call_requests),
            old(on_call_prod_sender).is_open(),
            old(on_call_prod_sender)@,
            old(on_call_prod_sender).spec_capacity(),
        ),
        final(on_call_prod_sender)@ == queue_after(
            on_call_prod_fires(final(state).on_call_requests),
            old(on_call_prod_sender).is_open(),
            old(on_call_prod_sender)@,
            old(on_call_prod_sender).spec_capacity(),
            WorkItem { magnitude: ON_CALL_PRODUCER_WORKLOAD, release: now },
        ),
        report.activation_log_reader == forwarded(
            log_reader_fires(final(state).log_reader_requests),
            old(activation_log_reader_sender).is_open(),
            old(activation_log_reader_sender)@,
            old(activation_log_reader_sender).spec_capacity(),
        ),
        final(activation_log_reader_sender)@ == queue_after(
            log_reader_fires(final(state).log_reader_requests),
            old(activation_log_reader_sender).is_open(),
            old(activation_log_reader_sender)@,
            old(activation_log_reader_sender).spec_capacity(),
            WorkItem { magnitude: ACTIVATION_LOG_READER_WORKLOAD, release: now },
        ),
        report.execution_time == timing_of(
            old(state).next_time,
            now,
            old(state).period,
        ).execution_time,
        report.next_release == timing_of(old(state).next_time, now, old(state).period).resume_at,
        final(state).next_time == match report.next_release {
            Some(next) => next,
            None => old(state).next_time,
        },
{
    let release = state.release(now);
    let on_call_prod = forward(release.on_call_prod, on_call_prod_sender);
    let activation_log_reader = forward(
        release.activation_log_reader,
        activation_log_reader_sender,
    );
    ProducerReport {
        on_call_prod,
        activation_log_reader,
        execution_time: release.times.execution_time,
        next_release: release.times.resume_at,
    }
}

} // verus!
