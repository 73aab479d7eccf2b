//! The task set as a whole: the four tasks with their channels, the shared
//! activation log and the scheduler, run instant by instant.
//!
//! Between two instants every task waits at a suspension point. At an
//! instant each task that is due runs one activation, the more urgent task
//! first, so that a less urgent one sees what the more urgent one left.

use vstd::prelude::*;
use crate::channel::{received, BoundedChannel, WorkItem, MAX_CAPACITY};
use crate::resource_lock::SharedLog;
use crate::scheduler::{Priority, Scheduler, SchedulerView, Task, TaskState};
use crate::tasks::periodic::{
    forwarded,
    queue_after,
    regular_producer,
    ProducerReport,
    RegularProducer,
    ACTIVATION_LOG_READER_WORKLOAD,
    ON_CALL_PRODUCER_WORKLOAD,
    PERIOD,
};
use crate::tasks::sporadic::{
    activation_log_reader,
    external_event_server,
    on_call_producer,
    ExternalEventServer,
    OnCallActivation,
    ReaderActivation,
    ServerActivation,
    ACTIVATION_LOG_READER_MIN_SEP,
    EXTERNAL_EVENT_SERVER_MIN_SEP,
    ON_CALL_PRODUCER_MIN_SEP,
};
use crate::time::{timing_of, Duration, TimeInstant};
use crate::types::activation_log::written;
use crate::types::generic::ActivationEntry;
use crate::utils::activation_condition::{log_reader_fires, next_request, on_call_prod_fires};

verus! {

/// Slots of the channel from the regular producer to the on-call producer
/// in the reference task set.
pub const BUFFER_CAPACITY: usize = 5;

/// Slots of the channel from the regular producer to the log reader in the
/// reference task set.
pub const TRIGGER_CAPACITY: usize = 1;

/// How long after start-up the tasks of the reference task set are first
/// released, in milliseconds.
pub const SYSTEM_ACTIVATION_TIME: u32 = 151;

/// The numbers that tell one task set from another.
#[derive(Clone, Copy, Debug, PartialEq, Eq, Structural)]
pub struct Config {
    /// The period of the regular producer, in milliseconds.
    pub period: u32,
    /// The minimum separation of each sporadic task, in milliseconds.
    pub on_call_producer_min_sep: u32,
    pub external_event_server_min_sep: u32,
    pub activation_log_reader_min_sep: u32,
    /// Slots of the channel to the on-call producer.
    pub buffer_capacity: usize,
    /// Slots of the channel to the activation log reader.
    pub trigger_capacity: usize,
    /// How long after start-up the tasks are first released, in
    /// milliseconds.
    pub activation_time: u32,
}

impl Config {
    /// Whether channels of these capacities can be made.
    pub open spec fn valid(self) -> bool {
        &&& 1 <= self.buffer_capacity <= MAX_CAPACITY
        &&& 1 <= self.trigger_capacity <= MAX_CAPACITY
    }

    /// The reference task set: a period of one second, separations of
    /// three, five and three seconds, channels of five slots and of one.
    pub fn reference() -> (config: Config)
        ensures
            config == (Config {
                period: PERIOD,
                on_call_producer_min_sep: ON_CALL_PRODUCER_MIN_SEP,
                external_event_server_min_sep: EXTERNAL_EVENT_SERVER_MIN_SEP,
                activation_log_reader_min_sep: ACTIVATION_LOG_READER_MIN_SEP,
                buffer_capacity: BUFFER_CAPACITY,
                trigger_capacity: TRIGGER_CAPACITY,
                activation_time: SYSTEM_ACTIVATION_TIME,
            }),
            config.valid(),
    {
        Config {
            period: PERIOD,
            on_call_producer_min_sep: ON_CALL_PRODUCER_MIN_SEP,
            external_event_server_min_sep: EXTERNAL_EVENT_SERVER_MIN_SEP,
            activation_log_reader_min_sep: ACTIVATION_LOG_READER_MIN_SEP,
            buffer_capacity: BUFFER_CAPACITY,
            trigger_capacity: TRIGGER_CAPACITY,
            activation_time: SYSTEM_ACTIVATION_TIME,
        }
    }
}

/// The number and the priority of each task.
pub const ACTIVATION_LOG_READER: usize = 0;

pub const ACTIVATION_LOG_READER_PRIORITY: Priority = 2;

pub const ON_CALL_PRODUCER: usize = 1;

pub const ON_CALL_PRODUCER_PRIORITY: Priority = 4;

pub const REGULAR_PRODUCER: usize = 2;

pub const REGULAR_PRODUCER_PRIORITY: Priority = 6;

pub const EXTERNAL_EVENT_SERVER: usize = 3;

pub const EXTERNAL_EVENT_SERVER_PRIORITY: Priority = 7;

/// What the tasks did at one instant; `None` for a task that was not due.
#[derive(Clone, Copy, Debug, PartialEq, Eq)]
pub struct Round {
    pub external_event_server: Option<ServerActivation>,
    pub regular_producer: Option<ProducerReport>,
    pub on_call_producer: Option<OnCallActivation>,
    pub activation_log_reader: Option<ReaderActivation>,
}

/// Whether a task that waits for `wake` is due at `now`. A task whose next
/// release the clock cannot count to waits for nothing and is never due.
pub open spec fn due(wake: Option<TimeInstant>, now: TimeInstant) -> bool {
    wake is Some && now.reached(wake->Some_0)
}

/// The task set as contracts see it.
pub struct TaskSetView {
    pub config: Config,
    /// The activation log.
    pub log: Option<ActivationEntry>,
    /// What waits for the on-call producer.
    pub work: Seq<WorkItem>,
    /// What waits for the activation log reader.
    pub triggers: Seq<WorkItem>,
    pub producer: RegularProducer,
    pub server: ExternalEventServer,
    /// The instant for which each task waits.
    pub producer_wake: Option<TimeInstant>,
    pub server_wake: Option<TimeInstant>,
    pub on_call_wake: Option<TimeInstant>,
    pub reader_wake: Option<TimeInstant>,
}

impl TaskSetView {
    /// The task set once the external event server has had its turn at
    /// `now`, and what the server did.
    pub open spec fn server_turn(self, now: TimeInstant) -> (TaskSetView, Option<ServerActivation>) {
        if due(self.server_wake, now) {
            let times = timing_of(self.server.next_time, now, self.server.min_sep);
            (
                TaskSetView {
                    log: written(self.log, now),
                    server: ExternalEventServer {
                        next_time: match times.resume_at {
                            Some(next) => next,
                            None => self.server.next_time,
                        },
                        min_sep: self.server.min_sep,
                    },
                    server_wake: times.resume_at,
                    ..self
                },
                Some(ServerActivation::Logged(times)),
            )
        } else {
            (self, None)
        }
    }

    /// The task set once the regular producer has had its turn at `now`,
    /// and what the producer did.
    pub open spec fn producer_turn(self, now: TimeInstant) -> (TaskSetView, Option<ProducerReport>) {
        if due(self.producer_wake, now) {
            let on_call_requests = next_request(self.producer.on_call_requests);
            let log_reader_requests = next_request(self.producer.log_reader_requests);
            let times = timing_of(self.producer.next_time, now, self.producer.period);
            (
                TaskSetView {
                    work: queue_after(
                        on_call_prod_fires(on_call_requests),
                        true,
                        self.work,
                        self.config.buffer_capacity as int,
                        WorkItem { magnitude: ON_CALL_PRODUCER_WORKLOAD, release: now },
                    ),
                    triggers: queue_after(
                        log_reader_fires(log_reader_requests),
                        true,
                        self.triggers,
                        self.config.trigger_capacity as int,
                        WorkItem { magnitude: ACTIVATION_LOG_READER_WORKLOAD, release: now },
                    ),
                    producer: RegularProducer {
                        next_time: match times.resume_at {
                            Some(next) => next,
                            None => self.producer.next_time,
                        },
                        period: self.producer.period,
                        on_call_requests,
                        log_reader_requests,
                    },
                    producer_wake: times.resume_at,
                    ..self
                },
                Some(
                    ProducerReport {
                        on_call_prod: forwarded(
                            on_call_prod_fires(on_call_requests),
                            true,
                            self.work,
                            self.config.buffer_capacity as int,
                        ),
                        activation_log_reader: forwarded(
                            log_reader_fires(log_reader_requests),
                            true,
                            self.triggers,
                            self.config.trigger_capacity as int,
                        ),
                        execution_time: times.execution_time,
                        next_release: times.resume_at,
                    },
                ),
            )
        } else {
            (self, None)
        }
    }

    /// The task set once the on-call producer has had its turn at `now`, and
    /// what it did. With nothing queued it goes on waiting for an item.
    pub open spec fn on_call_turn(self, now: TimeInstant) -> (TaskSetView, Option<OnCallActivation>) {
        if due(self.on_call_wake, now) {
            if self.work.len() > 0 {
                let times = timing_of(
                    self.work[0].release,
                    now,
                    self.config.on_call_producer_min_sep,
                );
                (
                    TaskSetView {
                        work: received(self.work).0,
                        on_call_wake: times.resume_at,
                        ..self
                    },
                    Some(OnCallActivation::Processed(self.work[0], times)),
                )
            } else {
                (self, Some(OnCallActivation::Waiting))
            }
        } else {
            (self, None)
        }
    }

    /// The task set once the activation log reader has had its turn at
    /// `now`, and what it did. With no trigger queued it goes on waiting for
    /// one.
    pub open spec fn reader_turn(self, now: TimeInstant) -> (TaskSetView, Option<ReaderActivation>) {
        if due(self.reader_wake, now) {
            if self.triggers.len() > 0 {
                let times = timing_of(
                    self.triggers[0].release,
                    now,
                    self.config.activation_log_reader_min_sep,
                );
                (
                    TaskSetView {
                        triggers: received(self.triggers).0,
                        reader_wake: times.resume_at,
                        ..self
                    },
                    Some(ReaderActivation::Read(self.log, times)),
                )
            } else {
                (self, Some(ReaderActivation::Waiting))
            }
        } else {
            (self, None)
        }
    }

    /// The task set after one instant, at which the tasks take their turns
    /// in the order of their priorities, and what they did.
    pub open spec fn after(self, now: TimeInstant) -> (TaskSetView, Round) {
        let (first, external_event_server) = self.server_turn(now);
        let (second, regular_producer) = first.producer_turn(now);
        let (third, on_call_producer) = second.on_call_turn(now);
        let (last, activation_log_reader) = third.reader_turn(now);
        (
            last,
            Round {
                external_event_server,
                regular_producer,
                on_call_producer,
                activation_log_reader,
            },
        )
    }

    /// The task set of `config` as it starts, its tasks first released at
    /// `start`.
    pub open spec fn initial(config: Config, start: TimeInstant) -> TaskSetView {
        TaskSetView {
            config,
            log: None,
            work: Seq::empty(),
            triggers: Seq::empty(),
            producer: RegularProducer {
                next_time: start,
                period: config.period,
                on_call_requests: 0,
                log_reader_requests: 0,
            },
            server: ExternalEventServer {
                next_time: start,
                min_sep: config.external_event_server_min_sep,
            },
            producer_wake: Some(start),
            server_wake: Some(start),
            on_call_wake: Some(start),
            reader_wake: Some(start),
        }
    }
}

/// The earlier of two instants for which tasks wait; a task that waits for
/// nothing does not count.
pub open spec fn earlier(a: Option<TimeInstant>, b: Option<TimeInstant>) -> Option<TimeInstant> {
    match (a, b) {
        (Some(x), Some(y)) => if x.ticks <= y.ticks {
            a
        } else {
            b
        },
        (Some(_), None) => a,
        _ => b,
    }
}

impl TaskSetView {
    /// The instant for which the on-call producer waits, if an item is
    /// queued for it.
    pub open spec fn on_call_pending(self) -> Option<TimeInstant> {
        if self.work.len() > 0 {
            self.on_call_wake
        } else {
            None
        }
    }

    /// The instant for which the activation log reader waits, if a trigger
    /// is queued for it.
    pub open spec fn reader_pending(self) -> Option<TimeInstant> {
        if self.triggers.len() > 0 {
            self.reader_wake
        } else {
            None
        }
    }

    /// The first instant at which some task has something to do: a timed
    /// task is due, or a task with something queued is. `None` where the
    /// task set has come to rest.
    pub open spec fn next_event(self) -> Option<TimeInstant> {
        earlier(
            earlier(self.server_wake, self.producer_wake),
            earlier(self.on_call_pending(), self.reader_pending()),
        )
    }

    /// Whether some task has something to do at `now`.
    pub open spec fn active_at(self, now: TimeInstant) -> bool {
        ||| due(self.server_wake, now)
        ||| due(self.producer_wake, now)
        ||| due(self.on_call_pending(), now)
        ||| due(self.reader_pending(), now)
    }
}

/// Nothing happens before the next event, and something does from then on:
/// a task has something to do at `now` exactly if the clock has reached the
/// next event.
pub proof fn lemma_next_event(view: TaskSetView, now: TimeInstant)
    ensures
        view.active_at(now) <==> due(view.next_event(), now),
{
}

/// The priority of task `id`.
pub open spec fn priority_of(id: int) -> Priority {
    if id == ACTIVATION_LOG_READER {
        ACTIVATION_LOG_READER_PRIORITY
    } else if id == ON_CALL_PRODUCER {
        ON_CALL_PRODUCER_PRIORITY
    } else if id == REGULAR_PRODUCER {
        REGULAR_PRODUCER_PRIORITY
    } else {
        EXTERNAL_EVENT_SERVER_PRIORITY
    }
}

/// The four tasks are there, each with its priority, and the lock is free.
pub open spec fn is_task_set(tasks: SchedulerView) -> bool {
    &&& tasks.wf()
    &&& tasks.lock is None
    &&& tasks.tasks.len() == 4
    &&& forall|i: int| 0 <= i < 4 ==> tasks.tasks[i].priority == priority_of(i)
}

/// Every task waits at a suspension point, or has not been released yet:
/// none is ready, and none holds the lock.
pub open spec fn all_wait(tasks: SchedulerView) -> bool {
    &&& is_task_set(tasks)
    &&& forall|i: int| 0 <= i < 4 ==> !tasks.ready(i)
}

/// The more urgent task has the higher number, as it has the higher
/// priority.
pub proof fn lemma_priorities_rise(lower: int, higher: int)
    requires
        0 <= lower < higher < 4,
    ensures
        priority_of(lower) < priority_of(higher),
{
}

/// Asks the dispatcher who runs next and says whether it is task `id`, the
/// most urgent of those that have not had their turn. It is exactly where
/// the task is ready: no task that is less urgent is put on the core before
/// it.
fn up_next(scheduler: &mut Scheduler, id: usize) -> (yes: bool)
    requires
        is_task_set(old(scheduler)@),
        id < 4,
        forall|i: int| id < i < 4 ==> !old(scheduler)@.ready(i),
    ensures
        is_task_set(final(scheduler)@),
        yes == old(scheduler)@.ready(id as int),
        yes ==> final(scheduler)@.tasks[id as int].state == TaskState::Running,
        forall|i: int| 0 <= i < 4 ==> final(scheduler)@.ready(i) == old(scheduler)@.ready(i),
{
    let running = scheduler.dispatch();
    proof {
        let before = old(scheduler)@;
        assert forall|i: int| 0 <= i < 4 implies scheduler@.ready(i) == before.ready(i)
            && scheduler@.tasks[i].priority == priority_of(i) by {
            assert(before.tasks[i].priority == priority_of(i));
            assert(scheduler@.tasks[i].state == before.dispatched_state(i));
        }
        if running is Some {
            let top = running->Some_0 as int;
            assert(before.is_top(top));
            if before.ready(id as int) && top != id {
                assert(before.rank(id as int) < before.rank(top));
                assert(before.tasks[top].priority == priority_of(top));
                assert(before.tasks[id as int].priority == priority_of(id as int));
                if top < id {
                    lemma_priorities_rise(top, id as int);
                }
            }
            if top == id {
                assert(scheduler@.tasks[top].state == before.dispatched_state(top));
            }
        }
    }
    running == Some(id)
}

/// The task on the core reaches its next suspension point and waits.
fn step_down(scheduler: &mut Scheduler, id: usize)
    requires
        is_task_set(old(scheduler)@),
        id < 4,
        old(scheduler)@.tasks[id as int].state == TaskState::Running,
    ensures
        is_task_set(final(scheduler)@),
        !final(scheduler)@.ready(id as int),
        forall|i: int| 0 <= i < 4 && i != id ==> final(scheduler)@.ready(i) == old(scheduler)@.ready(i),
{
    let _ = scheduler.suspend(id);
    proof {
        assert(old(scheduler).leave_error(id) is None);
        assert forall|i: int| 0 <= i < 4 implies scheduler@.tasks[i].priority == priority_of(
            i,
        ) by {
            assert(old(scheduler)@.tasks[i].priority == priority_of(i));
        }
    }
}

/// The event for which task `id` waits has occurred, or not: where it has,
/// the task is released.
fn release_if(scheduler: &mut Scheduler, id: usize, occurred: bool)
    requires
        is_task_set(old(scheduler)@),
        id < 4,
        !old(scheduler)@.ready(id as int),
    ensures
        is_task_set(final(scheduler)@),
        final(scheduler)@.ready(id as int) == occurred,
        forall|i: int| 0 <= i < 4 && i != id ==> final(scheduler)@.ready(i) == old(scheduler)@.ready(i),
{
    if occurred {
        let _ = scheduler.release(id);
        proof {
            assert forall|i: int| 0 <= i < 4 implies scheduler@.tasks[i].priority
                == priority_of(i) by {
                assert(old(scheduler)@.tasks[i].priority == priority_of(i));
            }
        }
    }
}

/// Whether a task that waits for `wake` is due at `now`.
fn is_due(wake: Option<TimeInstant>, now: TimeInstant) -> (yes: bool)
    ensures
        yes == due(wake, now),
{
    match wake {
        Some(instant) => now.has_reached(instant),
        None => false,
    }
}

/// The task set: its scheduler, its shared log, its channels and what each
/// task keeps from one activation to the next.
pub struct TaskSet {
    config: Config,
    scheduler: Scheduler,
    actv_log: SharedLog,
    work: BoundedChannel,
    triggers: BoundedChannel,
    producer: RegularProducer,
    server: ExternalEventServer,
    producer_wake: Option<TimeInstant>,
    server_wake: Option<TimeInstant>,
    on_call_wake: Option<TimeInstant>,
    reader_wake: Option<TimeInstant>,
}

impl View for TaskSet {
    type V = TaskSetView;

    closed spec fn view(&self) -> TaskSetView {
        TaskSetView {
            config: self.config,
            log: self.actv_log@,
            work: self.work@,
            triggers: self.triggers@,
            producer: self.producer,
            server: self.server,
            producer_wake: self.producer_wake,
            server_wake: self.server_wake,
            on_call_wake: self.on_call_wake,
            reader_wake: self.reader_wake,
        }
    }
}

impl TaskSet {
    /// The tasks and the lock, as the scheduler holds them.
    pub closed spec fn tasks(&self) -> SchedulerView {
        self.scheduler@
    }

    /// The log and the channels are as the configuration asks.
    closed spec fn parts_wf(&self) -> bool {
        &&& self.actv_log.wf()
        &&& self.actv_log.spec_ceiling() == EXTERNAL_EVENT_SERVER_PRIORITY
        &&& self.config.valid()
        &&& self.work.wf()
        &&& self.work.is_open()
        &&& self.work.spec_capacity() == self.config.buffer_capacity
        &&& self.triggers.wf()
        &&& self.triggers.is_open()
        &&& self.triggers.spec_capacity() == self.config.trigger_capacity
    }

    /// The instant for which task `id` waits.
    closed spec fn wake_of(&self, id: int) -> Option<TimeInstant> {
        if id == ACTIVATION_LOG_READER {
            self.reader_wake
        } else if id == ON_CALL_PRODUCER {
            self.on_call_wake
        } else if id == REGULAR_PRODUCER {
            self.producer_wake
        } else {
            self.server_wake
        }
    }

    /// Within the instant `now`, with the tasks numbered `turn` and above
    /// having had their turn: those wait again, and of the others exactly
    /// the ones that are due are ready.
    closed spec fn in_round(&self, now: TimeInstant, turn: int) -> bool {
        &&& self.parts_wf()
        &&& is_task_set(self.scheduler@)
        &&& forall|i: int|
            0 <= i < 4 ==> (self.scheduler@.ready(i) <==> i < turn && due(self.wake_of(i), now))
    }

    /// Between two instants every task waits, the lock is free, and the
    /// channels are open and within their capacities.
    pub closed spec fn wf(&self) -> bool {
        &&& all_wait(self.scheduler@)
        &&& self.parts_wf()
    }

    /// What holds of the task set between two instants: every task waits
    /// and none holds the lock, so that no task is ever suspended with the
    /// lock in its hands; each channel is within its capacity; and a written
    /// log holds a counter below 100.
    pub proof fn lemma_between_instants(&self)
        requires
            self.wf(),
        ensures
            all_wait(self.tasks()),
            self@.config.valid(),
            self@.work.len() <= self@.config.buffer_capacity,
            self@.triggers.len() <= self@.config.trigger_capacity,
            self@.log is Some ==> self@.log->Some_0.0 < 100,
    {
        self.work.lemma_bounds();
        self.triggers.lemma_bounds();
        self.actv_log.lemma_counter_in_range();
    }

    /// Task `id` as the scheduler holds it, or `None` where there is none of
    /// that number.
    pub fn task(&self, id: usize) -> (task: Option<Task>)
        ensures
            id < self.tasks().tasks.len() ==> task == Some(self.tasks().tasks[id as int]),
            id >= self.tasks().tasks.len() ==> task is None,
    {
        self.scheduler.task(id)
    }

    /// The task set of `config` at start-up, when the clock reads `now`: the
    /// log unwritten, the channels empty, and every task waiting for its
    /// first release, the activation time after `now`. `None` where a
    /// capacity is not one that a channel can have, or the clock cannot count
    /// to the first release.
    pub fn init(now: TimeInstant, config: Config) -> (set: Option<TaskSet>)
        ensures
            config.valid() && now.ticks + config.activation_time <= u32::MAX <==> set is Some,
            set is Some ==> set->Some_0.wf() && set->Some_0@ == TaskSetView::initial(
                config,
                TimeInstant { ticks: (now.ticks + config.activation_time) as u32 },
            ),
    {
        if config.buffer_capacity < 1 || config.buffer_capacity > MAX_CAPACITY
            || config.trigger_capacity < 1 || config.trigger_capacity > MAX_CAPACITY {
            return None;
        }
        let start = match now.checked_add(Duration::millis(config.activation_time)) {
            Some(start) => start,
            None => {
                return None;
            },
        };
        let mut scheduler = Scheduler::new();
        let _ = scheduler.add_task(ACTIVATION_LOG_READER_PRIORITY);
        let _ = scheduler.add_task(ON_CALL_PRODUCER_PRIORITY);
        let _ = scheduler.add_task(REGULAR_PRODUCER_PRIORITY);
        let _ = scheduler.add_task(EXTERNAL_EVENT_SERVER_PRIORITY);
        let work = match BoundedChannel::new(config.buffer_capacity) {
            Some(work) => work,
            None => {
                return None;
            },
        };
        let triggers = match BoundedChannel::new(config.trigger_capacity) {
            Some(triggers) => triggers,
            None => {
                return None;
            },
        };
        let set = TaskSet {
            config,
            scheduler,
            actv_log: SharedLog::new(EXTERNAL_EVENT_SERVER_PRIORITY),
            work,
            triggers,
            producer: RegularProducer::new(start, config.period),
            server: ExternalEventServer {
                next_time: start,
                min_sep: config.external_event_server_min_sep,
            },
            producer_wake: Some(start),
            server_wake: Some(start),
            on_call_wake: Some(start),
            reader_wake: Some(start),
        };
        Some(set)
    }

    /// The events of the instant `now` occur: every task that is due is
    /// released.
    fn release_due(&mut self, now: TimeInstant)
        requires
            old(self).wf(),
        ensures
            final(self).in_round(now, 4),
            final(self)@ == old(self)@,
    {
        release_if(&mut self.scheduler, EXTERNAL_EVENT_SERVER, is_due(self.server_wake, now));
        release_if(&mut self.scheduler, REGULAR_PRODUCER, is_due(self.producer_wake, now));
        release_if(&mut self.scheduler, ON_CALL_PRODUCER, is_due(self.on_call_wake, now));
        release_if(&mut self.scheduler, ACTIVATION_LOG_READER, is_due(self.reader_wake, now));
    }

    fn server_turn(&mut self, now: TimeInstant) -> (report: Option<ServerActivation>)
        requires
            old(self).in_round(now, 4),
        ensures
            final(self).in_round(now, 3),
            (final(self)@, report) == old(self)@.server_turn(now),
    {
        if !up_next(&mut self.scheduler, EXTERNAL_EVENT_SERVER) {
            return None;
        }
        assert(self.scheduler@.tasks[EXTERNAL_EVENT_SERVER as int].priority == priority_of(
            EXTERNAL_EVENT_SERVER as int,
        ));
        let activation = external_event_server(
            &mut self.server,
            &mut self.scheduler,
            EXTERNAL_EVENT_SERVER,
            &mut self.actv_log,
            now,
        );
        step_down(&mut self.scheduler, EXTERNAL_EVENT_SERVER);
        match activation {
            ServerActivation::Logged(times) => {
                self.server_wake = times.resume_at;
            },
            ServerActivation::Refused(_) => {},
        }
        Some(activation)
    }

    fn producer_turn(&mut self, now: TimeInstant) -> (report: Option<ProducerReport>)
        requires
            old(self).in_round(now, 3),
        ensures
            final(self).in_round(now, 2),
            (final(self)@, report) == old(self)@.producer_turn(now),
    {
        if !up_next(&mut self.scheduler, REGULAR_PRODUCER) {
            return None;
        }
        let report = regular_producer(&mut self.producer, now, &mut self.work, &mut self.triggers);
        step_down(&mut self.scheduler, REGULAR_PRODUCER);
        self.producer_wake = report.next_release;
        Some(report)
    }

    fn on_call_turn(&mut self, now: TimeInstant) -> (report: Option<OnCallActivation>)
        requires
            old(self).in_round(now, 2),
        ensures
            final(self).in_round(now, 1),
            (final(self)@, report) == old(self)@.on_call_turn(now),
    {
        if !up_next(&mut self.scheduler, ON_CALL_PRODUCER) {
            return None;
        }
        let activation = on_call_producer(
            &mut self.work,
            now,
            self.config.on_call_producer_min_sep,
        );
        step_down(&mut self.scheduler, ON_CALL_PRODUCER);
        match activation {
            OnCallActivation::Processed(_, times) => {
                self.on_call_wake = times.resume_at;
            },
            _ => {},
        }
        Some(activation)
    }

    fn reader_turn(&mut self, now: TimeInstant) -> (report: Option<ReaderActivation>)
        requires
            old(self).in_round(now, 1),
        ensures
            final(self).in_round(now, 0),
            (final(self)@, report) == old(self)@.reader_turn(now),
    {
        if !up_next(&mut self.scheduler, ACTIVATION_LOG_READER) {
            return None;
        }
        assert(self.scheduler@.tasks[ACTIVATION_LOG_READER as int].priority == priority_of(
            ACTIVATION_LOG_READER as int,
        ));
        let activation = activation_log_reader(
            &mut self.scheduler,
            ACTIVATION_LOG_READER,
            &self.actv_log,
            &mut self.triggers,
            now,
            self.config.activation_log_reader_min_sep,
        );
        step_down(&mut self.scheduler, ACTIVATION_LOG_READER);
        match activation {
            ReaderActivation::Read(_, times) => {
                self.reader_wake = times.resume_at;
            },
            _ => {},
        }
        Some(activation)
    }

    /// Runs the task set at the instant `now`. Every task that is due is
    /// released; then the dispatcher says who runs, the most urgent ready
    /// task each time, and that task runs one activation and waits again,
    /// until none is ready. So the external event server comes before the
    /// regular producer, the on-call producer and the activation log reader,
    /// and each sees what the more urgent ones left. A task that is not due
    /// goes on waiting, and so does one that finds nothing queued.
    pub fn run_at(&mut self, now: TimeInstant) -> (round: Round)
        requires
            old(self).wf(),
        ensures
            final(self).wf(),
            (final(self)@, round) == old(self)@.after(now),
    {
        self.release_due(now);
        let external_event_server = self.server_turn(now);
        let regular_producer = self.producer_turn(now);
        let on_call_producer = self.on_call_turn(now);
        let activation_log_reader = self.reader_turn(now);
        Round { external_event_server, regular_producer, on_call_producer, activation_log_reader }
    }

    /// The first instant at which some task has something to do, or `None`
    /// where every task waits for good.
    pub fn next_event(&self) -> (next: Option<TimeInstant>)
        requires
            self.wf(),
        ensures
            next == self@.next_event(),
    {
        let on_call = if self.work.is_empty() {
            None
        } else {
            self.on_call_wake
        };
        let reader = if self.triggers.is_empty() {
            None
        } else {
            self.reader_wake
        };
        sooner(sooner(self.server_wake, self.producer_wake), sooner(on_call, reader))
    }

    /// How many items wait for the on-call producer.
    pub fn pending_work(&self) -> (count: usize)
        requires
            self.wf(),
        ensures
            count == self@.work.len(),
    {
        self.work.len()
    }

    /// How many triggers wait for the activation log reader.
    pub fn pending_triggers(&self) -> (count: usize)
        requires
            self.wf(),
        ensures
            count == self@.triggers.len(),
    {
        self.triggers.len()
    }
}

/// The earlier of two instants for which tasks wait.
fn sooner(a: Option<TimeInstant>, b: Option<TimeInstant>) -> (first: Option<TimeInstant>)
    ensures
        first == earlier(a, b),
{
    match (a, b) {
        (Some(x), Some(y)) => if x.ticks <= y.ticks {
            a
        } else {
            b
        },
        (Some(_), None) => a,
        _ => b,
    }
}

} // verus!
