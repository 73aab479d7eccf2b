use taskset::channel::{BoundedChannel, WorkItem};
use taskset::resource_lock::SharedLog;
use taskset::scheduler::{SchedError, Scheduler};
use taskset::tasks::periodic::{
    regular_producer, Forwarded, ProducerReport, RegularProducer, Release,
    ACTIVATION_LOG_READER_WORKLOAD,
    ON_CALL_PRODUCER_WORKLOAD, PERIOD, REGULAR_PRODUCER_WORKLOAD,
};
use taskset::tasks::sporadic::{
    activation_log_reader, external_event_server, on_call_producer, ExternalEventServer,
    OnCallActivation, ReaderActivation, ServerActivation, ACTIVATION_LOG_READER_MIN_SEP,
    EXTERNAL_EVENT_SERVER_MIN_SEP, ON_CALL_PRODUCER_MIN_SEP,
};
use taskset::time::{timing, Duration, TimeInstant, Timing};

fn at(ticks: u32) -> TimeInstant {
    TimeInstant::from_ticks(ticks)
}

#[test]
fn reference_constants() {
    assert_eq!(REGULAR_PRODUCER_WORKLOAD, 756 * 28);
    assert_eq!(ON_CALL_PRODUCER_WORKLOAD, 278 * 38);
    assert_eq!(ACTIVATION_LOG_READER_WORKLOAD, 139 * 36);
    assert_eq!(PERIOD, 1000);
    assert_eq!(ON_CALL_PRODUCER_MIN_SEP, 3000);
    assert_eq!(EXTERNAL_EVENT_SERVER_MIN_SEP, 5000);
    assert_eq!(ACTIVATION_LOG_READER_MIN_SEP, 3000);
}

#[test]
fn timing_of_an_activation() {
    assert_eq!(
        timing(at(1000), at(1250), 3000),
        Timing { execution_time: Some(Duration::millis(250)), resume_at: Some(at(4000)) }
    );
    assert_eq!(
        timing(at(1000), at(999), 3000),
        Timing { execution_time: None, resume_at: Some(at(4000)) }
    );
    assert_eq!(
        timing(at(u32::MAX - 2999), at(u32::MAX), 3000),
        Timing { execution_time: Some(Duration::millis(2999)), resume_at: None }
    );
}

#[test]
fn first_release_forwards_nothing() {
    let mut state = RegularProducer::new(at(151), PERIOD);
    let mut work = BoundedChannel::new(5).unwrap();
    let mut triggers = BoundedChannel::new(1).unwrap();
    let report = regular_producer(&mut state, at(160), &mut work, &mut triggers);
    assert_eq!(
        report,
        ProducerReport {
            on_call_prod: Forwarded::NotDue,
            activation_log_reader: Forwarded::NotDue,
            execution_time: Some(Duration::millis(9)),
            next_release: Some(at(1151)),
        }
    );
    assert_eq!(
        state,
        RegularProducer {
            next_time: at(1151),
            period: 1000,
            on_call_requests: 1,
            log_reader_requests: 1,
        }
    );
    assert!(work.is_empty());
    assert!(triggers.is_empty());
}

#[test]
fn second_release_sends_work_and_third_sends_a_trigger() {
    let mut state = RegularProducer::new(at(0), PERIOD);
    let mut work = BoundedChannel::new(5).unwrap();
    let mut triggers = BoundedChannel::new(1).unwrap();
    regular_producer(&mut state, at(2), &mut work, &mut triggers);
    let second = regular_producer(&mut state, at(1003), &mut work, &mut triggers);
    assert_eq!(second.on_call_prod, Forwarded::Sent);
    assert_eq!(second.activation_log_reader, Forwarded::NotDue);
    assert_eq!(second.execution_time, Some(Duration::millis(3)));
    let third = regular_producer(&mut state, at(2001), &mut work, &mut triggers);
    assert_eq!(third.on_call_prod, Forwarded::NotDue);
    assert_eq!(third.activation_log_reader, Forwarded::Sent);
    assert_eq!(third.next_release, Some(at(3000)));
    assert_eq!(
        work.try_recv(),
        Ok(WorkItem { magnitude: ON_CALL_PRODUCER_WORKLOAD, release: at(1003) })
    );
    assert_eq!(
        triggers.try_recv(),
        Ok(WorkItem { magnitude: ACTIVATION_LOG_READER_WORKLOAD, release: at(2001) })
    );
}

#[test]
fn full_channel_drops_the_item_and_the_producer_goes_on() {
    let mut state = RegularProducer {
        next_time: at(0),
        period: 1000,
        on_call_requests: 1,
        log_reader_requests: 2,
    };
    let mut work = BoundedChannel::new(1).unwrap();
    let mut triggers = BoundedChannel::new(1).unwrap();
    work.try_send(WorkItem { magnitude: 1, release: at(0) }).unwrap();
    triggers.try_send(WorkItem { magnitude: 2, release: at(0) }).unwrap();
    let report = regular_producer(&mut state, at(5), &mut work, &mut triggers);
    assert_eq!(report.on_call_prod, Forwarded::Dropped);
    assert_eq!(report.activation_log_reader, Forwarded::Dropped);
    assert_eq!(report.next_release, Some(at(1000)));
    assert_eq!(state.next_time, at(1000));
    assert_eq!(work.try_recv(), Ok(WorkItem { magnitude: 1, release: at(0) }));
    assert_eq!(triggers.try_recv(), Ok(WorkItem { magnitude: 2, release: at(0) }));
    assert!(work.is_empty());
}

#[test]
fn closed_channel_is_reported() {
    let mut state = RegularProducer {
        next_time: at(0),
        period: 1000,
        on_call_requests: 1,
        log_reader_requests: 0,
    };
    let mut work = BoundedChannel::new(5).unwrap();
    let mut triggers = BoundedChannel::new(1).unwrap();
    work.close();
    let report = regular_producer(&mut state, at(0), &mut work, &mut triggers);
    assert_eq!(report.on_call_prod, Forwarded::Closed);
    assert_eq!(report.activation_log_reader, Forwarded::NotDue);
    assert!(work.is_empty());
}

#[test]
fn producer_stays_at_its_last_release_when_the_clock_ends() {
    let last = at(u32::MAX - 999);
    let mut state = RegularProducer::new(last, PERIOD);
    let mut work = BoundedChannel::new(5).unwrap();
    let mut triggers = BoundedChannel::new(1).unwrap();
    let report = regular_producer(&mut state, at(u32::MAX - 1000), &mut work, &mut triggers);
    assert_eq!(report.execution_time, None);
    assert_eq!(report.next_release, None);
    assert_eq!(state.next_time, last);
    assert_eq!(state.on_call_requests, 1);
}

#[test]
fn on_call_producer_takes_the_oldest_item() {
    let mut work = BoundedChannel::new(5).unwrap();
    assert_eq!(on_call_producer(&mut work, at(10), ON_CALL_PRODUCER_MIN_SEP), OnCallActivation::Waiting);
    work.try_send(WorkItem { magnitude: 10564, release: at(1000) }).unwrap();
    work.try_send(WorkItem { magnitude: 7, release: at(2000) }).unwrap();
    assert_eq!(
        on_call_producer(&mut work, at(1400), ON_CALL_PRODUCER_MIN_SEP),
        OnCallActivation::Processed(
            WorkItem { magnitude: 10564, release: at(1000) },
            Timing { execution_time: Some(Duration::millis(400)), resume_at: Some(at(4000)) },
        )
    );
    assert_eq!(work.len(), 1);
    work.close();
    assert_eq!(
        on_call_producer(&mut work, at(4100), ON_CALL_PRODUCER_MIN_SEP),
        OnCallActivation::Processed(
            WorkItem { magnitude: 7, release: at(2000) },
            Timing { execution_time: Some(Duration::millis(2100)), resume_at: Some(at(5000)) },
        )
    );
    assert_eq!(on_call_producer(&mut work, at(5000), ON_CALL_PRODUCER_MIN_SEP), OnCallActivation::Finished);
}

fn server_and_reader() -> Scheduler {
    let mut scheduler = Scheduler::new();
    assert_eq!(scheduler.add_task(2), Ok(0));
    assert_eq!(scheduler.add_task(7), Ok(1));
    scheduler
}

#[test]
fn external_event_server_logs_one_activation() {
    let mut scheduler = server_and_reader();
    let mut log = SharedLog::new(7);
    let mut state = ExternalEventServer { next_time: at(151), min_sep: 5000 };
    scheduler.release(1).unwrap();
    scheduler.dispatch();
    assert_eq!(
        external_event_server(&mut state, &mut scheduler, 1, &mut log, at(153)),
        ServerActivation::Logged(Timing {
            execution_time: Some(Duration::millis(2)),
            resume_at: Some(at(5151)),
        })
    );
    assert_eq!(state.next_time, at(5151));
    assert_eq!(log.read(&mut scheduler, 1), Ok(Some((1, at(153)))));
    assert_eq!(
        external_event_server(&mut state, &mut scheduler, 1, &mut log, at(5151)),
        ServerActivation::Logged(Timing {
            execution_time: Some(Duration::millis(0)),
            resume_at: Some(at(10151)),
        })
    );
    assert_eq!(log.read(&mut scheduler, 1), Ok(Some((2, at(5151)))));
}

#[test]
fn external_event_server_is_refused_off_the_core() {
    let mut scheduler = server_and_reader();
    let mut log = SharedLog::new(7);
    let mut state = ExternalEventServer { next_time: at(0), min_sep: 5000 };
    assert_eq!(
        external_event_server(&mut state, &mut scheduler, 1, &mut log, at(0)),
        ServerActivation::Refused(SchedError::NotRunning)
    );
    assert_eq!(state.next_time, at(0));
    scheduler.release(0).unwrap();
    scheduler.dispatch();
    assert_eq!(log.read(&mut scheduler, 0), Ok(None));
}

#[test]
fn activation_log_reader_reports_unwritten_then_the_latest_entry() {
    let mut scheduler = server_and_reader();
    let mut log = SharedLog::new(7);
    let mut triggers = BoundedChannel::new(1).unwrap();
    scheduler.release(0).unwrap();
    scheduler.dispatch();
    assert_eq!(
        activation_log_reader(&mut scheduler, 0, &log, &mut triggers, at(5), 3000),
        ReaderActivation::Waiting
    );
    triggers.try_send(WorkItem { magnitude: 5004, release: at(500) }).unwrap();
    assert_eq!(
        activation_log_reader(&mut scheduler, 0, &log, &mut triggers, at(620), 3000),
        ReaderActivation::Read(
            None,
            Timing { execution_time: Some(Duration::millis(120)), resume_at: Some(at(3500)) },
        )
    );
    assert!(triggers.is_empty());

    scheduler.release(1).unwrap();
    scheduler.dispatch();
    log.write(&mut scheduler, 1, at(1000)).unwrap();
    scheduler.complete(1).unwrap();
    scheduler.dispatch();
    triggers.try_send(WorkItem { magnitude: 5004, release: at(3500) }).unwrap();
    assert_eq!(
        activation_log_reader(&mut scheduler, 0, &log, &mut triggers, at(3500), 3000),
        ReaderActivation::Read(
            Some((1, at(1000))),
            Timing { execution_time: Some(Duration::millis(0)), resume_at: Some(at(6500)) },
        )
    );
    triggers.close();
    assert_eq!(
        activation_log_reader(&mut scheduler, 0, &log, &mut triggers, at(6500), 3000),
        ReaderActivation::Finished
    );
}

#[test]
fn refused_reader_leaves_its_trigger_queued() {
    let mut scheduler = server_and_reader();
    let log = SharedLog::new(7);
    let mut triggers = BoundedChannel::new(1).unwrap();
    triggers.try_send(WorkItem { magnitude: 5004, release: at(10) }).unwrap();
    assert_eq!(
        activation_log_reader(&mut scheduler, 0, &log, &mut triggers, at(10), 3000),
        ReaderActivation::Refused(SchedError::NotRunning)
    );
    assert_eq!(triggers.len(), 1);
}

#[test]
fn reader_without_a_trigger_waits_and_leaves_the_lock_alone() {
    let mut scheduler = server_and_reader();
    let log = SharedLog::new(7);
    let mut triggers = BoundedChannel::new(1).unwrap();
    // The task is not on the core, but with nothing queued it never asks
    // for the lock.
    assert_eq!(
        activation_log_reader(&mut scheduler, 0, &log, &mut triggers, at(10), 3000),
        ReaderActivation::Waiting
    );
    triggers.close();
    assert_eq!(
        activation_log_reader(&mut scheduler, 0, &log, &mut triggers, at(10), 3000),
        ReaderActivation::Finished
    );
    assert_eq!(scheduler.lock(), None);
}

#[test]
fn release_decides_what_is_sent_with_one_instant() {
    let mut state = RegularProducer {
        next_time: at(11000),
        period: 1000,
        on_call_requests: 11,
        log_reader_requests: 11,
    };
    let release = state.release(at(11007));
    assert_eq!(
        release,
        Release {
            on_call_prod: Some(WorkItem { magnitude: 10564, release: at(11007) }),
            activation_log_reader: Some(WorkItem { magnitude: 5004, release: at(11007) }),
            times: Timing {
                execution_time: Some(Duration::millis(7)),
                resume_at: Some(at(12000)),
            },
        }
    );
    assert_eq!(
        state,
        RegularProducer {
            next_time: at(12000),
            period: 1000,
            on_call_requests: 12,
            log_reader_requests: 12,
        }
    );
    let next = state.release(at(12000));
    assert_eq!(next.on_call_prod, None);
    assert_eq!(next.activation_log_reader, None);
    assert_eq!(next.times.resume_at, Some(at(13000)));
}

#[test]
fn release_at_the_end_of_the_clock_stays_where_it_is() {
    let mut state = RegularProducer::new(at(u32::MAX - 10), 1000);
    let release = state.release(at(u32::MAX - 5));
    assert_eq!(release.times.execution_time, Some(Duration::millis(5)));
    assert_eq!(release.times.resume_at, None);
    assert_eq!(state.next_time, at(u32::MAX - 10));
    assert_eq!(state.on_call_requests, 1);
}

#[test]
fn event_server_moves_on_by_its_separation() {
    let mut state = ExternalEventServer { next_time: at(151), min_sep: 5000 };
    assert_eq!(
        state.advance(at(160)),
        Timing { execution_time: Some(Duration::millis(9)), resume_at: Some(at(5151)) }
    );
    assert_eq!(state, ExternalEventServer { next_time: at(5151), min_sep: 5000 });
    let mut last = ExternalEventServer { next_time: at(u32::MAX - 4999), min_sep: 5000 };
    assert_eq!(
        last.advance(at(u32::MAX)),
        Timing { execution_time: Some(Duration::millis(4999)), resume_at: None }
    );
    assert_eq!(last.next_time, at(u32::MAX - 4999));
}
