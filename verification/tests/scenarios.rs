use taskset::channel::{BoundedChannel, WorkItem};
use taskset::resource_lock::SharedLog;
use taskset::scheduler::Scheduler;
use taskset::tasks::periodic::{regular_producer, Forwarded, RegularProducer};
use taskset::tasks::sporadic::{
    activation_log_reader, external_event_server, on_call_producer, ExternalEventServer,
    OnCallActivation, ReaderActivation, ServerActivation,
};
use taskset::time::TimeInstant;

fn at(ticks: u32) -> TimeInstant {
    TimeInstant::from_ticks(ticks)
}

// Runs the on-call producer at `now` if it is past its separation, and notes
// what it worked on and when.
fn consume(
    work: &mut BoundedChannel,
    now: u32,
    free_at: &mut u32,
    processed: &mut Vec<(WorkItem, u32)>,
) {
    if now >= *free_at {
        if let OnCallActivation::Processed(item, times) = on_call_producer(work, at(now), 3000) {
            processed.push((item, now));
            *free_at = times.resume_at.unwrap().ticks();
        }
    }
}

#[test]
fn on_call_producer_works_on_exactly_the_forwarded_items() {
    let mut producer = RegularProducer::new(at(0), 1000);
    let mut work = BoundedChannel::new(5).unwrap();
    let mut triggers = BoundedChannel::new(1).unwrap();
    let mut forwarded = Vec::new();
    let mut processed = Vec::new();
    let mut free_at = 0;
    for release in 0u32..13 {
        let now = release * 1000;
        assert_eq!(producer.next_time, at(now));
        let report = regular_producer(&mut producer, at(now), &mut work, &mut triggers);
        if report.on_call_prod == Forwarded::Sent {
            forwarded.push(now);
        }
        // Nobody takes the triggers here: all but the first are dropped.
        if release == 2 {
            assert_eq!(report.activation_log_reader, Forwarded::Sent);
        } else if release % 3 == 2 {
            assert_eq!(report.activation_log_reader, Forwarded::Dropped);
        } else {
            assert_eq!(report.activation_log_reader, Forwarded::NotDue);
        }
        consume(&mut work, now, &mut free_at, &mut processed);
    }
    assert_eq!(forwarded, vec![1000, 6000, 11000]);
    assert_eq!(
        processed,
        vec![
            (WorkItem { magnitude: 10564, release: at(1000) }, 1000),
            (WorkItem { magnitude: 10564, release: at(6000) }, 6000),
            (WorkItem { magnitude: 10564, release: at(11000) }, 11000),
        ]
    );
    assert!(work.is_empty());
    for pair in processed.windows(2) {
        assert!(pair[1].1 - pair[0].1 >= 3000);
    }
}

#[test]
fn burst_of_items_is_worked_off_in_order_and_apart() {
    let mut work = BoundedChannel::new(5).unwrap();
    let mut processed = Vec::new();
    let mut free_at = 0;
    for now in (0u32..=12000).step_by(500) {
        if now <= 2000 && now % 1000 == 0 {
            work.try_send(WorkItem { magnitude: now / 1000, release: at(now) }).unwrap();
        }
        consume(&mut work, now, &mut free_at, &mut processed);
    }
    // The separation runs from each item's release: the second item starts
    // 3000 ms after the first was released, the third 3000 ms after the
    // second was released.
    assert_eq!(
        processed,
        vec![
            (WorkItem { magnitude: 0, release: at(0) }, 0),
            (WorkItem { magnitude: 1, release: at(1000) }, 3000),
            (WorkItem { magnitude: 2, release: at(2000) }, 4000),
        ]
    );
    for pair in processed.windows(2) {
        let earlier_release = pair[0].0.release.ticks();
        assert!(pair[1].1 - earlier_release >= 3000);
    }
}

#[test]
fn log_reader_reports_the_latest_write_before_its_trigger() {
    // Task 0 is the log reader (priority 2), task 1 the event server (priority 7).
    let mut scheduler = Scheduler::new();
    assert_eq!(scheduler.add_task(2), Ok(0));
    assert_eq!(scheduler.add_task(7), Ok(1));
    let mut log = SharedLog::new(7);
    let mut server = ExternalEventServer { next_time: at(0), min_sep: 5000 };
    let mut triggers = BoundedChannel::new(1).unwrap();
    let mut reports = Vec::new();

    let events: [(u32, usize); 6] =
        [(0, 1), (1000, 0), (4000, 0), (5000, 1), (7000, 0), (10000, 1)];
    for (now, task) in events {
        scheduler.release(task).unwrap();
        assert_eq!(scheduler.dispatch(), Some(task));
        if task == 1 {
            assert_eq!(server.next_time, at(now));
            let activation =
                external_event_server(&mut server, &mut scheduler, 1, &mut log, at(now));
            assert!(matches!(activation, ServerActivation::Logged(_)));
        } else {
            triggers.try_send(WorkItem { magnitude: 5004, release: at(now) }).unwrap();
            match activation_log_reader(&mut scheduler, 0, &log, &mut triggers, at(now), 3000) {
                ReaderActivation::Read(entry, times) => {
                    assert_eq!(times.resume_at, Some(at(now + 3000)));
                    reports.push((now, entry));
                }
                other => panic!("the reader did not read: {:?}", other),
            }
        }
        scheduler.suspend(task).unwrap();
    }
    assert_eq!(
        reports,
        vec![
            (1000, Some((1, at(0)))),
            (4000, Some((1, at(0)))),
            (7000, Some((2, at(5000)))),
        ]
    );
    scheduler.release(0).unwrap();
    scheduler.dispatch();
    assert_eq!(log.read(&mut scheduler, 0), Ok(Some((3, at(10000)))));
}

#[test]
fn log_reader_reports_unwritten_before_the_first_activation() {
    let mut scheduler = Scheduler::new();
    assert_eq!(scheduler.add_task(2), Ok(0));
    assert_eq!(scheduler.add_task(7), Ok(1));
    let mut log = SharedLog::new(7);
    let mut server = ExternalEventServer { next_time: at(2000), min_sep: 5000 };
    let mut triggers = BoundedChannel::new(1).unwrap();

    scheduler.release(0).unwrap();
    scheduler.dispatch();
    triggers.try_send(WorkItem { magnitude: 5004, release: at(1000) }).unwrap();
    let first = activation_log_reader(&mut scheduler, 0, &log, &mut triggers, at(1000), 3000);
    assert!(matches!(first, ReaderActivation::Read(None, _)));
    scheduler.suspend(0).unwrap();

    scheduler.release(1).unwrap();
    scheduler.dispatch();
    external_event_server(&mut server, &mut scheduler, 1, &mut log, at(2000));
    scheduler.suspend(1).unwrap();

    scheduler.release(0).unwrap();
    scheduler.dispatch();
    triggers.try_send(WorkItem { magnitude: 5004, release: at(4000) }).unwrap();
    let second = activation_log_reader(&mut scheduler, 0, &log, &mut triggers, at(4000), 3000);
    assert!(matches!(second, ReaderActivation::Read(Some((1, stamp)), _) if stamp == at(2000)));
}
