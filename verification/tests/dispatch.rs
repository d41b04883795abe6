use system_monitor::dispatch::{Delivery, Dispatch, Progress, SinkResult};

// Runs a cycle to its end, answering each delivery as `answer` says.
fn deliveries(alerts: usize, answer: fn(Delivery) -> SinkResult) -> Vec<Delivery> {
    let mut dispatch = Dispatch::new(alerts);
    let mut last = SinkResult::Delivered;
    let mut seen = Vec::new();
    loop {
        assert!(dispatch.is_well_formed());
        let (next, delivery) = dispatch.step(last);
        dispatch = next;
        seen.push(delivery);
        if matches!(delivery, Delivery::Finished { .. }) {
            assert_eq!(dispatch.progress, Progress::Done);
            return seen;
        }
        last = answer(delivery);
    }
}

#[test]
fn cycle_notifies_then_stores_then_logs() {
    let seen = deliveries(2, |_| SinkResult::Delivered);
    assert_eq!(
        seen,
        vec![
            Delivery::Notify(0),
            Delivery::Notify(1),
            Delivery::Persist,
            Delivery::Log { stored: true },
            Delivery::Finished { stored: true },
        ]
    );
}

#[test]
fn cycle_without_alerts_stores_at_once() {
    let seen = deliveries(0, |_| SinkResult::Delivered);
    assert_eq!(
        seen,
        vec![Delivery::Persist, Delivery::Log { stored: true }, Delivery::Finished { stored: true }]
    );
}

#[test]
fn failed_notification_does_not_stop_the_cycle() {
    let seen = deliveries(3, |d| match d {
        Delivery::Notify(_) => SinkResult::Failed,
        _ => SinkResult::Delivered,
    });
    assert_eq!(
        seen,
        vec![
            Delivery::Notify(0),
            Delivery::Notify(1),
            Delivery::Notify(2),
            Delivery::Persist,
            Delivery::Log { stored: true },
            Delivery::Finished { stored: true },
        ]
    );
}

#[test]
fn failed_store_is_reported_and_still_logged() {
    let seen = deliveries(1, |d| match d {
        Delivery::Persist => SinkResult::Failed,
        _ => SinkResult::Delivered,
    });
    assert_eq!(
        seen,
        vec![
            Delivery::Notify(0),
            Delivery::Persist,
            Delivery::Log { stored: false },
            Delivery::Finished { stored: false },
        ]
    );
}

#[test]
fn failed_log_does_not_change_the_report() {
    let seen = deliveries(0, |d| match d {
        Delivery::Log { .. } => SinkResult::Failed,
        _ => SinkResult::Delivered,
    });
    assert_eq!(seen.last(), Some(&Delivery::Finished { stored: true }));
}

#[test]
fn every_sink_failing_still_ends_the_cycle() {
    let seen = deliveries(4, |_| SinkResult::Failed);
    assert_eq!(seen.len(), 7);
    assert_eq!(seen.last(), Some(&Delivery::Finished { stored: false }));
}

#[test]
fn finished_cycle_stays_finished() {
    let done = Dispatch { alerts: 2, progress: Progress::Done, stored: true };
    assert_eq!(done.step(SinkResult::Failed), (done, Delivery::Finished { stored: true }));
}

#[test]
fn progress_beyond_the_alerts_is_malformed() {
    assert!(!Dispatch { alerts: 2, progress: Progress::Notified(2), stored: false }.is_well_formed());
    assert!(Dispatch { alerts: 2, progress: Progress::Notified(1), stored: false }.is_well_formed());
}
