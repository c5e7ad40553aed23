use rlink_kafka_sink::collector::{BatchCollector, CollectStep, PollEvent};
use rlink_kafka_sink::config::BATCH_SIZE;
use rlink_kafka_sink::idle::{CycleDelay, IdleController};
use rlink_kafka_sink::outcome::FatalError;
use rlink_kafka_sink::record::DecodedRecord;

#[test]
fn delay_is_short_through_the_twenty_ninth_empty_cycle() {
    let mut c = IdleController::new();
    for n in 1..=29u64 {
        let d = c.observe_cycle(true);
        assert_eq!(d, CycleDelay::Short);
        assert_eq!(d.millis(), 10);
        assert_eq!(c.idle_cycles, n);
    }
}

#[test]
fn delay_escalates_at_the_thirtieth_empty_cycle() {
    let mut c = IdleController::new();
    for _ in 0..29 {
        c.observe_cycle(true);
    }
    let d = c.observe_cycle(true);
    assert_eq!(d, CycleDelay::Long);
    assert_eq!(d.millis(), 300);
    assert_eq!(c.idle_cycles, 30);
    // Sustained idleness stays on the long delay.
    assert_eq!(c.observe_cycle(true), CycleDelay::Long);
}

#[test]
fn a_nonempty_cycle_resets_the_idle_count() {
    let mut c = IdleController::new();
    for _ in 0..35 {
        c.observe_cycle(true);
    }
    let d = c.observe_cycle(false);
    assert_eq!(d, CycleDelay::Immediate);
    assert_eq!(d.millis(), 0);
    assert_eq!(c.idle_cycles, 0);
    // The escalation clock starts over.
    assert_eq!(c.observe_cycle(true), CycleDelay::Short);
    assert_eq!(c.idle_cycles, 1);
}

fn rec() -> DecodedRecord {
    DecodedRecord {
        timestamp: 0,
        key: Vec::new(),
        payload: Vec::new(),
        topic: "t".to_string(),
    }
}

#[test]
fn collector_completes_exactly_at_batch_size() {
    let mut c = BatchCollector::new();
    for i in 1..=BATCH_SIZE {
        let step = c.on_event(PollEvent::Item(rec()));
        if i < BATCH_SIZE {
            assert_eq!(step, CollectStep::Continue);
        } else {
            assert_eq!(step, CollectStep::Complete);
        }
        assert!(c.len() <= BATCH_SIZE);
    }
    assert_eq!(c.len(), BATCH_SIZE);
    assert_eq!(c.into_batch().len(), BATCH_SIZE);
}

#[test]
fn collector_completes_early_on_empty_channel() {
    let mut c = BatchCollector::new();
    c.on_event(PollEvent::Item(rec()));
    let step = c.on_event(PollEvent::Empty);
    assert_eq!(step, CollectStep::Complete);
    assert_eq!(c.len(), 1);
}

#[test]
fn collector_reports_closure_as_fatal() {
    let mut c = BatchCollector::new();
    assert_eq!(
        c.on_event(PollEvent::Closed),
        CollectStep::Fatal(FatalError::ChannelClosed)
    );
    assert_eq!(c.len(), 0);
}

#[test]
fn collector_reports_decode_failure_as_fatal() {
    let mut c = BatchCollector::new();
    c.on_event(PollEvent::Item(rec()));
    assert_eq!(
        c.on_event(PollEvent::DecodeFailed),
        CollectStep::Fatal(FatalError::DecodeFailure)
    );
    assert_eq!(c.len(), 1);
}
