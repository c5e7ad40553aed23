use rlink_kafka_sink::collector::{BatchCollector, CollectStep, PollEvent};
use rlink_kafka_sink::config::BATCH_SIZE;
use rlink_kafka_sink::dispatch::cycle_outcomes;
use rlink_kafka_sink::idle::CycleDelay;
use rlink_kafka_sink::outcome::{AwaitOutcome, DeliveryOutcome, FatalError, SubmitOutcome};
use rlink_kafka_sink::pipeline::Pipeline;
use rlink_kafka_sink::record::DecodedRecord;

fn rec(topic: &str) -> DecodedRecord {
    DecodedRecord {
        timestamp: 1_600_000_000_000,
        key: b"abc".to_vec(),
        payload: b"bbbbbbbbbbbbbbbbbbbbbbbbbbb".to_vec(),
        topic: topic.to_string(),
    }
}

fn records(n: usize, topic: &str) -> Vec<DecodedRecord> {
    (0..n).map(|_| rec(topic)).collect()
}

#[test]
fn drain_conserves_counts_when_all_delivered() {
    let mut p = Pipeline::new(None);
    let recs = records(7, "t");
    let verdicts = vec![DeliveryOutcome::Delivered; 7];
    let cycles = p.drain_enqueued(&recs, &verdicts).unwrap();
    assert_eq!(cycles, 1);
    assert_eq!(p.counters.drained, 7);
    assert_eq!(p.counters.discarded, 0);
    assert_eq!(p.counters.drained + p.counters.discarded, 7);
}

#[test]
fn drain_counts_failures_exactly() {
    // Submit succeeds for all, the broker reports failure for exactly 4 of
    // 10: discarded grows by 4 and drained by 6.
    let mut p = Pipeline::new(None);
    let recs = records(10, "t");
    let mut verdicts = vec![DeliveryOutcome::Delivered; 10];
    verdicts[1] = DeliveryOutcome::Failed("broker error".to_string());
    verdicts[3] = DeliveryOutcome::Failed("broker error".to_string());
    verdicts[4] = DeliveryOutcome::Cancelled;
    verdicts[9] = DeliveryOutcome::Rejected("queue full".to_string());
    let cycles = p.drain_enqueued(&recs, &verdicts).unwrap();
    assert_eq!(cycles, 1);
    assert_eq!(p.counters.drained, 6);
    assert_eq!(p.counters.discarded, 4);
}

#[test]
fn drain_splits_large_queue_into_ceiling_many_batches() {
    // 2 * BATCH_SIZE + 1 records need exactly 3 cycles.
    let n = 2 * BATCH_SIZE + 1;
    let mut p = Pipeline::new(None);
    let recs = records(n, "t");
    let verdicts = vec![DeliveryOutcome::Delivered; n];
    let cycles = p.drain_enqueued(&recs, &verdicts).unwrap();
    assert_eq!(cycles, 3);
    assert_eq!(p.counters.drained, n as u64);
    assert_eq!(p.counters.discarded, 0);
}

#[test]
fn drain_of_exactly_one_batch_takes_one_cycle() {
    let mut p = Pipeline::new(None);
    let recs = records(BATCH_SIZE, "t");
    let verdicts = vec![DeliveryOutcome::Delivered; BATCH_SIZE];
    assert_eq!(p.drain_enqueued(&recs, &verdicts).unwrap(), 1);
}

#[test]
fn drain_of_nothing_takes_no_cycle() {
    let mut p = Pipeline::new(None);
    let cycles = p.drain_enqueued(&Vec::new(), &Vec::new()).unwrap();
    assert_eq!(cycles, 0);
    assert_eq!(p.counters.drained, 0);
    assert_eq!(p.counters.discarded, 0);
}

#[test]
fn drain_terminates_on_unroutable_record() {
    // No override and an empty embedded topic: fatal, not a silent discard.
    let mut p = Pipeline::new(None);
    let recs = vec![rec("t1"), rec(""), rec("t2")];
    let verdicts = vec![DeliveryOutcome::Delivered; 3];
    let r = p.drain_enqueued(&recs, &verdicts);
    assert_eq!(r, Err(FatalError::EmptyTopic));
    // The failing batch is never accounted.
    assert_eq!(p.counters.drained, 0);
    assert_eq!(p.counters.discarded, 0);
}

#[test]
fn finish_cycle_accounts_rejections_and_failures() {
    let mut p = Pipeline::new(None);
    let submits = vec![
        SubmitOutcome::Accepted,
        SubmitOutcome::Rejected("queue full".to_string()),
        SubmitOutcome::Accepted,
    ];
    let awaits = vec![
        AwaitOutcome::Delivered,
        AwaitOutcome::Failed("timed out".to_string()),
    ];
    let d = p.finish_cycle(&submits, &awaits);
    assert_eq!(d, CycleDelay::Immediate);
    assert_eq!(p.counters.drained, 1);
    assert_eq!(p.counters.discarded, 2);
    assert_eq!(p.idle.idle_cycles, 0);
}

#[test]
fn finish_cycle_on_empty_batch_is_idle() {
    let mut p = Pipeline::new(None);
    let d = p.finish_cycle(&Vec::new(), &Vec::new());
    assert_eq!(d, CycleDelay::Short);
    assert_eq!(p.idle.idle_cycles, 1);
    assert_eq!(p.counters.drained, 0);
    assert_eq!(p.counters.discarded, 0);
}

#[test]
fn cycle_outcomes_interleave_in_submission_order() {
    let submits = vec![
        SubmitOutcome::Accepted,
        SubmitOutcome::Rejected("queue full".to_string()),
        SubmitOutcome::Accepted,
    ];
    let awaits = vec![AwaitOutcome::Delivered, AwaitOutcome::Cancelled];
    let merged = cycle_outcomes(&submits, &awaits);
    assert_eq!(
        merged,
        vec![
            DeliveryOutcome::Delivered,
            DeliveryOutcome::Rejected("queue full".to_string()),
            DeliveryOutcome::Cancelled,
        ]
    );
}

#[test]
fn closure_mid_run_stops_the_pipeline_and_the_counters() {
    // Drain one batch, then the channel reports permanent closure on the
    // next cycle's first poll: the collector decides Fatal and nothing is
    // accounted from then on.
    let mut p = Pipeline::new(None);
    let recs = records(5, "t");
    let verdicts = vec![DeliveryOutcome::Delivered; 5];
    p.drain_enqueued(&recs, &verdicts).unwrap();
    let drained_before = p.counters.drained;
    let discarded_before = p.counters.discarded;

    let mut collector = BatchCollector::new();
    let step = collector.on_event(PollEvent::Closed);
    assert_eq!(step, CollectStep::Fatal(FatalError::ChannelClosed));
    assert_eq!(collector.len(), 0);
    // The loop terminates on Fatal; neither counter moved.
    assert_eq!(p.counters.drained, drained_before);
    assert_eq!(p.counters.discarded, discarded_before);
}
