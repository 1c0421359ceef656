use gateway::config::{AckMode, GatewayGfg, HealthCfg, IngestCfg, MqttCfg, StorageCfg};
use gateway::event::{IngestBody, MetricSample};
use gateway::ingest::{ingest, validate_maps, AdmitOutcome, ValidationError, MAX_METRICS};
use gateway::metrics::AppMetrics;
use gateway::queue::IngressQueue;
use gateway::readiness::Readiness;

fn config(queue_capacity: usize, ack_mode: AckMode) -> GatewayGfg {
    GatewayGfg {
        mqtt: MqttCfg::default(),
        storage: StorageCfg::default(),
        health: HealthCfg::default(),
        ingest: IngestCfg { max_payload_bytes: 65536, queue_capacity, ack_mode, require_auth: false },
    }
}

fn accepting() -> Readiness {
    let mut r = Readiness::new();
    r.set_accepting(true);
    r
}

fn body_with_metrics(count: usize) -> IngestBody {
    let metrics = (0..count)
        .map(|i| MetricSample { name: format!("m{i}"), value_bits: (i as f64).to_bits() })
        .collect();
    IngestBody { ts: None, seq: None, metrics, tags: Vec::new(), payload: serde_json::Value::Null }
}

#[test]
fn validate_maps_enforces_metric_limit() {
    assert!(validate_maps(&body_with_metrics(0)).is_ok());
    assert!(validate_maps(&body_with_metrics(MAX_METRICS)).is_ok());
    assert_eq!(
        validate_maps(&body_with_metrics(MAX_METRICS + 1)),
        Err(ValidationError::TooManyMetrics)
    );
}

#[test]
fn not_ready_rejects_before_validation() {
    let cfg = config(4, AckMode::Enqueue);
    let ready = Readiness::new();
    let mut queue = IngressQueue::new(4);
    let mut metrics = AppMetrics::new();
    let outcome = ingest(
        &cfg,
        &ready,
        &mut queue,
        &mut metrics,
        "dev".to_string(),
        body_with_metrics(MAX_METRICS + 1),
        10,
        0,
    );
    assert_eq!(outcome, AdmitOutcome::NotReady);
    assert_eq!(queue.len(), 0);
    assert_eq!(metrics.rejected_total_for("too_many_metrics"), 0);
}

#[test]
fn over_limit_metrics_rejects_and_counts_the_reason() {
    let cfg = config(4, AckMode::Enqueue);
    let ready = accepting();
    let mut queue = IngressQueue::new(4);
    let mut metrics = AppMetrics::new();
    let outcome = ingest(
        &cfg,
        &ready,
        &mut queue,
        &mut metrics,
        "dev".to_string(),
        body_with_metrics(MAX_METRICS + 1),
        10,
        0,
    );
    assert_eq!(outcome, AdmitOutcome::ValidationFailed(ValidationError::TooManyMetrics));
    assert_eq!(queue.len(), 0);
    assert_eq!(metrics.rejected_total_for("too_many_metrics"), 1);
    assert_eq!(metrics.rejected_total_for("other_reason"), 0);
}

#[test]
fn admitted_event_is_built_from_the_body_and_the_clock() {
    let cfg = config(4, AckMode::Enqueue);
    let ready = accepting();
    let mut queue = IngressQueue::new(4);
    let mut metrics = AppMetrics::new();
    let body = IngestBody {
        ts: Some(500),
        seq: Some(9),
        metrics: vec![MetricSample { name: "rpm".to_string(), value_bits: 3.25f64.to_bits() }],
        tags: Vec::new(),
        payload: serde_json::Value::Bool(true),
    };
    let outcome =
        ingest(&cfg, &ready, &mut queue, &mut metrics, "dev-5".to_string(), body, 1000, 77);
    assert_eq!(outcome, AdmitOutcome::Admitted(AckMode::Enqueue));
    let ev = queue.try_dequeue().expect("one event was admitted");
    assert_eq!(ev.device_id, "dev-5");
    assert_eq!(ev.ts, 500, "a client timestamp is kept");
    assert_eq!(ev.seq, Some(9));
    assert_eq!(ev.metrics[0].name, "rpm");
    assert_eq!(ev.payload, serde_json::Value::Bool(true));
    assert_eq!(ev.received_at, 1000, "received_at comes from the gateway clock");
    assert_eq!(ev.bytes, 77);
}

#[test]
fn missing_timestamp_is_assigned_at_receipt() {
    let cfg = config(4, AckMode::Enqueue);
    let ready = accepting();
    let mut queue = IngressQueue::new(4);
    let mut metrics = AppMetrics::new();
    let outcome = ingest(
        &cfg,
        &ready,
        &mut queue,
        &mut metrics,
        "dev".to_string(),
        body_with_metrics(1),
        12345,
        0,
    );
    assert_eq!(outcome, AdmitOutcome::Admitted(AckMode::Enqueue));
    let ev = queue.try_dequeue().expect("one event was admitted");
    assert_eq!(ev.ts, 12345);
    assert_eq!(ev.received_at, 12345);
}

#[test]
fn ack_mode_changes_only_the_signalled_status() {
    for (mode, expected) in [
        (AckMode::Enqueue, AdmitOutcome::Admitted(AckMode::Enqueue)),
        (AckMode::Sink, AdmitOutcome::Admitted(AckMode::Sink)),
    ] {
        let cfg = config(4, mode);
        let ready = accepting();
        let mut queue = IngressQueue::new(4);
        let mut metrics = AppMetrics::new();
        let outcome = ingest(
            &cfg,
            &ready,
            &mut queue,
            &mut metrics,
            "dev".to_string(),
            body_with_metrics(0),
            1,
            0,
        );
        assert_eq!(outcome, expected);
        assert_eq!(queue.len(), 1, "both modes share the same enqueue");
    }
}

#[test]
fn end_to_end_capacity_two_with_paused_consumer() {
    let cfg = config(2, AckMode::Enqueue);
    let ready = accepting();
    let mut queue = IngressQueue::new(2);
    let mut metrics = AppMetrics::new();
    let send_write = |queue: &mut IngressQueue, metrics: &mut AppMetrics, dev: &str| {
        ingest(&cfg, &ready, queue, metrics, dev.to_string(), body_with_metrics(0), 1, 0)
    };
    assert_eq!(send_write(&mut queue, &mut metrics, "a"), AdmitOutcome::Admitted(AckMode::Enqueue));
    assert_eq!(send_write(&mut queue, &mut metrics, "b"), AdmitOutcome::Admitted(AckMode::Enqueue));
    // Consumer paused: the third write hits the bound.
    assert_eq!(send_write(&mut queue, &mut metrics, "c"), AdmitOutcome::QueueFull);
    // Consumer resumes and drains one slot.
    let drained = queue.try_dequeue().expect("queue was full");
    assert_eq!(drained.device_id, "a");
    // A slot is free again: the fourth write is admitted.
    assert_eq!(send_write(&mut queue, &mut metrics, "d"), AdmitOutcome::Admitted(AckMode::Enqueue));
    assert_eq!(queue.len(), 2);
}

#[test]
fn counters_record_each_event_and_reason_independently() {
    let mut metrics = AppMetrics::new();
    assert_eq!(metrics.events_received_total(), 0);
    metrics.events_received();
    metrics.events_received();
    assert_eq!(metrics.events_received_total(), 2);
    metrics.ingest_rejected_total("too_many_metrics");
    metrics.ingest_rejected_total("payload_too_large");
    metrics.ingest_rejected_total("too_many_metrics");
    assert_eq!(metrics.rejected_total_for("too_many_metrics"), 2);
    assert_eq!(metrics.rejected_total_for("payload_too_large"), 1);
    assert_eq!(metrics.rejected_total_for("never_seen"), 0);
    assert_eq!(metrics.events_received_total(), 2);
}
