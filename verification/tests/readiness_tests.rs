use gateway::config::{AckMode, ConfigError, GatewayGfg, HealthCfg, IngestCfg, MqttCfg, StorageCfg};
use gateway::readiness::Readiness;

fn gates(require_disk: bool, require_mqtt: bool) -> HealthCfg {
    HealthCfg { require_mqtt, require_disk, probe_interval_ms: Some(1000) }
}

#[test]
fn ready_iff_accepting_and_required_gates() {
    for &require_disk in &[false, true] {
        for &require_mqtt in &[false, true] {
            for &accepting in &[false, true] {
                for &disk_ok in &[false, true] {
                    for &mqtt_ok in &[false, true] {
                        let r = Readiness { accepting, disk_ok, mqtt_ok };
                        let expected = accepting
                            && (!require_disk || disk_ok)
                            && (!require_mqtt || mqtt_ok);
                        assert_eq!(r.is_ready(&gates(require_disk, require_mqtt)), expected);
                    }
                }
            }
        }
    }
}

#[test]
fn toggling_required_gate_flips_readiness() {
    let g = gates(true, true);
    let mut r = Readiness::new();
    r.set_accepting(true);
    r.set_disk_ok(true);
    r.set_mqtt_ok(true);
    assert!(r.is_ready(&g));
    r.set_mqtt_ok(false);
    assert!(!r.is_ready(&g));
    r.set_mqtt_ok(true);
    assert!(r.is_ready(&g));
}

#[test]
fn unrequired_gate_never_affects_readiness() {
    let g = gates(false, false);
    let mut r = Readiness::new();
    r.set_accepting(true);
    r.set_disk_ok(false);
    r.set_mqtt_ok(false);
    assert!(r.is_ready(&g));
    r.set_disk_ok(true);
    assert!(r.is_ready(&g));
    let g_disk_only = gates(true, false);
    r.set_mqtt_ok(false);
    assert!(r.is_ready(&g_disk_only));
}

#[test]
fn disk_gate_scenario_requires_disk() {
    let g = gates(true, false);
    let mut r = Readiness::new();
    r.set_accepting(true);
    r.set_disk_ok(false);
    assert!(!r.is_ready(&g));
    r.set_disk_ok(true);
    assert!(r.is_ready(&g));
}

#[test]
fn new_readiness_reports_nothing() {
    let r = Readiness::new();
    assert!(!r.accepting);
    assert!(!r.disk_ok);
    assert!(!r.mqtt_ok);
    assert!(!r.is_ready(&gates(false, false)));
}

#[test]
fn snapshot_reports_fields_and_liveness_is_always_up() {
    let mut r = Readiness::new();
    r.set_accepting(true);
    r.set_disk_ok(true);
    let snap = r.snapshot();
    assert!(snap.accepting);
    assert!(snap.disk_ok);
    assert!(!snap.mqtt_ok);
    r.set_accepting(false);
    let live = r.liveness_report();
    assert!(live.accepting);
    assert!(live.disk_ok);
    assert!(!live.mqtt_ok);
}

#[test]
fn config_defaults_match_policy() {
    let mqtt = MqttCfg::default();
    assert_eq!(mqtt.host, "localhost");
    assert_eq!(mqtt.port, 1883);
    assert_eq!(mqtt.client_id, "gw-1");
    let storage = StorageCfg::default();
    assert_eq!(storage.db_path, "./data.db");
    assert_eq!(storage.min_free_bytes, 1);
    let health = HealthCfg::default();
    assert!(!health.require_disk);
    assert!(!health.require_mqtt);
    assert_eq!(health.probe_interval_ms, Some(1000));
    let ingest = IngestCfg::default();
    assert_eq!(ingest.max_payload_bytes, 65536);
    assert_eq!(ingest.queue_capacity, 10000);
    assert!(matches!(ingest.ack_mode, AckMode::Enqueue));
    assert!(!ingest.require_auth);
    assert!(matches!(AckMode::default(), AckMode::Enqueue));
}

#[test]
fn validate_rejects_empty_mqtt_host() {
    let mut cfg = GatewayGfg {
        mqtt: MqttCfg::default(),
        storage: StorageCfg::default(),
        health: HealthCfg::default(),
        ingest: IngestCfg::default(),
    };
    assert!(cfg.validate().is_ok());
    cfg.mqtt.host = String::new();
    assert!(matches!(cfg.validate(), Err(ConfigError::EmptyMqttHost)));
}
