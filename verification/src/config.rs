//! Configuration consumed by the pipeline core, read once at startup. Loading
//! from files, environment and flags happens outside the core; the core only
//! sees the resulting plain values and validates them.

use vstd::prelude::*;

verus! {

/// Downstream (MQTT broker) endpoint settings. An empty host or a zero port
/// disables the downstream reachability probe.
pub struct MqttCfg {
    pub host: String,
    pub port: u16,
    pub client_id: String,
}

impl Default for MqttCfg {
    fn default() -> (r: Self)
        ensures
            r.host@ == "localhost"@,
            r.port == 1883,
            r.client_id@ == "gw-1"@,
    {
        MqttCfg { host: "localhost".to_owned(), port: 1883, client_id: "gw-1".to_owned() }
    }
}

/// Local storage settings. `min_free_bytes == 0` disables the disk gate probe.
pub struct StorageCfg {
    pub db_path: String,
    pub min_free_bytes: u64,
}

impl Default for StorageCfg {
    fn default() -> (r: Self)
        ensures
            r.db_path@ == "./data.db"@,
            r.min_free_bytes == 1,
    {
        StorageCfg { db_path: "./data.db".to_owned(), min_free_bytes: 1 }
    }
}

/// Which gates the readiness decision must take into account, and how often
/// the probe tasks re-check them.
pub struct HealthCfg {
    pub require_mqtt: bool,
    pub require_disk: bool,
    pub probe_interval_ms: Option<u64>,
}

impl Default for HealthCfg {
    fn default() -> (r: Self)
        ensures
            !r.require_mqtt,
            !r.require_disk,
            r.probe_interval_ms == Some(1000u64),
    {
        HealthCfg { require_mqtt: false, require_disk: false, probe_interval_ms: Some(1000) }
    }
}

/// Admission-path settings: queue bound, request size bound, and how an
/// accepted event is acknowledged to the caller.
pub struct IngestCfg {
    pub max_payload_bytes: usize,
    pub queue_capacity: usize,
    pub ack_mode: AckMode,
    pub require_auth: bool,
}

impl Default for IngestCfg {
    fn default() -> (r: Self)
        ensures
            r.max_payload_bytes == 65536,
            r.queue_capacity == 10000,
            r.ack_mode == AckMode::Enqueue,
            !r.require_auth,
    {
        IngestCfg {
            max_payload_bytes: 65536,
            queue_capacity: 10000,
            ack_mode: AckMode::Enqueue,
            require_auth: false,
        }
    }
}

/// Caller-visible acknowledgement policy. Both modes share the same
/// non-blocking enqueue; they differ only in the status signalled back.
#[derive(Clone, Copy, PartialEq, Eq, Structural, Debug)]
pub enum AckMode {
    Enqueue,
    Sink,
}

impl Default for AckMode {
    fn default() -> (r: Self)
        ensures
            r == AckMode::Enqueue,
    {
        AckMode::Enqueue
    }
}

/// The configuration surface the core consumes. The HTTP bind address belongs
/// to the serving layer outside the core.
pub struct GatewayGfg {
    pub mqtt: MqttCfg,
    pub storage: StorageCfg,
    pub health: HealthCfg,
    pub ingest: IngestCfg,
}

/// A configuration the core refuses to run with.
pub enum ConfigError {
    EmptyMqttHost,
}

impl GatewayGfg {
    /// Accepts the configuration exactly when the downstream host is
    /// non-empty.
    pub fn validate(&self) -> (r: Result<(), ConfigError>)
        ensures
            r is Ok <==> self.mqtt.host@.len() > 0,
            r is Err ==> r->Err_0 is EmptyMqttHost,
    {
        if self.mqtt.host.as_str().is_empty() {
            Err(ConfigError::EmptyMqttHost)
        } else {
            Ok(())
        }
    }
}

} // verus!
