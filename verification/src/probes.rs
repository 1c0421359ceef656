//! Probe scheduling policy and per-tick gate decisions. The measurements
//! themselves (filesystem statistics, a bounded-timeout connect) run outside
//! the core; the core decides whether a gate needs a periodic task at all,
//! what a disabled gate is forced to, and what each measurement means for its
//! gate. A probe failure sets its gate false and never goes further.

use vstd::prelude::*;

use crate::config::{HealthCfg, MqttCfg, StorageCfg};
use crate::readiness::Readiness;

verus! {

/// Interval between re-checks when configuration supplies none, in
/// milliseconds.
pub const DEFAULT_PROBE_INTERVAL_MS: u64 = 1000;

/// Whether a gate gets its own periodic task or is settled once at startup.
#[derive(Clone, Copy, PartialEq, Eq, Structural, Debug)]
pub enum ProbeMode {
    Disabled,
    Periodic,
}

/// The fixed re-check interval every probe task runs on.
pub fn probe_interval_ms(health: &HealthCfg) -> (r: u64)
    ensures
        r == if health.probe_interval_ms is Some {
            health.probe_interval_ms->0
        } else {
            DEFAULT_PROBE_INTERVAL_MS
        },
{
    match health.probe_interval_ms {
        Some(ms) => ms,
        None => DEFAULT_PROBE_INTERVAL_MS,
    }
}

/// Disk probe policy: a configured minimum of zero is an explicit disablement
/// — that gate is force-set true once and no periodic task is started;
/// otherwise its value is left for the task's first immediate check.
pub fn plan_disk_probe(storage: &StorageCfg, ready: &mut Readiness) -> (mode: ProbeMode)
    ensures
        mode == if storage.min_free_bytes == 0 {
            ProbeMode::Disabled
        } else {
            ProbeMode::Periodic
        },
        storage.min_free_bytes == 0 ==> *final(ready) == (Readiness {
            disk_ok: true,
            ..*old(ready)
        }),
        storage.min_free_bytes != 0 ==> *final(ready) == *old(ready),
{
    if storage.min_free_bytes == 0 {
        ready.set_disk_ok(true);
        ProbeMode::Disabled
    } else {
        ProbeMode::Periodic
    }
}

/// Downstream probe policy, mirroring the disk rule: an empty host or a zero
/// port disables the probe and force-sets its gate true once.
pub fn plan_mqtt_probe(mqtt: &MqttCfg, ready: &mut Readiness) -> (mode: ProbeMode)
    ensures
        mode == if mqtt.host@.len() == 0 || mqtt.port == 0 {
            ProbeMode::Disabled
        } else {
            ProbeMode::Periodic
        },
        mode is Disabled ==> *final(ready) == (Readiness { mqtt_ok: true, ..*old(ready) }),
        mode is Periodic ==> *final(ready) == *old(ready),
{
    if mqtt.host.as_str().is_empty() || mqtt.port == 0 {
        ready.set_mqtt_ok(true);
        ProbeMode::Disabled
    } else {
        ProbeMode::Periodic
    }
}

/// What one disk measurement means for its gate: free space was measured and
/// meets the minimum. A failed measurement (`None`) sets that gate false — an
/// expected steady-state condition, never an error.
pub fn disk_gate_value(free_bytes: Option<u64>, min_free_bytes: u64) -> (gate: bool)
    ensures
        gate == (free_bytes matches Some(b) && b >= min_free_bytes),
{
    match free_bytes {
        Some(b) => b >= min_free_bytes,
        None => false,
    }
}

/// Free space from filesystem statistics: available blocks times block size,
/// saturating at the top of the range instead of wrapping.
pub fn free_space_bytes(blocks_available: u64, block_size: u64) -> (r: u64)
    ensures
        r == if blocks_available * block_size <= u64::MAX {
            blocks_available * block_size
        } else {
            u64::MAX as int
        },
{
    match blocks_available.checked_mul(block_size) {
        Some(v) => v,
        None => u64::MAX,
    }
}

} // verus!
