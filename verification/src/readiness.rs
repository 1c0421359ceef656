//! Readiness controller: one master `accepting` switch plus one boolean gate
//! per configured health condition. Overall readiness is a pure combination of
//! the current field values; a gate that configuration does not require is
//! ignored no matter what its probe reported.

use vstd::prelude::*;

use crate::config::HealthCfg;

verus! {

/// Process-wide readiness state. Each field has a single writer (the shutdown
/// watcher for `accepting`, one probe per gate); readers combine them through
/// `is_ready`.
pub struct Readiness {
    pub accepting: bool,
    pub disk_ok: bool,
    pub mqtt_ok: bool,
}

/// Point-in-time copy of the readiness fields, for liveness and diagnostics
/// reporting.
pub struct HealthReport {
    pub accepting: bool,
    pub disk_ok: bool,
    pub mqtt_ok: bool,
}

impl Readiness {
    /// Overall readiness: `accepting`, and every gate that the configuration
    /// marks required holds. An unrequired gate is vacuously satisfied.
    pub open spec fn spec_ready(&self, gates: &HealthCfg) -> bool {
        &&& self.accepting
        &&& gates.require_disk ==> self.disk_ok
        &&& gates.require_mqtt ==> self.mqtt_ok
    }

    /// Everything starts out not ready: the gateway accepts nothing before the
    /// listener is bound, and gates are pessimistic until their first probe.
    pub fn new() -> (r: Self)
        ensures
            !r.accepting,
            !r.disk_ok,
            !r.mqtt_ok,
    {
        Readiness { accepting: false, disk_ok: false, mqtt_ok: false }
    }

    pub fn set_accepting(&mut self, v: bool)
        ensures
            final(self).accepting == v,
            final(self).disk_ok == old(self).disk_ok,
            final(self).mqtt_ok == old(self).mqtt_ok,
    {
        self.accepting = v;
    }

    pub fn set_disk_ok(&mut self, v: bool)
        ensures
            final(self).accepting == old(self).accepting,
            final(self).disk_ok == v,
            final(self).mqtt_ok == old(self).mqtt_ok,
    {
        self.disk_ok = v;
    }

    pub fn set_mqtt_ok(&mut self, v: bool)
        ensures
            final(self).accepting == old(self).accepting,
            final(self).disk_ok == old(self).disk_ok,
            final(self).mqtt_ok == v,
    {
        self.mqtt_ok = v;
    }

    /// Readiness decision: a total function of the current state, with no
    /// history or hysteresis.
    pub fn is_ready(&self, gates: &HealthCfg) -> (r: bool)
        ensures
            r == self.spec_ready(gates),
    {
        let accepting = self.accepting;
        if !accepting {
            return false;
        }
        if gates.require_disk && !self.disk_ok {
            return false;
        }
        if gates.require_mqtt && !self.mqtt_ok {
            return false;
        }
        true
    }

    /// Gate snapshot for the readiness surface: reports the fields as they are.
    pub fn snapshot(&self) -> (h: HealthReport)
        ensures
            h.accepting == self.accepting,
            h.disk_ok == self.disk_ok,
            h.mqtt_ok == self.mqtt_ok,
    {
        HealthReport { accepting: self.accepting, disk_ok: self.disk_ok, mqtt_ok: self.mqtt_ok }
    }

    /// Gate snapshot for the liveness surface: the process answering at all is
    /// what `accepting` reports here, so it is fixed to true; gate values
    /// are diagnostics.
    pub fn liveness_report(&self) -> (h: HealthReport)
        ensures
            h.accepting,
            h.disk_ok == self.disk_ok,
            h.mqtt_ok == self.mqtt_ok,
    {
        HealthReport { accepting: true, disk_ok: self.disk_ok, mqtt_ok: self.mqtt_ok }
    }
}

/// Law: readiness holds exactly when `accepting` is true and every required
/// gate is true; flipping any required gate false makes the next readiness
/// read false, and it is true again once all required gates are true.
pub proof fn lemma_ready_iff_required_gates(r: Readiness, gates: HealthCfg)
    ensures
        r.spec_ready(&gates) <==> (r.accepting && (gates.require_disk ==> r.disk_ok) && (
        gates.require_mqtt ==> r.mqtt_ok)),
{
}

/// Law: flipping any required gate false flips the very next readiness read
/// to false, whatever the rest of the state says.
pub proof fn lemma_required_gate_false_blocks_readiness(r: Readiness, gates: HealthCfg)
    ensures
        gates.require_disk ==> !(Readiness { disk_ok: false, ..r }).spec_ready(&gates),
        gates.require_mqtt ==> !(Readiness { mqtt_ok: false, ..r }).spec_ready(&gates),
{
}

/// Law: once `accepting` holds and every required gate is true again, the next
/// readiness read is true — there is no hysteresis to wait out.
pub proof fn lemma_all_required_true_restores_readiness(r: Readiness, gates: HealthCfg)
    requires
        r.accepting,
        gates.require_disk ==> r.disk_ok,
        gates.require_mqtt ==> r.mqtt_ok,
    ensures
        r.spec_ready(&gates),
{
}

/// Law: a disk gate that configuration does not require never affects the
/// readiness decision, whatever its probed value.
pub proof fn lemma_unrequired_disk_gate_ignored(r: Readiness, gates: HealthCfg, probed: bool)
    requires
        !gates.require_disk,
    ensures
        (Readiness { disk_ok: probed, ..r }).spec_ready(&gates) == r.spec_ready(&gates),
{
}

/// Law: a downstream gate that configuration does not require never affects
/// the readiness decision, whatever its probed value.
pub proof fn lemma_unrequired_mqtt_gate_ignored(r: Readiness, gates: HealthCfg, probed: bool)
    requires
        !gates.require_mqtt,
    ensures
        (Readiness { mqtt_ok: probed, ..r }).spec_ready(&gates) == r.spec_ready(&gates),
{
}

} // verus!
