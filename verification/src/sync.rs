//! The slave-state synchronizer: decide whether the slave must be written,
//! produce the two request values (color first, then power), and record the
//! new baseline only when both writes succeeded.

use vstd::prelude::*;
use vstd::string::StringExecFns;
use crate::light::{LightState, Power, SyncError};
use crate::text::{dec_of, u64_to_string};

verus! {

/// A write is needed exactly when the observed master state differs from the
/// recorded slave state in any field.
pub open spec fn sync_needed(master: LightState, slave: LightState) -> bool {
    master != slave
}

/// The slave's composite color value: the three channels in decimal, comma
/// joined, no spaces.
pub open spec fn hsv_text(st: LightState) -> Seq<char> {
    dec_of(st.hue as int) + seq![','] + dec_of(st.sat as int) + seq![','] + dec_of(st.bri as int)
}

/// The slave's relay value: `1` to switch on, `0` otherwise.
pub open spec fn relay_text(p: Power) -> Seq<char> {
    if p is On {
        seq!['1']
    } else {
        seq!['0']
    }
}

/// The write sequence one cycle issues: nothing when master and slave agree,
/// else the color value followed by the power value, in that order.
pub open spec fn spec_plan(master: LightState, slave: LightState) -> Option<(Seq<char>, Seq<char>)> {
    if sync_needed(master, slave) {
        Some((hsv_text(master), relay_text(master.power)))
    } else {
        None
    }
}

/// The power value may only go out after the color write succeeded.
pub open spec fn spec_release_power(color_ok: bool, relay: Seq<char>) -> Option<Seq<char>> {
    if color_ok {
        Some(relay)
    } else {
        None
    }
}

/// What the slave record holds after a cycle: the master's state when the
/// whole write succeeded, the old record otherwise.
pub open spec fn spec_record(master: LightState, slave: LightState, success: bool) -> LightState {
    if success {
        master
    } else {
        slave
    }
}

/// A master state equal to the stored slave state issues zero writes.
pub proof fn lemma_idempotence(master: LightState, slave: LightState)
    requires
        master == slave,
    ensures
        spec_plan(master, slave) is None,
{
}

/// A master state differing from the stored slave state in any field issues
/// exactly two writes: the color value, then the power value.
pub proof fn lemma_change_triggers_write(master: LightState, slave: LightState)
    requires
        master != slave,
    ensures
        spec_plan(master, slave) == Some((hsv_text(master), relay_text(master.power))),
{
}

/// If the color write fails, the power write is withheld and the slave
/// record keeps its old value.
pub proof fn lemma_failure_isolation(master: LightState, slave: LightState, relay: Seq<char>)
    ensures
        spec_release_power(false, relay) is None,
        spec_record(master, slave, false) == slave,
{
}

/// On the first cycle the slave record is still `Unknown`, which no read
/// master state carries, so any successfully read state triggers a write.
pub proof fn lemma_restart_writes(master: LightState)
    requires
        master.power != Power::Unknown,
    ensures
        spec_plan(master, LightState::spec_unknown()) is Some,
{
}

/// The two request values for one slave update.
pub struct WritePlan {
    /// Composite color value, e.g. `180,49,49`.
    pub hsv_value: String,
    /// Relay value, `1` or `0`.
    pub relay_value: String,
}

/// Decide one cycle's writes: `None` when the slave already matches the
/// master, else the color and power values to send, in that order.
pub fn plan_sync(master: &LightState, slave: &LightState) -> (r: Option<WritePlan>)
    ensures
        r is Some <==> spec_plan(*master, *slave) is Some,
        r matches Some(plan) ==> (plan.hsv_value@, plan.relay_value@) == spec_plan(
            *master,
            *slave,
        )->Some_0,
{
    if *master == *slave {
        None
    } else {
        let mut hsv = u64_to_string(master.hue);
        hsv.append(",");
        let sat = u64_to_string(master.sat);
        hsv.append(sat.as_str());
        hsv.append(",");
        let bri = u64_to_string(master.bri);
        hsv.append(bri.as_str());
        let relay = if master.power == Power::On {
            String::from_str("1")
        } else {
            String::from_str("0")
        };
        proof {
            reveal_strlit(",");
            reveal_strlit("1");
            reveal_strlit("0");
            assert(hsv@ =~= hsv_text(*master));
            assert(relay@ =~= relay_text(master.power));
        }
        Some(WritePlan { hsv_value: hsv, relay_value: relay })
    }
}

/// Hand out the power value only once the color write has succeeded; after a
/// failed color write no power write may be issued.
pub fn release_power(plan: WritePlan, color_ok: bool) -> (r: Option<String>)
    ensures
        r matches Some(v) ==> Some(v@) == spec_release_power(color_ok, plan.relay_value@),
        (r is Some) == (spec_release_power(color_ok, plan.relay_value@) is Some),
        (r is Some) == color_ok,
{
    if color_ok {
        Some(plan.relay_value)
    } else {
        None
    }
}

/// Record one cycle's outcome: only a fully successful write (color and
/// power) overwrites the slave record; any failure leaves it unchanged and
/// surfaces as `WriteFailure`, so the mismatch is seen again next cycle.
pub fn record_sync(
    master: &LightState,
    slave: &mut LightState,
    color_ok: bool,
    power_ok: bool,
) -> (r: Result<(), SyncError>)
    ensures
        *final(slave) == spec_record(*master, *old(slave), color_ok && power_ok),
        (r is Ok) == (color_ok && power_ok),
        r is Err ==> r->Err_0 == SyncError::WriteFailure,
{
    if color_ok && power_ok {
        *slave = *master;
        Ok(())
    } else {
        Err(SyncError::WriteFailure)
    }
}

/// Request path for the slave's composite color resource.
pub fn slave_hsv_url(slave_host: &str) -> (r: String)
    ensures
        r@ == "http://"@ + slave_host@ + "/api/hsv"@,
{
    let mut url = String::from_str("http://");
    url.append(slave_host);
    url.append("/api/hsv");
    url
}

/// Request path for the slave's relay resource.
pub fn slave_relay_url(slave_host: &str) -> (r: String)
    ensures
        r@ == "http://"@ + slave_host@ + "/api/relay/0"@,
{
    let mut url = String::from_str("http://");
    url.append(slave_host);
    url.append("/api/relay/0");
    url
}

} // verus!
