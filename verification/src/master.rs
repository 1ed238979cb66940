//! The master-state reader: decode the master light's JSON report into a
//! normalized `LightState`, substituting documented defaults for absent or
//! malformed color channels and converting every channel to the slave's
//! ranges at read time.

use vstd::prelude::*;
use vstd::string::StringExecFns;
use crate::convert::{channel_to_slave, spec_channel, MASTER_BRI_MAX, MASTER_HUE_MAX, MASTER_SAT_MAX};
use crate::light::{LightState, Power, SyncError, SLAVE_BRI_MAX, SLAVE_HUE_MAX, SLAVE_SAT_MAX};
use crate::text::dec_of;

verus! {

/// Whether serde_json accepts this text as one JSON document; the outcome
/// depends on the characters alone.
pub uninterp spec fn json_parses(s: Seq<char>) -> bool;

/// The boolean under `state.on` of the document this text holds: `None` when
/// the path is absent or no boolean there; a function of the characters
/// alone. Meaningful only for text that parses.
pub uninterp spec fn master_on_of(s: Seq<char>) -> Option<bool>;

/// The unsigned integer under `state.hue` of the document this text holds:
/// `None` when the path is absent or holds no u64; a function of the
/// characters alone. Meaningful only for text that parses.
pub uninterp spec fn master_hue_of(s: Seq<char>) -> Option<u64>;

/// The unsigned integer under `state.sat` of the document this text holds,
/// as `master_hue_of`.
pub uninterp spec fn master_sat_of(s: Seq<char>) -> Option<u64>;

/// The unsigned integer under `state.bri` of the document this text holds,
/// as `master_hue_of`.
pub uninterp spec fn master_bri_of(s: Seq<char>) -> Option<u64>;

/// Relies on serde_json::from_str::<Value>, Value::get, Value::as_bool and
/// Value::as_u64: parsing and each `state` field of the parsed document are
/// functions of the text alone; `get` finds a key of a JSON object and
/// nothing else; `as_bool` and `as_u64` yield exactly a JSON boolean or a
/// number that is an unsigned 64-bit integer.
#[verifier::external_body]
fn extract_master_fields(body: &str) -> (r: Option<(bool, Option<u64>, Option<u64>, Option<u64>)>)
    ensures
        (r is Some) == (json_parses(body@) && master_on_of(body@) is Some),
        r matches Some(f) ==> Some(f.0) == master_on_of(body@) && f.1 == master_hue_of(body@)
            && f.2 == master_sat_of(body@) && f.3 == master_bri_of(body@),
{
    let root: serde_json::Value = serde_json::from_str(body).ok()?;
    let state = root.get("state")?;
    let on = state.get("on")?.as_bool()?;
    let hue = state.get("hue").and_then(serde_json::Value::as_u64);
    let sat = state.get("sat").and_then(serde_json::Value::as_u64);
    let bri = state.get("bri").and_then(serde_json::Value::as_u64);
    Some((on, hue, sat, bri))
}

/// Raw channel value used when the master's report carries no usable hue.
pub const DEFAULT_HUE_RAW: u64 = 0;

/// Raw channel value used when the master's report carries no usable
/// saturation.
pub const DEFAULT_SAT_RAW: u64 = 0;

/// Raw channel value used when the master's report carries no usable
/// brightness: white light at half brightness.
pub const DEFAULT_BRI_RAW: u64 = 127;

/// The normalized state a master report with these fields denotes: power is
/// the reported boolean, absent channels fall back to the defaults, and each
/// channel is converted to the slave's range.
pub open spec fn spec_master_state(
    on: bool,
    hue: Option<u64>,
    sat: Option<u64>,
    bri: Option<u64>,
) -> LightState {
    LightState {
        power: if on { Power::On } else { Power::Off },
        hue: spec_channel(hue.unwrap_or(DEFAULT_HUE_RAW), MASTER_HUE_MAX, SLAVE_HUE_MAX) as u64,
        sat: spec_channel(sat.unwrap_or(DEFAULT_SAT_RAW), MASTER_SAT_MAX, SLAVE_SAT_MAX) as u64,
        bri: spec_channel(bri.unwrap_or(DEFAULT_BRI_RAW), MASTER_BRI_MAX, SLAVE_BRI_MAX) as u64,
    }
}

/// Normalize the fields read from a master report: decide power, substitute
/// the documented default for each absent channel, and convert every channel
/// to the slave's range.
pub fn master_state_of(on: bool, hue: Option<u64>, sat: Option<u64>, bri: Option<u64>) -> (r:
    LightState)
    ensures
        r == spec_master_state(on, hue, sat, bri),
        r.wf(),
        r.power != Power::Unknown,
{
    LightState {
        power: if on { Power::On } else { Power::Off },
        hue: channel_to_slave(hue.unwrap_or(DEFAULT_HUE_RAW), MASTER_HUE_MAX, SLAVE_HUE_MAX),
        sat: channel_to_slave(sat.unwrap_or(DEFAULT_SAT_RAW), MASTER_SAT_MAX, SLAVE_SAT_MAX),
        bri: channel_to_slave(bri.unwrap_or(DEFAULT_BRI_RAW), MASTER_BRI_MAX, SLAVE_BRI_MAX),
    }
}

/// Decode a master light's response body. The read succeeds exactly when the
/// body is a JSON document whose `state.on` is a boolean; the result is then
/// the normalized master state of the document's fields: power read directly
/// from the `on` boolean, channels defaulted when absent or malformed and
/// converted to the slave's ranges. Everything else fails as `ReadFailure`.
pub fn read_master_state(body: &str) -> (r: Result<LightState, SyncError>)
    ensures
        r is Err ==> r->Err_0 == SyncError::ReadFailure,
        (r is Ok) == (json_parses(body@) && master_on_of(body@) is Some),
        r matches Ok(st) ==> st == spec_master_state(
            master_on_of(body@)->Some_0,
            master_hue_of(body@),
            master_sat_of(body@),
            master_bri_of(body@),
        ),
        r matches Ok(st) ==> st.wf() && st.power != Power::Unknown,
{
    match extract_master_fields(body) {
        Some((on, hue, sat, bri)) => Ok(master_state_of(on, hue, sat, bri)),
        None => Err(SyncError::ReadFailure),
    }
}

/// Request path for the master light's state resource.
pub fn master_request_url(master_host: &str, credential: &str, light_id: u64) -> (r: String)
    ensures
        r@ == "http://"@ + master_host@ + "/api/"@ + credential@ + "/lights/"@ + dec_of(
            light_id as int,
        ),
{
    let mut url = String::from_str("http://");
    url.append(master_host);
    url.append("/api/");
    url.append(credential);
    url.append("/lights/");
    let id = crate::text::u64_to_string(light_id);
    url.append(id.as_str());
    proof {
        assert(url@ =~= "http://"@ + master_host@ + "/api/"@ + credential@ + "/lights/"@ + dec_of(
            light_id as int,
        ));
    }
    url
}

} // verus!
