//! The loop controller's per-cycle decisions. The loop itself performs the
//! network calls and the pause; the rules for what each outcome does to the
//! two state records live here.

use vstd::prelude::*;
use crate::light::{LightState, SyncError};
use crate::master::{master_state_of, spec_master_state};

verus! {

/// The state a cycle works with after a failed master read: power treated as
/// off, channels at their documented defaults. It stands in for the read for
/// one cycle only and never reaches the stored master record.
pub open spec fn spec_fallback() -> LightState {
    spec_master_state(false, None, None, None)
}

/// The transient state used for one cycle when the master read failed.
pub fn fallback_state() -> (r: LightState)
    ensures
        r == spec_fallback(),
        r.wf(),
{
    master_state_of(false, None, None, None)
}

/// Take one cycle's master read into the stored master record: a successful
/// read overwrites the record and is used as observed; a failed read leaves
/// the record untouched and substitutes the transient fallback state for
/// this cycle.
pub fn apply_read(stored_master: &mut LightState, read: Result<LightState, SyncError>) -> (r:
    LightState)
    ensures
        read matches Ok(st) ==> *final(stored_master) == st && r == st,
        read is Err ==> *final(stored_master) == *old(stored_master) && r == spec_fallback(),
{
    match read {
        Ok(st) => {
            *stored_master = st;
            st
        },
        Err(_) => fallback_state(),
    }
}

} // verus!
