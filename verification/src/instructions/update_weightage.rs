//! Governance: changing the secondary asset's reward weight.

use crate::errors::ErrorCode;
use crate::state::{GlobalState, Identity};
use vstd::prelude::*;

verus! {

/// The sync performed before the weight change cannot fail.
pub open spec fn update_weightage_safe(
    global_state: GlobalState,
    governance: Identity,
    current_time: u64,
) -> bool {
    governance == global_state.governance ==> global_state.sync_safe(current_time)
}

/// Replace the secondary-asset weight. Only governance may do so. The
/// accumulators are synced first, so the new weight only affects emission
/// from `current_time` on and never retroactively alters accrued reward.
pub fn update_weightage_handler(
    global_state: &mut GlobalState,
    governance: Identity,
    weightage: u64,
    current_time: u64,
) -> (r: Result<(), ErrorCode>)
    requires
        update_weightage_safe(*old(global_state), governance, current_time),
    ensures
        governance != old(global_state).governance ==> r == Result::<(), ErrorCode>::Err(
            ErrorCode::InvalidGovernance,
        ) && *final(global_state) == *old(global_state),
        governance == old(global_state).governance ==> r is Ok && *final(global_state)
            == (GlobalState { weightage, ..old(global_state).synced(current_time) }),
{
    if governance != global_state.governance {
        return Err(ErrorCode::InvalidGovernance);
    }
    global_state.update_reward_per_share(current_time);
    global_state.weightage = weightage;
    Ok(())
}

} // verus!
