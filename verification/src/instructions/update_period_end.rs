//! Governance: re-arming the emission window without touching the rate.

use crate::errors::ErrorCode;
use crate::state::{GlobalState, Identity};
use vstd::prelude::*;

verus! {

/// The sync and the new end-of-cycle timestamp stay within machine limits.
pub open spec fn update_period_end_safe(
    global_state: GlobalState,
    governance: Identity,
    distribution_time: u64,
    current_time: u64,
) -> bool {
    (governance == global_state.governance && distribution_time != 0) ==> {
        &&& global_state.sync_safe(current_time)
        &&& current_time + distribution_time <= u64::MAX
    }
}

/// Re-arm the cycle: sync, then set the cycle end to `current_time +
/// distribution_time`, keeping the emission rate as it is (useful to repeat
/// a cycle with the same reward). Only governance may do so and the added
/// duration must be nonzero.
pub fn update_period_end_handler(
    global_state: &mut GlobalState,
    governance: Identity,
    distribution_time: u64,
    current_time: u64,
) -> (r: Result<(), ErrorCode>)
    requires
        update_period_end_safe(*old(global_state), governance, distribution_time, current_time),
    ensures
        governance != old(global_state).governance ==> r == Result::<(), ErrorCode>::Err(
            ErrorCode::InvalidGovernance,
        ),
        governance == old(global_state).governance && distribution_time == 0 ==> r == Result::<
            (),
            ErrorCode,
        >::Err(ErrorCode::ZeroInput),
        r is Err ==> *final(global_state) == *old(global_state),
        governance == old(global_state).governance && distribution_time != 0 ==> r is Ok && *final(global_state) == (GlobalState {
            period_end_time: (current_time + distribution_time) as u64,
            ..old(global_state).synced(current_time)
        }),
{
    if governance != global_state.governance {
        return Err(ErrorCode::InvalidGovernance);
    }
    if distribution_time == 0 {
        return Err(ErrorCode::ZeroInput);
    }
    global_state.update_reward_per_share(current_time);
    global_state.period_end_time = current_time + distribution_time;
    Ok(())
}

} // verus!
