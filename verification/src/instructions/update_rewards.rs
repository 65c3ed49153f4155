//! Governance: configuring the emission rate and cycle length, rolling any
//! unemitted remainder of a still-active cycle into the new rate.

use crate::errors::ErrorCode;
use crate::state::{GlobalState, Identity};
use vstd::prelude::*;

verus! {

/// The rate the state carries after the change: the given rate, plus — when
/// the previous cycle is still active — its unemitted remainder
/// `(cycle end - now) * old rate / old cycle length`, so that un-emitted
/// value survives a mid-cycle change instead of being discarded.
pub open spec fn rolled_reward(global_state: GlobalState, reward: u64, current_time: u64) -> int {
    if current_time >= global_state.period_end_time {
        reward as int
    } else {
        reward + (global_state.period_end_time - current_time) * global_state.reward
            / (global_state.distribution_time as int)
    }
}

/// All guards the handler tests before changing anything pass.
pub open spec fn update_rewards_accepted(
    global_state: GlobalState,
    governance: Identity,
    reward: u64,
    distribution_time: u64,
    current_time: u64,
) -> bool {
    &&& governance == global_state.governance
    &&& distribution_time != 0
    &&& !(current_time >= global_state.period_end_time && reward == 0)
}

/// The sync and the rollover arithmetic stay within machine limits.
pub open spec fn update_rewards_safe(
    global_state: GlobalState,
    governance: Identity,
    reward: u64,
    distribution_time: u64,
    current_time: u64,
) -> bool {
    update_rewards_accepted(global_state, governance, reward, distribution_time, current_time)
        ==> {
        &&& global_state.sync_safe(current_time)
        &&& (current_time < global_state.period_end_time ==> {
            &&& global_state.distribution_time != 0
            &&& (global_state.period_end_time - current_time) * global_state.reward <= u64::MAX
            &&& rolled_reward(global_state, reward, current_time) <= u64::MAX
        })
        &&& current_time + distribution_time <= u64::MAX
        &&& global_state.total_distributed_reward + reward <= u64::MAX
    }
}

/// Start a new emission cycle of `distribution_time` seconds: sync, then set
/// the rate to `reward` — plus, mid-cycle, the rolled-forward unemitted
/// remainder of the old cycle — and move the cycle end to `current_time +
/// distribution_time`. Only governance may do so; the cycle length must be
/// nonzero, and so must the rate when the previous cycle already ended. The
/// audit counter grows by the given rate alone.
pub fn update_rewards_handler(
    global_state: &mut GlobalState,
    governance: Identity,
    reward: u64,
    distribution_time: u64,
    current_time: u64,
) -> (r: Result<(), ErrorCode>)
    requires
        update_rewards_safe(
            *old(global_state),
            governance,
            reward,
            distribution_time,
            current_time,
        ),
    ensures
        governance != old(global_state).governance ==> r == Result::<(), ErrorCode>::Err(
            ErrorCode::InvalidGovernance,
        ),
        governance == old(global_state).governance && (distribution_time == 0 || (current_time
            >= old(global_state).period_end_time && reward == 0)) ==> r == Result::<
            (),
            ErrorCode,
        >::Err(ErrorCode::ZeroInput),
        r is Err ==> *final(global_state) == *old(global_state),
        final(global_state).total_distributed_reward >= old(
            global_state,
        ).total_distributed_reward,
        update_rewards_accepted(
            *old(global_state),
            governance,
            reward,
            distribution_time,
            current_time,
        ) ==> r is Ok && *final(global_state) == (GlobalState {
            reward: rolled_reward(*old(global_state), reward, current_time) as u64,
            distribution_time,
            period_end_time: (current_time + distribution_time) as u64,
            total_distributed_reward: (old(global_state).total_distributed_reward + reward) as u64,
            ..old(global_state).synced(current_time)
        }),
{
    if governance != global_state.governance {
        return Err(ErrorCode::InvalidGovernance);
    }
    if distribution_time == 0 {
        return Err(ErrorCode::ZeroInput);
    }
    if current_time >= global_state.period_end_time && reward == 0 {
        return Err(ErrorCode::ZeroInput);
    }

    global_state.update_reward_per_share(current_time);

    if current_time >= global_state.period_end_time {
        global_state.reward = reward;
    } else {
        let remaining_reward = (global_state.period_end_time - current_time) * global_state.reward
            / global_state.distribution_time;
        global_state.reward = reward + remaining_reward;
    }

    global_state.distribution_time = distribution_time;
    global_state.period_end_time = current_time + distribution_time;
    global_state.total_distributed_reward = global_state.total_distributed_reward + reward;
    Ok(())
}

} // verus!
