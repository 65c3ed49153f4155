//! Read-only query: what a sync-and-settle would currently yield for a
//! user, without mutating any state.

use crate::instructions::base::{pending_index_mesh_reward, pending_mesh_reward, settle_safe};
use crate::state::{GlobalState, UserInfo, SCALE_FACTOR, SCALE_FACTOR_BASE};
use vstd::arithmetic::div_mod::lemma_div_is_ordered;
use vstd::arithmetic::mul::lemma_mul_upper_bound;
use vstd::prelude::*;

verus! {

/// Pending reward per asset, as the query reports it.
#[derive(Clone, Copy, Debug, PartialEq, Eq, Structural)]
pub struct RewardStruct {
    /// Pending reward accrued on the user's primary stake.
    pub mesh_reward: u64,
    /// Pending reward accrued on the user's secondary stake.
    pub index_mesh_reward: u64,
}

/// `global_state` with its accumulators advanced to `current_time`, as
/// the query reads them without writing them back.
pub open spec fn refreshed_accumulators(global_state: GlobalState, current_time: u64) -> GlobalState {
    GlobalState {
        global_acc_reward_mesh: (global_state.global_acc_reward_mesh
            + global_state.acc_delta_mesh(current_time)) as u128,
        global_acc_reward_index_mesh: (global_state.global_acc_reward_index_mesh
            + global_state.acc_delta_index_mesh(current_time)) as u128,
        ..global_state
    }
}

/// For a user with stake, the query's emission and settlement arithmetic
/// stays within machine limits and each per-asset reward fits the reported
/// word.
pub open spec fn pending_rewards_safe(
    global_state: GlobalState,
    user_info: UserInfo,
    current_time: u64,
) -> bool {
    (user_info.staked_mesh != 0 || user_info.staked_index_mesh != 0) ==> {
        &&& global_state.last_updated_time <= global_state.spec_last_reward_time(current_time)
        &&& global_state.distribution_time != 0
        &&& global_state.total_weighted_stake() != 0
        &&& global_state.spec_reward_time(current_time) * global_state.reward * (
        SCALE_FACTOR as int) <= u128::MAX
        &&& global_state.acc_delta_mesh(current_time) * global_state.weightage <= u128::MAX
        &&& global_state.global_acc_reward_mesh + global_state.acc_delta_mesh(current_time)
            <= u128::MAX
        &&& global_state.global_acc_reward_index_mesh + global_state.acc_delta_index_mesh(
            current_time,
        ) <= u128::MAX
        &&& settle_safe(refreshed_accumulators(global_state, current_time), user_info)
        &&& pending_mesh_reward(refreshed_accumulators(global_state, current_time), user_info)
            <= u64::MAX
        &&& pending_index_mesh_reward(refreshed_accumulators(global_state, current_time), user_info)
            <= u64::MAX
    }
}

/// Decide, without mutating anything, whether the pending-rewards query at
/// `current_time` stays within machine limits — what an unverified caller
/// tests before it asks for one.
pub fn check_pending_rewards_safe(
    global_state: &GlobalState,
    user_info: &UserInfo,
    current_time: u64,
) -> (b: bool)
    ensures
        b == pending_rewards_safe(*global_state, *user_info, current_time),
{
    if user_info.staked_mesh == 0 && user_info.staked_index_mesh == 0 {
        return true;
    }
    let last_reward_time = global_state.get_last_reward_time(current_time);
    if last_reward_time < global_state.last_updated_time {
        return false;
    }
    if global_state.distribution_time == 0 {
        return false;
    }
    let reward_time = last_reward_time - global_state.last_updated_time;
    proof {
        lemma_mul_upper_bound(
            global_state.total_staked_index_mesh as int,
            u64::MAX as int,
            global_state.weightage as int,
            u64::MAX as int,
        );
        lemma_div_is_ordered(
            global_state.total_staked_index_mesh * global_state.weightage,
            u64::MAX * u64::MAX,
            SCALE_FACTOR_BASE as int,
        );
    }
    let weighted_index_mesh = GlobalState::to_u128(global_state.total_staked_index_mesh)
        * GlobalState::to_u128(global_state.weightage) / SCALE_FACTOR_BASE;
    let total_weighted_amount = weighted_index_mesh + GlobalState::to_u128(
        global_state.total_staked_mesh,
    );
    if total_weighted_amount == 0 {
        return false;
    }
    proof {
        lemma_mul_upper_bound(
            reward_time as int,
            u64::MAX as int,
            global_state.reward as int,
            u64::MAX as int,
        );
    }
    let reward_amount = GlobalState::to_u128(reward_time) * GlobalState::to_u128(
        global_state.reward,
    );
    let scaled = match reward_amount.checked_mul(SCALE_FACTOR) {
        Some(s) => s,
        None => {
            return false;
        },
    };
    let acc_delta = scaled / GlobalState::to_u128(global_state.distribution_time)
        / total_weighted_amount;
    let weighted_delta = match acc_delta.checked_mul(
        GlobalState::to_u128(global_state.weightage),
    ) {
        Some(d) => d,
        None => {
            return false;
        },
    };
    let acc_delta_index = weighted_delta / SCALE_FACTOR_BASE;
    let fresh_mesh = match global_state.global_acc_reward_mesh.checked_add(acc_delta) {
        Some(a) => a,
        None => {
            return false;
        },
    };
    let fresh_index = match global_state.global_acc_reward_index_mesh.checked_add(
        acc_delta_index,
    ) {
        Some(a) => a,
        None => {
            return false;
        },
    };
    if fresh_mesh < user_info.acc_reward_mesh {
        return false;
    }
    if fresh_index < user_info.acc_reward_index_mesh {
        return false;
    }
    let mesh_product = match (fresh_mesh - user_info.acc_reward_mesh).checked_mul(
        GlobalState::to_u128(user_info.staked_mesh),
    ) {
        Some(p) => p,
        None => {
            return false;
        },
    };
    let index_product = match (fresh_index - user_info.acc_reward_index_mesh).checked_mul(
        GlobalState::to_u128(user_info.staked_index_mesh),
    ) {
        Some(p) => p,
        None => {
            return false;
        },
    };
    if mesh_product / SCALE_FACTOR > u64::MAX as u128 {
        return false;
    }
    if index_product / SCALE_FACTOR > u64::MAX as u128 {
        return false;
    }
    true
}

/// What the user would be owed per asset if the accumulators were synced at
/// `current_time` and the user settled now. Mutates nothing; reports zero
/// for a user with nothing staked (in particular an uninitialized one).
pub fn pending_rewards_handler(
    global_state: &GlobalState,
    user_info: &UserInfo,
    current_time: u64,
) -> (r: RewardStruct)
    requires
        pending_rewards_safe(*global_state, *user_info, current_time),
    ensures
        user_info.staked_mesh == 0 && user_info.staked_index_mesh == 0 ==> r == (RewardStruct {
            mesh_reward: 0u64,
            index_mesh_reward: 0u64,
        }),
        user_info.staked_mesh != 0 || user_info.staked_index_mesh != 0 ==> {
            &&& r.mesh_reward == pending_mesh_reward(
                refreshed_accumulators(*global_state, current_time),
                *user_info,
            )
            &&& r.index_mesh_reward == pending_index_mesh_reward(
                refreshed_accumulators(*global_state, current_time),
                *user_info,
            )
        },
{
    if user_info.staked_mesh == 0 && user_info.staked_index_mesh == 0 {
        return RewardStruct { mesh_reward: 0, index_mesh_reward: 0 };
    }

    let (global_acc_reward_mesh, global_acc_reward_index_mesh) =
        global_state.calculate_reward_per_share(current_time);

    let mesh_reward = (global_acc_reward_mesh - user_info.acc_reward_mesh) * GlobalState::to_u128(
        user_info.staked_mesh,
    ) / SCALE_FACTOR;

    let index_mesh_reward = (global_acc_reward_index_mesh - user_info.acc_reward_index_mesh)
        * GlobalState::to_u128(user_info.staked_index_mesh) / SCALE_FACTOR;

    proof {
        lemma_div_is_ordered(
            (global_acc_reward_mesh - user_info.acc_reward_mesh) * user_info.staked_mesh,
            u128::MAX as int,
            SCALE_FACTOR as int,
        );
        lemma_div_is_ordered(
            (global_acc_reward_index_mesh - user_info.acc_reward_index_mesh)
                * user_info.staked_index_mesh,
            u128::MAX as int,
            SCALE_FACTOR as int,
        );
    }
    RewardStruct { mesh_reward: mesh_reward as u64, index_mesh_reward: index_mesh_reward as u64 }
}

} // verus!
