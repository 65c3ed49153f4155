//! Settlement: computing a user's pending reward against the synced
//! accumulators, checkpointing their reward debt, and paying out of the
//! vault. Stake, unstake and claim all pass through here.

use crate::errors::ErrorCode;
use crate::state::{FundsController, GlobalState, UserInfo, SCALE_FACTOR};
use vstd::arithmetic::div_mod::lemma_div_is_ordered;
use vstd::prelude::*;

verus! {

/// Reward owed to the user on their primary stake: the accumulator growth
/// since their last settlement, times their stake, unscaled.
pub open spec fn pending_mesh_reward(global_state: GlobalState, user_info: UserInfo) -> int {
    (global_state.global_acc_reward_mesh - user_info.acc_reward_mesh) * user_info.staked_mesh
        / (SCALE_FACTOR as int)
}

/// Reward owed to the user on their secondary stake.
pub open spec fn pending_index_mesh_reward(global_state: GlobalState, user_info: UserInfo) -> int {
    (global_state.global_acc_reward_index_mesh - user_info.acc_reward_index_mesh)
        * user_info.staked_index_mesh / (SCALE_FACTOR as int)
}

/// Total reward owed to the user across both assets.
pub open spec fn pending_total_reward(global_state: GlobalState, user_info: UserInfo) -> int {
    pending_mesh_reward(global_state, user_info) + pending_index_mesh_reward(
        global_state,
        user_info,
    )
}

/// The settlement arithmetic is well defined: the debts do not exceed the
/// accumulators (they never do, being snapshots of them) and the products
/// fit the machine word.
pub open spec fn settle_safe(global_state: GlobalState, user_info: UserInfo) -> bool {
    &&& user_info.acc_reward_mesh <= global_state.global_acc_reward_mesh
    &&& user_info.acc_reward_index_mesh <= global_state.global_acc_reward_index_mesh
    &&& (global_state.global_acc_reward_mesh - user_info.acc_reward_mesh)
        * user_info.staked_mesh <= u128::MAX
    &&& (global_state.global_acc_reward_index_mesh - user_info.acc_reward_index_mesh)
        * user_info.staked_index_mesh <= u128::MAX
}

/// The settlement of `user_info` against `global_state` also fits the
/// payout counters: the pending total and the running claimed total stay
/// within `u64`.
pub open spec fn harvest_safe(global_state: GlobalState, user_info: UserInfo) -> bool {
    &&& settle_safe(global_state, user_info)
    &&& pending_total_reward(global_state, user_info) <= u64::MAX
    &&& user_info.total_claimed_reward + pending_total_reward(global_state, user_info)
        <= u64::MAX
}

/// The user position as it stands right after a settlement that paid out
/// `paid`: the reward debts checkpointed at the current per-share values and
/// the claimed total grown by the payout.
pub open spec fn settled_user(global_state: GlobalState, user_info: UserInfo, paid: int) -> UserInfo {
    UserInfo {
        acc_reward_mesh: global_state.global_acc_reward_mesh,
        acc_reward_index_mesh: global_state.global_acc_reward_index_mesh,
        total_claimed_reward: (user_info.total_claimed_reward + paid) as u64,
        ..user_info
    }
}

/// Total pending reward of the user, accumulated on both staked assets.
/// Read-only; call it with an already-synced `global_state`.
pub fn calculate_pending_rewards(global_state: &GlobalState, user_info: &UserInfo) -> (r: u128)
    requires
        settle_safe(*global_state, *user_info),
    ensures
        r == pending_total_reward(*global_state, *user_info),
{
    let mesh_reward = (global_state.global_acc_reward_mesh - user_info.acc_reward_mesh)
        * GlobalState::to_u128(user_info.staked_mesh) / SCALE_FACTOR;

    let index_mesh_reward = (global_state.global_acc_reward_index_mesh
        - user_info.acc_reward_index_mesh) * GlobalState::to_u128(user_info.staked_index_mesh)
        / SCALE_FACTOR;

    proof {
        lemma_div_is_ordered(
            (global_state.global_acc_reward_mesh - user_info.acc_reward_mesh)
                * user_info.staked_mesh,
            u128::MAX as int,
            SCALE_FACTOR as int,
        );
        lemma_div_is_ordered(
            (global_state.global_acc_reward_index_mesh - user_info.acc_reward_index_mesh)
                * user_info.staked_index_mesh,
            u128::MAX as int,
            SCALE_FACTOR as int,
        );
    }
    mesh_reward + index_mesh_reward
}

/// Decide, without mutating anything, whether settling `user_info` against
/// `global_state` stays within machine limits — what an unverified caller
/// tests before it asks for a settlement.
pub fn check_harvest_safe(global_state: &GlobalState, user_info: &UserInfo) -> (b: bool)
    ensures
        b == harvest_safe(*global_state, *user_info),
{
    if global_state.global_acc_reward_mesh < user_info.acc_reward_mesh {
        return false;
    }
    if global_state.global_acc_reward_index_mesh < user_info.acc_reward_index_mesh {
        return false;
    }
    let mesh_product = match (global_state.global_acc_reward_mesh
        - user_info.acc_reward_mesh).checked_mul(GlobalState::to_u128(user_info.staked_mesh)) {
        Some(p) => p,
        None => {
            return false;
        },
    };
    let index_product = match (global_state.global_acc_reward_index_mesh
        - user_info.acc_reward_index_mesh).checked_mul(
        GlobalState::to_u128(user_info.staked_index_mesh),
    ) {
        Some(p) => p,
        None => {
            return false;
        },
    };
    proof {
        lemma_div_is_ordered(mesh_product as int, u128::MAX as int, SCALE_FACTOR as int);
        lemma_div_is_ordered(index_product as int, u128::MAX as int, SCALE_FACTOR as int);
    }
    let pending = mesh_product / SCALE_FACTOR + index_product / SCALE_FACTOR;
    if pending > u64::MAX as u128 {
        return false;
    }
    if GlobalState::to_u128(user_info.total_claimed_reward) + pending > u64::MAX as u128 {
        return false;
    }
    true
}

/// Settle the user against the synced accumulators: checkpoint the reward
/// debts at the current per-share values and, unless `is_emergency`, pay the
/// pending reward out of the vault. Returns the amount paid. Refuses with
/// `InsufficientFunds`, leaving every account untouched, exactly when a
/// nonzero payout is due and the vault cannot cover it above its floor; an
/// emergency settlement forfeits the pending reward and never consults the
/// vault.
pub fn harvest_user_rewards(
    global_state: &GlobalState,
    user_info: &mut UserInfo,
    funds_controller: &mut FundsController,
    is_emergency: bool,
) -> (r: Result<u64, ErrorCode>)
    requires
        harvest_safe(*global_state, *old(user_info)),
    ensures
        r is Err <==> !is_emergency && pending_total_reward(*global_state, *old(user_info)) > 0
            && old(funds_controller).insufficient_for(
            pending_total_reward(*global_state, *old(user_info)) as u64,
        ),
        r is Err ==> r == Result::<u64, ErrorCode>::Err(ErrorCode::InsufficientFunds)
            && *final(user_info) == *old(user_info) && *final(funds_controller) == *old(funds_controller),
        r matches Ok(paid) ==> {
            &&& paid == if is_emergency {
                0int
            } else {
                pending_total_reward(*global_state, *old(user_info))
            }
            &&& *final(user_info) == settled_user(*global_state, *old(user_info), paid as int)
            &&& final(funds_controller).balance == old(funds_controller).balance - paid
            &&& final(funds_controller).rent_exempt_minimum == old(funds_controller).rent_exempt_minimum
            &&& final(user_info).total_claimed_reward + final(funds_controller).balance == old(user_info).total_claimed_reward + old(funds_controller).balance
        },
{
    let pending = calculate_pending_rewards(global_state, user_info);
    let user_rewards = pending as u64;

    if !is_emergency && user_rewards > 0 {
        if funds_controller.not_have_enough_sol(user_rewards) {
            return Err(ErrorCode::InsufficientFunds);
        }
        funds_controller.balance = funds_controller.balance - user_rewards;
        user_info.total_claimed_reward = user_info.total_claimed_reward + user_rewards;
    }

    user_info.acc_reward_mesh = global_state.global_acc_reward_mesh;
    user_info.acc_reward_index_mesh = global_state.global_acc_reward_index_mesh;

    if is_emergency {
        Ok(0)
    } else {
        Ok(user_rewards)
    }
}

} // verus!
