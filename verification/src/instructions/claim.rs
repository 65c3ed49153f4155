//! Claiming: sync, settle and pay out all pending reward.

use crate::errors::ErrorCode;
use crate::instructions::base::{harvest_safe, harvest_user_rewards, pending_total_reward, settled_user};
use crate::state::{FundsController, GlobalState, UserInfo};
use vstd::prelude::*;

verus! {

/// The sync and the settlement arithmetic of a claim at `current_time` stay
/// within machine limits.
pub open spec fn claim_safe(
    global_state: GlobalState,
    user_info: UserInfo,
    current_time: u64,
) -> bool {
    &&& global_state.sync_safe(current_time)
    &&& harvest_safe(global_state.synced(current_time), user_info)
}

/// Claim all pending reward accumulated on both staked assets: sync the
/// accumulators, settle the user and pay the pending amount out of the
/// vault. Returns the amount paid. Refuses with `InsufficientFunds`, leaving
/// every account untouched, exactly when a nonzero payout is due and the
/// vault cannot cover it above its floor.
pub fn claim_handler(
    global_state: &mut GlobalState,
    user_info: &mut UserInfo,
    funds_controller: &mut FundsController,
    current_time: u64,
) -> (r: Result<u64, ErrorCode>)
    requires
        claim_safe(*old(global_state), *old(user_info), current_time),
    ensures
        r is Err <==> pending_total_reward(old(global_state).synced(current_time), *old(user_info))
            > 0 && old(funds_controller).insufficient_for(
            pending_total_reward(old(global_state).synced(current_time), *old(user_info)) as u64,
        ),
        r is Err ==> r == Result::<u64, ErrorCode>::Err(ErrorCode::InsufficientFunds) && *final(global_state) == *old(global_state) && *final(user_info) == *old(user_info) && *final(funds_controller)
            == *old(funds_controller),
        r matches Ok(paid) ==> {
            &&& paid == pending_total_reward(
                old(global_state).synced(current_time),
                *old(user_info),
            )
            &&& *final(global_state) == old(global_state).synced(current_time)
            &&& *final(user_info) == settled_user(
                old(global_state).synced(current_time),
                *old(user_info),
                paid as int,
            )
            &&& final(funds_controller).balance == old(funds_controller).balance - paid
            &&& final(funds_controller).rent_exempt_minimum == old(funds_controller).rent_exempt_minimum
        },
{
    let mut synced_state = *global_state;
    synced_state.update_reward_per_share(current_time);
    match harvest_user_rewards(&synced_state, user_info, funds_controller, false) {
        Err(e) => Err(e),
        Ok(paid) => {
            *global_state = synced_state;
            Ok(paid)
        },
    }
}

} // verus!
