//! Staking: settle the user's pending reward, then take more of one of the
//! two stakeable assets into the pool.

use crate::errors::ErrorCode;
use crate::instructions::base::{
    harvest_safe, harvest_user_rewards, pending_total_reward, settled_user,
};
use crate::state::{FundsController, GlobalState, Identity, UserInfo};
use vstd::prelude::*;

verus! {

/// All guards the handler tests before changing anything pass: the asset is
/// one of the two configured ones, the amount is nonzero, an emission is
/// configured and still running, and the vault is solvent for a zero-amount
/// reserve probe.
pub open spec fn stake_accepted(
    global_state: GlobalState,
    funds_controller: FundsController,
    mint: Identity,
    amount: u64,
    current_time: u64,
) -> bool {
    &&& (mint == global_state.mesh_mint || mint == global_state.index_mesh_mint)
    &&& amount != 0
    &&& global_state.reward != 0
    &&& global_state.period_end_time > current_time
    &&& !funds_controller.insufficient_for(0)
}

/// The sync, the settlement and the balance bumps of an accepted stake stay
/// within machine limits.
pub open spec fn stake_safe(
    global_state: GlobalState,
    user_info: UserInfo,
    funds_controller: FundsController,
    mint: Identity,
    amount: u64,
    current_time: u64,
) -> bool {
    stake_accepted(global_state, funds_controller, mint, amount, current_time) ==> {
        &&& global_state.sync_safe(current_time)
        &&& harvest_safe(global_state.synced(current_time), user_info)
        &&& (mint == global_state.mesh_mint ==> user_info.staked_mesh + amount <= u64::MAX
            && global_state.total_staked_mesh + amount <= u64::MAX)
        &&& (mint != global_state.mesh_mint ==> user_info.staked_index_mesh + amount <= u64::MAX
            && global_state.total_staked_index_mesh + amount <= u64::MAX)
    }
}

/// The global state after taking `amount` of the asset `mint` into the pool.
pub open spec fn staked_global(global_state: GlobalState, mint: Identity, amount: u64) -> GlobalState {
    if mint == global_state.mesh_mint {
        GlobalState {
            total_staked_mesh: (global_state.total_staked_mesh + amount) as u64,
            ..global_state
        }
    } else {
        GlobalState {
            total_staked_index_mesh: (global_state.total_staked_index_mesh + amount) as u64,
            ..global_state
        }
    }
}

/// The user position after staking `amount` of the asset `mint`.
pub open spec fn staked_user(
    user_info: UserInfo,
    global_state: GlobalState,
    mint: Identity,
    amount: u64,
) -> UserInfo {
    if mint == global_state.mesh_mint {
        UserInfo { staked_mesh: (user_info.staked_mesh + amount) as u64, ..user_info }
    } else {
        UserInfo { staked_index_mesh: (user_info.staked_index_mesh + amount) as u64, ..user_info }
    }
}

/// Stake `amount` of the asset `mint` for `user`: record the owner on first
/// touch, sync, settle and pay the pending reward, then grow the user's and
/// the pool's staked balance of that asset. The host transfers the staked
/// asset in on `Ok`, which also carries the settlement payout it must send
/// the user. Refused when the asset matches neither configured one, the
/// amount is zero, no emission is configured, the cycle already ended, or
/// the vault cannot cover the reserve probe or the pending payout; every
/// account is untouched on refusal.
pub fn stake_handler(
    global_state: &mut GlobalState,
    user_info: &mut UserInfo,
    funds_controller: &mut FundsController,
    user: Identity,
    mint: Identity,
    amount: u64,
    current_time: u64,
) -> (r: Result<u64, ErrorCode>)
    requires
        stake_safe(
            *old(global_state),
            *old(user_info),
            *old(funds_controller),
            mint,
            amount,
            current_time,
        ),
    ensures
        !(mint == old(global_state).mesh_mint || mint == old(global_state).index_mesh_mint) ==> r
            == Result::<u64, ErrorCode>::Err(ErrorCode::InvalidMint),
        (mint == old(global_state).mesh_mint || mint == old(global_state).index_mesh_mint)
            && amount == 0 ==> r == Result::<u64, ErrorCode>::Err(ErrorCode::ZeroInput),
        (mint == old(global_state).mesh_mint || mint == old(global_state).index_mesh_mint)
            && amount != 0 && old(global_state).reward == 0 ==> r == Result::<u64, ErrorCode>::Err(
            ErrorCode::RewardIsNotSet,
        ),
        (mint == old(global_state).mesh_mint || mint == old(global_state).index_mesh_mint)
            && amount != 0 && old(global_state).reward != 0 && old(global_state).period_end_time
            <= current_time ==> r == Result::<u64, ErrorCode>::Err(
            ErrorCode::RewardDistributionPeriodHasExpired,
        ),
        (mint == old(global_state).mesh_mint || mint == old(global_state).index_mesh_mint)
            && amount != 0 && old(global_state).reward != 0 && old(global_state).period_end_time
            > current_time && old(funds_controller).insufficient_for(0) ==> r == Result::<
            u64,
            ErrorCode,
        >::Err(ErrorCode::InsufficientFunds),
        r is Err ==> *final(global_state) == *old(global_state) && *final(user_info) == *old(user_info) && *final(funds_controller) == *old(funds_controller),
        stake_accepted(
            *old(global_state),
            *old(funds_controller),
            mint,
            amount,
            current_time,
        ) ==> ({
            let synced_state = old(global_state).synced(current_time);
            let pending = pending_total_reward(synced_state, *old(user_info));
            &&& (r is Err <==> pending > 0 && old(funds_controller).insufficient_for(
                pending as u64,
            ))
            &&& r is Err ==> r == Result::<u64, ErrorCode>::Err(ErrorCode::InsufficientFunds)
            &&& r matches Ok(paid) ==> {
                let settled = settled_user(synced_state, *old(user_info), paid as int);
                let owned = UserInfo {
                    user: if old(user_info).spec_is_initialized() {
                        old(user_info).user
                    } else {
                        user
                    },
                    ..settled
                };
                &&& paid == pending
                &&& *final(global_state) == staked_global(synced_state, mint, amount)
                &&& *final(user_info) == staked_user(owned, synced_state, mint, amount)
                &&& final(funds_controller).balance == old(funds_controller).balance - paid
                &&& final(funds_controller).rent_exempt_minimum == old(funds_controller).rent_exempt_minimum
            }
        }),
{
    if !(mint == global_state.mesh_mint || mint == global_state.index_mesh_mint) {
        return Err(ErrorCode::InvalidMint);
    }
    if amount == 0 {
        return Err(ErrorCode::ZeroInput);
    }
    if global_state.reward == 0 {
        return Err(ErrorCode::RewardIsNotSet);
    }
    if global_state.period_end_time <= current_time {
        return Err(ErrorCode::RewardDistributionPeriodHasExpired);
    }
    if funds_controller.not_have_enough_sol(0) {
        return Err(ErrorCode::InsufficientFunds);
    }

    let mut synced_state = *global_state;
    synced_state.update_reward_per_share(current_time);

    match harvest_user_rewards(&synced_state, user_info, funds_controller, false) {
        Err(e) => Err(e),
        Ok(paid) => {
            user_info.init(user);
            if mint == synced_state.mesh_mint {
                user_info.staked_mesh = user_info.staked_mesh + amount;
                synced_state.total_staked_mesh = synced_state.total_staked_mesh + amount;
            } else {
                user_info.staked_index_mesh = user_info.staked_index_mesh + amount;
                synced_state.total_staked_index_mesh = synced_state.total_staked_index_mesh
                    + amount;
            }
            *global_state = synced_state;
            Ok(paid)
        },
    }
}

} // verus!
