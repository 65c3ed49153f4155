//! Unstaking: settle the user's pending reward (forfeiting it in an
//! emergency), then release part of their staked balance back to them.

use crate::errors::ErrorCode;
use crate::instructions::base::{
    harvest_safe, harvest_user_rewards, pending_total_reward, settled_user,
};
use crate::state::{FundsController, GlobalState, Identity, UserInfo};
use vstd::prelude::*;

verus! {

/// All guards the handler tests before changing anything pass: the asset is
/// one of the two configured ones, the amount is nonzero and no more than
/// the user has staked of that asset.
pub open spec fn unstake_accepted(
    global_state: GlobalState,
    user_info: UserInfo,
    mint: Identity,
    amount: u64,
) -> bool {
    &&& (mint == global_state.mesh_mint || mint == global_state.index_mesh_mint)
    &&& amount != 0
    &&& (mint == global_state.mesh_mint ==> amount <= user_info.staked_mesh)
    &&& (mint == global_state.index_mesh_mint ==> amount <= user_info.staked_index_mesh)
}

/// The sync, the settlement and the balance cuts of an accepted unstake stay
/// within machine limits. The pool-total bounds are machine-level
/// restatements of the bookkeeping invariant that no user has more staked
/// than the pool records.
pub open spec fn unstake_safe(
    global_state: GlobalState,
    user_info: UserInfo,
    mint: Identity,
    amount: u64,
    current_time: u64,
) -> bool {
    unstake_accepted(global_state, user_info, mint, amount) ==> {
        &&& global_state.sync_safe(current_time)
        &&& harvest_safe(global_state.synced(current_time), user_info)
        &&& (mint == global_state.mesh_mint ==> amount <= global_state.total_staked_mesh)
        &&& (mint != global_state.mesh_mint ==> amount <= global_state.total_staked_index_mesh)
    }
}

/// The global state after releasing `amount` of the asset `mint` from the
/// pool.
pub open spec fn unstaked_global(
    global_state: GlobalState,
    mint: Identity,
    amount: u64,
) -> GlobalState {
    if mint == global_state.mesh_mint {
        GlobalState {
            total_staked_mesh: (global_state.total_staked_mesh - amount) as u64,
            ..global_state
        }
    } else {
        GlobalState {
            total_staked_index_mesh: (global_state.total_staked_index_mesh - amount) as u64,
            ..global_state
        }
    }
}

/// The user position after unstaking `amount` of the asset `mint`.
pub open spec fn unstaked_user(
    user_info: UserInfo,
    global_state: GlobalState,
    mint: Identity,
    amount: u64,
) -> UserInfo {
    if mint == global_state.mesh_mint {
        UserInfo { staked_mesh: (user_info.staked_mesh - amount) as u64, ..user_info }
    } else {
        UserInfo { staked_index_mesh: (user_info.staked_index_mesh - amount) as u64, ..user_info }
    }
}

/// Unstake `amount` of the asset `mint`: sync, settle — paying the pending
/// reward unless `is_emergency`, which forfeits it and never consults the
/// vault's solvency — then shrink the user's and the pool's staked balance
/// of that asset. The host transfers the released asset back to the user on
/// `Ok`, which also carries the settlement payout. Refused when the asset
/// matches neither configured one, the amount is zero or exceeds the user's
/// staked balance, or (non-emergency) the vault cannot cover the payout;
/// every account is untouched on refusal.
pub fn unstake_handler(
    global_state: &mut GlobalState,
    user_info: &mut UserInfo,
    funds_controller: &mut FundsController,
    mint: Identity,
    amount: u64,
    is_emergency: bool,
    current_time: u64,
) -> (r: Result<u64, ErrorCode>)
    requires
        unstake_safe(*old(global_state), *old(user_info), mint, amount, current_time),
    ensures
        !(mint == old(global_state).mesh_mint || mint == old(global_state).index_mesh_mint) ==> r
            == Result::<u64, ErrorCode>::Err(ErrorCode::InvalidMint),
        (mint == old(global_state).mesh_mint || mint == old(global_state).index_mesh_mint)
            && amount == 0 ==> r == Result::<u64, ErrorCode>::Err(ErrorCode::ZeroInput),
        (mint == old(global_state).mesh_mint || mint == old(global_state).index_mesh_mint)
            && amount != 0 && ((mint == old(global_state).mesh_mint && amount > old(user_info).staked_mesh) || (mint == old(global_state).index_mesh_mint && amount > old(user_info).staked_index_mesh)) ==> r == Result::<u64, ErrorCode>::Err(
            ErrorCode::AmountGreaterThanStakedAmount,
        ),
        r is Err ==> *final(global_state) == *old(global_state) && *final(user_info) == *old(user_info) && *final(funds_controller) == *old(funds_controller),
        unstake_accepted(*old(global_state), *old(user_info), mint, amount) ==> ({
            let synced_state = old(global_state).synced(current_time);
            let pending = pending_total_reward(synced_state, *old(user_info));
            &&& (r is Err <==> !is_emergency && pending > 0 && old(funds_controller).insufficient_for(pending as u64))
            &&& r is Err ==> r == Result::<u64, ErrorCode>::Err(ErrorCode::InsufficientFunds)
            &&& r matches Ok(paid) ==> {
                let settled = settled_user(synced_state, *old(user_info), paid as int);
                &&& paid == if is_emergency {
                    0int
                } else {
                    pending
                }
                &&& *final(global_state) == unstaked_global(synced_state, mint, amount)
                &&& *final(user_info) == unstaked_user(settled, synced_state, mint, amount)
                &&& final(funds_controller).balance == old(funds_controller).balance - paid
                &&& final(funds_controller).rent_exempt_minimum == old(funds_controller).rent_exempt_minimum
            }
        }),
{
    if !(mint == global_state.mesh_mint || mint == global_state.index_mesh_mint) {
        return Err(ErrorCode::InvalidMint);
    }
    if amount == 0 {
        return Err(ErrorCode::ZeroInput);
    }
    if mint == global_state.mesh_mint && amount > user_info.staked_mesh {
        return Err(ErrorCode::AmountGreaterThanStakedAmount);
    }
    if mint == global_state.index_mesh_mint && amount > user_info.staked_index_mesh {
        return Err(ErrorCode::AmountGreaterThanStakedAmount);
    }

    let mut synced_state = *global_state;
    synced_state.update_reward_per_share(current_time);

    match harvest_user_rewards(&synced_state, user_info, funds_controller, is_emergency) {
        Err(e) => Err(e),
        Ok(paid) => {
            if mint == synced_state.mesh_mint {
                user_info.staked_mesh = user_info.staked_mesh - amount;
                synced_state.total_staked_mesh = synced_state.total_staked_mesh - amount;
            } else {
                user_info.staked_index_mesh = user_info.staked_index_mesh - amount;
                synced_state.total_staked_index_mesh = synced_state.total_staked_index_mesh
                    - amount;
            }
            *global_state = synced_state;
            Ok(paid)
        },
    }
}

} // verus!
