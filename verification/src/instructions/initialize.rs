//! Deployment: creating the global state with its governance identity, the
//! two asset identifiers and the initial secondary-asset weight.

use crate::errors::ErrorCode;
use crate::state::{GlobalState, Identity};
use vstd::prelude::*;

verus! {

/// Create the global state. Only the fixed deployer identity may do so; the
/// fresh state carries the given governance identity, asset identifiers and
/// weight, and every counter, accumulator, total and timestamp starts at
/// zero (in particular no emission is configured yet).
pub fn initialize_handler(
    deployer: Identity,
    payer: Identity,
    governance: Identity,
    mesh_mint: Identity,
    index_mesh_mint: Identity,
    weightage: u64,
) -> (r: Result<GlobalState, ErrorCode>)
    ensures
        payer != deployer ==> r == Result::<GlobalState, ErrorCode>::Err(ErrorCode::InvalidDeployer),
        payer == deployer ==> r == Result::<GlobalState, ErrorCode>::Ok(GlobalState {
            governance,
            mesh_mint,
            index_mesh_mint,
            reward: 0u64,
            distribution_time: 0u64,
            global_acc_reward_mesh: 0u128,
            global_acc_reward_index_mesh: 0u128,
            total_staked_mesh: 0u64,
            total_staked_index_mesh: 0u64,
            weightage,
            last_updated_time: 0u64,
            period_end_time: 0u64,
            total_distributed_reward: 0u64,
        }),
{
    if payer != deployer {
        return Err(ErrorCode::InvalidDeployer);
    }
    Ok(
        GlobalState {
            governance,
            mesh_mint,
            index_mesh_mint,
            reward: 0,
            distribution_time: 0,
            global_acc_reward_mesh: 0,
            global_acc_reward_index_mesh: 0,
            total_staked_mesh: 0,
            total_staked_index_mesh: 0,
            weightage,
            last_updated_time: 0,
            period_end_time: 0,
            total_distributed_reward: 0,
        },
    )
}

} // verus!
