//! Closing a user position to reclaim its storage reserve.

use crate::errors::ErrorCode;
use crate::state::UserInfo;
use vstd::prelude::*;

verus! {

/// Decide whether the position may be closed and its storage reclaimed: it
/// may exactly when both staked balances are zero, regardless of how much
/// the user claimed historically. The host performs the actual reclaim on
/// `Ok`.
pub fn close_user_info_handler(user_info: &UserInfo) -> (r: Result<(), ErrorCode>)
    ensures
        r is Ok <==> user_info.staked_mesh == 0 && user_info.staked_index_mesh == 0,
        r is Err ==> r == Result::<(), ErrorCode>::Err(ErrorCode::StakedNotZero),
{
    if user_info.staked_mesh != 0 || user_info.staked_index_mesh != 0 {
        return Err(ErrorCode::StakedNotZero);
    }
    Ok(())
}

} // verus!
