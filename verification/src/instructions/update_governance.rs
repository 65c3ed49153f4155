//! Governance: handing the governance role to a new identity.

use crate::errors::ErrorCode;
use crate::state::{GlobalState, Identity};
use vstd::prelude::*;

verus! {

/// Replace the governance identity. Only the current governance may do so;
/// nothing else in the state changes.
pub fn update_governance_handler(
    global_state: &mut GlobalState,
    governance: Identity,
    new_governance: Identity,
) -> (r: Result<(), ErrorCode>)
    ensures
        governance != old(global_state).governance ==> r == Result::<(), ErrorCode>::Err(
            ErrorCode::InvalidGovernance,
        ) && *final(global_state) == *old(global_state),
        governance == old(global_state).governance ==> r is Ok && *final(global_state)
            == (GlobalState { governance: new_governance, ..*old(global_state) }),
{
    if governance != global_state.governance {
        return Err(ErrorCode::InvalidGovernance);
    }
    global_state.governance = new_governance;
    Ok(())
}

} // verus!
