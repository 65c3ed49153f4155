//! Governance: migrating vault funds to a successor deployment.

use crate::errors::ErrorCode;
use crate::state::{FundsController, GlobalState, Identity};
use vstd::prelude::*;

verus! {

/// Debit `amount` from the vault so the host can credit it to the successor
/// account. Only governance may do so, the amount must be nonzero, and the
/// vault must stay strictly above its reserve floor; on any refusal the
/// vault is untouched. Returns the amount the host must move.
pub fn migrate_funds_handler(
    global_state: &GlobalState,
    funds_controller: &mut FundsController,
    governance: Identity,
    amount: u64,
) -> (r: Result<u64, ErrorCode>)
    ensures
        governance != global_state.governance ==> r == Result::<u64, ErrorCode>::Err(
            ErrorCode::InvalidGovernance,
        ),
        governance == global_state.governance && amount == 0 ==> r == Result::<u64, ErrorCode>::Err(
            ErrorCode::ZeroInput,
        ),
        governance == global_state.governance && amount != 0 && old(funds_controller).insufficient_for(amount) ==> r == Result::<u64, ErrorCode>::Err(
            ErrorCode::InsufficientFunds,
        ),
        governance == global_state.governance && amount != 0 && !old(funds_controller).insufficient_for(amount) ==> r == Result::<u64, ErrorCode>::Ok(amount) && final(funds_controller).balance == old(funds_controller).balance - amount,
        r is Err ==> *final(funds_controller) == *old(funds_controller),
        final(funds_controller).rent_exempt_minimum == old(funds_controller).rent_exempt_minimum,
{
    if governance != global_state.governance {
        return Err(ErrorCode::InvalidGovernance);
    }
    if amount == 0 {
        return Err(ErrorCode::ZeroInput);
    }
    match funds_controller.debit(amount) {
        Err(e) => Err(e),
        Ok(()) => Ok(amount),
    }
}

} // verus!
