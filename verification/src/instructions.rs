//! Instruction handlers: the user-facing and governance transitions over the
//! accounting state.

pub mod base;
pub mod claim;
pub mod close_user_info;
pub mod initialize;
pub mod migrate_funds;
pub mod pending_rewards;
pub mod stake;
pub mod unstake;
pub mod update_governance;
pub mod update_period_end;
pub mod update_rewards;
pub mod update_weightage;
