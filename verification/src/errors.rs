//! Error taxonomy shared by every instruction handler.

use vstd::prelude::*;

verus! {

/// Every way an instruction can be refused. Errors are surfaced verbatim to
/// the caller and never silently recovered; the host aborts the whole
/// transaction when a handler returns one of these.
#[derive(Clone, Copy, Debug, PartialEq, Eq, Structural)]
pub enum ErrorCode {
    /// An unstake asked for more than the user has staked.
    AmountGreaterThanStakedAmount,
    /// The vault cannot pay without breaching its minimum retained balance.
    InsufficientFunds,
    /// Initialize was invoked by someone other than the fixed deployer.
    InvalidDeployer,
    /// A governance-only instruction was invoked by someone else.
    InvalidGovernance,
    /// The asset identifier matches neither configured stakeable asset.
    InvalidMint,
    /// Staking is closed because the current emission cycle already ended.
    RewardDistributionPeriodHasExpired,
    /// Staking is closed because no emission rate has been configured.
    RewardIsNotSet,
    /// A user position with staked balances cannot be closed.
    StakedNotZero,
    /// An amount argument that must be nonzero was zero.
    ZeroInput,
}

} // verus!
