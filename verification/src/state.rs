//! The accounting state: the global reward accumulator, per-user positions
//! and the custodial funds vault, together with the emission model.

use vstd::arithmetic::div_mod::lemma_div_is_ordered;
use vstd::arithmetic::mul::lemma_mul_upper_bound;
use vstd::prelude::*;

verus! {

/// Scale of the secondary-asset weight: a weight of `SCALE_FACTOR_BASE`
/// makes one secondary unit count as one primary unit.
pub const SCALE_FACTOR_BASE: u128 = 1_000_000_000;

/// Fixed-point scale of the per-share reward accumulators.
pub const SCALE_FACTOR: u128 = 1_000_000_000_000_000_000;

/// An account identity, the accounting core's view of an address. The host
/// maps its real addresses to these; the core only ever compares them. The
/// all-zero identity is reserved to mean "not set".
#[derive(Clone, Copy, Debug, PartialEq, Eq, Structural)]
pub struct Identity {
    pub id: u64,
}

/// Singleton global state: emission parameters, the per-share reward
/// accumulators for both assets, and the staking totals.
#[derive(Clone, Copy, Debug, PartialEq, Eq, Structural)]
pub struct GlobalState {
    /// Identity permitted to perform governance-only instructions.
    pub governance: Identity,
    /// Identifier of the primary stakeable asset.
    pub mesh_mint: Identity,
    /// Identifier of the secondary (weighted) stakeable asset.
    pub index_mesh_mint: Identity,
    /// Reward to distribute over the current cycle.
    pub reward: u64,
    /// Duration of the current cycle in seconds.
    pub distribution_time: u64,
    /// Cumulative reward per staked primary unit, scaled by `SCALE_FACTOR`.
    pub global_acc_reward_mesh: u128,
    /// Cumulative reward per staked secondary unit, scaled by `SCALE_FACTOR`.
    pub global_acc_reward_index_mesh: u128,
    /// Sum of all users' staked primary balances.
    pub total_staked_mesh: u64,
    /// Sum of all users' staked secondary balances.
    pub total_staked_index_mesh: u64,
    /// Primary-per-secondary exchange weight, scaled by `SCALE_FACTOR_BASE`.
    pub weightage: u64,
    /// Timestamp of the last accumulator sync.
    pub last_updated_time: u64,
    /// Timestamp at which the current emission cycle ends.
    pub period_end_time: u64,
    /// Cumulative reward ever scheduled for emission; audit counter.
    pub total_distributed_reward: u64,
}

impl GlobalState {
    /// Latest timestamp up to which reward may accrue: `now`, clamped to the
    /// cycle end.
    pub open spec fn spec_last_reward_time(self, current_time: u64) -> u64 {
        if current_time < self.period_end_time {
            current_time
        } else {
            self.period_end_time
        }
    }

    /// Seconds of emission that a sync at `current_time` accounts for.
    pub open spec fn spec_reward_time(self, current_time: u64) -> int {
        self.spec_last_reward_time(current_time) - self.last_updated_time
    }

    /// The secondary stake expressed in primary-equivalent units.
    pub open spec fn weighted_index_stake(self) -> int {
        self.total_staked_index_mesh * self.weightage / (SCALE_FACTOR_BASE as int)
    }

    /// Total stake weight that the emission is split over.
    pub open spec fn total_weighted_stake(self) -> int {
        self.weighted_index_stake() + self.total_staked_mesh
    }

    /// What a sync at `current_time` adds to the primary per-share
    /// accumulator.
    pub open spec fn acc_delta_mesh(self, current_time: u64) -> int {
        self.spec_reward_time(current_time) * self.reward * (SCALE_FACTOR as int)
            / (self.distribution_time as int) / self.total_weighted_stake()
    }

    /// What a sync at `current_time` adds to the secondary per-share
    /// accumulator.
    pub open spec fn acc_delta_index_mesh(self, current_time: u64) -> int {
        self.acc_delta_mesh(current_time) * self.weightage / (SCALE_FACTOR_BASE as int)
    }

    /// A sync at `current_time` emits reward: time has passed and someone is
    /// staked.
    pub open spec fn sync_emits(self, current_time: u64) -> bool {
        &&& current_time > self.last_updated_time
        &&& (self.total_staked_mesh > 0 || self.total_staked_index_mesh > 0)
    }

    /// The emission arithmetic of a sync at `current_time` neither divides by
    /// zero nor overflows. Trivially true when the sync emits nothing.
    pub open spec fn sync_safe(self, current_time: u64) -> bool {
        self.sync_emits(current_time) ==> {
            &&& self.last_updated_time <= self.spec_last_reward_time(current_time)
            &&& self.distribution_time != 0
            &&& self.total_weighted_stake() != 0
            &&& self.spec_reward_time(current_time) * self.reward * (SCALE_FACTOR as int)
                <= u128::MAX
            &&& self.acc_delta_mesh(current_time) * self.weightage <= u128::MAX
            &&& self.global_acc_reward_mesh + self.acc_delta_mesh(current_time) <= u128::MAX
            &&& self.global_acc_reward_index_mesh + self.acc_delta_index_mesh(current_time)
                <= u128::MAX
        }
    }

    /// The state after a sync at `current_time`: a no-op if time has not
    /// advanced; only the clock moves while nothing is staked (reward for
    /// such an interval is forfeited, not carried forward); otherwise both
    /// accumulators grow by the elapsed emission per unit of weighted stake.
    pub open spec fn synced(self, current_time: u64) -> GlobalState {
        if current_time <= self.last_updated_time {
            self
        } else if self.total_staked_mesh == 0 && self.total_staked_index_mesh == 0 {
            GlobalState { last_updated_time: self.spec_last_reward_time(current_time), ..self }
        } else {
            GlobalState {
                global_acc_reward_mesh: (self.global_acc_reward_mesh + self.acc_delta_mesh(
                    current_time,
                )) as u128,
                global_acc_reward_index_mesh: (self.global_acc_reward_index_mesh
                    + self.acc_delta_index_mesh(current_time)) as u128,
                last_updated_time: self.spec_last_reward_time(current_time),
                ..self
            }
        }
    }

    /// Widen a `u64` to `u128` so later products cannot overflow silently.
    pub fn to_u128(value: u64) -> (r: u128)
        ensures
            r == value,
    {
        value as u128
    }

    /// The valid timestamp up to which reward can be distributed.
    pub fn get_last_reward_time(&self, current_time: u64) -> (r: u64)
        ensures
            r == self.spec_last_reward_time(current_time),
    {
        if current_time < self.period_end_time {
            return current_time;
        }
        self.period_end_time
    }

    /// The count of seconds over which a sync now would accumulate reward.
    pub fn get_reward_time(&self, current_time: u64) -> (r: u64)
        requires
            self.last_updated_time <= self.spec_last_reward_time(current_time),
        ensures
            r == self.spec_reward_time(current_time),
    {
        self.get_last_reward_time(current_time) - self.last_updated_time
    }

    /// Both per-share accumulators as they would stand after accounting for
    /// the emission up to `current_time`, without mutating anything.
    pub fn calculate_reward_per_share(&self, current_time: u64) -> (r: (u128, u128))
        requires
            self.last_updated_time <= self.spec_last_reward_time(current_time),
            self.distribution_time != 0,
            self.total_weighted_stake() != 0,
            self.spec_reward_time(current_time) * self.reward * (SCALE_FACTOR as int)
                <= u128::MAX,
            self.acc_delta_mesh(current_time) * self.weightage <= u128::MAX,
            self.global_acc_reward_mesh + self.acc_delta_mesh(current_time) <= u128::MAX,
            self.global_acc_reward_index_mesh + self.acc_delta_index_mesh(current_time)
                <= u128::MAX,
        ensures
            r.0 == self.global_acc_reward_mesh + self.acc_delta_mesh(current_time),
            r.1 == self.global_acc_reward_index_mesh + self.acc_delta_index_mesh(current_time),
    {
        let reward_time = self.get_reward_time(current_time);
        proof {
            lemma_mul_upper_bound(
                reward_time as int,
                u64::MAX as int,
                self.reward as int,
                u64::MAX as int,
            );
        }
        let reward_amount = GlobalState::to_u128(reward_time) * GlobalState::to_u128(self.reward);

        proof {
            lemma_mul_upper_bound(
                self.total_staked_index_mesh as int,
                u64::MAX as int,
                self.weightage as int,
                u64::MAX as int,
            );
            lemma_div_is_ordered(
                self.total_staked_index_mesh * self.weightage,
                u64::MAX * u64::MAX,
                SCALE_FACTOR_BASE as int,
            );
        }
        let weighted_index_mesh = GlobalState::to_u128(self.total_staked_index_mesh)
            * GlobalState::to_u128(self.weightage) / SCALE_FACTOR_BASE;

        let total_weighted_amount = weighted_index_mesh + GlobalState::to_u128(
            self.total_staked_mesh,
        );

        let acc_reward = reward_amount * SCALE_FACTOR / GlobalState::to_u128(
            self.distribution_time,
        ) / total_weighted_amount;

        let acc_reward_index_mesh = acc_reward * GlobalState::to_u128(self.weightage)
            / SCALE_FACTOR_BASE;

        (
            self.global_acc_reward_mesh + acc_reward,
            self.global_acc_reward_index_mesh + acc_reward_index_mesh,
        )
    }

    /// Sync the per-share accumulators up to `current_time`; see
    /// [`GlobalState::synced`] for the exact effect. Neither accumulator ever
    /// decreases.
    pub fn update_reward_per_share(&mut self, current_time: u64)
        requires
            old(self).sync_safe(current_time),
        ensures
            *final(self) == old(self).synced(current_time),
            final(self).global_acc_reward_mesh >= old(self).global_acc_reward_mesh,
            final(self).global_acc_reward_index_mesh >= old(self).global_acc_reward_index_mesh,
    {
        if current_time <= self.last_updated_time {
            return ;
        }
        if self.total_staked_mesh == 0 && self.total_staked_index_mesh == 0 {
            self.last_updated_time = self.get_last_reward_time(current_time);
            return ;
        }
        let (global_acc_reward_mesh, global_acc_reward_index_mesh) =
            self.calculate_reward_per_share(current_time);
        self.global_acc_reward_mesh = global_acc_reward_mesh;
        self.global_acc_reward_index_mesh = global_acc_reward_index_mesh;
        self.last_updated_time = self.get_last_reward_time(current_time);
    }

    /// Decide, without mutating anything, whether a sync at `current_time`
    /// stays within machine limits — what an unverified caller tests before
    /// it asks for one.
    pub fn check_sync_safe(&self, current_time: u64) -> (b: bool)
        ensures
            b == self.sync_safe(current_time),
    {
        if current_time <= self.last_updated_time {
            return true;
        }
        if self.total_staked_mesh == 0 && self.total_staked_index_mesh == 0 {
            return true;
        }
        let last_reward_time = self.get_last_reward_time(current_time);
        if last_reward_time < self.last_updated_time {
            return false;
        }
        if self.distribution_time == 0 {
            return false;
        }
        let reward_time = last_reward_time - self.last_updated_time;
        proof {
            lemma_mul_upper_bound(
                self.total_staked_index_mesh as int,
                u64::MAX as int,
                self.weightage as int,
                u64::MAX as int,
            );
            lemma_div_is_ordered(
                self.total_staked_index_mesh * self.weightage,
                u64::MAX * u64::MAX,
                SCALE_FACTOR_BASE as int,
            );
        }
        let weighted_index_mesh = GlobalState::to_u128(self.total_staked_index_mesh)
            * GlobalState::to_u128(self.weightage) / SCALE_FACTOR_BASE;
        let total_weighted_amount = weighted_index_mesh + GlobalState::to_u128(
            self.total_staked_mesh,
        );
        if total_weighted_amount == 0 {
            return false;
        }
        proof {
            lemma_mul_upper_bound(
                reward_time as int,
                u64::MAX as int,
                self.reward as int,
                u64::MAX as int,
            );
        }
        let reward_amount = GlobalState::to_u128(reward_time) * GlobalState::to_u128(self.reward);
        let scaled = match reward_amount.checked_mul(SCALE_FACTOR) {
            Some(s) => s,
            None => {
                return false;
            },
        };
        let acc_delta = scaled / GlobalState::to_u128(self.distribution_time)
            / total_weighted_amount;
        let weighted_delta = match acc_delta.checked_mul(GlobalState::to_u128(self.weightage)) {
            Some(d) => d,
            None => {
                return false;
            },
        };
        let acc_delta_index = weighted_delta / SCALE_FACTOR_BASE;
        if self.global_acc_reward_mesh.checked_add(acc_delta).is_none() {
            return false;
        }
        if self.global_acc_reward_index_mesh.checked_add(acc_delta_index).is_none() {
            return false;
        }
        true
    }
}

/// One user's staked balances and reward checkpoint. Created lazily on first
/// stake; may be destroyed only once both staked balances are zero.
#[derive(Clone, Copy, Debug, PartialEq, Eq, Structural)]
pub struct UserInfo {
    /// Owner of the position; the unset identity until first initialized.
    pub user: Identity,
    /// Snapshot of `global_acc_reward_mesh` at the user's last settlement.
    pub acc_reward_mesh: u128,
    /// Snapshot of `global_acc_reward_index_mesh` at the last settlement.
    pub acc_reward_index_mesh: u128,
    /// Amount of the primary asset staked by the user.
    pub staked_mesh: u64,
    /// Amount of the secondary asset staked by the user.
    pub staked_index_mesh: u64,
    /// Total settlement-asset reward the user has claimed so far.
    pub total_claimed_reward: u64,
}

impl UserInfo {
    /// The position has an owner recorded.
    pub open spec fn spec_is_initialized(self) -> bool {
        self.user.id != 0
    }

    /// Whether the position already has an owner recorded.
    pub fn is_initialized(&self) -> (r: bool)
        ensures
            r == self.spec_is_initialized(),
    {
        self.user.id != 0
    }

    /// Record the owner on first touch; a repeat call is a no-op, not an
    /// error.
    pub fn init(&mut self, user: Identity)
        ensures
            final(self).user == if old(self).spec_is_initialized() {
                old(self).user
            } else {
                user
            },
            final(self).acc_reward_mesh == old(self).acc_reward_mesh,
            final(self).acc_reward_index_mesh == old(self).acc_reward_index_mesh,
            final(self).staked_mesh == old(self).staked_mesh,
            final(self).staked_index_mesh == old(self).staked_index_mesh,
            final(self).total_claimed_reward == old(self).total_claimed_reward,
    {
        if !self.is_initialized() {
            self.user = user;
        }
    }
}

/// Custodial holder of the settlement asset. `balance` is what it holds;
/// `rent_exempt_minimum` is the storage reserve that must never be spent.
#[derive(Clone, Copy, Debug, PartialEq, Eq, Structural)]
pub struct FundsController {
    /// Settlement-asset balance the vault currently holds.
    pub balance: u64,
    /// Floor the balance must stay strictly above after any debit.
    pub rent_exempt_minimum: u64,
}

impl FundsController {
    /// Paying out `amount` would leave the vault at or below its floor.
    pub open spec fn insufficient_for(self, amount: u64) -> bool {
        self.balance - amount <= self.rent_exempt_minimum
    }

    /// Solvency probe: true when the vault cannot spare `amount_to_deduct`
    /// on top of its reserve floor.
    pub fn not_have_enough_sol(&self, amount_to_deduct: u64) -> (r: bool)
        ensures
            r == self.insufficient_for(amount_to_deduct),
    {
        if self.balance < amount_to_deduct {
            return true;
        }
        self.balance - amount_to_deduct <= self.rent_exempt_minimum
    }

    /// Receive `amount`; always succeeds while the balance fits the machine
    /// word.
    pub fn credit(&mut self, amount: u64)
        requires
            old(self).balance + amount <= u64::MAX,
        ensures
            final(self).balance == old(self).balance + amount,
            final(self).rent_exempt_minimum == old(self).rent_exempt_minimum,
    {
        self.balance = self.balance + amount;
    }

    /// Pay out `amount` unless that would breach the reserve floor; the
    /// vault is untouched when it refuses.
    pub fn debit(&mut self, amount: u64) -> (r: Result<(), crate::errors::ErrorCode>)
        ensures
            r is Err <==> old(self).insufficient_for(amount),
            r is Err ==> r == Result::<(), crate::errors::ErrorCode>::Err(
                crate::errors::ErrorCode::InsufficientFunds,
            ) && *final(self) == *old(self),
            r is Ok ==> final(self).balance == old(self).balance - amount,
            final(self).rent_exempt_minimum == old(self).rent_exempt_minimum,
    {
        if self.not_have_enough_sol(amount) {
            return Err(crate::errors::ErrorCode::InsufficientFunds);
        }
        self.balance = self.balance - amount;
        Ok(())
    }
}

} // verus!
