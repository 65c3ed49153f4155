//! Laws of the accounting engine, each stated over the same spec functions
//! the executable contracts use and proved once for all inputs.

use crate::instructions::base::{pending_total_reward, settled_user};
use crate::state::{FundsController, GlobalState, UserInfo, SCALE_FACTOR, SCALE_FACTOR_BASE};
use vstd::arithmetic::div_mod::{lemma_div_basics, lemma_div_pos_is_pos};
use vstd::arithmetic::mul::{lemma_mul_basics, lemma_mul_nonnegative};
use vstd::prelude::*;

verus! {

/// Monotonicity: a sync never decreases either per-share accumulator, and
/// touches neither the audit counter nor the emission parameters. Every
/// handler that changes the accumulators changes them through a sync, so the
/// accumulators are non-decreasing over any sequence of operations.
pub proof fn lemma_sync_monotonic(global_state: GlobalState, current_time: u64)
    requires
        global_state.sync_safe(current_time),
    ensures
        global_state.synced(current_time).global_acc_reward_mesh
            >= global_state.global_acc_reward_mesh,
        global_state.synced(current_time).global_acc_reward_index_mesh
            >= global_state.global_acc_reward_index_mesh,
        global_state.synced(current_time).total_distributed_reward
            == global_state.total_distributed_reward,
        global_state.synced(current_time).reward == global_state.reward,
        global_state.synced(current_time).distribution_time == global_state.distribution_time,
        global_state.synced(current_time).period_end_time == global_state.period_end_time,
{
    if global_state.sync_emits(current_time) {
        lemma_sync_delta_nonnegative(global_state, current_time);
    }
}

/// The per-share growth of an emitting sync is never negative.
pub proof fn lemma_sync_delta_nonnegative(global_state: GlobalState, current_time: u64)
    requires
        global_state.sync_emits(current_time),
        global_state.sync_safe(current_time),
    ensures
        global_state.acc_delta_mesh(current_time) >= 0,
        global_state.acc_delta_index_mesh(current_time) >= 0,
{
    let g = global_state;
    lemma_mul_nonnegative(
        g.total_staked_index_mesh as int,
        g.weightage as int,
    );
    lemma_div_pos_is_pos(
        g.total_staked_index_mesh * g.weightage,
        SCALE_FACTOR_BASE as int,
    );
    lemma_mul_nonnegative(g.spec_reward_time(current_time), g.reward as int);
    lemma_mul_nonnegative(
        g.spec_reward_time(current_time) * g.reward,
        SCALE_FACTOR as int,
    );
    lemma_div_pos_is_pos(
        g.spec_reward_time(current_time) * g.reward * (SCALE_FACTOR as int),
        g.distribution_time as int,
    );
    lemma_div_pos_is_pos(
        g.spec_reward_time(current_time) * g.reward * (SCALE_FACTOR as int) / (
        g.distribution_time as int),
        g.total_weighted_stake(),
    );
    lemma_mul_nonnegative(g.acc_delta_mesh(current_time), g.weightage as int);
    lemma_div_pos_is_pos(
        g.acc_delta_mesh(current_time) * g.weightage,
        SCALE_FACTOR_BASE as int,
    );
}

/// No reward while the pool is empty: a sync over an interval in which both
/// staking totals are zero advances the clock but leaves both per-share
/// accumulators exactly as they were; the unemitted reward of the interval
/// is forfeited, not carried forward.
pub proof fn lemma_no_reward_while_empty(global_state: GlobalState, current_time: u64)
    requires
        global_state.total_staked_mesh == 0,
        global_state.total_staked_index_mesh == 0,
    ensures
        global_state.synced(current_time).global_acc_reward_mesh
            == global_state.global_acc_reward_mesh,
        global_state.synced(current_time).global_acc_reward_index_mesh
            == global_state.global_acc_reward_index_mesh,
{
}

/// Settlement idempotence: a position settled against given accumulators has
/// zero pending reward against those same accumulators, so a second
/// settlement with no sync in between pays nothing.
pub proof fn lemma_settlement_idempotent(global_state: GlobalState, user_info: UserInfo, paid: int)
    ensures
        pending_total_reward(global_state, settled_user(global_state, user_info, paid)) == 0,
{
    let settled = settled_user(global_state, user_info, paid);
    lemma_mul_basics(settled.staked_mesh as int);
    lemma_mul_basics(settled.staked_index_mesh as int);
    assert((global_state.global_acc_reward_mesh - settled.acc_reward_mesh) * settled.staked_mesh
        == 0);
    assert((global_state.global_acc_reward_index_mesh - settled.acc_reward_index_mesh)
        * settled.staked_index_mesh == 0);
}

/// Debt correctness: settlement checkpoints both reward debts at exactly the
/// current per-share accumulators.
pub proof fn lemma_settlement_checkpoints_debts(
    global_state: GlobalState,
    user_info: UserInfo,
    paid: int,
)
    ensures
        settled_user(global_state, user_info, paid).acc_reward_mesh
            == global_state.global_acc_reward_mesh,
        settled_user(global_state, user_info, paid).acc_reward_index_mesh
            == global_state.global_acc_reward_index_mesh,
{
}

/// Cycle-expiry boundary: once `current_time` has reached the cycle end, a
/// sync accrues reward only up to the cycle end, however far in the future
/// `current_time` lies — it gives the same state as a sync exactly at the
/// cycle end.
pub proof fn lemma_sync_clamped_at_period_end(global_state: GlobalState, current_time: u64)
    requires
        global_state.sync_safe(current_time),
        global_state.last_updated_time <= global_state.period_end_time,
        current_time >= global_state.period_end_time,
    ensures
        global_state.synced(current_time) == global_state.synced(global_state.period_end_time),
{
    let g = global_state;
    let pe = g.period_end_time;
    if current_time <= g.last_updated_time {
        assert(current_time == pe && pe == g.last_updated_time);
    } else if pe <= g.last_updated_time {
        assert(g.spec_last_reward_time(current_time) == pe);
        assert(g.spec_reward_time(current_time) == 0);
        if !(g.total_staked_mesh == 0 && g.total_staked_index_mesh == 0) {
            lemma_mul_basics(g.reward as int);
            assert(g.spec_reward_time(current_time) * g.reward == 0);
            lemma_mul_basics(SCALE_FACTOR as int);
            assert(g.spec_reward_time(current_time) * g.reward * (SCALE_FACTOR as int) == 0);
            lemma_div_basics(g.distribution_time as int);
            lemma_div_basics(g.total_weighted_stake());
            assert(g.acc_delta_mesh(current_time) == 0);
            lemma_mul_basics(g.weightage as int);
            assert(g.acc_delta_mesh(current_time) * g.weightage == 0);
            lemma_div_basics(SCALE_FACTOR_BASE as int);
            assert(g.acc_delta_index_mesh(current_time) == 0);
        }
        assert(g.synced(current_time) =~= g.synced(pe));
    } else {
        assert(g.spec_last_reward_time(current_time) == pe);
        assert(g.spec_last_reward_time(pe) == pe);
        assert(g.synced(current_time) =~= g.synced(pe));
    }
}

/// The settlement-asset value this deployment owes an account of: what all
/// users ever claimed, what the vault still holds, and what governance
/// migrated out to a successor. It equals the vault's cumulative credited
/// amount, because only a credit changes it.
pub open spec fn accounted_total(
    users: Seq<UserInfo>,
    funds_controller: FundsController,
    migrated: int,
) -> int {
    total_claimed_sum(users) + funds_controller.balance + migrated
}

/// Sum of `total_claimed_reward` over all user positions.
pub open spec fn total_claimed_sum(users: Seq<UserInfo>) -> int
    decreases users.len(),
{
    if users.len() == 0 {
        0
    } else {
        total_claimed_sum(users.drop_last()) + users.last().total_claimed_reward
    }
}

/// Replacing one position changes the claimed sum by that position's claimed
/// delta alone.
pub proof fn lemma_total_claimed_sum_update(users: Seq<UserInfo>, i: int, user_info: UserInfo)
    requires
        0 <= i < users.len(),
    ensures
        total_claimed_sum(users.update(i, user_info)) == total_claimed_sum(users)
            - users[i].total_claimed_reward + user_info.total_claimed_reward,
    decreases users.len(),
{
    let n = users.len() as int;
    if i == n - 1 {
        assert(users.update(i, user_info).drop_last() =~= users.drop_last());
    } else {
        lemma_total_claimed_sum_update(users.drop_last(), i, user_info);
        assert(users.update(i, user_info).drop_last() =~= users.drop_last().update(i, user_info));
    }
}

/// Conservation under settlement: whatever a settlement pays out of the
/// vault shows up, in full, in that one user's claimed total, so the
/// accounted total is unchanged — claims never exceed what was credited.
pub proof fn lemma_conservation_under_settlement(
    users: Seq<UserInfo>,
    i: int,
    user_info: UserInfo,
    vault_before: FundsController,
    vault_after: FundsController,
    migrated: int,
)
    requires
        0 <= i < users.len(),
        user_info.total_claimed_reward + vault_after.balance == users[i].total_claimed_reward
            + vault_before.balance,
    ensures
        accounted_total(users.update(i, user_info), vault_after, migrated) == accounted_total(
            users,
            vault_before,
            migrated,
        ),
{
    lemma_total_claimed_sum_update(users, i, user_info);
}

/// Conservation under migration: what a migration debits from the vault is
/// accounted as migrated-out, leaving the accounted total unchanged.
pub proof fn lemma_conservation_under_migration(
    users: Seq<UserInfo>,
    vault_before: FundsController,
    vault_after: FundsController,
    migrated: int,
    amount: u64,
)
    requires
        vault_after.balance == vault_before.balance - amount,
    ensures
        accounted_total(users, vault_after, migrated + amount) == accounted_total(
            users,
            vault_before,
            migrated,
        ),
{
}

} // verus!
