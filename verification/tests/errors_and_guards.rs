//! One test per failure mode, plus the guard probes and small state helpers.

use mesh_staking::errors::ErrorCode;
use mesh_staking::instructions::base::{
    calculate_pending_rewards, check_harvest_safe, harvest_user_rewards,
};
use mesh_staking::instructions::claim::claim_handler;
use mesh_staking::instructions::close_user_info::close_user_info_handler;
use mesh_staking::instructions::initialize::initialize_handler;
use mesh_staking::instructions::migrate_funds::migrate_funds_handler;
use mesh_staking::instructions::pending_rewards::{
    check_pending_rewards_safe, pending_rewards_handler,
};
use mesh_staking::instructions::stake::stake_handler;
use mesh_staking::instructions::unstake::unstake_handler;
use mesh_staking::instructions::update_governance::update_governance_handler;
use mesh_staking::instructions::update_period_end::update_period_end_handler;
use mesh_staking::instructions::update_rewards::update_rewards_handler;
use mesh_staking::instructions::update_weightage::update_weightage_handler;
use mesh_staking::state::{FundsController, GlobalState, Identity, UserInfo};

const DEPLOYER: Identity = Identity { id: 1 };
const GOVERNANCE: Identity = Identity { id: 2 };
const MESH: Identity = Identity { id: 11 };
const INDEX_MESH: Identity = Identity { id: 12 };
const ALICE: Identity = Identity { id: 100 };
const STRANGER: Identity = Identity { id: 999 };

fn fresh_user() -> UserInfo {
    UserInfo {
        user: Identity { id: 0 },
        acc_reward_mesh: 0,
        acc_reward_index_mesh: 0,
        staked_mesh: 0,
        staked_index_mesh: 0,
        total_claimed_reward: 0,
    }
}

fn fresh_cycle() -> GlobalState {
    let mut global =
        initialize_handler(DEPLOYER, DEPLOYER, GOVERNANCE, MESH, INDEX_MESH, 500_000_000).unwrap();
    update_rewards_handler(&mut global, GOVERNANCE, 1000, 1000, 0).unwrap();
    global
}

fn funded_vault() -> FundsController {
    FundsController { balance: 10_000, rent_exempt_minimum: 0 }
}

#[test]
fn initialize_refuses_anyone_but_the_deployer() {
    let err = initialize_handler(DEPLOYER, STRANGER, GOVERNANCE, MESH, INDEX_MESH, 0).unwrap_err();
    assert_eq!(err, ErrorCode::InvalidDeployer);
}

#[test]
fn initialize_records_the_configuration() {
    let global =
        initialize_handler(DEPLOYER, DEPLOYER, GOVERNANCE, MESH, INDEX_MESH, 77).unwrap();
    assert_eq!(global.governance, GOVERNANCE);
    assert_eq!(global.mesh_mint, MESH);
    assert_eq!(global.index_mesh_mint, INDEX_MESH);
    assert_eq!(global.weightage, 77);
    assert_eq!(global.reward, 0);
    assert_eq!(global.period_end_time, 0);
    assert_eq!(global.global_acc_reward_mesh, 0);
    assert_eq!(global.total_distributed_reward, 0);
}

#[test]
fn stake_refuses_a_foreign_mint() {
    let mut global = fresh_cycle();
    let mut alice = fresh_user();
    let mut vault = funded_vault();
    let err =
        stake_handler(&mut global, &mut alice, &mut vault, ALICE, STRANGER, 100, 0).unwrap_err();
    assert_eq!(err, ErrorCode::InvalidMint);
}

#[test]
fn stake_refuses_a_zero_amount() {
    let mut global = fresh_cycle();
    let mut alice = fresh_user();
    let mut vault = funded_vault();
    let err = stake_handler(&mut global, &mut alice, &mut vault, ALICE, MESH, 0, 0).unwrap_err();
    assert_eq!(err, ErrorCode::ZeroInput);
}

#[test]
fn stake_refuses_before_any_emission_is_set() {
    let mut global =
        initialize_handler(DEPLOYER, DEPLOYER, GOVERNANCE, MESH, INDEX_MESH, 0).unwrap();
    let mut alice = fresh_user();
    let mut vault = funded_vault();
    let err = stake_handler(&mut global, &mut alice, &mut vault, ALICE, MESH, 100, 0).unwrap_err();
    assert_eq!(err, ErrorCode::RewardIsNotSet);
}

#[test]
fn stake_refuses_after_the_cycle_ended() {
    let mut global = fresh_cycle();
    let mut alice = fresh_user();
    let mut vault = funded_vault();
    let err =
        stake_handler(&mut global, &mut alice, &mut vault, ALICE, MESH, 100, 1000).unwrap_err();
    assert_eq!(err, ErrorCode::RewardDistributionPeriodHasExpired);
}

#[test]
fn stake_refuses_when_the_vault_sits_at_its_floor() {
    let mut global = fresh_cycle();
    let mut alice = fresh_user();
    let mut vault = FundsController { balance: 50, rent_exempt_minimum: 50 };
    let err = stake_handler(&mut global, &mut alice, &mut vault, ALICE, MESH, 100, 0).unwrap_err();
    assert_eq!(err, ErrorCode::InsufficientFunds);
}

#[test]
fn unstake_refuses_a_foreign_mint() {
    let mut global = fresh_cycle();
    let mut alice = fresh_user();
    let mut vault = funded_vault();
    let err = unstake_handler(&mut global, &mut alice, &mut vault, STRANGER, 1, false, 0)
        .unwrap_err();
    assert_eq!(err, ErrorCode::InvalidMint);
}

#[test]
fn unstake_refuses_a_zero_amount() {
    let mut global = fresh_cycle();
    let mut alice = fresh_user();
    let mut vault = funded_vault();
    let err =
        unstake_handler(&mut global, &mut alice, &mut vault, MESH, 0, false, 0).unwrap_err();
    assert_eq!(err, ErrorCode::ZeroInput);
}

#[test]
fn unstake_refuses_more_than_the_staked_balance() {
    let mut global = fresh_cycle();
    let mut alice = fresh_user();
    let mut vault = funded_vault();
    stake_handler(&mut global, &mut alice, &mut vault, ALICE, MESH, 100, 0).unwrap();
    let err =
        unstake_handler(&mut global, &mut alice, &mut vault, MESH, 101, false, 0).unwrap_err();
    assert_eq!(err, ErrorCode::AmountGreaterThanStakedAmount);
    let err = unstake_handler(&mut global, &mut alice, &mut vault, INDEX_MESH, 1, false, 0)
        .unwrap_err();
    assert_eq!(err, ErrorCode::AmountGreaterThanStakedAmount);
}

#[test]
fn close_refuses_while_anything_is_staked() {
    let mut user = fresh_user();
    user.staked_index_mesh = 3;
    let err = close_user_info_handler(&user).unwrap_err();
    assert_eq!(err, ErrorCode::StakedNotZero);
    user.staked_index_mesh = 0;
    assert!(close_user_info_handler(&user).is_ok());
}

#[test]
fn governance_instructions_refuse_strangers() {
    let mut global = fresh_cycle();
    let mut vault = funded_vault();
    assert_eq!(
        update_rewards_handler(&mut global, STRANGER, 1, 1, 0).unwrap_err(),
        ErrorCode::InvalidGovernance
    );
    assert_eq!(
        update_period_end_handler(&mut global, STRANGER, 1, 0).unwrap_err(),
        ErrorCode::InvalidGovernance
    );
    assert_eq!(
        update_weightage_handler(&mut global, STRANGER, 1, 0).unwrap_err(),
        ErrorCode::InvalidGovernance
    );
    assert_eq!(
        update_governance_handler(&mut global, STRANGER, STRANGER).unwrap_err(),
        ErrorCode::InvalidGovernance
    );
    assert_eq!(
        migrate_funds_handler(&global, &mut vault, STRANGER, 1).unwrap_err(),
        ErrorCode::InvalidGovernance
    );
}

#[test]
fn update_rewards_refuses_a_zero_cycle_length() {
    let mut global = fresh_cycle();
    let err = update_rewards_handler(&mut global, GOVERNANCE, 1000, 0, 0).unwrap_err();
    assert_eq!(err, ErrorCode::ZeroInput);
}

#[test]
fn update_rewards_refuses_a_zero_rate_once_expired() {
    let mut global = fresh_cycle();
    let err = update_rewards_handler(&mut global, GOVERNANCE, 0, 1000, 5000).unwrap_err();
    assert_eq!(err, ErrorCode::ZeroInput);
}

#[test]
fn update_period_end_rearms_the_same_rate() {
    let mut global = fresh_cycle();
    assert_eq!(
        update_period_end_handler(&mut global, GOVERNANCE, 0, 0).unwrap_err(),
        ErrorCode::ZeroInput
    );
    update_period_end_handler(&mut global, GOVERNANCE, 400, 1500).unwrap();
    assert_eq!(global.period_end_time, 1900);
    assert_eq!(global.reward, 1000);
    assert_eq!(global.distribution_time, 1000);
}

#[test]
fn update_governance_hands_the_role_over() {
    let mut global = fresh_cycle();
    update_governance_handler(&mut global, GOVERNANCE, STRANGER).unwrap();
    assert_eq!(global.governance, STRANGER);
    assert_eq!(
        update_rewards_handler(&mut global, GOVERNANCE, 1, 1, 0).unwrap_err(),
        ErrorCode::InvalidGovernance
    );
}

#[test]
fn update_weightage_replaces_the_weight() {
    let mut global = fresh_cycle();
    update_weightage_handler(&mut global, GOVERNANCE, 250_000_000, 0).unwrap();
    assert_eq!(global.weightage, 250_000_000);
}

#[test]
fn migrate_refuses_zero_and_insolvent_amounts() {
    let global = fresh_cycle();
    let mut vault = FundsController { balance: 1_000, rent_exempt_minimum: 100 };
    assert_eq!(
        migrate_funds_handler(&global, &mut vault, GOVERNANCE, 0).unwrap_err(),
        ErrorCode::ZeroInput
    );
    // 1000 - 900 == 100 sits exactly at the floor: refused.
    assert_eq!(
        migrate_funds_handler(&global, &mut vault, GOVERNANCE, 900).unwrap_err(),
        ErrorCode::InsufficientFunds
    );
    assert_eq!(
        migrate_funds_handler(&global, &mut vault, GOVERNANCE, 5_000).unwrap_err(),
        ErrorCode::InsufficientFunds
    );
    assert_eq!(vault.balance, 1_000);
    assert_eq!(migrate_funds_handler(&global, &mut vault, GOVERNANCE, 899).unwrap(), 899);
    assert_eq!(vault.balance, 101);
}

#[test]
fn solvency_probe_counts_the_floor_as_spent() {
    let vault = FundsController { balance: 100, rent_exempt_minimum: 40 };
    assert!(!vault.not_have_enough_sol(0));
    assert!(!vault.not_have_enough_sol(59));
    assert!(vault.not_have_enough_sol(60));
    assert!(vault.not_have_enough_sol(100));
    assert!(vault.not_have_enough_sol(101));
}

#[test]
fn vault_credit_and_debit_move_the_balance() {
    let mut vault = FundsController { balance: 100, rent_exempt_minimum: 40 };
    vault.credit(50);
    assert_eq!(vault.balance, 150);
    vault.debit(80).unwrap();
    assert_eq!(vault.balance, 70);
    assert_eq!(vault.debit(31).unwrap_err(), ErrorCode::InsufficientFunds);
    assert_eq!(vault.balance, 70);
}

#[test]
fn user_position_owner_is_set_exactly_once() {
    let mut user = fresh_user();
    assert!(!user.is_initialized());
    user.init(ALICE);
    assert!(user.is_initialized());
    assert_eq!(user.user, ALICE);
    user.init(STRANGER);
    assert_eq!(user.user, ALICE);
}

#[test]
fn pending_rewards_of_an_unstaked_user_are_zero() {
    let global = fresh_cycle();
    let user = fresh_user();
    let pending = pending_rewards_handler(&global, &user, 500);
    assert_eq!(pending.mesh_reward, 0);
    assert_eq!(pending.index_mesh_reward, 0);
}

#[test]
fn emergency_harvest_skips_the_vault() {
    let mut global = fresh_cycle();
    let mut alice = fresh_user();
    let mut vault = funded_vault();
    stake_handler(&mut global, &mut alice, &mut vault, ALICE, MESH, 100, 0).unwrap();
    global.update_reward_per_share(500);

    let mut empty_vault = FundsController { balance: 0, rent_exempt_minimum: 0 };
    assert_eq!(calculate_pending_rewards(&global, &alice), 500);
    let paid = harvest_user_rewards(&global, &mut alice, &mut empty_vault, true).unwrap();
    assert_eq!(paid, 0);
    assert_eq!(alice.total_claimed_reward, 0);
    assert_eq!(calculate_pending_rewards(&global, &alice), 0);
}

#[test]
fn guard_checks_mirror_the_machine_limits() {
    let global = fresh_cycle();
    assert!(global.check_sync_safe(500));

    // A cycle length of zero with stake present cannot be synced.
    let mut broken = global;
    broken.distribution_time = 0;
    broken.reward = 0;
    broken.total_staked_mesh = 1;
    assert!(!broken.check_sync_safe(500));

    // A clock that went backwards past the last sync cannot be synced either.
    let mut stale = global;
    stale.total_staked_mesh = 1;
    stale.last_updated_time = 900;
    stale.period_end_time = 800;
    assert!(!stale.check_sync_safe(950));

    let user = fresh_user();
    assert!(check_harvest_safe(&global, &user));
    let mut indebted = user;
    indebted.acc_reward_mesh = 1;
    assert!(!check_harvest_safe(&global, &indebted));

    assert!(check_pending_rewards_safe(&global, &user, 500));
    let mut staked = user;
    staked.staked_mesh = 7;
    assert!(!check_pending_rewards_safe(&broken, &staked, 500));
}
