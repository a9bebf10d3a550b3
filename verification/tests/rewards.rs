use staking::address::Address;
use staking::errors::ErrorCode;
use staking::pool::create_project;
use staking::rewards::{accrue_rewards, credit_rewards, update_reward};
use staking::state::{Project, RateMode, Stake};

fn key(n: u8) -> Address {
    Address { bytes: [n; 32] }
}

fn pool(mode: RateMode, rate: u64, staked: u64, start: i64, end: i64) -> Project {
    let (mut project, _) = create_project(key(10), key(1), key(11), 7, key(12), key(13), 254);
    project.is_initialized = true;
    project.rate_mode = mode;
    project.reward_rate_per_second = rate;
    project.total_staked = staked;
    project.pool_start_time = start;
    project.pool_end_time = end;
    project.last_update_time = start;
    project
}

fn position(amount: u64) -> Stake {
    Stake {
        user: key(20),
        project: key(10),
        amount,
        last_stake_timestamp: 0,
        withdrawal_wallet: key(20),
        reward_per_token_paid: 0,
        rewards_pending: 0,
        total_rewards_claimed: 0,
        reflection_per_token_paid: 0,
        reflections_pending: 0,
        total_reflections_claimed: 0,
        reflection_debt: 0,
        bump: 253,
    }
}

#[test]
fn fixed_pool_accrues_rate_times_time() {
    let mut project = pool(RateMode::Fixed, 3, 1_000_000, 0, 1_000);
    accrue_rewards(&mut project, 100).unwrap();
    assert_eq!(project.reward_per_token_stored, 300);
    assert_eq!(project.last_update_time, 100);
    accrue_rewards(&mut project, 250).unwrap();
    assert_eq!(project.reward_per_token_stored, 750);
    assert_eq!(project.last_update_time, 250);
}

#[test]
fn fixed_pool_accrues_the_same_whatever_is_staked() {
    let mut small = pool(RateMode::Fixed, 3168, 1, 0, 1_000);
    let mut large = pool(RateMode::Fixed, 3168, u64::MAX, 0, 1_000);
    accrue_rewards(&mut small, 500).unwrap();
    accrue_rewards(&mut large, 500).unwrap();
    assert_eq!(small.reward_per_token_stored, 3168 * 500);
    assert_eq!(large.reward_per_token_stored, 3168 * 500);
}

#[test]
fn variable_pool_shares_the_emission_among_the_staked() {
    // 100 units a second for an hour among a million staked units.
    let mut project = pool(RateMode::Variable, 100, 1_000_000, 0, 10_000);
    accrue_rewards(&mut project, 3_600).unwrap();
    assert_eq!(project.reward_per_token_stored, 100 * 3_600 * 1_000_000_000 / 1_000_000);
    assert_eq!(project.reward_per_token_stored, 360_000_000);
    assert_eq!(project.last_update_time, 3_600);
}

#[test]
fn variable_pool_rounds_the_share_down() {
    let mut project = pool(RateMode::Variable, 1, 3, 0, 10_000);
    accrue_rewards(&mut project, 1).unwrap();
    assert_eq!(project.reward_per_token_stored, 333_333_333);
    accrue_rewards(&mut project, 3).unwrap();
    assert_eq!(project.reward_per_token_stored, 333_333_333 + 666_666_666);
}

#[test]
fn nothing_accrues_while_nothing_is_staked() {
    for mode in [RateMode::Fixed, RateMode::Variable] {
        let mut project = pool(mode, 100, 0, 0, 10_000);
        assert_eq!(accrue_rewards(&mut project, 5_000), Ok(()));
        assert_eq!(project.reward_per_token_stored, 0);
        // The clock is caught up all the same.
        assert_eq!(project.last_update_time, 5_000);
    }
}

#[test]
fn accrual_is_clipped_at_the_end_of_the_pool() {
    let mut project = pool(RateMode::Fixed, 10, 500, 0, 1_000);
    accrue_rewards(&mut project, 900).unwrap();
    assert_eq!(project.reward_per_token_stored, 9_000);
    // 600 seconds have passed, but only 100 of them before the end.
    accrue_rewards(&mut project, 1_500).unwrap();
    assert_eq!(project.reward_per_token_stored, 10_000);
    assert_eq!(project.last_update_time, 1_500);
}

#[test]
fn no_accrual_past_the_end_of_the_pool() {
    // Settled at two different times after the end, the accumulator is the same.
    let before = pool(RateMode::Variable, 7, 13, 0, 1_000);
    let mut first = before;
    let mut second = before;
    accrue_rewards(&mut first, 1_001).unwrap();
    accrue_rewards(&mut second, 999_999).unwrap();
    assert_eq!(first.reward_per_token_stored, second.reward_per_token_stored);
    assert_eq!(first.reward_per_token_stored, 7 * 1_000 * 1_000_000_000 / 13);

    // And a pool settled after its end stays where it is.
    let stored = first.reward_per_token_stored;
    accrue_rewards(&mut first, 2_000).unwrap();
    assert_eq!(first.reward_per_token_stored, stored);
    accrue_rewards(&mut first, i64::MAX).unwrap();
    assert_eq!(first.reward_per_token_stored, stored);
    assert_eq!(first.last_update_time, i64::MAX);
}

#[test]
fn a_pool_updated_after_its_end_accrues_nothing() {
    let mut project = pool(RateMode::Fixed, 10, 500, 0, 1_000);
    project.last_update_time = 1_200;
    accrue_rewards(&mut project, 1_300).unwrap();
    assert_eq!(project.reward_per_token_stored, 0);
    assert_eq!(project.last_update_time, 1_300);
}

#[test]
fn a_clock_that_has_not_advanced_accrues_nothing() {
    let mut project = pool(RateMode::Fixed, 10, 500, 100, 1_000);
    accrue_rewards(&mut project, 100).unwrap();
    assert_eq!(project.reward_per_token_stored, 0);
    assert_eq!(project.last_update_time, 100);
    // A clock behind the last update accrues nothing either, and is recorded.
    accrue_rewards(&mut project, 40).unwrap();
    assert_eq!(project.reward_per_token_stored, 0);
    assert_eq!(project.last_update_time, 40);
}

#[test]
fn accrual_spans_the_whole_range_of_the_clock() {
    let mut project = pool(RateMode::Fixed, 0, 1, i64::MIN, i64::MAX);
    assert_eq!(accrue_rewards(&mut project, i64::MAX), Ok(()));
    assert_eq!(project.reward_per_token_stored, 0);
    let mut project = pool(RateMode::Fixed, 1, 1, i64::MIN, i64::MAX);
    assert_eq!(accrue_rewards(&mut project, i64::MAX), Ok(()));
    assert_eq!(project.reward_per_token_stored, u64::MAX);
}

#[test]
fn accrual_that_does_not_fit_is_an_overflow_and_changes_nothing() {
    let mut project = pool(RateMode::Fixed, u64::MAX, 1, 0, 1_000);
    let before = project;
    assert_eq!(accrue_rewards(&mut project, 2), Err(ErrorCode::MathOverflow));
    assert_eq!(project, before);

    let mut project = pool(RateMode::Fixed, 1, 1, 0, 1_000);
    project.reward_per_token_stored = u64::MAX - 5;
    let before = project;
    assert_eq!(accrue_rewards(&mut project, 6), Err(ErrorCode::MathOverflow));
    assert_eq!(project, before);
    assert_eq!(accrue_rewards(&mut project, 5), Ok(()));
    assert_eq!(project.reward_per_token_stored, u64::MAX);

    // In a variable pool the scaled product may exceed even 128 bits.
    let mut project = pool(RateMode::Variable, u64::MAX, 1, i64::MIN, i64::MAX);
    let before = project;
    assert_eq!(accrue_rewards(&mut project, i64::MAX), Err(ErrorCode::MathOverflow));
    assert_eq!(project, before);
}

#[test]
fn a_stake_is_credited_with_its_share() {
    let mut project = pool(RateMode::Fixed, 0, 10_000, 0, 1_000);
    project.reward_per_token_stored = 50_000_000;
    let mut stake = position(2_000);
    credit_rewards(&project, &mut stake).unwrap();
    assert_eq!(stake.rewards_pending, 100);
    assert_eq!(stake.reward_per_token_paid, 50_000_000);

    project.reward_per_token_stored = 50_000_001;
    credit_rewards(&project, &mut stake).unwrap();
    // 2000 * 1 / 1e9 rounds down to nothing, and the marker moves on.
    assert_eq!(stake.rewards_pending, 100);
    assert_eq!(stake.reward_per_token_paid, 50_000_001);
}

#[test]
fn a_stake_without_principal_earns_nothing_but_keeps_up() {
    let mut project = pool(RateMode::Fixed, 0, 10_000, 0, 1_000);
    project.reward_per_token_stored = 77_000_000_000;
    let mut stake = position(0);
    stake.rewards_pending = 5;
    credit_rewards(&project, &mut stake).unwrap();
    assert_eq!(stake.rewards_pending, 5);
    assert_eq!(stake.reward_per_token_paid, 77_000_000_000);
}

#[test]
fn a_marker_ahead_of_the_accumulator_earns_nothing() {
    let mut project = pool(RateMode::Fixed, 0, 10_000, 0, 1_000);
    project.reward_per_token_stored = 10;
    let mut stake = position(1_000_000_000);
    stake.reward_per_token_paid = 500;
    credit_rewards(&project, &mut stake).unwrap();
    assert_eq!(stake.rewards_pending, 0);
    assert_eq!(stake.reward_per_token_paid, 10);
}

#[test]
fn a_credit_that_does_not_fit_is_an_overflow_and_changes_nothing() {
    let mut project = pool(RateMode::Fixed, 0, 10_000, 0, 1_000);
    project.reward_per_token_stored = u64::MAX;
    let mut stake = position(u64::MAX);
    let before = stake;
    assert_eq!(credit_rewards(&project, &mut stake), Err(ErrorCode::MathOverflow));
    assert_eq!(stake, before);

    project.reward_per_token_stored = 1_000_000_000;
    let mut stake = position(10);
    stake.rewards_pending = u64::MAX - 9;
    let before = stake;
    assert_eq!(credit_rewards(&project, &mut stake), Err(ErrorCode::MathOverflow));
    assert_eq!(stake, before);
    stake.rewards_pending = u64::MAX - 10;
    assert_eq!(credit_rewards(&project, &mut stake), Ok(()));
    assert_eq!(stake.rewards_pending, u64::MAX);
}

#[test]
fn update_reward_accrues_and_credits() {
    let mut project = pool(RateMode::Variable, 100, 1_000_000, 0, 10_000);
    let mut stake = position(250_000);
    update_reward(&mut project, &mut stake, 3_600).unwrap();
    assert_eq!(project.reward_per_token_stored, 360_000_000);
    assert_eq!(project.last_update_time, 3_600);
    // A quarter of the pool earns a quarter of 360000.
    assert_eq!(stake.rewards_pending, 90_000);
    assert_eq!(stake.reward_per_token_paid, 360_000_000);
}

#[test]
fn settling_twice_at_the_same_time_is_settling_once() {
    let mut project = pool(RateMode::Variable, 100, 1_000_000, 0, 10_000);
    let mut stake = position(250_000);
    update_reward(&mut project, &mut stake, 3_600).unwrap();
    let (project_once, stake_once) = (project, stake);
    assert_eq!(update_reward(&mut project, &mut stake, 3_600), Ok(()));
    assert_eq!(project, project_once);
    assert_eq!(stake, stake_once);
}

#[test]
fn the_reward_accumulator_never_decreases() {
    let mut project = pool(RateMode::Variable, 9, 1_234, 0, 5_000);
    let mut stake = position(1_000);
    let mut last = project.reward_per_token_stored;
    let mut pending = stake.rewards_pending;
    for now in [10i64, 10, 5, 700, 4_999, 5_000, 5_001, 1, 9_000] {
        update_reward(&mut project, &mut stake, now).unwrap();
        assert!(project.reward_per_token_stored >= last);
        assert!(stake.rewards_pending >= pending);
        last = project.reward_per_token_stored;
        pending = stake.rewards_pending;
    }
}

#[test]
fn a_failed_settlement_changes_neither_pool_nor_stake() {
    // The pool accrues, but the stake's pending rewards would overflow.
    let mut project = pool(RateMode::Fixed, 1_000_000_000, 10, 0, 1_000);
    let mut stake = position(10);
    stake.rewards_pending = u64::MAX;
    let (project_before, stake_before) = (project, stake);
    assert_eq!(update_reward(&mut project, &mut stake, 1), Err(ErrorCode::MathOverflow));
    assert_eq!(project, project_before);
    assert_eq!(stake, stake_before);
}
