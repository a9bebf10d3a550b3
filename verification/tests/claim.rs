use staking::address::{Address, NATIVE_MINT};
use staking::claim::{
    claim, claim_reflections, refresh_reflections, ClaimArgs, ClaimReflectionsArgs,
};
use staking::errors::ErrorCode;
use staking::events::{ReflectionsClaimed, RewardsClaimed};
use staking::pool::create_project;
use staking::settlement::settle;
use staking::state::{Project, RateMode, Stake};

fn n(i: u8) -> Address {
    Address { bytes: [i; 32] }
}

fn paying_pool() -> Project {
    let (mut project, _) = create_project(n(10), n(1), n(11), 7, n(12), n(13), 254);
    project.is_initialized = true;
    project.rate_mode = RateMode::Variable;
    project.reward_rate_per_second = 100;
    project.pool_start_time = 0;
    project.pool_end_time = 100_000;
    project.last_update_time = 1_000;
    project.total_staked = 1_000_000;
    project
}

fn reflecting(mut project: Project, token: Address) -> Project {
    project.enable_reflections = true;
    project.reflection_token = Some(token);
    project.reflection_vault = Some(n(31));
    project
}

fn member(amount: u64) -> Stake {
    Stake {
        user: n(20),
        project: n(10),
        amount,
        last_stake_timestamp: 1_000,
        withdrawal_wallet: n(20),
        reward_per_token_paid: 0,
        rewards_pending: 0,
        total_rewards_claimed: 0,
        reflection_per_token_paid: 0,
        reflections_pending: 0,
        total_reflections_claimed: 0,
        reflection_debt: 0,
        bump: 253,
    }
}

fn claim_at(now: i64) -> ClaimArgs {
    ClaimArgs {
        user: n(20),
        project_key: n(10),
        vault_balance: 10_000_000,
        reflection_balance: None,
        now,
    }
}

#[test]
fn claim_pays_all_pending_rewards() {
    let mut project = paying_pool();
    project.total_rewards_claimed = 5;
    let mut stake = member(400_000);
    stake.rewards_pending = 1_000;
    stake.total_rewards_claimed = 7;
    let event = claim(&mut project, &mut stake, &claim_at(4_600)).unwrap();
    assert_eq!(event, RewardsClaimed { user: n(20), project: n(10), amount: 145_000 });
    assert_eq!(stake.rewards_pending, 0);
    assert_eq!(stake.total_rewards_claimed, 145_007);
    assert_eq!(project.total_rewards_claimed, 145_005);
    assert_eq!(stake.amount, 400_000);
    assert_eq!(project.total_staked, 1_000_000);
    // The lockup is not restarted by a claim.
    assert_eq!(stake.last_stake_timestamp, 1_000);
}

#[test]
fn claim_settles_before_it_looks_at_what_is_pending() {
    let mut project = paying_pool();
    let mut stake = member(400_000);
    // Nothing is pending yet, but an hour has passed.
    assert_eq!(stake.rewards_pending, 0);
    let event = claim(&mut project, &mut stake, &claim_at(4_600)).unwrap();
    assert_eq!(event.amount, 144_000);
}

#[test]
fn claim_with_nothing_to_pay_is_rejected() {
    let mut project = paying_pool();
    let mut stake = member(400_000);
    let (project_before, stake_before) = (project, stake);
    assert_eq!(claim(&mut project, &mut stake, &claim_at(1_000)), Err(ErrorCode::NoRewards));
    assert_eq!(project, project_before);
    assert_eq!(stake, stake_before);
}

#[test]
fn claim_never_pays_in_part() {
    let mut project = paying_pool();
    let mut stake = member(400_000);
    let (project_before, stake_before) = (project, stake);
    let mut args = claim_at(4_600);
    args.vault_balance = 143_999;
    assert_eq!(
        claim(&mut project, &mut stake, &args),
        Err(ErrorCode::InsufficientRewardVault)
    );
    assert_eq!(project, project_before);
    assert_eq!(stake, stake_before);
    args.vault_balance = 144_000;
    assert_eq!(claim(&mut project, &mut stake, &args).unwrap().amount, 144_000);
}

#[test]
fn claim_checks_owner_pool_and_stake() {
    let mut stake = member(400_000);
    stake.rewards_pending = 10;

    let mut project = paying_pool();
    let mut args = claim_at(4_600);
    args.user = n(21);
    assert_eq!(claim(&mut project, &mut stake, &args), Err(ErrorCode::Unauthorized));
    let mut args = claim_at(4_600);
    args.project_key = n(99);
    assert_eq!(claim(&mut project, &mut stake, &args), Err(ErrorCode::InvalidProject));

    project.is_initialized = false;
    assert_eq!(claim(&mut project, &mut stake, &claim_at(4_600)), Err(ErrorCode::NotInitialized));

    let mut project = paying_pool();
    project.is_paused = true;
    assert_eq!(claim(&mut project, &mut stake, &claim_at(4_600)), Err(ErrorCode::ProjectPaused));

    let mut project = paying_pool();
    project.claim_paused = true;
    assert_eq!(claim(&mut project, &mut stake, &claim_at(4_600)), Err(ErrorCode::ClaimsPaused));

}

#[test]
fn an_emptied_stake_is_still_paid_what_it_earned() {
    let mut project = paying_pool();
    let mut empty = member(0);
    empty.rewards_pending = 10;
    empty.reward_per_token_paid = 5;
    let event = claim(&mut project, &mut empty, &claim_at(4_600)).unwrap();
    // It earns nothing new, and is paid what was pending.
    assert_eq!(event.amount, 10);
    assert_eq!(empty.rewards_pending, 0);
    assert_eq!(empty.total_rewards_claimed, 10);
    assert_eq!(empty.reward_per_token_paid, 360_000_000);

    let mut project = reflecting(paying_pool(), n(30));
    let mut empty = member(0);
    empty.reflections_pending = 500;
    let event = claim_reflections(&mut project, &mut empty, &reflections_at(1_000, 4_600)).unwrap();
    assert_eq!(event.amount, 500);
    assert_eq!(empty.reflections_pending, 0);
}

#[test]
fn claim_rejects_counters_that_do_not_fit() {
    let mut project = paying_pool();
    let mut stake = member(400_000);
    stake.total_rewards_claimed = u64::MAX;
    let (project_before, stake_before) = (project, stake);
    assert_eq!(claim(&mut project, &mut stake, &claim_at(4_600)), Err(ErrorCode::MathOverflow));
    assert_eq!(project, project_before);
    assert_eq!(stake, stake_before);

    stake.total_rewards_claimed = 0;
    project.total_rewards_claimed = u64::MAX - 143_999;
    let project_before = project;
    assert_eq!(claim(&mut project, &mut stake, &claim_at(4_600)), Err(ErrorCode::MathOverflow));
    assert_eq!(project, project_before);
}

#[test]
fn claim_settles_reflections_too() {
    let mut project = reflecting(paying_pool(), n(30));
    project.last_reflection_balance = 1_000;
    let mut stake = member(400_000);
    let mut args = claim_at(4_600);
    args.reflection_balance = Some(2_000);
    claim(&mut project, &mut stake, &args).unwrap();
    assert_eq!(project.reflection_per_token_stored, 1_000_000);
    assert_eq!(stake.reflections_pending, 400);
}

#[test]
fn claim_needs_no_reflection_vault() {
    let mut project = reflecting(paying_pool(), n(30));
    project.last_reflection_balance = 1_000;
    project.reflection_per_token_stored = 70;
    let mut stake = member(400_000);
    stake.reflections_pending = 9;
    let event = claim(&mut project, &mut stake, &claim_at(4_600)).unwrap();
    assert_eq!(event, RewardsClaimed { user: n(20), project: n(10), amount: 144_000 });
    assert_eq!(stake.rewards_pending, 0);
    assert_eq!(stake.total_rewards_claimed, 144_000);
    assert_eq!(project.total_rewards_claimed, 144_000);
    assert_eq!(project.last_update_time, 4_600);
    // The reflection engine was not run.
    assert_eq!(project.last_reflection_balance, 1_000);
    assert_eq!(project.reflection_per_token_stored, 70);
    assert_eq!(project.last_reflection_update_time, 0);
    assert_eq!(stake.reflections_pending, 9);
    assert_eq!(stake.reflection_per_token_paid, 0);
}

#[test]
fn claim_without_a_vault_and_nothing_pending_has_no_rewards() {
    let mut project = reflecting(paying_pool(), n(30));
    let mut stake = member(400_000);
    let (project_before, stake_before) = (project, stake);
    assert_eq!(claim(&mut project, &mut stake, &claim_at(1_000)), Err(ErrorCode::NoRewards));
    assert_eq!(project, project_before);
    assert_eq!(stake, stake_before);
}

#[test]
fn claim_without_a_vault_reports_rewards_that_do_not_fit() {
    let mut project = reflecting(paying_pool(), n(30));
    project.reward_per_token_stored = u64::MAX;
    let mut stake = member(400_000);
    let (project_before, stake_before) = (project, stake);
    assert_eq!(claim(&mut project, &mut stake, &claim_at(4_600)), Err(ErrorCode::MathOverflow));
    assert_eq!(project, project_before);
    assert_eq!(stake, stake_before);
}

fn reflections_at(balance: u64, now: i64) -> ClaimReflectionsArgs {
    ClaimReflectionsArgs {
        user: n(20),
        project_key: n(10),
        vault: n(31),
        vault_balance: balance,
        now,
    }
}

#[test]
fn claim_reflections_pays_all_pending_reflections() {
    let mut project = reflecting(paying_pool(), n(30));
    project.last_reflection_balance = 1_000;
    let mut stake = member(400_000);
    stake.reflections_pending = 50;
    stake.total_reflections_claimed = 3;
    let event = claim_reflections(&mut project, &mut stake, &reflections_at(2_000, 4_600)).unwrap();
    assert_eq!(event, ReflectionsClaimed { user: n(20), project: n(10), amount: 450 });
    assert_eq!(stake.reflections_pending, 0);
    assert_eq!(stake.total_reflections_claimed, 453);
    assert_eq!(stake.reflection_per_token_paid, 1_000_000);
    // The baseline is what the vault holds once the payout has left.
    assert_eq!(project.last_reflection_balance, 1_550);
    // Rewards were settled as well, and stay pending.
    assert_eq!(stake.rewards_pending, 144_000);
}

#[test]
fn after_a_claim_the_next_observation_is_no_drop() {
    let mut project = reflecting(paying_pool(), n(30));
    project.last_reflection_balance = 1_000;
    let mut stake = member(400_000);
    claim_reflections(&mut project, &mut stake, &reflections_at(2_000, 4_600)).unwrap();
    assert_eq!(project.last_reflection_balance, 1_600);
    // 100 more arrive: they are distributed, not mistaken for a drop.
    settle(&mut project, &mut stake, Some(1_700), 4_600).unwrap();
    assert_eq!(project.reflection_per_token_stored, 1_000_000 + 100_000);
    assert_eq!(stake.reflections_pending, 40);
}

#[test]
fn a_native_vault_pays_like_any_other() {
    let mut project = reflecting(paying_pool(), Address { bytes: NATIVE_MINT });
    project.last_reflection_balance = 0;
    let mut stake = member(400_000);
    stake.reflections_pending = 600;
    let event =
        claim_reflections(&mut project, &mut stake, &reflections_at(1_000_000, 4_600)).unwrap();
    // 400000 of a million units earn 400000 of the million; 600 were pending.
    assert_eq!(event.amount, 400_600);
    assert_eq!(stake.reflections_pending, 0);
    assert_eq!(stake.total_reflections_claimed, 400_600);
    assert_eq!(project.last_reflection_balance, 1_000_000 - 400_600);
}

#[test]
fn the_largest_pending_balance_can_be_paid() {
    let mut project = reflecting(paying_pool(), n(30));
    project.last_reflection_balance = u64::MAX;
    let mut stake = member(400_000);
    stake.reflections_pending = u64::MAX;
    let event =
        claim_reflections(&mut project, &mut stake, &reflections_at(u64::MAX, 4_600)).unwrap();
    assert_eq!(event.amount, u64::MAX);
    assert_eq!(project.last_reflection_balance, 0);
    assert_eq!(stake.total_reflections_claimed, u64::MAX);
}

#[test]
fn claim_reflections_with_nothing_to_pay_is_rejected() {
    let mut project = reflecting(paying_pool(), n(30));
    project.last_reflection_balance = 1_000;
    let mut stake = member(400_000);
    let (project_before, stake_before) = (project, stake);
    assert_eq!(
        claim_reflections(&mut project, &mut stake, &reflections_at(1_000, 4_600)),
        Err(ErrorCode::NoReflections)
    );
    assert_eq!(project, project_before);
    assert_eq!(stake, stake_before);
}

#[test]
fn claim_reflections_never_pays_in_part() {
    // Less is in the vault than is pending: somebody took it out.
    let mut project = reflecting(paying_pool(), n(30));
    project.last_reflection_balance = 1_000;
    let mut stake = member(400_000);
    stake.reflections_pending = 500;
    let (project_before, stake_before) = (project, stake);
    assert_eq!(
        claim_reflections(&mut project, &mut stake, &reflections_at(499, 4_600)),
        Err(ErrorCode::InsufficientReflectionVault)
    );
    assert_eq!(project, project_before);
    assert_eq!(stake, stake_before);
    let event = claim_reflections(&mut project, &mut stake, &reflections_at(500, 4_600)).unwrap();
    assert_eq!(event.amount, 500);
    assert_eq!(project.last_reflection_balance, 0);
}

#[test]
fn claim_reflections_checks_pool_vault_and_stake() {
    let mut stake = member(400_000);
    stake.reflections_pending = 500;

    let mut project = reflecting(paying_pool(), n(30));
    let mut args = reflections_at(1_000, 4_600);
    args.user = n(21);
    assert_eq!(claim_reflections(&mut project, &mut stake, &args), Err(ErrorCode::Unauthorized));
    let mut args = reflections_at(1_000, 4_600);
    args.project_key = n(99);
    assert_eq!(claim_reflections(&mut project, &mut stake, &args), Err(ErrorCode::InvalidProject));
    let mut args = reflections_at(1_000, 4_600);
    args.vault = n(32);
    assert_eq!(
        claim_reflections(&mut project, &mut stake, &args),
        Err(ErrorCode::InvalidReflectionVault)
    );

    let args = reflections_at(1_000, 4_600);
    project.is_initialized = false;
    assert_eq!(claim_reflections(&mut project, &mut stake, &args), Err(ErrorCode::NotInitialized));

    let mut project = reflecting(paying_pool(), n(30));
    project.is_paused = true;
    assert_eq!(claim_reflections(&mut project, &mut stake, &args), Err(ErrorCode::ProjectPaused));

    let mut project = paying_pool();
    assert_eq!(
        claim_reflections(&mut project, &mut stake, &args),
        Err(ErrorCode::ReflectionsNotEnabled)
    );

    let mut project = reflecting(paying_pool(), n(30));
    project.reflection_token = None;
    assert_eq!(
        claim_reflections(&mut project, &mut stake, &args),
        Err(ErrorCode::ReflectionTokenRequired)
    );

    let mut project = reflecting(paying_pool(), n(30));
    project.reflection_vault = None;
    assert_eq!(
        claim_reflections(&mut project, &mut stake, &args),
        Err(ErrorCode::InvalidReflectionVault)
    );

    // A paused claim of rewards does not stop reflections.
    let mut project = reflecting(paying_pool(), n(30));
    project.claim_paused = true;
    assert!(claim_reflections(&mut project, &mut stake, &args).is_ok());
}

#[test]
fn claim_reflections_rejects_a_counter_that_does_not_fit() {
    let mut project = reflecting(paying_pool(), n(30));
    let mut stake = member(400_000);
    stake.reflections_pending = 500;
    stake.total_reflections_claimed = u64::MAX - 499;
    let (project_before, stake_before) = (project, stake);
    assert_eq!(
        claim_reflections(&mut project, &mut stake, &reflections_at(1_000, 4_600)),
        Err(ErrorCode::MathOverflow)
    );
    assert_eq!(project, project_before);
    assert_eq!(stake, stake_before);
}

#[test]
fn refresh_settles_reflections_and_pays_nothing() {
    let mut project = reflecting(paying_pool(), n(30));
    project.last_reflection_balance = 1_000;
    let mut stake = member(400_000);
    refresh_reflections(&mut project, &mut stake, &n(20), &n(10), 2_000, 4_600).unwrap();
    assert_eq!(project.reflection_per_token_stored, 1_000_000);
    assert_eq!(project.last_reflection_balance, 2_000);
    assert_eq!(stake.reflections_pending, 400);
    assert_eq!(stake.reflection_per_token_paid, 1_000_000);
    assert_eq!(stake.total_reflections_claimed, 0);
    // Rewards are not touched by a refresh.
    assert_eq!(project.last_update_time, 1_000);
    assert_eq!(stake.rewards_pending, 0);

    // A claim right after pays exactly what the refresh showed.
    let event = claim_reflections(&mut project, &mut stake, &reflections_at(2_000, 4_600)).unwrap();
    assert_eq!(event.amount, 400);
}

#[test]
fn refresh_checks_stake_and_pool() {
    let mut project = reflecting(paying_pool(), n(30));
    let mut stake = member(400_000);
    assert_eq!(
        refresh_reflections(&mut project, &mut stake, &n(21), &n(10), 2_000, 4_600),
        Err(ErrorCode::Unauthorized)
    );
    assert_eq!(
        refresh_reflections(&mut project, &mut stake, &n(20), &n(99), 2_000, 4_600),
        Err(ErrorCode::InvalidProject)
    );
    let mut empty = member(0);
    assert_eq!(
        refresh_reflections(&mut project, &mut empty, &n(20), &n(10), 2_000, 4_600),
        Err(ErrorCode::NoStake)
    );
    project.is_initialized = false;
    assert_eq!(
        refresh_reflections(&mut project, &mut stake, &n(20), &n(10), 2_000, 4_600),
        Err(ErrorCode::NotInitialized)
    );
    let mut project = paying_pool();
    assert_eq!(
        refresh_reflections(&mut project, &mut stake, &n(20), &n(10), 2_000, 4_600),
        Err(ErrorCode::ReflectionsNotEnabled)
    );
    let mut project = reflecting(paying_pool(), n(30));
    project.reflection_token = None;
    let before = project;
    assert_eq!(
        refresh_reflections(&mut project, &mut stake, &n(20), &n(10), 2_000, 4_600),
        Err(ErrorCode::ReflectionTokenRequired)
    );
    assert_eq!(project, before);
    assert_eq!(stake, member(400_000));
}

#[test]
fn settle_settles_rewards_and_reflections() {
    let mut project = reflecting(paying_pool(), n(30));
    project.last_reflection_balance = 1_000;
    let mut stake = member(400_000);
    settle(&mut project, &mut stake, Some(2_000), 4_600).unwrap();
    assert_eq!(stake.rewards_pending, 144_000);
    assert_eq!(stake.reflections_pending, 400);
    let (project_once, stake_once) = (project, stake);
    assert_eq!(settle(&mut project, &mut stake, Some(2_000), 4_600), Ok(()));
    assert_eq!(project, project_once);
    assert_eq!(stake, stake_once);
}

#[test]
fn settle_that_fails_halfway_changes_nothing() {
    // Rewards settle, reflections fail.
    let mut project = reflecting(paying_pool(), n(30));
    let mut stake = member(400_000);
    let (project_before, stake_before) = (project, stake);
    assert_eq!(
        settle(&mut project, &mut stake, None, 4_600),
        Err(ErrorCode::ReflectionVaultRequired)
    );
    assert_eq!(project, project_before);
    assert_eq!(stake, stake_before);
}
