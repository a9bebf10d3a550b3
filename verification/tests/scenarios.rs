use staking::address::Address;
use staking::deposit::{deposit, DepositArgs};
use staking::pool::{create_project, initialize_pool, InitializePoolArgs, InitializePoolParams};
use staking::reflections::update_reflection;
use staking::settlement::settle;
use staking::state::{Platform, Project, RateMode, Stake};

fn addr(n: u8) -> Address {
    Address { bytes: [n; 32] }
}

fn free_platform() -> Platform {
    Platform {
        admin: addr(1),
        fee_collector: addr(2),
        platform_token_fee_bps: 0,
        platform_sol_fee: 0,
        is_initialized: true,
        bump: 255,
    }
}

fn fixed_pool(rate_bps: u64, duration: u64, now: i64) -> Project {
    let (mut project, _) = create_project(addr(10), addr(1), addr(11), 7, addr(12), addr(13), 254);
    let params = InitializePoolParams {
        rate_bps_per_year: rate_bps,
        rate_mode: RateMode::Fixed,
        lockup_seconds: 0,
        pool_duration_seconds: duration,
        referrer: None,
        referrer_split_bps: None,
        enable_reflections: false,
        reflection_token: None,
    };
    let args = InitializePoolArgs {
        admin: addr(1),
        project_key: addr(10),
        token_mint: addr(11),
        pool_id: 7,
        reflection_vault: None,
        now,
    };
    initialize_pool(&mut project, &params, &args).unwrap();
    project
}

#[test]
fn fixed_pool_pays_a_year_of_rewards() {
    let platform = free_platform();
    let mut project = fixed_pool(1000, 31_536_000, 0);
    assert_eq!(project.total_staked, 0);
    assert_eq!(project.reward_rate_per_second, 1000 * 1_000_000_000 / (10_000 * 31_536_000));
    assert_eq!(project.reward_rate_per_second, 3);
    assert_eq!(project.pool_end_time, 31_536_000);

    let args = DepositArgs {
        user: addr(20),
        project_key: addr(10),
        stake_bump: 253,
        amount: 1_000_000,
        received: 1_000_000,
        payer_balance: 1_000_000_000,
        referrer: None,
        reflection_balance: None,
        now: 0,
    };
    let (mut stake, receipt) = deposit(&platform, &mut project, None, &args).unwrap();
    assert_eq!(stake.amount, 1_000_000);
    assert_eq!(project.total_staked, 1_000_000);
    assert_eq!(receipt.event.amount, 1_000_000);
    assert_eq!(receipt.event.token_fee, 0);

    settle(&mut project, &mut stake, None, 31_536_000).unwrap();
    let rate: u128 = 3;
    let expected = rate * 31_536_000 * 1_000_000 / 1_000_000_000;
    assert_eq!(stake.rewards_pending as u128, expected);
    assert_eq!(stake.rewards_pending, 94_608);
    assert_eq!(project.reward_per_token_stored, 94_608_000);
    assert_eq!(project.last_update_time, 31_536_000);
}

#[test]
fn vault_growth_is_shared_by_stake() {
    let (mut project, _) = create_project(addr(10), addr(1), addr(11), 7, addr(12), addr(13), 254);
    project.is_initialized = true;
    project.enable_reflections = true;
    project.reflection_token = Some(addr(30));
    project.reflection_vault = Some(addr(31));
    project.total_staked = 10_000;
    project.last_reflection_balance = 1000;

    let mut stake = Stake {
        user: addr(20),
        project: addr(10),
        amount: 2000,
        last_stake_timestamp: 0,
        withdrawal_wallet: addr(20),
        reward_per_token_paid: 0,
        rewards_pending: 0,
        total_rewards_claimed: 0,
        reflection_per_token_paid: 0,
        reflections_pending: 0,
        total_reflections_claimed: 0,
        reflection_debt: 0,
        bump: 253,
    };
    update_reflection(&mut project, &mut stake, Some(1500), 50).unwrap();
    assert_eq!(project.reflection_per_token_stored, 50_000_000);
    assert_eq!(project.last_reflection_balance, 1500);
    assert_eq!(project.last_reflection_update_time, 50);
    assert_eq!(stake.reflections_pending, 100);
    assert_eq!(stake.reflection_per_token_paid, 50_000_000);
}
