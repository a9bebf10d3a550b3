use staking::address::Address;
use staking::errors::ErrorCode;
use staking::events::{EmergencyStakeReturned, TokensWithdrawn};
use staking::pool::create_project;
use staking::state::{Project, RateMode, Stake};
use staking::withdraw::{emergency_return_stake, withdraw, EmergencyReturnArgs, WithdrawArgs};

fn k(n: u8) -> Address {
    Address { bytes: [n; 32] }
}

fn running_pool(staked: u64, lockup: u64) -> Project {
    let (mut project, _) = create_project(k(10), k(1), k(11), 7, k(12), k(13), 254);
    project.is_initialized = true;
    project.rate_mode = RateMode::Variable;
    project.reward_rate_per_second = 100;
    project.pool_start_time = 0;
    project.pool_end_time = 100_000;
    project.last_update_time = 1_000;
    project.lockup_seconds = lockup;
    project.total_staked = staked;
    project
}

fn staked(amount: u64, since: i64) -> Stake {
    Stake {
        user: k(20),
        project: k(10),
        amount,
        last_stake_timestamp: since,
        withdrawal_wallet: k(25),
        reward_per_token_paid: 0,
        rewards_pending: 0,
        total_rewards_claimed: 0,
        reflection_per_token_paid: 0,
        reflections_pending: 0,
        total_reflections_claimed: 0,
        reflection_debt: 0,
        bump: 253,
    }
}

fn ask(amount: u64, now: i64) -> WithdrawArgs {
    WithdrawArgs {
        user: k(20),
        project_key: k(10),
        destination: k(25),
        amount,
        vault_balance: 1_000_000,
        reflection_balance: None,
        now,
    }
}

#[test]
fn withdrawal_returns_principal() {
    let mut project = running_pool(1_000_000, 0);
    let mut stake = staked(400_000, 1_000);
    let event = withdraw(&mut project, &mut stake, &ask(150_000, 4_600)).unwrap();
    assert_eq!(event, TokensWithdrawn {
        user: k(20),
        project: k(10),
        amount: 150_000,
        remaining: 250_000,
    });
    assert_eq!(stake.amount, 250_000);
    assert_eq!(project.total_staked, 850_000);
    // Settled before the principal changed: an hour at 0.36 a unit on 400000.
    assert_eq!(project.reward_per_token_stored, 360_000_000);
    assert_eq!(stake.rewards_pending, 144_000);
    assert_eq!(stake.last_stake_timestamp, 1_000);
}

#[test]
fn a_stake_can_be_emptied_and_persists() {
    let mut project = running_pool(400_000, 0);
    let mut stake = staked(400_000, 1_000);
    let event = withdraw(&mut project, &mut stake, &ask(400_000, 1_000)).unwrap();
    assert_eq!(event.remaining, 0);
    assert_eq!(stake.amount, 0);
    assert_eq!(project.total_staked, 0);
    assert_eq!(stake.user, k(20));
}

#[test]
fn the_lockup_gate_opens_at_the_second_it_runs_out() {
    let mut project = running_pool(1_000_000, 86_400);
    let mut stake = staked(400_000, 5_000);
    let (project_before, stake_before) = (project, stake);

    assert_eq!(
        withdraw(&mut project, &mut stake, &ask(1, 5_000 + 86_400 - 1)),
        Err(ErrorCode::LockupNotExpired)
    );
    // A rejected withdrawal leaves no trace: not even the settlement stays.
    assert_eq!(project, project_before);
    assert_eq!(stake, stake_before);

    assert!(withdraw(&mut project, &mut stake, &ask(1, 5_000 + 86_400)).is_ok());
    assert_eq!(stake.amount, 399_999);
}

#[test]
fn the_lockup_counts_from_the_last_deposit() {
    let mut project = running_pool(1_000_000, 100);
    let mut stake = staked(400_000, 5_000);
    for now in [i64::MIN, 0, 4_999, 5_000, 5_099] {
        assert_eq!(
            withdraw(&mut project, &mut stake, &ask(1, now)),
            Err(ErrorCode::LockupNotExpired)
        );
    }
    assert!(withdraw(&mut project, &mut stake, &ask(1, 5_100)).is_ok());
    assert!(withdraw(&mut project, &mut stake, &ask(1, i64::MAX)).is_ok());
}

#[test]
fn without_a_lockup_a_clock_behind_the_deposit_is_still_locked() {
    let mut project = running_pool(1_000_000, 0);
    let mut stake = staked(400_000, 5_000);
    assert_eq!(
        withdraw(&mut project, &mut stake, &ask(1, 4_999)),
        Err(ErrorCode::LockupNotExpired)
    );
    assert!(withdraw(&mut project, &mut stake, &ask(1, 5_000)).is_ok());
}

#[test]
fn a_lockup_beyond_the_clock_never_runs_out() {
    let mut project = running_pool(1_000_000, u64::MAX);
    let mut stake = staked(400_000, i64::MIN);
    assert!(withdraw(&mut project, &mut stake, &ask(1, i64::MAX)).is_ok());
    let mut stake = staked(400_000, i64::MIN + 1);
    assert_eq!(
        withdraw(&mut project, &mut stake, &ask(1, i64::MAX)),
        Err(ErrorCode::LockupNotExpired)
    );
}

#[test]
fn withdrawal_is_for_the_owner_of_the_stake() {
    let mut project = running_pool(1_000_000, 0);
    let mut stake = staked(400_000, 1_000);
    let mut args = ask(1, 2_000);
    args.user = k(21);
    assert_eq!(withdraw(&mut project, &mut stake, &args), Err(ErrorCode::Unauthorized));
    let mut args = ask(1, 2_000);
    args.project_key = k(99);
    assert_eq!(withdraw(&mut project, &mut stake, &args), Err(ErrorCode::InvalidProject));
}

#[test]
fn withdrawal_goes_to_the_withdrawal_wallet_only() {
    let mut project = running_pool(1_000_000, 0);
    let mut stake = staked(400_000, 1_000);
    let mut args = ask(1, 2_000);
    // Not even to the user, if the wallet is another.
    args.destination = k(20);
    assert_eq!(
        withdraw(&mut project, &mut stake, &args),
        Err(ErrorCode::InvalidWithdrawalWallet)
    );
    args.destination = k(25);
    assert!(withdraw(&mut project, &mut stake, &args).is_ok());
}

#[test]
fn withdrawal_checks_pool_and_amounts() {
    let mut stake = staked(400_000, 1_000);

    let mut project = running_pool(1_000_000, 0);
    project.is_initialized = false;
    assert_eq!(
        withdraw(&mut project, &mut stake, &ask(1, 2_000)),
        Err(ErrorCode::NotInitialized)
    );

    let mut project = running_pool(1_000_000, 0);
    project.is_paused = true;
    assert_eq!(withdraw(&mut project, &mut stake, &ask(1, 2_000)), Err(ErrorCode::ProjectPaused));

    let mut project = running_pool(1_000_000, 0);
    project.withdraw_paused = true;
    assert_eq!(
        withdraw(&mut project, &mut stake, &ask(1, 2_000)),
        Err(ErrorCode::WithdrawalsPaused)
    );

    let mut project = running_pool(1_000_000, 0);
    project.deposit_paused = true;
    project.claim_paused = true;
    let before = project;
    assert_eq!(withdraw(&mut project, &mut stake, &ask(0, 2_000)), Err(ErrorCode::InvalidAmount));
    assert_eq!(
        withdraw(&mut project, &mut stake, &ask(400_001, 2_000)),
        Err(ErrorCode::InsufficientBalance)
    );
    let mut args = ask(400_000, 2_000);
    args.vault_balance = 399_999;
    assert_eq!(
        withdraw(&mut project, &mut stake, &args),
        Err(ErrorCode::InsufficientVaultBalance)
    );
    assert_eq!(project, before);
    assert_eq!(stake, staked(400_000, 1_000));
    args.vault_balance = 400_000;
    assert!(withdraw(&mut project, &mut stake, &args).is_ok());
}

#[test]
fn withdrawal_detects_a_total_below_the_stake() {
    let mut project = running_pool(100, 0);
    let mut stake = staked(400_000, 1_000);
    let before = project;
    assert_eq!(
        withdraw(&mut project, &mut stake, &ask(101, 2_000)),
        Err(ErrorCode::InconsistentTotalStaked)
    );
    assert_eq!(project, before);
    assert_eq!(stake, staked(400_000, 1_000));
}

#[test]
fn withdrawal_fails_when_settlement_fails() {
    let mut project = running_pool(1_000_000, 0);
    let mut stake = staked(400_000, 1_000);
    stake.rewards_pending = u64::MAX;
    let (project_before, stake_before) = (project, stake);
    assert_eq!(
        withdraw(&mut project, &mut stake, &ask(1, 4_600)),
        Err(ErrorCode::MathOverflow)
    );
    assert_eq!(project, project_before);
    assert_eq!(stake, stake_before);

    project.enable_reflections = true;
    project.reflection_token = Some(k(30));
    stake.rewards_pending = 0;
    assert_eq!(
        withdraw(&mut project, &mut stake, &ask(1, 4_600)),
        Err(ErrorCode::ReflectionVaultRequired)
    );
}

fn force(now: i64) -> EmergencyReturnArgs {
    EmergencyReturnArgs {
        admin: k(1),
        user: k(20),
        project_key: k(10),
        destination: k(25),
        vault_balance: 1_000_000,
        now,
    }
}

#[test]
fn emergency_return_ignores_the_lockup() {
    let mut project = running_pool(1_000_000, 86_400);
    let mut stake = staked(400_000, 1_000);
    let event = emergency_return_stake(&mut project, &mut stake, &force(4_600)).unwrap();
    assert_eq!(event, EmergencyStakeReturned { project: k(10), user: k(20), amount: 400_000 });
    assert_eq!(stake.amount, 0);
    assert_eq!(project.total_staked, 600_000);
    // Rewards were settled first.
    assert_eq!(stake.rewards_pending, 144_000);
    assert_eq!(project.last_update_time, 4_600);
}

#[test]
fn emergency_return_works_in_a_paused_pool() {
    let mut project = running_pool(1_000_000, 86_400);
    project.is_paused = true;
    project.withdraw_paused = true;
    let mut stake = staked(400_000, 1_000);
    assert!(emergency_return_stake(&mut project, &mut stake, &force(4_600)).is_ok());
}

#[test]
fn emergency_return_is_the_admins_alone() {
    let mut project = running_pool(1_000_000, 0);
    let mut stake = staked(400_000, 1_000);
    let mut args = force(4_600);
    args.admin = k(20);
    assert_eq!(
        emergency_return_stake(&mut project, &mut stake, &args),
        Err(ErrorCode::Unauthorized)
    );
}

#[test]
fn emergency_return_checks_stake_and_vault() {
    let mut project = running_pool(1_000_000, 0);
    let before = project;
    let mut stake = staked(400_000, 1_000);

    let mut args = force(4_600);
    args.user = k(21);
    assert_eq!(
        emergency_return_stake(&mut project, &mut stake, &args),
        Err(ErrorCode::InvalidStakeAccount)
    );
    let mut args = force(4_600);
    args.destination = k(20);
    assert_eq!(
        emergency_return_stake(&mut project, &mut stake, &args),
        Err(ErrorCode::InvalidWithdrawalWallet)
    );
    let mut args = force(4_600);
    args.vault_balance = 399_999;
    assert_eq!(
        emergency_return_stake(&mut project, &mut stake, &args),
        Err(ErrorCode::InsufficientVaultBalance)
    );
    assert_eq!(project, before);
    assert_eq!(stake, staked(400_000, 1_000));

    let mut empty = staked(0, 1_000);
    assert_eq!(
        emergency_return_stake(&mut project, &mut empty, &force(4_600)),
        Err(ErrorCode::NoStake)
    );
}

#[test]
fn emergency_return_reports_a_total_below_the_stake_as_overflow() {
    let mut project = running_pool(399_999, 0);
    let before = project;
    let mut stake = staked(400_000, 1_000);
    assert_eq!(
        emergency_return_stake(&mut project, &mut stake, &force(4_600)),
        Err(ErrorCode::MathOverflow)
    );
    assert_eq!(project, before);
    assert_eq!(stake, staked(400_000, 1_000));
}
