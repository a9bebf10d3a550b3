//! Administration: the platform's fees, and what a pool's admin may change
//! about the pool and its stakes.
//!
//! Every change to a pool is the admin's alone: anybody else is answered
//! with `Unauthorized`, and nothing changes.

use crate::address::Address;
use crate::errors::ErrorCode;
use crate::math::BPS_DENOMINATOR;
use crate::state::{Platform, Project, Stake};
use vstd::prelude::*;

verus! {

/// Sets up the platform, once per deployment.
pub fn initialize(
    admin: Address,
    fee_collector: Address,
    platform_token_fee_bps: u64,
    platform_sol_fee: u64,
    bump: u8,
) -> (platform: Platform)
    ensures
        platform == (Platform {
            admin,
            fee_collector,
            platform_token_fee_bps,
            platform_sol_fee,
            is_initialized: true,
            bump,
        }),
{
    Platform {
        admin,
        fee_collector,
        platform_token_fee_bps,
        platform_sol_fee,
        is_initialized: true,
        bump,
    }
}

/// Changes the platform's fees.
pub fn set_fees(
    platform: &mut Platform,
    admin: &Address,
    platform_token_fee_bps: u64,
    platform_sol_fee: u64,
) -> (r: Result<(), ErrorCode>)
    ensures
        old(platform).admin != *admin ==> {
            &&& r matches Err(ErrorCode::Unauthorized)
            &&& *final(platform) == *old(platform)
        },
        old(platform).admin == *admin ==> {
            &&& r is Ok
            &&& *final(platform) == (Platform {
                platform_token_fee_bps,
                platform_sol_fee,
                ..*old(platform)
            })
        },
{
    if platform.admin != *admin {
        return Err(ErrorCode::Unauthorized);
    }
    platform.platform_token_fee_bps = platform_token_fee_bps;
    platform.platform_sol_fee = platform_sol_fee;
    Ok(())
}

/// Changes who collects the platform's fees, and gives the former collector.
pub fn update_fee_collector(platform: &mut Platform, admin: &Address, new_fee_collector: Address)
    -> (r: Result<Address, ErrorCode>)
    ensures
        old(platform).admin != *admin ==> {
            &&& r matches Err(ErrorCode::Unauthorized)
            &&& *final(platform) == *old(platform)
        },
        old(platform).admin == *admin ==> {
            &&& r is Ok && r->Ok_0 == old(platform).fee_collector
            &&& *final(platform) == (Platform {
                fee_collector: new_fee_collector,
                ..*old(platform)
            })
        },
{
    if platform.admin != *admin {
        return Err(ErrorCode::Unauthorized);
    }
    let former = platform.fee_collector;
    platform.fee_collector = new_fee_collector;
    Ok(former)
}

/// Hands a pool over to a new admin, and gives the former one.
pub fn transfer_admin(project: &mut Project, admin: &Address, new_admin: Address) -> (r: Result<
    Address,
    ErrorCode,
>)
    ensures
        old(project).admin != *admin ==> {
            &&& r matches Err(ErrorCode::Unauthorized)
            &&& *final(project) == *old(project)
        },
        old(project).admin == *admin ==> {
            &&& r is Ok && r->Ok_0 == old(project).admin
            &&& *final(project) == (Project { admin: new_admin, ..*old(project) })
        },
        old(project).well_formed() ==> final(project).well_formed(),
{
    if project.admin != *admin {
        return Err(ErrorCode::Unauthorized);
    }
    let former = project.admin;
    project.admin = new_admin;
    Ok(former)
}

/// Changes a pool's annual rate and its lockup. The per-second rate that
/// rewards accrue at is not touched.
pub fn set_project_params(
    project: &mut Project,
    admin: &Address,
    rate_bps_per_year: u64,
    lockup_seconds: u64,
) -> (r: Result<(), ErrorCode>)
    ensures
        old(project).admin != *admin ==> {
            &&& r matches Err(ErrorCode::Unauthorized)
            &&& *final(project) == *old(project)
        },
        old(project).admin == *admin ==> {
            &&& r is Ok
            &&& *final(project) == (Project { rate_bps_per_year, lockup_seconds, ..*old(project) })
        },
        old(project).well_formed() ==> final(project).well_formed(),
{
    if project.admin != *admin {
        return Err(ErrorCode::Unauthorized);
    }
    project.rate_bps_per_year = rate_bps_per_year;
    project.lockup_seconds = lockup_seconds;
    Ok(())
}

/// Why a change of a pool's referrer is rejected, if it is: a referrer
/// cannot have more than the whole fee.
pub open spec fn referrer_rejection(p: Project, admin: Address, split_bps: u64) -> Option<
    ErrorCode,
> {
    if p.admin != admin {
        Some(ErrorCode::Unauthorized)
    } else if split_bps > BPS_DENOMINATOR {
        Some(ErrorCode::InvalidSplitPercentage)
    } else {
        None
    }
}

/// Sets or removes a pool's referrer and the referrer's share of the fees.
pub fn set_project_referrer(
    project: &mut Project,
    admin: &Address,
    referrer: Option<Address>,
    split_bps: u64,
) -> (r: Result<(), ErrorCode>)
    ensures
        match referrer_rejection(*old(project), *admin, split_bps) {
            Some(e) => {
                &&& r is Err && r->Err_0 == e
                &&& *final(project) == *old(project)
            },
            None => {
                &&& r is Ok
                &&& *final(project) == (Project {
                    referrer,
                    referrer_split_bps: split_bps,
                    ..*old(project)
                })
            },
        },
        old(project).well_formed() ==> final(project).well_formed(),
{
    if project.admin != *admin {
        return Err(ErrorCode::Unauthorized);
    }
    if split_bps > BPS_DENOMINATOR {
        return Err(ErrorCode::InvalidSplitPercentage);
    }
    project.referrer = referrer;
    project.referrer_split_bps = split_bps;
    Ok(())
}

/// Sets or removes a pool's referrer: [`set_project_referrer`] under its
/// other name.
pub fn update_referrer(
    project: &mut Project,
    admin: &Address,
    referrer: Option<Address>,
    split_bps: u64,
) -> (r: Result<(), ErrorCode>)
    ensures
        match referrer_rejection(*old(project), *admin, split_bps) {
            Some(e) => {
                &&& r is Err && r->Err_0 == e
                &&& *final(project) == *old(project)
            },
            None => {
                &&& r is Ok
                &&& *final(project) == (Project {
                    referrer,
                    referrer_split_bps: split_bps,
                    ..*old(project)
                })
            },
        },
        old(project).well_formed() ==> final(project).well_formed(),
{
    set_project_referrer(project, admin, referrer, split_bps)
}

/// Why switching a pool's reflections is rejected, if it is: to switch them
/// on takes both a vault and a token.
pub open spec fn set_reflections_rejection(
    p: Project,
    admin: Address,
    enabled: bool,
    reflection_token: Option<Address>,
    reflection_vault: Option<Address>,
) -> Option<ErrorCode> {
    if p.admin != admin {
        Some(ErrorCode::Unauthorized)
    } else if enabled && reflection_vault is None {
        Some(ErrorCode::ReflectionVaultRequired)
    } else if enabled && reflection_token is None {
        Some(ErrorCode::ReflectionTokenRequired)
    } else {
        None
    }
}

/// The pool after its reflections have been switched: on with the given
/// token and vault, or off with neither.
pub open spec fn with_reflections(
    p: Project,
    enabled: bool,
    reflection_token: Option<Address>,
    reflection_vault: Option<Address>,
) -> Project {
    if enabled {
        Project { enable_reflections: true, reflection_token, reflection_vault, ..p }
    } else {
        Project { enable_reflections: false, reflection_token: None, reflection_vault: None, ..p }
    }
}

/// Switches a pool's reflections on or off.
pub fn set_reflections(
    project: &mut Project,
    admin: &Address,
    enabled: bool,
    reflection_token: Option<Address>,
    reflection_vault: Option<Address>,
) -> (r: Result<(), ErrorCode>)
    ensures
        match set_reflections_rejection(
            *old(project),
            *admin,
            enabled,
            reflection_token,
            reflection_vault,
        ) {
            Some(e) => {
                &&& r is Err && r->Err_0 == e
                &&& *final(project) == *old(project)
            },
            None => {
                &&& r is Ok
                &&& *final(project) == with_reflections(
                    *old(project),
                    enabled,
                    reflection_token,
                    reflection_vault,
                )
            },
        },
        old(project).well_formed() ==> final(project).well_formed(),
{
    if project.admin != *admin {
        return Err(ErrorCode::Unauthorized);
    }
    if enabled {
        if reflection_vault.is_none() {
            return Err(ErrorCode::ReflectionVaultRequired);
        }
        if reflection_token.is_none() {
            return Err(ErrorCode::ReflectionTokenRequired);
        }
        project.enable_reflections = true;
        project.reflection_token = reflection_token;
        project.reflection_vault = reflection_vault;
    } else {
        project.enable_reflections = false;
        project.reflection_token = None;
        project.reflection_vault = None;
    }
    Ok(())
}

/// Stops deposits into a pool.
pub fn pause_deposits(project: &mut Project, admin: &Address) -> (r: Result<(), ErrorCode>)
    ensures
        old(project).admin != *admin ==> {
            &&& r matches Err(ErrorCode::Unauthorized)
            &&& *final(project) == *old(project)
        },
        old(project).admin == *admin ==> {
            &&& r is Ok
            &&& *final(project) == (Project { deposit_paused: true, ..*old(project) })
        },
        old(project).well_formed() ==> final(project).well_formed(),
{
    if project.admin != *admin {
        return Err(ErrorCode::Unauthorized);
    }
    project.deposit_paused = true;
    Ok(())
}

/// Allows deposits into a pool again.
pub fn unpause_deposits(project: &mut Project, admin: &Address) -> (r: Result<(), ErrorCode>)
    ensures
        old(project).admin != *admin ==> {
            &&& r matches Err(ErrorCode::Unauthorized)
            &&& *final(project) == *old(project)
        },
        old(project).admin == *admin ==> {
            &&& r is Ok
            &&& *final(project) == (Project { deposit_paused: false, ..*old(project) })
        },
        old(project).well_formed() ==> final(project).well_formed(),
{
    if project.admin != *admin {
        return Err(ErrorCode::Unauthorized);
    }
    project.deposit_paused = false;
    Ok(())
}

/// Stops withdrawals from a pool.
pub fn pause_withdrawals(project: &mut Project, admin: &Address) -> (r: Result<(), ErrorCode>)
    ensures
        old(project).admin != *admin ==> {
            &&& r matches Err(ErrorCode::Unauthorized)
            &&& *final(project) == *old(project)
        },
        old(project).admin == *admin ==> {
            &&& r is Ok
            &&& *final(project) == (Project { withdraw_paused: true, ..*old(project) })
        },
        old(project).well_formed() ==> final(project).well_formed(),
{
    if project.admin != *admin {
        return Err(ErrorCode::Unauthorized);
    }
    project.withdraw_paused = true;
    Ok(())
}

/// Allows withdrawals from a pool again.
pub fn unpause_withdrawals(project: &mut Project, admin: &Address) -> (r: Result<(), ErrorCode>)
    ensures
        old(project).admin != *admin ==> {
            &&& r matches Err(ErrorCode::Unauthorized)
            &&& *final(project) == *old(project)
        },
        old(project).admin == *admin ==> {
            &&& r is Ok
            &&& *final(project) == (Project { withdraw_paused: false, ..*old(project) })
        },
        old(project).well_formed() ==> final(project).well_formed(),
{
    if project.admin != *admin {
        return Err(ErrorCode::Unauthorized);
    }
    project.withdraw_paused = false;
    Ok(())
}

/// Stops claims of rewards from a pool.
pub fn pause_claims(project: &mut Project, admin: &Address) -> (r: Result<(), ErrorCode>)
    ensures
        old(project).admin != *admin ==> {
            &&& r matches Err(ErrorCode::Unauthorized)
            &&& *final(project) == *old(project)
        },
        old(project).admin == *admin ==> {
            &&& r is Ok
            &&& *final(project) == (Project { claim_paused: true, ..*old(project) })
        },
        old(project).well_formed() ==> final(project).well_formed(),
{
    if project.admin != *admin {
        return Err(ErrorCode::Unauthorized);
    }
    project.claim_paused = true;
    Ok(())
}

/// Allows claims of rewards from a pool again.
pub fn unpause_claims(project: &mut Project, admin: &Address) -> (r: Result<(), ErrorCode>)
    ensures
        old(project).admin != *admin ==> {
            &&& r matches Err(ErrorCode::Unauthorized)
            &&& *final(project) == *old(project)
        },
        old(project).admin == *admin ==> {
            &&& r is Ok
            &&& *final(project) == (Project { claim_paused: false, ..*old(project) })
        },
        old(project).well_formed() ==> final(project).well_formed(),
{
    if project.admin != *admin {
        return Err(ErrorCode::Unauthorized);
    }
    project.claim_paused = false;
    Ok(())
}

/// Stops everything in a pool.
pub fn pause_project(project: &mut Project, admin: &Address) -> (r: Result<(), ErrorCode>)
    ensures
        old(project).admin != *admin ==> {
            &&& r matches Err(ErrorCode::Unauthorized)
            &&& *final(project) == *old(project)
        },
        old(project).admin == *admin ==> {
            &&& r is Ok
            &&& *final(project) == (Project { is_paused: true, ..*old(project) })
        },
        old(project).well_formed() ==> final(project).well_formed(),
{
    if project.admin != *admin {
        return Err(ErrorCode::Unauthorized);
    }
    project.is_paused = true;
    Ok(())
}

/// Lets a pool run again.
pub fn unpause_project(project: &mut Project, admin: &Address) -> (r: Result<(), ErrorCode>)
    ensures
        old(project).admin != *admin ==> {
            &&& r matches Err(ErrorCode::Unauthorized)
            &&& *final(project) == *old(project)
        },
        old(project).admin == *admin ==> {
            &&& r is Ok
            &&& *final(project) == (Project { is_paused: false, ..*old(project) })
        },
        old(project).well_formed() ==> final(project).well_formed(),
{
    if project.admin != *admin {
        return Err(ErrorCode::Unauthorized);
    }
    project.is_paused = false;
    Ok(())
}

/// Ends a pool's lockup: every stake can be withdrawn from now on.
pub fn emergency_unlock(project: &mut Project, admin: &Address) -> (r: Result<(), ErrorCode>)
    ensures
        old(project).admin != *admin ==> {
            &&& r matches Err(ErrorCode::Unauthorized)
            &&& *final(project) == *old(project)
        },
        old(project).admin == *admin ==> {
            &&& r is Ok
            &&& *final(project) == (Project { lockup_seconds: 0, ..*old(project) })
        },
        old(project).well_formed() ==> final(project).well_formed(),
{
    if project.admin != *admin {
        return Err(ErrorCode::Unauthorized);
    }
    project.lockup_seconds = 0;
    Ok(())
}

/// Changes where a stake's principal is sent on withdrawal.
pub fn change_withdrawal_wallet(
    project: &Project,
    stake: &mut Stake,
    admin: &Address,
    new_wallet: Address,
) -> (r: Result<(), ErrorCode>)
    ensures
        project.admin != *admin ==> {
            &&& r matches Err(ErrorCode::Unauthorized)
            &&& *final(stake) == *old(stake)
        },
        project.admin == *admin ==> {
            &&& r is Ok
            &&& *final(stake) == (Stake { withdrawal_wallet: new_wallet, ..*old(stake) })
        },
{
    if project.admin != *admin {
        return Err(ErrorCode::Unauthorized);
    }
    stake.withdrawal_wallet = new_wallet;
    Ok(())
}

/// Why the admin may not take `amount` out of a vault, if so. A vault whose
/// balance could not be read is not held against the amount.
pub open spec fn sweep_rejection(
    p: Project,
    admin: Address,
    vault_balance: Option<u64>,
    amount: u64,
) -> Option<ErrorCode> {
    if p.admin != admin {
        Some(ErrorCode::Unauthorized)
    } else if vault_balance is Some && vault_balance->Some_0 < amount {
        Some(ErrorCode::InsufficientVaultBalance)
    } else {
        None
    }
}

/// Lets the admin take `amount` out of one of the pool's vaults. On success
/// the caller moves the amount to the admin.
pub fn claim_unclaimed_tokens(
    project: &Project,
    admin: &Address,
    vault_balance: Option<u64>,
    amount: u64,
) -> (r: Result<u64, ErrorCode>)
    ensures
        match sweep_rejection(*project, *admin, vault_balance, amount) {
            Some(e) => r is Err && r->Err_0 == e,
            None => r is Ok && r->Ok_0 == amount,
        },
{
    if project.admin != *admin {
        return Err(ErrorCode::Unauthorized);
    }
    match vault_balance {
        Some(balance) => {
            if balance < amount {
                return Err(ErrorCode::InsufficientVaultBalance);
            }
        },
        None => {},
    }
    Ok(amount)
}

} // verus!
