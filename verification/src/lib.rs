//! Accounting engine of a multi-tenant staking ledger.
//!
//! A deployment hosts many independent pools ("projects"). Each pool pays two
//! yield streams on top of deposited principal: a time-based emission
//! ("reward") and a skim of externally observed vault growth ("reflection").
//! Every operation is a transition over plain records ([`state::Project`],
//! [`state::Stake`]) driven by a caller-supplied clock and by balances the
//! caller has observed; moving assets is left to the caller, who is told what
//! to move by the value an operation returns.
//!
//! All operations are transactional: on `Err` every record is left exactly as
//! it was.
//!
//! - [`math`] holds the fixed-point arithmetic, [`rewards`] and
//!   [`reflections`] the two engines, and [`settlement`] their use together.
//! - [`deposit`], [`withdraw`] and [`claim`] are what users do; [`pool`] is
//!   the life of a pool and [`admin`] what its admin may change.
//! - [`invariants`] and [`solvency`] state and prove what holds of a pool and
//!   all its stakes together: principal is conserved, accumulators never
//!   fall, and no more is credited than came in.
//! - [`assets`] works out how the native asset is moved between balances.
//! - [`lottery`] is a weekly lottery that shares nothing with the ledger.

pub mod address;
pub mod admin;
pub mod assets;
pub mod claim;
pub mod deposit;
pub mod errors;
pub mod events;
pub mod fees;
pub mod invariants;
pub mod lottery;
pub mod math;
pub mod pool;
pub mod reflections;
pub mod rewards;
pub mod settlement;
pub mod solvency;
pub mod state;
pub mod withdraw;
