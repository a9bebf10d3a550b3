//! Moving the native asset between two balances.
//!
//! Units of a fungible token are moved by the token's own program; the
//! ledger only says how many. The native asset is moved by setting the
//! balances of the two accounts anew, and what they are to be set to is
//! worked out here.

use crate::address::{Address, AssetKind};
use crate::errors::ErrorCode;
use vstd::prelude::*;

verus! {

/// How an amount is to be moved.
#[derive(Clone, Copy, Debug, PartialEq, Eq)]
pub enum Movement {
    /// By setting the balances of source and destination to these.
    Native { from_balance: u64, to_balance: u64 },
    /// By asking the token's program to move so many units.
    Token { amount: u64 },
}

/// Whether `amount` can be taken from one balance and added to another.
pub open spec fn can_move(from_balance: u64, to_balance: u64, amount: u64) -> bool {
    from_balance >= amount && to_balance + amount <= u64::MAX
}

/// How `amount` of the asset that `mint` names is to be moved from an account
/// holding `from_balance` of the native asset to one holding `to_balance`.
///
/// The native asset needs the source to hold the amount, else the balance is
/// insufficient, and the destination to have room for it, else that is an
/// overflow. A token is the token program's to move and to check.
pub open spec fn movement(mint: Address, from_balance: u64, to_balance: u64, amount: u64)
    -> Result<Movement, ErrorCode> {
    match AssetKind::of(mint) {
        AssetKind::Native => if from_balance < amount {
            Err(ErrorCode::InsufficientBalance)
        } else if to_balance + amount > u64::MAX {
            Err(ErrorCode::MathOverflow)
        } else {
            Ok(
                Movement::Native {
                    from_balance: (from_balance - amount) as u64,
                    to_balance: (to_balance + amount) as u64,
                },
            )
        },
        AssetKind::Fungible(_) => Ok(Movement::Token { amount }),
    }
}

/// Works out how `amount` of the asset that `mint` names is to be moved.
pub fn transfer_tokens(mint: &Address, from_balance: u64, to_balance: u64, amount: u64) -> (r:
    Result<Movement, ErrorCode>)
    ensures
        r == movement(*mint, from_balance, to_balance, amount),
{
    if AssetKind::of_mint(mint).is_native() {
        if from_balance < amount {
            return Err(ErrorCode::InsufficientBalance);
        }
        match to_balance.checked_add(amount) {
            Some(to_balance) => Ok(
                Movement::Native { from_balance: from_balance - amount, to_balance },
            ),
            None => Err(ErrorCode::MathOverflow),
        }
    } else {
        Ok(Movement::Token { amount })
    }
}

/// Takes `amount` of the native asset from one balance and adds it to
/// another; the answer is the two balances afterwards. Nothing is lost and
/// nothing made.
pub fn move_lamports(from_balance: u64, to_balance: u64, amount: u64) -> (r: (u64, u64))
    requires
        can_move(from_balance, to_balance, amount),
    ensures
        r.0 == from_balance - amount,
        r.1 == to_balance + amount,
        r.0 + r.1 == from_balance + to_balance,
{
    (from_balance - amount, to_balance + amount)
}

/// Tests whether `amount` can be taken from one balance and added to
/// another.
pub fn is_movable(from_balance: u64, to_balance: u64, amount: u64) -> (r: bool)
    ensures
        r == can_move(from_balance, to_balance, amount),
{
    from_balance >= amount && to_balance.checked_add(amount).is_some()
}

} // verus!
