//! The reserve guard and the movement of funds between two balances.

use vstd::prelude::*;
use crate::error::ErrorCode;

verus! {

/// What a pooled balance can give out: all that lies above the reserve that
/// the record store demands for keeping the record. It is negative while
/// the balance is short of the reserve.
pub open spec fn available(balance: u64, reserve_minimum: u64) -> int {
    balance - reserve_minimum
}

/// The balance above the reserve, or `None` while the balance is short of
/// the reserve.
pub fn available_balance(balance: u64, reserve_minimum: u64) -> (free: Option<u64>)
    ensures
        free is Some <==> available(balance, reserve_minimum) >= 0,
        free is Some ==> free->0 == available(balance, reserve_minimum),
{
    balance.checked_sub(reserve_minimum)
}

/// Whether `amount` can leave the balance without touching the reserve.
pub fn reserve_allows(balance: u64, reserve_minimum: u64, amount: u64) -> (allowed: bool)
    ensures
        allowed == (available(balance, reserve_minimum) >= amount),
{
    match available_balance(balance, reserve_minimum) {
        Some(free) => free >= amount,
        None => false,
    }
}

/// A movement of `amount` from one balance to another can be carried out:
/// the source holds as much, and the destination can take it.
pub open spec fn can_transfer(from: u64, to: u64, amount: u64) -> bool {
    from >= amount && to + amount <= u64::MAX
}

/// Moves `amount` from the balance `from` to the balance `to` and returns
/// the two new balances, source first. Nothing is created or lost. Fails
/// with `TransferFailed` exactly when the source holds less than the amount
/// or the destination could not hold the sum.
pub fn transfer(from: u64, to: u64, amount: u64) -> (r: Result<(u64, u64), ErrorCode>)
    ensures
        r is Ok <==> can_transfer(from, to, amount),
        r is Ok ==> r->Ok_0.0 == from - amount && r->Ok_0.1 == to + amount,
        r is Err ==> r->Err_0 == ErrorCode::TransferFailed,
{
    match (from.checked_sub(amount), to.checked_add(amount)) {
        (Some(source), Some(destination)) => Ok((source, destination)),
        _ => Err(ErrorCode::TransferFailed),
    }
}

} // verus!
