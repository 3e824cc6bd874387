use vstd::prelude::*;

use crate::errors::ProofError;
use crate::identity::Identity;

verus! {

/// A principal's holding of the native value unit, as the core sees it: the
/// ledger itself is a collaborator, and the workflow only moves a fixed fee
/// between two such holdings.
#[derive(Clone, Copy, PartialEq, Eq, Structural, Debug)]
pub struct Account {
    /// The principal the balance belongs to.
    pub id: Identity,
    /// Current balance, in the native value unit.
    pub balance: u64,
}

/// Atomically moves `amount` from `from` to `to`.
///
/// Fails with `InsufficientFunds`, moving nothing, when `from` cannot cover
/// the amount; on success exactly `amount` leaves `from` and arrives at `to`,
/// and neither account changes hands.
pub fn transfer(from: &mut Account, to: &mut Account, amount: u64) -> (r: Result<(), ProofError>)
    requires
        old(to).balance + amount <= u64::MAX,
    ensures
        old(from).balance < amount ==> r == Err::<(), ProofError>(ProofError::InsufficientFunds)
            && *final(from) == *old(from) && *final(to) == *old(to),
        old(from).balance >= amount ==> r == Ok::<(), ProofError>(())
            && *final(from) == (Account { id: old(from).id, balance: (old(from).balance - amount) as u64 })
            && *final(to) == (Account { id: old(to).id, balance: (old(to).balance + amount) as u64 }),
{
    if from.balance < amount {
        return Err(ProofError::InsufficientFunds);
    }
    from.balance = from.balance - amount;
    to.balance = to.balance + amount;
    Ok(())
}

} // verus!
