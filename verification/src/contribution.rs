//! The contribution tracker: one cumulative stake per campaign and
//! contributor, opened by the first donation and closed by a refund.

use vstd::prelude::*;
use crate::error::ErrorCode;
use crate::identity::Identity;

verus! {

/// What one contributor has put into one campaign, all donations together.
#[derive(Clone, Copy, Debug, PartialEq, Eq)]
pub struct Contribution {
    /// The contributor.
    pub user: Identity,
    /// The sum of the contributor's donations since the record was opened.
    pub amount: u64,
}

/// The stake on record in a slot of the record store: that of the record,
/// and nothing where no record is open.
pub open spec fn recorded_amount(slot: Option<Contribution>) -> nat {
    match slot {
        Some(record) => record.amount as nat,
        None => 0,
    }
}

/// The slot after a donation of `amount` by `user`: the stake grows by the
/// amount, on a record that is opened if there was none, and the record
/// names the donor.
pub open spec fn slot_after_donation(
    slot: Option<Contribution>,
    user: Identity,
    amount: u64,
) -> Option<Contribution> {
    Some(Contribution { user, amount: (recorded_amount(slot) + amount) as u64 })
}

impl Contribution {
    /// A fresh record for `user`, with nothing on it yet.
    pub fn open(user: Identity) -> (record: Contribution)
        ensures
            record == (Contribution { user, amount: 0 }),
    {
        Contribution { user, amount: 0 }
    }

    /// Adds a donation of `amount` by `user` to the record. The stake only
    /// ever grows here, and the record names the donor afterwards. A stake
    /// that would not fit the counter is rejected with `Overflow`.
    pub fn record(&mut self, user: Identity, amount: u64) -> (r: Result<(), ErrorCode>)
        ensures
            r is Ok <==> old(self).amount + amount <= u64::MAX,
            r is Ok ==> *final(self) == (Contribution {
                user,
                amount: (old(self).amount + amount) as u64,
            }),
            r is Err ==> r == Err::<(), ErrorCode>(ErrorCode::Overflow),
            r is Err ==> *final(self) == *old(self),
    {
        match self.amount.checked_add(amount) {
            Some(total) => {
                self.amount = total;
                self.user = user;
                Ok(())
            },
            None => Err(ErrorCode::Overflow),
        }
    }
}

/// The stake on record in a slot.
pub fn recorded(slot: &Option<Contribution>) -> (amount: u64)
    ensures
        amount == recorded_amount(*slot),
{
    match slot {
        Some(record) => record.amount,
        None => 0,
    }
}

/// Books a donation of `amount` by `user` into a slot, opening the record
/// on the first donation. Fails with `Overflow`, leaving the slot as it
/// was, exactly when the stake would not fit its counter.
pub fn record_donation(
    slot: &mut Option<Contribution>,
    user: Identity,
    amount: u64,
) -> (r: Result<(), ErrorCode>)
    ensures
        r is Ok <==> recorded_amount(*old(slot)) + amount <= u64::MAX,
        r is Ok ==> *final(slot) == slot_after_donation(*old(slot), user, amount),
        r is Err ==> r == Err::<(), ErrorCode>(ErrorCode::Overflow),
        r is Err ==> *final(slot) == *old(slot),
{
    let mut record = match slot {
        Some(record) => *record,
        None => Contribution::open(user),
    };
    match record.record(user, amount) {
        Ok(()) => {
            *slot = Some(record);
            Ok(())
        },
        Err(e) => Err(e),
    }
}

/// Pays a slot out in full and closes it: hands back the stake that was on
/// record and leaves nothing behind. A slot holds something to pay exactly
/// when the result is `Some`.
pub fn settle(slot: &mut Option<Contribution>) -> (paid: Option<u64>)
    ensures
        paid is Some <==> recorded_amount(*old(slot)) > 0,
        paid is Some ==> paid == Some(recorded_amount(*old(slot)) as u64),
        paid is Some ==> *final(slot) == None::<Contribution>,
        paid is None ==> *final(slot) == *old(slot),
{
    let amount = recorded(slot);
    if amount > 0 {
        *slot = None;
        Some(amount)
    } else {
        None
    }
}

} // verus!
