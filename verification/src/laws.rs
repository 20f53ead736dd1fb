//! What holds of the operations taken together, stated over the same
//! functions that their contracts use.

use vstd::prelude::*;
use crate::error::ErrorCode;
use crate::escrow::{Donate, Refund, Withdraw};

verus! {

/// No operation lowers a campaign's running total of donations: a donation
/// that is accepted raises it by the amount given, and a withdrawal or a
/// refund, accepted or not, leaves it exactly as it was.
pub proof fn total_never_decreases(
    giving: Donate,
    taking: Withdraw,
    returning: Refund,
    amount: u64,
    now: i64,
)
    ensures
        giving.after(amount, now).campaign.amount_donated >= giving.campaign.amount_donated,
        giving.rejection(amount, now) is None ==> giving.after(amount, now).campaign.amount_donated
            == giving.campaign.amount_donated + amount,
        taking.after(amount).campaign.amount_donated == taking.campaign.amount_donated,
        returning.after(now).campaign.amount_donated == returning.campaign.amount_donated,
{
}

/// Besides the running total, no operation changes anything in a campaign's
/// record: administrator, texts, target and deadline stay as created.
pub proof fn terms_are_fixed(
    giving: Donate,
    taking: Withdraw,
    returning: Refund,
    amount: u64,
    now: i64,
)
    ensures
        giving.after(amount, now).campaign == (crate::campaign::Campaign {
            amount_donated: giving.after(amount, now).campaign.amount_donated,
            ..giving.campaign
        }),
        taking.after(amount).campaign == taking.campaign,
        returning.after(now).campaign == returning.campaign,
{
}

/// After an accepted refund, a second refund at the same or a later instant
/// finds nothing on record, as long as no donation came in between.
pub proof fn second_refund_finds_nothing(returning: Refund, now: i64, later: i64)
    requires
        returning.outcome(now) is Ok,
        now <= later,
    ensures
        returning.after(now).outcome(later) == Err::<u64, ErrorCode>(
            ErrorCode::NoContributionFound,
        ),
        returning.after(now).after(later) == returning.after(now),
{
}

/// No state of a campaign admits both a withdrawal and a refund: the one
/// needs the target met, the other needs it missed.
pub proof fn withdrawal_and_refund_exclude_each_other(
    taking: Withdraw,
    returning: Refund,
    amount: u64,
    now: i64,
)
    requires
        taking.campaign.amount_donated == returning.campaign.amount_donated,
        taking.campaign.target_amount == returning.campaign.target_amount,
    ensures
        !(taking.outcome(amount) is Ok && returning.outcome(now) is Ok),
{
}

/// Every operation moves funds between the pool and one party only, a
/// refund also from the closed record's storage to that party, and none
/// makes or loses any.
pub proof fn funds_are_conserved(
    giving: Donate,
    taking: Withdraw,
    returning: Refund,
    amount: u64,
    now: i64,
)
    ensures
        giving.after(amount, now).campaign_balance + giving.after(amount, now).user_balance
            == giving.campaign_balance + giving.user_balance,
        taking.after(amount).campaign_balance + taking.after(amount).admin_balance
            == taking.campaign_balance + taking.admin_balance,
        returning.after(now).campaign_balance + returning.after(now).user_balance
            + returning.after(now).record_reservation == returning.campaign_balance
            + returning.user_balance + returning.record_reservation,
{
}

} // verus!
