//! The escrow state machine: the four operations on a campaign, each on the
//! records and balances that the host lays before it.
//!
//! An operation either is carried out in full or is rejected with a typed
//! failure that leaves everything as it was.

use vstd::prelude::*;
use crate::campaign::{
    text_fits, text_len, Campaign, DonationEvent, Status, MAX_DESCRIPTION_LEN, MAX_NAME_LEN,
};
use crate::contribution::{
    record_donation, recorded_amount, settle, slot_after_donation, Contribution,
};
use crate::error::ErrorCode;
use crate::funds::{available, can_transfer, reserve_allows, transfer};
use crate::identity::Identity;

verus! {

/// What a donation works on.
#[derive(Clone, Debug, PartialEq, Eq)]
pub struct Donate {
    /// The address of the campaign.
    pub campaign_key: Identity,
    pub campaign: Campaign,
    /// The campaign's pooled balance, reserve included.
    pub campaign_balance: u64,
    /// The donor's slot in the record store; empty before a first donation.
    pub contributor_record: Option<Contribution>,
    /// The donor.
    pub user: Identity,
    /// The donor's own balance.
    pub user_balance: u64,
}

impl Donate {
    /// Why a donation of `amount` at the instant `now` is rejected, if it
    /// is. The first reason that applies is the one given.
    pub open spec fn rejection(self, amount: u64, now: i64) -> Option<ErrorCode> {
        if self.campaign.status_at(now) != Status::Active {
            Some(ErrorCode::CampaignEnded)
        } else if amount == 0 {
            Some(ErrorCode::ZeroAmount)
        } else if !can_transfer(self.user_balance, self.campaign_balance, amount) {
            Some(ErrorCode::TransferFailed)
        } else if self.campaign.amount_donated + amount > u64::MAX {
            Some(ErrorCode::Overflow)
        } else if recorded_amount(self.contributor_record) + amount > u64::MAX {
            Some(ErrorCode::Overflow)
        } else {
            None
        }
    }

    /// The records and balances after an accepted donation of `amount`.
    pub open spec fn applied(self, amount: u64) -> Donate {
        Donate {
            campaign: Campaign {
                amount_donated: (self.campaign.amount_donated + amount) as u64,
                ..self.campaign
            },
            campaign_balance: (self.campaign_balance + amount) as u64,
            contributor_record: slot_after_donation(self.contributor_record, self.user, amount),
            user_balance: (self.user_balance - amount) as u64,
            ..self
        }
    }

    /// The notice of an accepted donation of `amount`.
    pub open spec fn event(self, amount: u64) -> DonationEvent {
        DonationEvent { campaign: self.campaign_key, user: self.user, amount }
    }

    /// What a donation of `amount` at the instant `now` returns.
    pub open spec fn outcome(self, amount: u64, now: i64) -> Result<DonationEvent, ErrorCode> {
        match self.rejection(amount, now) {
            Some(e) => Err(e),
            None => Ok(self.event(amount)),
        }
    }

    /// What a donation of `amount` at the instant `now` leaves behind: a
    /// rejected one leaves everything as it was.
    pub open spec fn after(self, amount: u64, now: i64) -> Donate {
        if self.rejection(amount, now) is None {
            self.applied(amount)
        } else {
            self
        }
    }
}

/// Donates `amount` to the campaign at the instant `now`.
///
/// A donation is accepted up to and including the deadline. It moves the
/// amount from the donor's balance into the pool, adds it to the campaign's
/// running total and to the donor's stake, and yields the notice to send
/// out. After the deadline it fails with `CampaignEnded`, whatever else
/// holds; a donation of nothing fails with `ZeroAmount`; one that the
/// balances cannot carry with `TransferFailed`; one that a running total
/// cannot hold with `Overflow`.
pub fn donate(ctx: &mut Donate, amount: u64, now: i64) -> (r: Result<DonationEvent, ErrorCode>)
    ensures
        r == old(ctx).outcome(amount, now),
        *final(ctx) == old(ctx).after(amount, now),
        now > old(ctx).campaign.deadline ==> r == Err::<DonationEvent, ErrorCode>(
            ErrorCode::CampaignEnded,
        ),
        now <= old(ctx).campaign.deadline && 0 < amount <= old(ctx).user_balance && old(
            ctx,
        ).campaign_balance + amount <= u64::MAX && old(ctx).campaign.amount_donated + amount
            <= u64::MAX && recorded_amount(old(ctx).contributor_record) + amount <= u64::MAX
            ==> r is Ok,
        final(ctx).campaign.amount_donated >= old(ctx).campaign.amount_donated,
        final(ctx).campaign_balance + final(ctx).user_balance == old(ctx).campaign_balance + old(
            ctx,
        ).user_balance,
{
    match ctx.campaign.status(now) {
        Status::Active => {},
        _ => {
            return Err(ErrorCode::CampaignEnded);
        },
    }
    if amount == 0 {
        return Err(ErrorCode::ZeroAmount);
    }
    let (user_balance, campaign_balance) = match transfer(
        ctx.user_balance,
        ctx.campaign_balance,
        amount,
    ) {
        Ok(balances) => balances,
        Err(e) => {
            return Err(e);
        },
    };
    let amount_donated = match ctx.campaign.amount_donated.checked_add(amount) {
        Some(total) => total,
        None => {
            return Err(ErrorCode::Overflow);
        },
    };
    let mut contributor_record = ctx.contributor_record;
    match record_donation(&mut contributor_record, ctx.user, amount) {
        Ok(()) => {},
        Err(e) => {
            return Err(e);
        },
    }
    ctx.user_balance = user_balance;
    ctx.campaign_balance = campaign_balance;
    ctx.campaign.amount_donated = amount_donated;
    ctx.contributor_record = contributor_record;
    Ok(DonationEvent { campaign: ctx.campaign_key, user: ctx.user, amount })
}

/// What a withdrawal works on.
#[derive(Clone, Debug, PartialEq, Eq)]
pub struct Withdraw {
    pub campaign: Campaign,
    /// The campaign's pooled balance, reserve included.
    pub campaign_balance: u64,
    /// The least balance that the record store demands for keeping the
    /// campaign's record. It is never given out.
    pub reserve_minimum: u64,
    /// The party that asks for the withdrawal.
    pub admin: Identity,
    /// That party's own balance.
    pub admin_balance: u64,
}

impl Withdraw {
    /// Why a withdrawal of `amount` is rejected, if it is. The first reason
    /// that applies is the one given.
    pub open spec fn rejection(self, amount: u64) -> Option<ErrorCode> {
        if self.admin != self.campaign.admin {
            Some(ErrorCode::InvalidAdmin)
        } else if !self.campaign.target_met() {
            Some(ErrorCode::TargetNotReached)
        } else if amount == 0 {
            Some(ErrorCode::ZeroAmount)
        } else if available(self.campaign_balance, self.reserve_minimum) < amount {
            Some(ErrorCode::InsufficientFunds)
        } else if !can_transfer(self.campaign_balance, self.admin_balance, amount) {
            Some(ErrorCode::TransferFailed)
        } else {
            None
        }
    }

    /// The balances after an accepted withdrawal of `amount`. The campaign's
    /// record stays as it is.
    pub open spec fn applied(self, amount: u64) -> Withdraw {
        Withdraw {
            campaign_balance: (self.campaign_balance - amount) as u64,
            admin_balance: (self.admin_balance + amount) as u64,
            ..self
        }
    }

    /// What a withdrawal of `amount` returns.
    pub open spec fn outcome(self, amount: u64) -> Result<(), ErrorCode> {
        match self.rejection(amount) {
            Some(e) => Err(e),
            None => Ok(()),
        }
    }

    /// What a withdrawal of `amount` leaves behind: a rejected one leaves
    /// everything as it was.
    pub open spec fn after(self, amount: u64) -> Withdraw {
        if self.rejection(amount) is None {
            self.applied(amount)
        } else {
            self
        }
    }
}

/// Withdraws `amount` from the pool to the administrator.
///
/// Only the campaign's administrator may withdraw, and only once the
/// donations have reached the target; the deadline plays no part. Each
/// withdrawal may take any part of what lies above the reserve, so the
/// reserve stays in the pool. The running total of donations is not
/// touched. Anyone else is turned away with `InvalidAdmin`, whatever
/// the state of the funding; the administrator with `TargetNotReached`
/// before the target is met, with `ZeroAmount` for a withdrawal of nothing,
/// with `InsufficientFunds` for more than lies above the reserve, and with
/// `TransferFailed` where the administrator's balance could not hold the
/// sum.
pub fn withdraw(ctx: &mut Withdraw, amount: u64) -> (r: Result<(), ErrorCode>)
    ensures
        r == old(ctx).outcome(amount),
        *final(ctx) == old(ctx).after(amount),
        old(ctx).admin != old(ctx).campaign.admin ==> r == Err::<(), ErrorCode>(
            ErrorCode::InvalidAdmin,
        ),
        old(ctx).admin == old(ctx).campaign.admin && old(ctx).campaign.amount_donated < old(
            ctx,
        ).campaign.target_amount ==> r == Err::<(), ErrorCode>(ErrorCode::TargetNotReached),
        available(old(ctx).campaign_balance, old(ctx).reserve_minimum) < amount ==> r is Err,
        r is Ok ==> final(ctx).campaign_balance >= final(ctx).reserve_minimum,
        final(ctx).campaign.amount_donated == old(ctx).campaign.amount_donated,
        final(ctx).campaign_balance + final(ctx).admin_balance == old(ctx).campaign_balance + old(
            ctx,
        ).admin_balance,
{
    if ctx.admin != ctx.campaign.admin {
        return Err(ErrorCode::InvalidAdmin);
    }
    if !ctx.campaign.is_target_met() {
        return Err(ErrorCode::TargetNotReached);
    }
    if amount == 0 {
        return Err(ErrorCode::ZeroAmount);
    }
    if !reserve_allows(ctx.campaign_balance, ctx.reserve_minimum, amount) {
        return Err(ErrorCode::InsufficientFunds);
    }
    match transfer(ctx.campaign_balance, ctx.admin_balance, amount) {
        Ok((campaign_balance, admin_balance)) => {
            ctx.campaign_balance = campaign_balance;
            ctx.admin_balance = admin_balance;
            Ok(())
        },
        Err(e) => Err(e),
    }
}

/// What a refund works on.
#[derive(Clone, Debug, PartialEq, Eq)]
pub struct Refund {
    pub campaign: Campaign,
    /// The campaign's pooled balance, reserve included.
    pub campaign_balance: u64,
    /// The contributor's slot in the record store.
    pub contributor_record: Option<Contribution>,
    /// What the record store holds back for the storage of the
    /// contributor's record; the contributor gets it when the record is
    /// closed.
    pub record_reservation: u64,
    /// The contributor who asks for the refund.
    pub user: Identity,
    /// The contributor's own balance.
    pub user_balance: u64,
}

impl Refund {
    /// Why a refund at the instant `now` is rejected, if it is. The first
    /// reason that applies is the one given.
    pub open spec fn rejection(self, now: i64) -> Option<ErrorCode> {
        if self.campaign.status_at(now) == Status::Active {
            Some(ErrorCode::CampaignStillActive)
        } else if self.campaign.status_at(now) == Status::ExpiredMet {
            Some(ErrorCode::TargetReachedNoRefund)
        } else if recorded_amount(self.contributor_record) == 0 {
            Some(ErrorCode::NoContributionFound)
        } else if self.campaign_balance < recorded_amount(self.contributor_record) {
            Some(ErrorCode::TransferFailed)
        } else if self.user_balance + recorded_amount(self.contributor_record)
            + self.record_reservation > u64::MAX {
            Some(ErrorCode::TransferFailed)
        } else {
            None
        }
    }

    /// The records and balances after an accepted refund: the whole stake
    /// has gone from the pool to the contributor, the contributor's record
    /// is closed, and what was held back for its storage has gone to the
    /// contributor too. The campaign's record stays as it is.
    pub open spec fn applied(self) -> Refund {
        Refund {
            campaign_balance: (self.campaign_balance - recorded_amount(
                self.contributor_record,
            )) as u64,
            contributor_record: None,
            record_reservation: 0,
            user_balance: (self.user_balance + recorded_amount(self.contributor_record)
                + self.record_reservation) as u64,
            ..self
        }
    }

    /// What a refund at the instant `now` returns: the amount paid back,
    /// which is the whole stake on record.
    pub open spec fn outcome(self, now: i64) -> Result<u64, ErrorCode> {
        match self.rejection(now) {
            Some(e) => Err(e),
            None => Ok(recorded_amount(self.contributor_record) as u64),
        }
    }

    /// What a refund at the instant `now` leaves behind: a rejected one
    /// leaves everything as it was.
    pub open spec fn after(self, now: i64) -> Refund {
        if self.rejection(now) is None {
            self.applied()
        } else {
            self
        }
    }
}

/// Refunds the contributor's whole stake at the instant `now` and returns
/// the amount paid back.
///
/// A refund is open once the deadline has passed with the target unmet. It
/// pays back exactly what is on the contributor's record, never a part of
/// it, and closes the record, so that nothing is left to refund a second
/// time; what the record store held back for the record goes to the
/// contributor as well. The campaign's running total of donations is not
/// touched, and the pool's reserve does not stand in the way of a refund.
/// Up to and including the deadline a refund fails with
/// `CampaignStillActive`; after it, with `TargetReachedNoRefund` if the
/// target is met, with `NoContributionFound` if nothing is on record, and
/// with `TransferFailed` if the pool holds less than the stake or the
/// contributor's balance could not hold what is due.
pub fn refund(ctx: &mut Refund, now: i64) -> (r: Result<u64, ErrorCode>)
    ensures
        r == old(ctx).outcome(now),
        *final(ctx) == old(ctx).after(now),
        r is Ok ==> r->Ok_0 == recorded_amount(old(ctx).contributor_record),
        r is Ok ==> recorded_amount(final(ctx).contributor_record) == 0,
        r is Ok ==> final(ctx).campaign_balance == old(ctx).campaign_balance - r->Ok_0,
        r is Ok ==> final(ctx).user_balance == old(ctx).user_balance + r->Ok_0 + old(
            ctx,
        ).record_reservation,
        r is Ok ==> final(ctx).record_reservation == 0,
        final(ctx).campaign.amount_donated == old(ctx).campaign.amount_donated,
        final(ctx).campaign_balance + final(ctx).user_balance + final(ctx).record_reservation
            == old(ctx).campaign_balance + old(ctx).user_balance + old(ctx).record_reservation,
{
    match ctx.campaign.status(now) {
        Status::Active => {
            return Err(ErrorCode::CampaignStillActive);
        },
        Status::ExpiredMet => {
            return Err(ErrorCode::TargetReachedNoRefund);
        },
        Status::ExpiredUnmet => {},
    }
    let mut contributor_record = ctx.contributor_record;
    let paid = match settle(&mut contributor_record) {
        Some(stake) => stake,
        None => {
            return Err(ErrorCode::NoContributionFound);
        },
    };
    let (campaign_balance, with_stake) = match transfer(
        ctx.campaign_balance,
        ctx.user_balance,
        paid,
    ) {
        Ok(balances) => balances,
        Err(e) => {
            return Err(e);
        },
    };
    let (record_reservation, user_balance) = match transfer(
        ctx.record_reservation,
        with_stake,
        ctx.record_reservation,
    ) {
        Ok(balances) => balances,
        Err(e) => {
            return Err(e);
        },
    };
    ctx.campaign_balance = campaign_balance;
    ctx.user_balance = user_balance;
    ctx.record_reservation = record_reservation;
    ctx.contributor_record = contributor_record;
    Ok(paid)
}

/// What the creation of a campaign works on.
#[derive(Clone, Debug, PartialEq, Eq)]
pub struct Create {
    /// The slot at the key of the creator and the name: empty until a
    /// campaign is created there.
    pub campaign: Option<Campaign>,
    /// The creator.
    pub user: Identity,
    /// The address bump that the record store assigned to the slot.
    pub bump: u8,
}

impl Create {
    /// Why the creation of a campaign at the instant `now` is rejected, if
    /// it is. The first reason that applies is the one given.
    pub open spec fn rejection(
        self,
        name: Seq<char>,
        description: Seq<char>,
        duration: i64,
        now: i64,
    ) -> Option<ErrorCode> {
        if self.campaign is Some {
            Some(ErrorCode::AlreadyExists)
        } else if text_len(name) > MAX_NAME_LEN {
            Some(ErrorCode::NameTooLong)
        } else if text_len(description) > MAX_DESCRIPTION_LEN {
            Some(ErrorCode::DescriptionTooLong)
        } else if duration <= 0 || now + duration > i64::MAX {
            Some(ErrorCode::InvalidDuration)
        } else {
            None
        }
    }

    /// The campaign that an accepted creation puts into the slot: nothing
    /// donated yet, the creator as administrator, and the deadline
    /// `duration` after `now`.
    pub open spec fn created(
        self,
        name: String,
        description: String,
        target_amount: u64,
        duration: i64,
        now: i64,
    ) -> Campaign {
        Campaign {
            admin: self.user,
            name,
            description,
            amount_donated: 0,
            target_amount,
            deadline: (now + duration) as i64,
            bump: self.bump,
        }
    }

    /// What the creation of a campaign at the instant `now` returns.
    pub open spec fn outcome(
        self,
        name: Seq<char>,
        description: Seq<char>,
        duration: i64,
        now: i64,
    ) -> Result<(), ErrorCode> {
        match self.rejection(name, description, duration, now) {
            Some(e) => Err(e),
            None => Ok(()),
        }
    }

    /// What the creation of a campaign at the instant `now` leaves behind:
    /// the new campaign in the slot, or, if rejected, everything as it was.
    pub open spec fn after(
        self,
        name: String,
        description: String,
        target_amount: u64,
        duration: i64,
        now: i64,
    ) -> Create {
        if self.rejection(name@, description@, duration, now) is None {
            Create {
                campaign: Some(self.created(name, description, target_amount, duration, now)),
                ..self
            }
        } else {
            self
        }
    }
}

/// Creates a campaign at the instant `now`, with the caller as its
/// administrator, nothing donated and the deadline `duration` later.
///
/// Fails with `AlreadyExists` if the slot is taken, whatever else holds;
/// with `NameTooLong` or `DescriptionTooLong` if a text exceeds what a
/// record holds; with `InvalidDuration` unless the duration is positive and
/// the deadline is an instant that the clock can reach.
pub fn create(
    ctx: &mut Create,
    name: String,
    description: String,
    target_amount: u64,
    duration: i64,
    now: i64,
) -> (r: Result<(), ErrorCode>)
    ensures
        r == old(ctx).outcome(name@, description@, duration, now),
        *final(ctx) == old(ctx).after(name, description, target_amount, duration, now),
        old(ctx).campaign is Some ==> r == Err::<(), ErrorCode>(ErrorCode::AlreadyExists),
        r is Ok ==> final(ctx).campaign->0.wf() && final(ctx).campaign->0.deadline > now,
{
    if ctx.campaign.is_some() {
        return Err(ErrorCode::AlreadyExists);
    }
    if !text_fits(name.as_str(), MAX_NAME_LEN) {
        return Err(ErrorCode::NameTooLong);
    }
    if !text_fits(description.as_str(), MAX_DESCRIPTION_LEN) {
        return Err(ErrorCode::DescriptionTooLong);
    }
    if duration <= 0 {
        return Err(ErrorCode::InvalidDuration);
    }
    let deadline = match now.checked_add(duration) {
        Some(deadline) => deadline,
        None => {
            return Err(ErrorCode::InvalidDuration);
        },
    };
    ctx.campaign = Some(
        Campaign {
            admin: ctx.user,
            name,
            description,
            amount_donated: 0,
            target_amount,
            deadline,
            bump: ctx.bump,
        },
    );
    Ok(())
}

} // verus!
