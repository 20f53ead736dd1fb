//! The campaign record and the lifecycle state derived from it.

use vstd::prelude::*;
use crate::identity::Identity;

verus! {

/// The most bytes of UTF-8 that a campaign's name may take.
pub const MAX_NAME_LEN: usize = 32;

/// The most bytes of UTF-8 that a campaign's description may take.
pub const MAX_DESCRIPTION_LEN: usize = 100;

/// The length of a text as a record stores it: its bytes in UTF-8.
pub open spec fn text_len(text: Seq<char>) -> nat {
    vstd::utf8::encode_utf8(text).len()
}

/// Whether a text takes no more than `limit` bytes in a record.
pub fn text_fits(text: &str, limit: usize) -> (fits: bool)
    ensures
        fits == (text_len(text@) <= limit),
{
    text.as_bytes().len() <= limit
}

/// One fundraising campaign, kept once per creator and name.
///
/// Everything but `amount_donated` is fixed at creation. `amount_donated` is
/// the running total of all donations ever accepted: neither a withdrawal
/// nor a refund takes anything off it.
#[derive(Clone, Debug, PartialEq, Eq)]
pub struct Campaign {
    /// The creator, and the only party that may withdraw.
    pub admin: Identity,
    pub name: String,
    pub description: String,
    /// The running total of accepted donations.
    pub amount_donated: u64,
    /// The funding goal.
    pub target_amount: u64,
    /// The last instant at which a donation is accepted.
    pub deadline: i64,
    /// The address bump that the record store assigned; carried, never read.
    pub bump: u8,
}

/// Where a campaign stands at a given instant. The state is never stored:
/// it follows from the deadline and the two amounts.
#[derive(Clone, Copy, Debug, PartialEq, Eq, Structural)]
pub enum Status {
    /// The deadline has not passed: donations are accepted.
    Active,
    /// The deadline has passed short of the target: contributors may reclaim.
    ExpiredUnmet,
    /// The deadline has passed with the target met.
    ExpiredMet,
}

impl Campaign {
    /// The texts fit the space that a record reserves for them.
    pub open spec fn wf(&self) -> bool {
        &&& text_len(self.name@) <= MAX_NAME_LEN
        &&& text_len(self.description@) <= MAX_DESCRIPTION_LEN
    }

    /// The donations have reached the funding goal.
    pub open spec fn target_met(&self) -> bool {
        self.amount_donated >= self.target_amount
    }

    /// The lifecycle state at the instant `now`.
    pub open spec fn status_at(&self, now: i64) -> Status {
        if now <= self.deadline {
            Status::Active
        } else if self.target_met() {
            Status::ExpiredMet
        } else {
            Status::ExpiredUnmet
        }
    }

    /// Whether the donations have reached the funding goal. Reaching it
    /// exactly counts.
    pub fn is_target_met(&self) -> (met: bool)
        ensures
            met == self.target_met(),
    {
        self.amount_donated >= self.target_amount
    }

    /// The lifecycle state at the instant `now`. The deadline itself still
    /// belongs to the active period.
    pub fn status(&self, now: i64) -> (status: Status)
        ensures
            status == self.status_at(now),
    {
        if now <= self.deadline {
            Status::Active
        } else if self.is_target_met() {
            Status::ExpiredMet
        } else {
            Status::ExpiredUnmet
        }
    }
}

/// The notice that goes out after a donation has been accepted.
#[derive(Clone, Copy, Debug, PartialEq, Eq)]
pub struct DonationEvent {
    /// The address of the campaign that received the donation.
    pub campaign: Identity,
    /// The contributor.
    pub user: Identity,
    /// The amount of this one donation.
    pub amount: u64,
}

} // verus!
