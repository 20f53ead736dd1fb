//! The typed failures of the ledger.

use vstd::prelude::*;

verus! {

/// Why an operation was rejected. A rejected operation changes nothing.
#[derive(Clone, Copy, Debug, PartialEq, Eq, Structural)]
pub enum ErrorCode {
    /// A donation arrived after the deadline.
    CampaignEnded,
    /// A refund was asked for while the campaign was still running.
    CampaignStillActive,
    /// A refund was asked for although the target has been met.
    TargetReachedNoRefund,
    /// A refund was asked for by someone with nothing on record.
    NoContributionFound,
    /// A withdrawal was asked for before the target was met.
    TargetNotReached,
    /// A withdrawal asked for more than the balance above the reserve.
    InsufficientFunds,
    /// A withdrawal was asked for by someone other than the administrator.
    InvalidAdmin,
    /// A campaign already lives at the creator's key for this name.
    AlreadyExists,
    /// The balances could not carry the movement of funds.
    TransferFailed,
    /// A donation or withdrawal of nothing.
    ZeroAmount,
    /// The duration does not put the deadline after the time of creation.
    InvalidDuration,
    /// The campaign's name is longer than a record can hold.
    NameTooLong,
    /// The campaign's description is longer than a record can hold.
    DescriptionTooLong,
    /// A running total would no longer fit its counter.
    Overflow,
}

impl ErrorCode {
    /// The text of the message that goes with each failure.
    pub open spec fn spec_message(self) -> Seq<char> {
        match self {
            ErrorCode::AlreadyExists => "Campaign already exists."@,
            ErrorCode::CampaignEnded => "Campaign ended."@,
            ErrorCode::CampaignStillActive => "Campaign still active."@,
            ErrorCode::TargetReachedNoRefund => "Target reached, refunds disabled."@,
            ErrorCode::TargetNotReached => "Target not reached."@,
            ErrorCode::NoContributionFound => "No contribution found."@,
            ErrorCode::InsufficientFunds => "Insufficient funds."@,
            ErrorCode::InvalidAdmin => "Invalid admin."@,
            ErrorCode::TransferFailed => "Transfer failed."@,
            ErrorCode::ZeroAmount => "Amount must be greater than zero."@,
            ErrorCode::InvalidDuration => "Duration must yield a future deadline."@,
            ErrorCode::NameTooLong => "Name too long."@,
            ErrorCode::DescriptionTooLong => "Description too long."@,
            ErrorCode::Overflow => "Arithmetic overflow."@,
        }
    }

    /// A short sentence for the person whose request was rejected.
    pub fn message(&self) -> (text: &'static str)
        ensures
            text@ == self.spec_message(),
    {
        match self {
            ErrorCode::AlreadyExists => "Campaign already exists.",
            ErrorCode::CampaignEnded => "Campaign ended.",
            ErrorCode::CampaignStillActive => "Campaign still active.",
            ErrorCode::TargetReachedNoRefund => "Target reached, refunds disabled.",
            ErrorCode::TargetNotReached => "Target not reached.",
            ErrorCode::NoContributionFound => "No contribution found.",
            ErrorCode::InsufficientFunds => "Insufficient funds.",
            ErrorCode::InvalidAdmin => "Invalid admin.",
            ErrorCode::TransferFailed => "Transfer failed.",
            ErrorCode::ZeroAmount => "Amount must be greater than zero.",
            ErrorCode::InvalidDuration => "Duration must yield a future deadline.",
            ErrorCode::NameTooLong => "Name too long.",
            ErrorCode::DescriptionTooLong => "Description too long.",
            ErrorCode::Overflow => "Arithmetic overflow.",
        }
    }
}

} // verus!
