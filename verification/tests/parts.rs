//! The smaller parts: identities, lifecycle states, the contribution
//! tracker, the reserve guard and the failure messages.

use crowdfunding::campaign::{text_fits, MAX_DESCRIPTION_LEN, MAX_NAME_LEN};
use crowdfunding::contribution::{record_donation, recorded, settle};
use crowdfunding::funds::{available_balance, reserve_allows, transfer};
use crowdfunding::{Campaign, Contribution, ErrorCode, Identity, Status};

fn sample(amount_donated: u64, target_amount: u64, deadline: i64) -> Campaign {
    Campaign {
        admin: Identity::new([0; 32]),
        name: String::new(),
        description: String::new(),
        amount_donated,
        target_amount,
        deadline,
        bump: 0,
    }
}

#[test]
fn identities_compare_by_all_their_bytes() {
    let a = Identity::new([7; 32]);
    let b = Identity::new([7; 32]);
    assert_eq!(a, b);
    assert_eq!(a.to_bytes(), [7u8; 32]);
    for i in 0..32 {
        let mut bytes = [7u8; 32];
        bytes[i] = 8;
        assert_ne!(a, Identity::new(bytes));
    }
}

#[test]
fn status_follows_deadline_and_amounts() {
    assert_eq!(sample(0, 10, 100).status(99), Status::Active);
    assert_eq!(sample(0, 10, 100).status(100), Status::Active);
    assert_eq!(sample(50, 10, 100).status(100), Status::Active);
    assert_eq!(sample(9, 10, 100).status(101), Status::ExpiredUnmet);
    assert_eq!(sample(10, 10, 100).status(101), Status::ExpiredMet);
    assert_eq!(sample(11, 10, 100).status(i64::MAX), Status::ExpiredMet);
    assert_eq!(sample(0, 10, i64::MAX).status(i64::MAX), Status::Active);
    assert_eq!(sample(0, 10, i64::MIN).status(i64::MIN), Status::Active);
}

#[test]
fn target_is_met_from_the_exact_amount_on() {
    assert!(!sample(9, 10, 0).is_target_met());
    assert!(sample(10, 10, 0).is_target_met());
    assert!(sample(11, 10, 0).is_target_met());
    assert!(sample(0, 0, 0).is_target_met());
}

#[test]
fn text_is_measured_in_bytes() {
    assert!(text_fits("", 0));
    assert!(text_fits("abc", 3));
    assert!(!text_fits("abc", 2));
    assert!(text_fits("\u{e9}", 2));
    assert!(!text_fits("\u{e9}", 1));
    assert_eq!(MAX_NAME_LEN, 32);
    assert_eq!(MAX_DESCRIPTION_LEN, 100);
}

#[test]
fn a_record_accumulates_and_names_the_last_donor() {
    let first = Identity::new([1; 32]);
    let second = Identity::new([2; 32]);
    let mut record = Contribution::open(first);
    assert_eq!(record, Contribution { user: first, amount: 0 });
    assert_eq!(record.record(first, 40), Ok(()));
    assert_eq!(record.record(second, 2), Ok(()));
    assert_eq!(record, Contribution { user: second, amount: 42 });
}

#[test]
fn a_record_that_would_overflow_stays_as_it_is() {
    let user = Identity::new([1; 32]);
    let mut record = Contribution { user, amount: u64::MAX - 1 };
    assert_eq!(record.record(Identity::new([2; 32]), 2), Err(ErrorCode::Overflow));
    assert_eq!(record, Contribution { user, amount: u64::MAX - 1 });
    assert_eq!(record.record(user, 1), Ok(()));
    assert_eq!(record.amount, u64::MAX);
}

#[test]
fn a_slot_opens_on_the_first_donation() {
    let user = Identity::new([1; 32]);
    let mut slot = None;
    assert_eq!(recorded(&slot), 0);
    assert_eq!(record_donation(&mut slot, user, 5), Ok(()));
    assert_eq!(slot, Some(Contribution { user, amount: 5 }));
    assert_eq!(record_donation(&mut slot, user, 6), Ok(()));
    assert_eq!(recorded(&slot), 11);
    assert_eq!(record_donation(&mut slot, user, u64::MAX), Err(ErrorCode::Overflow));
    assert_eq!(recorded(&slot), 11);
}

#[test]
fn settling_pays_once() {
    let user = Identity::new([1; 32]);
    let mut slot = Some(Contribution { user, amount: 11 });
    assert_eq!(settle(&mut slot), Some(11));
    assert_eq!(slot, None);
    assert_eq!(settle(&mut slot), None);
    let mut empty = Some(Contribution { user, amount: 0 });
    assert_eq!(settle(&mut empty), None);
    assert_eq!(empty, Some(Contribution { user, amount: 0 }));
}

#[test]
fn available_is_balance_less_reserve() {
    assert_eq!(available_balance(1_000, 300), Some(700));
    assert_eq!(available_balance(300, 300), Some(0));
    assert_eq!(available_balance(299, 300), None);
    assert_eq!(available_balance(u64::MAX, 0), Some(u64::MAX));
}

#[test]
fn the_reserve_guard_allows_up_to_what_is_available() {
    assert!(reserve_allows(1_000, 300, 700));
    assert!(!reserve_allows(1_000, 300, 701));
    assert!(reserve_allows(300, 300, 0));
    assert!(!reserve_allows(299, 300, 0));
    assert!(!reserve_allows(0, u64::MAX, 1));
}

#[test]
fn transfer_moves_exactly_the_amount() {
    assert_eq!(transfer(10, 5, 4), Ok((6, 9)));
    assert_eq!(transfer(10, 5, 10), Ok((0, 15)));
    assert_eq!(transfer(10, 5, 0), Ok((10, 5)));
    assert_eq!(transfer(10, 5, 11), Err(ErrorCode::TransferFailed));
    assert_eq!(transfer(10, u64::MAX - 3, 4), Err(ErrorCode::TransferFailed));
    assert_eq!(transfer(10, u64::MAX - 4, 4), Ok((6, u64::MAX)));
}

#[test]
fn every_failure_has_its_message() {
    assert_eq!(ErrorCode::CampaignEnded.message(), "Campaign ended.");
    assert_eq!(ErrorCode::CampaignStillActive.message(), "Campaign still active.");
    assert_eq!(ErrorCode::TargetReachedNoRefund.message(), "Target reached, refunds disabled.");
    assert_eq!(ErrorCode::NoContributionFound.message(), "No contribution found.");
    assert_eq!(ErrorCode::TargetNotReached.message(), "Target not reached.");
    assert_eq!(ErrorCode::InsufficientFunds.message(), "Insufficient funds.");
    assert_eq!(ErrorCode::InvalidAdmin.message(), "Invalid admin.");
    assert_eq!(ErrorCode::AlreadyExists.message(), "Campaign already exists.");
    assert_eq!(ErrorCode::TransferFailed.message(), "Transfer failed.");
    assert_eq!(ErrorCode::ZeroAmount.message(), "Amount must be greater than zero.");
    assert_eq!(ErrorCode::InvalidDuration.message(), "Duration must yield a future deadline.");
    assert_eq!(ErrorCode::NameTooLong.message(), "Name too long.");
    assert_eq!(ErrorCode::DescriptionTooLong.message(), "Description too long.");
    assert_eq!(ErrorCode::Overflow.message(), "Arithmetic overflow.");
}
